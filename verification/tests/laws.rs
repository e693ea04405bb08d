//! Concrete instances of what holds across several operations.
use textgres::app::explorer::ExplorerNode;
use textgres::app::forms::{edit_single_line, ConnectionForm};
use textgres::app::row_detail::RowDetail;
use textgres::app::workspace::{Focus, Overlay, SessionAction};
use textgres::app::{App, Effect, NodeKey};
use textgres::db::connect::{
    activity_query, attributes_query, backend_pid_query, columns_query, connect_settings,
    relation_query, table_oid_query, TunnelManager, TunnelSettings,
};
use textgres::db::paging::{Cursor, CursorIds, PageRef};
use textgres::db::query::{supervise, StatementOutcome};
use textgres::db::query_edits::{resolve, validate_projection, Field};
use textgres::db::sessions::{
    Operation, Route, RunAction, Session, SessionManager, SessionState, TransactionState,
};
use textgres::db::{
    format_error, quote_identifier, QueryResult, Request, ResultColumn, TableRef,
    TableResultSource,
};
use textgres::editor::{sql_editor, TextEditor};
use textgres::highlight::{push_cells, style_line, style_rows, StyledRange};
use textgres::keys::{KeyCode, KeyEvent, KeyModifiers};
use textgres::storage::{position_of, script_names, ConnectionProfile, SshConfig, Storage};
use textgres::text::{decimal_text, is_before, join, lines_of, parse_port, trim};
use textgres::theme::{theme, TextStyle};
use textgres::ui::{bounded_width, error_height, fit_width, result_cell, results_layout};

const NONE: KeyModifiers = KeyModifiers { control: false, alt: false, shift: false, other: false };

fn key(code: KeyCode) -> KeyEvent {
    KeyEvent::new(code, NONE)
}

fn some(text: &str) -> Option<String> {
    Some(text.to_owned())
}

fn profile() -> ConnectionProfile {
    ConnectionProfile {
        id: "local".into(),
        name: "Local".into(),
        host: "db".into(),
        port: 5432,
        database: "postgres".into(),
        user: "me".into(),
        password: None,
        ssh: None,
        require_tls: false,
    }
}

fn table(kind: &str) -> TableRef {
    TableRef {
        profile_id: "local".into(),
        database: "postgres".into(),
        schema: "public".into(),
        name: "items".into(),
        kind: kind.into(),
    }
}

fn column(name: &str, primary_key: bool) -> ResultColumn {
    ResultColumn {
        name: name.into(),
        data_type: "text".into(),
        editable: true,
        insertable: true,
        primary_key,
    }
}

fn source() -> TableResultSource {
    TableResultSource {
        table: table("table"),
        columns: vec![column("id", true), column("name", false)],
        query: None,
    }
}

fn app() -> App {
    let mut app = App::new(vec![profile()], vec![], "me".into());
    app.workspace.result = QueryResult {
        columns: vec!["id".into(), "name".into()],
        rows: vec![vec![some("1"), None], vec![some("2"), some("NULL")]],
        source: Some(source()),
        ..Default::default()
    };
    app
}

fn databases() -> Request {
    Request::Databases { profile: profile(), password: None }
}

#[test]
fn quoted_identifiers_stay_apart() {
    let names = ["", "\"", "\"\"", "a\"b", "a\"\"b", "a\".\"b", "a"];
    for a in names {
        for b in names {
            assert_eq!(quote_identifier(a) == quote_identifier(b), a == b);
        }
    }
    assert_eq!(table("table").qualified_name(), "\"public\".\"items\"");
}

#[test]
fn texts_have_one_order() {
    for (a, b) in [("", "a"), ("A", "a"), ("a", "ab"), ("b", "å"), ("z", "表")] {
        assert!(is_before(a, b));
        assert!(!is_before(b, a));
        assert!(!is_before(a, a));
        assert_eq!(is_before(a, b), a < b);
    }
    let keys = ["a", "b", "b", "d"].map(String::from).to_vec();
    assert_eq!(position_of(&keys, ""), 0);
    assert_eq!(position_of(&keys, "b"), 3);
    assert_eq!(position_of(&keys, "e"), 4);
}

#[test]
fn lines_and_numbers_round_trip() {
    for text in ["", "a", "a\n", "\n\n", "a\r\nb", "å\n表"] {
        assert_eq!(join(&lines_of(text), "\n"), text);
        assert_eq!(join(&sql_editor(text).lines(), "\n"), text);
    }
    for port in [0u16, 1, 9, 10, 5432, 65535] {
        assert_eq!(parse_port(&decimal_text(u64::from(port))), Some(port));
    }
}

#[test]
fn saved_scripts_are_listed_under_their_name() {
    let path = Storage::new("/data".into()).script_path("Report-1").unwrap();
    let file = path.rsplit('/').next().unwrap().to_owned();
    assert_eq!(script_names(&vec![file]), ["Report-1"]);
}

#[test]
fn backspace_takes_a_typed_character_back() {
    let mut editor = TextEditor::of_value(Some("a\nåb"));
    editor.input(key(KeyCode::Left));
    assert!(editor.input(key(KeyCode::Char('x'))));
    assert_eq!(editor.lines(), ["a", "åxb"]);
    assert!(editor.input(key(KeyCode::Backspace)));
    assert_eq!(editor.lines(), ["a", "åb"]);
    let mut line = "åb".to_owned();
    let mut cursor = 1;
    edit_single_line(&mut line, &mut cursor, key(KeyCode::Char('x')));
    assert_eq!((line.as_str(), cursor), ("åxb", 2));
    edit_single_line(&mut line, &mut cursor, key(KeyCode::Backspace));
    assert_eq!((line.as_str(), cursor), ("åb", 1));
}

#[test]
fn scrolling_and_movement_keep_the_text() {
    let mut editor = TextEditor::new(vec!["a b".into(), "c".into()]);
    for code in [
        KeyCode::Up, KeyCode::Down, KeyCode::Left, KeyCode::Right, KeyCode::Home, KeyCode::End,
        KeyCode::PageUp, KeyCode::PageDown, KeyCode::Esc, KeyCode::Insert, KeyCode::F(1),
        KeyCode::Other,
    ] {
        for control in [false, true] {
            let modifiers = KeyModifiers { control, ..NONE };
            assert!(!editor.input(KeyEvent::new(code, modifiers)));
        }
    }
    assert_eq!(editor.lines(), ["a b", "c"]);
}

#[test]
fn untouched_fields_keep_their_text() {
    let app = app();
    let mut form = RowDetail::new(&app.workspace.result, 1).unwrap();
    form.select(1);
    form.begin_edit();
    form.finish_edit();
    assert_eq!(form.selected_value(), Some("NULL"));
    let mut form = RowDetail::new(&app.workspace.result, 0).unwrap();
    form.select(1);
    form.begin_edit();
    form.finish_edit();
    assert_eq!(form.selected_value(), Some(""));
}

#[test]
fn null_differs_from_the_text_that_reads_the_same() {
    let app = app();
    let null = result_cell(&app.workspace, 0, 1);
    let text = result_cell(&app.workspace, 1, 1);
    assert_eq!(null.text, text.text);
    assert_ne!(null.style, text.style);
}

#[test]
fn operations_are_numbered_apart() {
    let mut app = app();
    app.next_operation_id = u64::MAX;
    let first = app.start_database_task(databases());
    let second = app.start_database_task(databases());
    assert_eq!(first.operation_id(), u64::MAX);
    assert_eq!(second.operation_id(), 0);
}

#[test]
fn dispatching_keeps_staged_rows() {
    let mut app = app();
    let mut form = RowDetail::new(&app.workspace.result, 0).unwrap();
    form.values[1] = some("x");
    app.stage_row(&form).unwrap();
    let rows = app.workspace.result.rows.clone();
    app.dispatch("Connecting".into(), databases());
    app.dispatch("Connecting again".into(), databases());
    assert_eq!(app.take_effects().len(), 1);
    assert!(app.take_effects().is_empty());
    assert_eq!(app.workspace.result.rows, rows);
    assert_eq!(app.workspace.edits.count(&app.workspace.result), 1);
}

#[test]
fn collapsed_profiles_show_one_row() {
    let mut app = app();
    app.databases.insert("local".into(), vec!["postgres".into(), "second".into()]);
    assert_eq!(app.explorer_rows().len(), 1);
    app.expanded.insert(NodeKey::Connection("local".into()));
    assert_eq!(app.explorer_rows().len(), 3);
    app.settings.show_all_databases = false;
    let rows = app.explorer_rows();
    assert_eq!(rows.len(), 2);
    assert_eq!(
        rows[1].node,
        ExplorerNode::Database { profile_id: "local".into(), database: "postgres".into() }
    );
    app.explorer_selected = 9;
    assert!(app.selected_explorer_row().is_none());
    app.clamp_selection();
    assert_eq!(app.selected_explorer_row().unwrap(), rows[1]);
    app.collapse_selected();
    assert_eq!(app.explorer_rows().len(), 2);
    app.explorer_selected = 0;
    app.collapse_selected();
    assert_eq!(app.explorer_rows().len(), 1);
    assert!(app.take_effects().is_empty());
}

#[test]
fn dialogs_do_not_type_into_the_editor() {
    let mut app = app();
    app.workspace.focus = Focus::Sql;
    for overlay in [
        Overlay::SaveScript { name: String::new(), cursor: 0 },
        Overlay::ConfirmSession(SessionAction::Disconnect),
        Overlay::ConfirmRefresh,
    ] {
        app.workspace.overlay = Some(overlay);
        app.handle_key(key(KeyCode::Char('x')), &vec![], 0);
        assert!(app.workspace.overlay.is_some());
        app.handle_key(key(KeyCode::Esc), &vec![], 0);
        assert!(app.workspace.overlay.is_none());
    }
    assert_eq!(app.sql.lines(), [""]);
    app.handle_key(key(KeyCode::Char('x')), &vec![], 0);
    assert_eq!(app.sql.lines(), ["x"]);
}

#[test]
fn resolved_sources_pass_the_check_before_a_save() {
    let catalog = source().columns;
    let field = |name: &str, id| Field { name: name.into(), table_oid: Some(42), column_id: Some(id) };
    let fields = vec![field("label", 2), field("id", 1)];
    let source = resolve("SELECT", 7, 42, &table("table"), &fields, &catalog, &vec![1, 2]).unwrap();
    let query = source.query.as_ref().unwrap();
    assert_eq!(query.mapping, vec![Some(1), Some(0)]);
    assert_eq!(validate_projection(&source.columns, query, &catalog, &vec![1, 2]), None);
}

#[test]
fn disconnecting_leaves_nothing_behind() {
    let mut session = Session::new(profile());
    session.connected = true;
    session.state = SessionState::Connected(TransactionState::Paging);
    session.cursor = Some(Cursor::new(1, "local", "postgres", false, true));
    session.edit_source = Some(source());
    let request = Request::Disconnect { profile: profile(), database: "postgres".into() };
    let (run, action) =
        Operation::new(session, request, "postgres".into(), false, 1).begin(false, false);
    assert!(matches!(
        action,
        RunAction::Done { outcome: Ok(_), state: SessionState::Disconnected }
    ));
    assert!(!run.session.connected);
    assert!(run.session.cursor.is_none());
    assert!(run.session.edit_source.is_none());
}

#[test]
fn table_requests_spare_sql_sessions() {
    let mut manager = SessionManager::new();
    let query = Request::Query {
        profile: profile(),
        database: "postgres".into(),
        sql: "SELECT 1".into(),
    };
    assert!(matches!(manager.route(&query), Route::Session { first: true, .. }));
    manager.release("local", "postgres", Session::new(profile()));
    let before = manager.states(&vec![]);
    let save = Request::SaveChanges {
        profile: profile(),
        password: None,
        source: source(),
        changes: vec![],
    };
    assert!(matches!(manager.route(&save), Route::SaveTable));
    let tables = Request::Tables {
        profile: profile(),
        password: None,
        database: "postgres".into(),
        schema: "public".into(),
    };
    assert!(matches!(manager.route(&tables), Route::Metadata));
    let page = PageRef { id: 1, profile_id: "local".into(), database: "postgres".into(), preview: true };
    assert!(matches!(manager.route(&Request::FetchPage { page }), Route::PreviewPage));
    assert_eq!(manager.states(&vec![]), before);
}

#[test]
fn lost_connections_say_that_the_outcome_is_unknown() {
    for outcome in [
        StatementOutcome::Disconnected("reset".into()),
        StatementOutcome::Unconfirmed(None),
    ] {
        let (error, broken) = supervise(outcome, true);
        assert!(broken);
        assert!(format_error(&error.unwrap()).contains("write outcome is unknown"));
    }
}

#[test]
fn tunnels_belong_to_their_settings() {
    let settings = |host: &str| TunnelSettings {
        database_host: host.into(),
        database_port: 5432,
        ssh: SshConfig { host: "gate".into(), port: 22, user: "me".into(), identity_file: None },
    };
    let mut manager = TunnelManager::new();
    manager.opened("local", settings("a"), 4000);
    assert_eq!(manager.endpoint("other", &settings("a"), true), None);
    assert_eq!(manager.endpoint("local", &settings("a"), true), Some(4000));
    assert_eq!(manager.endpoint("local", &settings("b"), true), None);
    let chosen = connect_settings(&profile(), &None, &some("x"), "postgres", None);
    assert_eq!(chosen.password, some("x"));
}

#[test]
fn closing_a_connection_reaches_each_database() {
    let mut app = app();
    for name in ["a", "b", "c"] {
        app.switch_workspace(("local".into(), name.into()));
        if name != "b" {
            app.workspace.session_state = SessionState::Connected(TransactionState::Idle);
        }
    }
    app.disconnect_selected(false, None, &vec![]);
    let closed: Vec<String> = app
        .take_effects()
        .into_iter()
        .map(|effect| match effect {
            Effect::Spawn { request: Request::Disconnect { database, .. }, .. } => database,
            _ => panic!("only disconnects are handed out"),
        })
        .collect();
    assert_eq!(closed, ["a", "c"]);
    assert_eq!(app.workspace.status, "Disconnecting SQL session");
}

#[test]
fn collapsing_removes_the_rows_below_a_node() {
    let mut app = app();
    let mut other = profile();
    other.id = "other".into();
    app.profiles.push(other);
    for id in ["local", "other"] {
        app.expanded.insert(NodeKey::Connection(id.into()));
        app.databases.insert(id.into(), vec!["a".into(), "b".into()]);
        app.expanded.insert(NodeKey::Database(id.into(), "a".into()));
        app.schemas.insert((id.into(), "a".into()), vec!["public".into(), "x".into()]);
        app.expanded.insert(NodeKey::Schema(id.into(), "a".into(), "public".into()));
        app.tables.insert((id.into(), "a".into(), "public".into()), vec![table("table")]);
    }
    let depths = |app: &App| -> Vec<usize> { app.explorer_rows().iter().map(|row| row.depth).collect() };
    assert_eq!(depths(&app), [0, 1, 2, 3, 2, 1, 0, 1, 2, 3, 2, 1]);
    let before = app.explorer_rows();
    app.explorer_selected = 1;
    app.collapse_selected();
    assert_eq!(depths(&app), [0, 1, 1, 0, 1, 2, 3, 2, 1]);
    let mut kept = before.clone();
    kept.drain(2..5);
    assert_eq!(app.explorer_rows(), kept);
    app.explorer_selected = 3;
    app.collapse_selected();
    assert_eq!(depths(&app), [0, 1, 1, 0]);
}

#[test]
fn the_focus_goes_round_the_form() {
    let start = ConnectionForm::new("me");
    for change in -12..=12isize {
        for field in 0..12isize {
            let mut form = ConnectionForm::new("me");
            form.move_field(field);
            assert_eq!(form.field, field as usize);
            form.move_field(change);
            assert_eq!(form.field, (field + change).rem_euclid(12) as usize);
            let length = form.value(form.selected_field()).map_or(0, |text| text.chars().count());
            assert_eq!(form.cursor, length);
            assert_eq!(form.values, start.values);
            form.move_field(-change);
            assert_eq!(form.field, field as usize);
        }
    }
    let mut form = ConnectionForm::new("me");
    form.move_field(isize::MIN);
    assert_eq!(form.field, isize::MIN.rem_euclid(12) as usize);
    let mut form = ConnectionForm::new("me");
    for _ in 0..12 {
        form.press(key(KeyCode::Tab));
    }
    assert_eq!(form.field, 0);
    form.press(key(KeyCode::Tab));
    form.press(key(KeyCode::BackTab));
    assert_eq!(form.field, 0);
}

#[test]
fn cursors_are_numbered_apart() {
    let mut ids = CursorIds::new();
    let mut cursor = || Cursor::new(ids.next(), "local", "postgres", true, true);
    let (first, second) = (cursor(), cursor());
    assert_eq!((first.page.id, second.page.id), (1, 2));
    assert_ne!(first.page, second.page);
    assert_ne!(first.name(), second.name());
}

#[test]
fn white_space_is_that_of_unicode() {
    for code in 0..=0x10ffffu32 {
        if let Some(c) = char::from_u32(code) {
            let white = matches!(
                code,
                9..=13 | 0x20 | 0x85 | 0xa0 | 0x1680 | 0x2000..=0x200a | 0x2028 | 0x2029 | 0x202f
                    | 0x205f | 0x3000
            );
            assert_eq!(c.is_whitespace(), white);
        }
    }
    assert_eq!(trim("\u{3000}\u{85}x\u{1680}\u{2029}"), "x");
    assert_eq!(trim("\u{200b}x\u{180e}"), "\u{200b}x\u{180e}");
}

#[test]
fn shown_lines_are_styled_where_they_stand() {
    let keyword = TextStyle::colored(theme().accent);
    let lines: Vec<String> = ["åb", "FROM x", "WHERE", "y"].map(String::from).to_vec();
    let ranges = vec![
        StyledRange { start: 0, end: 4, style: TextStyle::plain() },
        StyledRange { start: 4, end: 8, style: keyword },
    ];
    let rows = style_rows(&lines, &ranges, (1, 0), 3, 20, 2);
    assert_eq!(rows.len(), 2);
    assert_eq!(rows[0], style_line("FROM x", 4, &ranges, 0, 3, 20));
    assert_eq!(rows[0][0], (3, keyword));
    assert_eq!(rows[0][5], (8, TextStyle::plain()));
    assert_eq!(rows[1], style_line("WHERE", 11, &ranges, 0, 3, 20));
    assert_eq!(style_rows(&lines, &ranges, (3, 0), 3, 20, 9).len(), 1);
    assert!(style_rows(&lines, &ranges, (4, 0), 3, 20, 9).is_empty());
    assert!(style_rows(&lines, &ranges, (0, 0), 3, 20, 0).is_empty());
}

#[test]
fn results_fill_their_pane() {
    let mut app = app();
    let layout = results_layout(&app.workspace, 30, 10);
    assert_eq!(layout.number_width, 3);
    assert_eq!(layout.columns, vec![(0, 8), (1, 8)]);
    assert_eq!(layout.first_row, 0);
    assert_eq!(results_layout(&app.workspace, 24, 10).columns, vec![(0, 8)]);
    assert_eq!(results_layout(&app.workspace, 6, 10).columns, vec![(0, 1)]);
    app.workspace.result_column = 9;
    app.workspace.result_row = 1;
    let layout = results_layout(&app.workspace, 30, 5);
    assert_eq!(layout.columns, vec![(1, 8)]);
    assert_eq!(layout.first_row, 1);
    assert_eq!(results_layout(&app.workspace, 30, 3).first_row, 0);
}

#[test]
fn catalog_queries_take_their_parameters() {
    assert!(columns_query().contains("n.nspname = $1 AND c.relname = $2"));
    assert!(columns_query().ends_with("NOT a.attisdropped ORDER BY a.attnum"));
    assert!(attributes_query().starts_with("SELECT attnum FROM pg_catalog.pg_attribute"));
    assert!(relation_query().ends_with("WHERE c.oid = $1"));
    assert_eq!(table_oid_query(), "SELECT $1::text::regclass::oid");
    assert_eq!(backend_pid_query(), "SELECT pg_backend_pid()");
    assert_eq!(
        activity_query(),
        "SELECT state FROM pg_catalog.pg_stat_activity WHERE pid = $1"
    );
}

#[test]
fn widths_decide_what_fits() {
    assert_eq!(error_height(&vec![1, 1, 1], 80), 3);
    assert_eq!(error_height(&vec![0, 78, 79], 80), 4);
    assert_eq!(error_height(&vec![500], 80), 4);
    assert_eq!(error_height(&vec![], 80), 1);
    assert_eq!(bounded_width(2, 4), 8);
    assert_eq!(bounded_width(12, 4), 13);
    assert_eq!(bounded_width(2, usize::MAX), 48);
    assert_eq!(fit_width(20, true, 0, 9), Some(9));
    assert_eq!(fit_width(20, false, 9, 30), Some(20));
    assert_eq!(fit_width(20, false, 10, 30), None);
    let style = TextStyle::colored(theme().cyan);
    let mut cells = Vec::new();
    push_cells(&mut cells, 4, 2, style, 3, 6, 2);
    assert_eq!(cells, vec![(1, style)]);
}
