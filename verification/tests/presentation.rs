//! Storage rules, highlighting, and what the panes show.
use textgres::app::explorer::{ExplorerNode, ExplorerRow};
use textgres::app::forms::{ConnectionField, ConnectionForm};
use textgres::app::row_detail::RowDetail;
use textgres::app::workspace::{Focus, Overlay, SessionAction, Workspace};
use textgres::app::App;
use textgres::db::sessions::{SessionState, TransactionState};
use textgres::db::{QueryResult, ResultColumn, TableRef, TableResultSource};
use textgres::editor::{sql_editor, TextEditor};
use textgres::highlight::{
    capture_style, character_width, highlight_ranges, line_number_width, ranges_of, style_line,
    viewport_origin, StyledRange, SyntaxEvent,
};
use textgres::keys::{KeyCode, KeyEvent, KeyModifiers};
use textgres::storage::{
    script_names, validate_connections, validate_profile, validate_profiles, validate_script_name,
    ConnectionProfile, Settings, SshConfig, Storage,
};
use textgres::text::{decimal_text, hexadecimal_text, parse_port, trim};
use textgres::theme::{theme, TextStyle};
use textgres::ui::{
    column_width, explorer_item, field_label, field_value, indent, number_width, one_line,
    overlay_question, overlay_title, picker_height, result_cell, results_placeholder,
    results_title, row_item, row_offset, row_title, selected_field_span, selected_field_title,
    settings_lines, shortcut_height, shortcut_line, shortcuts, sql_title, status_height,
    status_line, visible_columns, MAX_COLUMN_WIDTH, MIN_COLUMN_WIDTH,
};
use unicode_width::UnicodeWidthStr;

const NONE: KeyModifiers = KeyModifiers { control: false, alt: false, shift: false, other: false };

fn some(text: &str) -> Option<String> {
    Some(text.to_owned())
}

fn profile() -> ConnectionProfile {
    ConnectionProfile {
        id: "local".into(),
        name: "Local".into(),
        host: "localhost".into(),
        port: 5432,
        database: "postgres".into(),
        user: "postgres".into(),
        password: some("secret"),
        ssh: None,
        require_tls: false,
    }
}

// ---- Storage ----

#[test]
fn redacts_passwords_from_debug_output() {
    let output = profile().debug_text();

    assert!(output.contains("<redacted>"));
    assert!(!output.contains("secret"));
}

#[test]
fn diagnostics_name_every_field() {
    let mut remote = profile();
    remote.name = "Lo\"cal".into();
    remote.password = None;
    remote.ssh = Some(SshConfig {
        host: "gateway".into(),
        port: 22,
        user: "devin".into(),
        identity_file: some("key"),
    });
    assert_eq!(
        remote.debug_text(),
        "ConnectionProfile { id: \"local\", name: \"Lo\\\"cal\", host: \"localhost\", port: 5432, database: \"postgres\", user: \"postgres\", password: None, ssh: Some(SshConfig { host: \"gateway\", port: 22, user: \"devin\", identity_file: Some(\"key\") }), require_tls: false }"
    );
}

#[test]
fn rejects_script_path_traversal() {
    let storage = Storage::new("/data".into());
    assert!(storage.script_path("../secret").is_err());
    assert!(validate_script_name("").is_err());
    assert!(validate_script_name(&"a".repeat(101)).is_err());
    assert!(validate_script_name("å").is_err());
    assert!(validate_script_name(&"a".repeat(100)).is_ok());
}

#[test]
fn saves_and_lists_scripts() {
    let storage = Storage::new("/data".into());
    assert_eq!(storage.script_path("inspect_users").unwrap(), "/data/scripts/inspect_users.sql");
    assert_eq!(script_names(&vec!["inspect_users.sql".into()]), vec!["inspect_users"]);
}

#[test]
fn script_names_ignore_case_and_other_files() {
    let files = ["b.sql", "A.sql", "notes.txt", ".sql", "c.d.sql", "sql", "Ä.sql"]
        .map(String::from)
        .to_vec();
    assert_eq!(script_names(&files), vec!["A", "b", "c.d", "Ä"]);
    assert_eq!(Storage::new("/data/".into()).connections_path(), "/data/connections.toml");
    assert_eq!(Storage::new("".into()).settings_path(), "settings.toml");
    let storage = Storage::new("/data".into());
    assert_eq!(storage.root(), "/data");
    assert_eq!(storage.temporary_connections_path(), "/data/connections.toml.tmp");
    assert_eq!(storage.scripts_path(), "/data/scripts");
}

#[test]
fn connection_lists_are_checked() {
    let mut other = profile();
    other.id = "other".into();
    assert!(validate_profiles(&vec![profile(), other.clone()]).is_ok());
    other.id = "local".into();
    assert_eq!(
        validate_profiles(&vec![profile(), other.clone()]).unwrap_err(),
        "duplicate connection id \"local\""
    );
    other.host = "\t ".into();
    assert_eq!(
        validate_profile(&other).unwrap_err(),
        "connection id, name, host, database, and user must not be empty"
    );
    other.host = "h".into();
    other.port = 0;
    assert_eq!(
        validate_profile(&other).unwrap_err(),
        "connection port must be greater than zero"
    );
    assert!(validate_connections(1, &vec![profile()], "x").is_ok());
    assert_eq!(
        validate_connections(3, &vec![], "/data/connections.toml").unwrap_err(),
        "unsupported connection format version 3 in /data/connections.toml"
    );
}

#[test]
fn settings_classify_schemas() {
    let settings = Settings::default();
    assert!(settings.show_all_databases);
    for (name, shown) in [
        ("public", true),
        ("pgx", true),
        ("pg_catalog", false),
        ("information_schema", false),
        ("pg_toast", false),
        ("pg_temp_1", false),
    ] {
        assert_eq!(settings.shows_schema(name), shown, "{name}");
    }
    let system = Settings { show_system_schemas: true, ..settings };
    assert!(system.shows_schema("pg_catalog") && !system.shows_schema("pg_toast_1"));
    let utility = Settings { show_utility_schemas: true, ..settings };
    assert!(utility.shows_schema("pg_toast") && !utility.shows_schema("pg_catalog"));
}

#[test]
fn texts_convert_numbers() {
    assert_eq!(decimal_text(18446744073709551615), "18446744073709551615");
    assert_eq!(hexadecimal_text(0xdeadbeef), "deadbeef");
    assert_eq!(parse_port("65535"), Some(65535));
    assert_eq!(parse_port("+1"), Some(1));
    assert_eq!(parse_port("65536"), None);
    assert_eq!(parse_port(" 1"), None);
    assert_eq!(parse_port(""), None);
    assert_eq!(trim("\u{a0} x\u{2009}"), "x");
}

// ---- Editors and highlighting ----

#[test]
fn editors_type_at_the_cursor() {
    let mut editor = TextEditor::of_value(Some("ab\ncd"));
    editor.input(KeyEvent::new(KeyCode::Char('e'), NONE));
    assert_eq!(editor.lines(), ["ab", "cde"]);
    editor.input(KeyEvent::new(KeyCode::Home, NONE));
    editor.input(KeyEvent::new(KeyCode::Backspace, NONE));
    assert_eq!(editor.lines(), ["abcde"]);
    editor.input(KeyEvent::new(KeyCode::Enter, NONE));
    assert_eq!(editor.lines(), ["ab", "cde"]);
    assert!(!editor.input(KeyEvent::new(KeyCode::F(5), NONE)));
    assert!(!editor.input(KeyEvent::new(KeyCode::Esc, NONE)));
    assert_eq!(editor.lines(), ["ab", "cde"]);
    assert_eq!(TextEditor::new(vec![]).lines(), [""]);
    assert_eq!(sql_editor("").lines(), [""]);
    assert_eq!(sql_editor("a\n").lines(), ["a", ""]);
}

#[test]
fn highlights_sql_tokens_with_semantic_styles() {
    let source = "SELECT 42, 'value' -- note";
    let ranges = highlight_ranges(source);
    let style_at = |needle: &str| {
        let offset = source.find(needle).unwrap();
        ranges.iter().find(|range| range.start <= offset && offset < range.end).unwrap().style
    };

    assert_eq!(style_at("SELECT").foreground, Some(theme().accent));
    assert_eq!(style_at("42").foreground, Some(theme().yellow));
    assert_eq!(style_at("'value'").foreground, Some(theme().green));
    assert_eq!(style_at("-- note").foreground, Some(theme().muted));
}

#[test]
fn captures_nest() {
    let events = vec![
        SyntaxEvent::Source { start: 0, end: 1 },
        SyntaxEvent::Start(0),
        SyntaxEvent::Source { start: 1, end: 2 },
        SyntaxEvent::Start(7),
        SyntaxEvent::Source { start: 2, end: 3 },
        SyntaxEvent::End,
        SyntaxEvent::Source { start: 3, end: 4 },
        SyntaxEvent::End,
        SyntaxEvent::End,
        SyntaxEvent::End,
        SyntaxEvent::Source { start: 4, end: 5 },
    ];
    let ranges = ranges_of(&events, &vec!["string".into()]);
    let colors: Vec<_> = ranges.iter().map(|range| range.style.foreground).collect();
    let green = Some(theme().green);
    assert_eq!(colors, vec![None, green, None, green, None]);
    assert!(capture_style("keyword").bold);
    assert!(capture_style("comment").italic);
    assert_eq!(capture_style("field"), TextStyle::plain());
}

#[test]
fn highlights_text_exposed_by_scrolling() {
    let keyword = TextStyle::colored(theme().accent);
    let ranges = vec![
        StyledRange { start: 0, end: 3, style: TextStyle::plain() },
        StyledRange { start: 3, end: 7, style: keyword },
    ];
    let cells = style_line("åb FROM", 0, &ranges, 2, 3, 5);
    assert_eq!(
        cells,
        vec![
            (1, TextStyle::plain()),
            (2, TextStyle::plain()),
            (3, keyword),
            (4, keyword),
        ]
    );
    assert_eq!(character_width('\t', 5), 3);
    assert_eq!(character_width('表', 0), 2);
    assert_eq!(character_width('\u{1}', 0), 0);
    assert_eq!(line_number_width(0), 3);
    assert_eq!(line_number_width(100), 5);
    assert_eq!(viewport_origin((9, 20), Some((3, 10)), 3), (6, 13));
    assert_eq!(viewport_origin((1, 1), None, 3), (0, 0));
}

// ---- Panes ----

#[test]
fn explorer_connection_markers_and_bold_agree() {
    let row = ExplorerRow {
        depth: 0,
        label: "Local".into(),
        node: ExplorerNode::Connection("local".into()),
    };
    for connected in [false, true] {
        let spans = explorer_item(&row, "", "▸ ", connected);
        let marker = if connected { "●" } else { "○" };
        assert!(spans.iter().any(|span| span.text.contains(marker)));
        let name = spans.iter().find(|span| span.text.starts_with('L')).unwrap();
        assert_eq!(name.style.bold, connected);
    }
}

#[test]
fn explorer_tables_are_coloured_by_kind() {
    let item = |kind: &str| {
        let table = TableRef {
            profile_id: "local".into(),
            database: "postgres".into(),
            schema: "public".into(),
            name: "items".into(),
            kind: kind.into(),
        };
        let row = ExplorerRow { depth: 3, label: "x".into(), node: ExplorerNode::Table(table) };
        explorer_item(&row, &indent(3), "  ", false)
    };
    assert_eq!(item("materialized view")[1].style.foreground, Some(theme().green));
    assert_eq!(item("foreign table")[1].style.foreground, Some(theme().yellow));
    assert_eq!(item("table")[1].style, TextStyle::plain());
    assert_eq!(item("table")[0].text, "        ");
    assert_eq!(item("table")[2].text, "  [table]");
    assert!(item("table")[2].style.dim);
}

#[test]
fn measures_result_columns_with_sane_bounds() {
    let result = QueryResult {
        columns: vec!["id".into(), "description".into(), "payload".into()],
        rows: vec![vec![some("1"), some("medium value"), Some("x".repeat(100))]],
        ..Default::default()
    };

    assert_eq!(column_width(&result, 0), MIN_COLUMN_WIDTH);
    assert_eq!(column_width(&result, 1), "medium value".width() + 1);
    assert_eq!(column_width(&result, 2), MAX_COLUMN_WIDTH);
    assert_eq!(visible_columns(&result, 0, 30).len(), 2);
}

#[test]
fn narrow_panes_still_show_one_column() {
    let result = QueryResult { columns: vec!["id".into(), "name".into()], ..Default::default() };
    assert_eq!(visible_columns(&result, 0, 3), vec![(0, 3)]);
    assert_eq!(visible_columns(&result, 1, 0), vec![(1, 1)]);
    assert_eq!(visible_columns(&result, 2, 9), vec![]);
    let wide = QueryResult { columns: vec!["表".repeat(10)], ..Default::default() };
    assert_eq!(column_width(&wide, 0), 21);
    assert_eq!(one_line("a\r\nb\tc"), "a↵b⇥c");
    assert_eq!(number_width(0), 3);
    assert_eq!(number_width(12345), 5);
    assert_eq!(row_offset(10, 4), 7);
    assert_eq!(row_offset(3, 4), 0);
}

fn staged_app() -> App {
    let mut app = App::new(vec![profile()], vec![], "devin".into());
    let column = |name: &str, primary_key| ResultColumn {
        name: name.into(),
        data_type: "text".into(),
        editable: primary_key,
        insertable: true,
        primary_key,
    };
    app.workspace.result = QueryResult {
        columns: vec!["id".into(), "note".into()],
        rows: vec![vec![some("1"), None], vec![some("2"), some("a\nb")]],
        source: Some(TableResultSource {
            table: TableRef {
                profile_id: "local".into(),
                database: "postgres".into(),
                schema: "public".into(),
                name: "items".into(),
                kind: "table".into(),
            },
            columns: vec![column("id", true), column("note", false)],
            query: None,
        }),
        ..Default::default()
    };
    app
}

#[test]
fn pending_rows_and_cells_are_marked() {
    let mut app = staged_app();
    assert_eq!(results_title(&app.workspace), " Results · public.items ");
    let null = result_cell(&app.workspace, 0, 1);
    assert_eq!((null.text.as_str(), null.style.italic), ("NULL", true));
    assert_eq!(result_cell(&app.workspace, 1, 1).text, "a↵b");
    let mut form = RowDetail::new(&app.workspace.result, 0).unwrap();
    form.values[0] = some("9");
    app.stage_row(&form).unwrap();
    assert_eq!(result_cell(&app.workspace, 0, 0).style.foreground, Some(theme().yellow));
    app.workspace.result_row = 1;
    app.delete_row().unwrap();
    assert_eq!(result_cell(&app.workspace, 1, 0).style.foreground, Some(theme().red));
    app.add_row().unwrap();
    let new = result_cell(&app.workspace, 2, 0);
    assert_eq!((new.text.as_str(), new.style.foreground), ("DEFAULT", Some(theme().green)));
    app.workspace.edits.uncertain = true;
    assert_eq!(
        results_title(&app.workspace),
        " Results · public.items · 3 pending · save outcome unknown "
    );
    let form = match app.workspace.overlay.take() {
        Some(Overlay::RowDetail(form)) => form,
        _ => panic!("the new row must open"),
    };
    assert_eq!(row_title(&form), " Row 3 · public.items · editable ");
    assert_eq!(row_item(&form, 0)[0].text, "◆ id");
    assert_eq!(row_item(&form, 1)[0].text, "· note");
    assert_eq!(row_item(&form, 1)[1].text, "  DEFAULT");
    assert_eq!(selected_field_span(&form).text, "DEFAULT");
    assert_eq!(selected_field_title(&form), " id ");
}

#[test]
fn titles_follow_target_and_session() {
    let mut app = staged_app();
    assert_eq!(sql_title(&app), " SQL · select a database target ");
    app.active_target = Some(("local".into(), "postgres".into()));
    assert_eq!(sql_title(&app), " SQL · Local/postgres · disconnected ");
    app.workspace.session_state = SessionState::Connected(TransactionState::Paging);
    assert_eq!(sql_title(&app), " SQL · Local/postgres ");
    app.active_target = Some(("gone".into(), "postgres".into()));
    app.workspace.session_state = SessionState::Connected(TransactionState::Failed);
    assert_eq!(
        sql_title(&app),
        " SQL · gone/postgres · transaction failed · ROLLBACK required "
    );
    assert_eq!(results_title(&Workspace::default()), " SQL results ");
    assert_eq!(
        results_placeholder(&QueryResult::default()),
        "Run SQL or select a table to see rows."
    );
}

#[test]
fn error_status_grows_within_bounds() {
    let mut workspace = Workspace::default();
    workspace.status = "a\nb\nc".into();
    assert_eq!(status_height(&workspace, 80), 1);
    assert_eq!(status_line(&workspace).style.foreground, Some(theme().green));
    workspace.status_is_error = true;
    assert_eq!(status_height(&workspace, 80), 3);
    workspace.status = "a\r\n\n".into();
    assert_eq!(status_height(&workspace, 3), 2);
    workspace.status = "x".repeat(500);
    assert_eq!(status_height(&workspace, 80), 4);
    workspace.status = String::new();
    assert_eq!(status_height(&workspace, 80), 1);
    workspace.busy = some("working");
    workspace.status = "failed".into();
    assert_eq!(status_line(&workspace).text, "● failed");
    assert_eq!(status_line(&workspace).style.foreground, Some(theme().red));
    assert_eq!(shortcut_height(100, 80), 2);
    assert_eq!(shortcut_height(1000, 80), 3);
    assert_eq!(shortcut_height(0, 0), 1);
}

#[test]
fn shortcuts_follow_pane_and_dialog() {
    let mut app = staged_app();
    let actions = |app: &App| -> Vec<String> {
        shortcuts(app).into_iter().map(|(key, action)| format!("{key} {action}")).collect()
    };
    assert!(actions(&app).contains(&"c connect".to_owned()));
    app.active_target = Some(("local".into(), "postgres".into()));
    app.workspace.session_state = SessionState::Connected(TransactionState::Idle);
    assert!(actions(&app).contains(&"c disconnect".to_owned()));
    app.workspace.focus = Focus::Sql;
    assert_eq!(actions(&app)[0], "F5/^Enter run");
    app.workspace.focus = Focus::Results;
    assert!(actions(&app).contains(&"F5 refresh".to_owned()));
    app.workspace.refresh_query = Some((app.workspace.result.source.as_ref().unwrap().table.clone(), "x".into()));
    assert!(actions(&app).contains(&"F5 rerun query".to_owned()));
    assert!(!actions(&app).contains(&"n add".to_owned()));
    app.workspace.busy = some("working");
    assert_eq!(actions(&app)[0], "Esc cancel");
    app.workspace.overlay = Some(Overlay::ConfirmSession(SessionAction::Quit));
    assert_eq!(actions(&app), ["Y confirm", "N/Esc cancel"]);
    let line = shortcut_line(&shortcuts(&app));
    let texts: Vec<_> = line.iter().map(|span| span.text.as_str()).collect();
    assert_eq!(texts, ["Y", " ", "confirm", "  ", "N/Esc", " ", "cancel"]);
    assert!(line[0].style.bold);
}

#[test]
fn dialogs_mask_passwords_and_name_targets() {
    let form = ConnectionForm::edit(&profile(), "devin");
    assert_eq!(field_value(&form, ConnectionField::Password), "••••••");
    assert_eq!(field_value(&form, ConnectionField::RequireTls), "disabled");
    assert_eq!(field_value(&form, ConnectionField::Host), "localhost");
    assert_eq!(field_label(ConnectionField::Host), "Host:                   ");
    let overlay = Overlay::Connection(Box::new(form));
    assert_eq!(overlay_title(&overlay), " Edit connection ");
    assert_eq!(overlay_question(&overlay), None);
    let overlay = Overlay::ConfirmDelete { profile_id: "local".into(), name: "Local".into() };
    assert_eq!(overlay_question(&overlay).unwrap(), "Delete connection “Local”?");
    let overlay = Overlay::ConfirmExplorerDisconnect { targets: vec![], label: "Local/x".into() };
    assert!(overlay_question(&overlay).unwrap().starts_with("Disconnect Local/x? Open"));
    assert!(overlay_question(&Overlay::ConfirmSession(SessionAction::Quit))
        .unwrap()
        .starts_with("Quit all sessions?"));
    let lines = settings_lines(&Settings::default());
    assert_eq!(lines[0].0, "[x] Show all databases");
    assert_eq!(lines[1].0, "[ ] Show system schemas");
    assert_eq!(lines[2].1, "    pg_temp_* and pg_toast* schemas.");
    assert_eq!((picker_height(0), picker_height(9), picker_height(99)), (5, 11, 20));
}
