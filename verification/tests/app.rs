//! The application state, driven by keys and responses; effects are carried out in memory.
use textgres::app::connections::ProfileOutcome;
use textgres::app::explorer::ExplorerNode;
use textgres::app::forms::{edit_single_line, ConnectionField, ConnectionForm};
use textgres::app::row_detail::{row_read_only_reason, RowDetail};
use textgres::app::scripts::ScriptSave;
use textgres::app::table_edits::TableEdits;
use textgres::app::workspace::{Focus, Overlay, SessionAction, Workspace};
use textgres::app::{App, Effect, NodeKey};
use textgres::db::changes::RowChange;
use textgres::db::paging::PageRef;
use textgres::db::query_edits::QuerySource;
use textgres::db::sessions::{SessionState, TransactionState};
use textgres::db::{
    Cause, Error, Output, QueryResult, Request, Response, ResultColumn, TableRef,
    TableResultSource, UnknownCommit,
};
use textgres::editor::sql_editor;
use textgres::keys::{is_run_key, KeyCode, KeyEvent, KeyModifiers};
use textgres::storage::{
    script_names, validate_profiles, validate_script_name, ConnectionProfile, Script, Settings,
    SshConfig,
};
use textgres::text::join;
use textgres::ui::{overlay_question, shortcuts};

type Target = (String, String);

const NONE: KeyModifiers = KeyModifiers { control: false, alt: false, shift: false, other: false };
const CONTROL: KeyModifiers = KeyModifiers { control: true, alt: false, shift: false, other: false };
const SHIFT: KeyModifiers = KeyModifiers { control: false, alt: false, shift: true, other: false };

/// A front end that keeps files in memory and starts no database work.
struct Front {
    app: App,
    settings: Option<Settings>,
    connections: Vec<ConnectionProfile>,
    scripts: Vec<Script>,
    fail_storage: bool,
    spawned: Vec<(u64, Request)>,
    cancelled: Vec<u64>,
}

impl Front {
    fn press(&mut self, code: KeyCode, modifiers: KeyModifiers) {
        self.app.handle_key(KeyEvent::new(code, modifiers), &Vec::new(), 0xabc);
        self.settle();
    }

    fn save_script(&mut self, name: &str, sql: &str) -> Result<(), String> {
        validate_script_name(name)?;
        self.scripts.retain(|script| script.name != name);
        self.scripts.push(Script { name: name.to_owned(), sql: sql.to_owned() });
        Ok(())
    }

    fn delete_script(&mut self, name: &str) -> Result<(), String> {
        let before = self.scripts.len();
        self.scripts.retain(|script| script.name != name);
        if self.scripts.len() == before {
            return Err("no such file".to_owned());
        }
        Ok(())
    }

    fn list_scripts(&self) -> Vec<String> {
        let files = self.scripts.iter().map(|script| format!("{}.sql", script.name)).collect();
        script_names(&files)
    }

    fn persist(&mut self, profiles: &Vec<ConnectionProfile>) -> ProfileOutcome {
        if self.fail_storage {
            return ProfileOutcome::StorageFailed("disk full".to_owned());
        }
        match validate_profiles(profiles) {
            Ok(()) => {
                self.connections = profiles.clone();
                ProfileOutcome::Done
            }
            Err(problem) => ProfileOutcome::StorageFailed(problem),
        }
    }

    fn settle(&mut self) {
        for effect in self.app.take_effects() {
            match effect {
                Effect::Spawn { operation_id, request } => self.spawned.push((operation_id, request)),
                Effect::Cancel { operation_id } => self.cancelled.push(operation_id),
                Effect::SaveSettings(draft) => {
                    if self.fail_storage {
                        self.app.settings_saved(Err("disk full".to_owned()));
                    } else {
                        self.settings = Some(draft);
                        self.app.settings_saved(Ok(()));
                    }
                }
                Effect::SaveConnection { profile_id, profiles } => {
                    let outcome = self.persist(&profiles);
                    self.app.connection_saved(&profile_id, profiles, outcome);
                }
                Effect::DeleteConnection { profile_id, profiles } => {
                    let outcome = self.persist(&profiles);
                    self.app.connection_deleted(&profile_id, profiles, outcome);
                }
                Effect::SaveScript { name, sql } => {
                    let outcome = match self.save_script(&name, &sql) {
                        Ok(()) => ScriptSave::Saved(self.list_scripts()),
                        Err(problem) => ScriptSave::Failed(problem),
                    };
                    self.app.script_saved(outcome);
                }
                Effect::LoadScript { name } => {
                    let found = self.scripts.iter().find(|script| script.name == name).cloned();
                    self.app.script_loaded(found.ok_or("no such file".to_owned()));
                }
                Effect::DeleteScript { name } => {
                    let result = self.delete_script(&name);
                    self.app.script_deleted(result);
                }
            }
        }
    }

    fn save_connection(&mut self, form: &ConnectionForm) -> Result<(), String> {
        self.app.save_connection(form, 0xabc)?;
        self.settle();
        if self.app.workspace.status_is_error {
            Err(self.app.workspace.status.clone())
        } else {
            Ok(())
        }
    }

    fn delete_connection(&mut self, id: &str) {
        self.app.delete_connection(id);
        self.settle();
    }

    fn operation(&self) -> u64 {
        self.app.workspace.database_task.as_ref().unwrap().operation_id()
    }

    fn respond(&mut self, operation_id: u64, state: Option<SessionState>, result: Result<Output, Error>) {
        self.app.handle_database_response(Response { session_state: state, operation_id, result });
    }
}

fn some(text: &str) -> Option<String> {
    Some(text.to_owned())
}

fn local_profile() -> ConnectionProfile {
    ConnectionProfile {
        id: "local".into(),
        name: "Local".into(),
        host: "192.0.2.1".into(),
        port: 5432,
        database: "postgres".into(),
        user: "postgres".into(),
        password: None,
        ssh: None,
        require_tls: false,
    }
}

fn column(name: &str, data_type: &str, editable: bool, primary_key: bool) -> ResultColumn {
    ResultColumn {
        name: name.into(),
        data_type: data_type.into(),
        editable,
        insertable: editable,
        primary_key,
    }
}

fn editable_result() -> QueryResult {
    QueryResult {
        columns: vec!["id".into(), "name".into(), "slug".into()],
        rows: vec![vec![some("7"), some("before"), some("generated")]],
        source: Some(TableResultSource {
            query: None,
            table: TableRef {
                profile_id: "local".into(),
                database: "postgres".into(),
                schema: "public".into(),
                name: "items".into(),
                kind: "table".into(),
            },
            columns: vec![
                column("id", "integer", true, true),
                column("name", "text", true, false),
                column("slug", "text", false, false),
            ],
        }),
        ..Default::default()
    }
}

fn preview_app() -> Front {
    let mut app = App::new(vec![local_profile()], vec![], "devin".to_owned());
    app.workspace.result = editable_result();
    Front {
        app,
        settings: None,
        connections: Vec::new(),
        scripts: Vec::new(),
        fail_storage: false,
        spawned: Vec::new(),
        cancelled: Vec::new(),
    }
}

fn pending_row_app() -> Front {
    let mut front = preview_app();
    let mut form = RowDetail::new(&front.app.workspace.result, 0).unwrap();
    form.values[1] = some("changed");
    front.app.stage_row(&form).unwrap();
    front.app.save_changes().unwrap();
    front
}

fn targets() -> (Target, Target) {
    (("local".into(), "postgres".into()), ("local".into(), "second".into()))
}

fn start_sql(front: &mut Front, sql: &str) -> u64 {
    front.app.sql = sql_editor(sql);
    front.app.run_sql();
    front.operation()
}

fn take_row(front: &mut Front) -> Box<RowDetail> {
    match front.app.workspace.overlay.take() {
        Some(Overlay::RowDetail(form)) => form,
        _ => panic!("missing row editor"),
    }
}

fn modify(front: &mut Front, row: usize, value: &str) {
    front.app.workspace.result_row = row;
    front.app.open_row_detail();
    let mut form = take_row(front);
    form.values[1] = some(value);
    front.app.stage_row(&form).unwrap();
}

fn count(front: &Front) -> usize {
    front.app.workspace.edits.count(&front.app.workspace.result)
}

fn cell(front: &Front, row: usize, column: usize) -> Option<&str> {
    front.app.workspace.result.rows[row][column].as_deref()
}

fn hidden<'a>(front: &'a Front, target: &Target) -> &'a Workspace {
    front.app.workspaces.get(target).unwrap()
}

fn change_hidden(front: &mut Front, target: &Target, change: impl FnOnce(&mut Workspace)) {
    let mut workspace = front.app.workspaces.remove(target).unwrap();
    change(&mut workspace);
    front.app.workspaces.insert(target.clone(), workspace);
}

fn labels(front: &Front) -> Vec<String> {
    front.app.explorer_rows().into_iter().map(|row| row.label).collect()
}

// ---- Editing and cancellation ----

#[test]
fn single_line_edit_preserves_unicode_boundaries() {
    let mut value = "åb".to_owned();
    let mut cursor = 1;
    edit_single_line(&mut value, &mut cursor, KeyEvent::new(KeyCode::Backspace, NONE));
    assert_eq!(value, "b");
    assert_eq!(cursor, 0);
}

#[test]
fn recognizes_portable_and_enhanced_run_keys() {
    assert!(is_run_key(KeyEvent::new(KeyCode::F(5), NONE)));
    assert!(is_run_key(KeyEvent::new(KeyCode::Enter, CONTROL)));
    assert!(!is_run_key(KeyEvent::new(KeyCode::Enter, NONE)));
}

#[test]
fn escape_waits_for_the_actual_database_outcome() {
    let mut front = preview_app();
    front.app.workspace.result = QueryResult::default();
    front.app.dispatch(
        "Connecting to Local".into(),
        Request::Databases { profile: local_profile(), password: None },
    );
    front.settle();
    let operation_id = front.operation();

    front.press(KeyCode::Esc, NONE);

    assert!(front.app.workspace.busy.is_some());
    assert!(front.app.workspace.database_task.is_some());
    assert_eq!(front.app.workspace.status, "Cancelling…");
    assert_eq!(front.cancelled, vec![operation_id]);
    front.respond(operation_id + 1, None, Err(Error::cancelled()));
    assert!(front.app.workspace.busy.is_some());
    front.respond(
        operation_id,
        None,
        Ok(Output::Databases {
            profile_id: "local".into(),
            names: vec!["completed_before_cancel".into()],
        }),
    );
    assert_eq!(
        front.app.databases.get(&"local".to_owned()).unwrap(),
        &vec!["completed_before_cancel".to_owned()]
    );
    assert!(front.app.workspace.busy.is_none());
    assert!(front.app.workspace.database_task.is_none());
    assert_eq!(front.app.workspace.status, "Loaded 1 database(s)");
}

#[test]
fn confirmed_cancellation_preserves_staged_changes() {
    let mut front = pending_row_app();
    let operation_id = front.operation();
    front.press(KeyCode::Esc, NONE);
    assert!(front.app.workspace.overlay.is_none());
    assert_eq!(count(&front), 1);
    front.respond(operation_id, None, Err(Error::cancelled()));
    assert!(front.app.workspace.overlay.is_none());
    assert_eq!(cell(&front, 0, 1), Some("changed"));
    assert_eq!(count(&front), 1);
    assert!(!front.app.workspace.status_is_error);
    assert!(front.app.workspace.busy.is_none());
}

#[test]
fn cancelled_refresh_preserves_the_committed_write_outcome() {
    let mut front = pending_row_app();
    let operation_id = front.operation();
    front.respond(operation_id, None, Ok(Output::Saved(Err(Error::cancelled()))));
    assert_eq!(front.app.workspace.status, "Changes saved; refresh cancelled");
    assert_eq!(count(&front), 0);
    assert!(front.app.workspace.overlay.is_none());
    assert!(front.app.workspace.result.source.is_none());
    assert!(front.app.workspace.result.rows.is_empty());
}

#[test]
fn failed_refresh_does_not_restore_an_already_saved_edit() {
    let mut front = pending_row_app();
    let operation_id = front.operation();
    front.respond(operation_id, None, Ok(Output::Saved(Err(Error::new("connection closed")))));
    assert!(front.app.workspace.status.starts_with("Changes saved; refresh failed:"));
    assert!(front.app.workspace.status_is_error);
    assert_eq!(count(&front), 0);
    assert!(front.app.workspace.overlay.is_none());
}

// ---- Connections ----

#[test]
fn connection_edit_invalidates_its_preview_and_rejects_old_row_forms() {
    for active_profile in ["local", "other"] {
        let mut front = preview_app();
        let mut other = front.app.profiles[0].clone();
        other.id = "other".into();
        front.app.profiles.push(other);
        front.app.active_target = Some((active_profile.into(), "postgres".into()));
        front.app.workspace.result.rows.push(vec![some("8"), some("second"), some("generated")]);
        front.app.workspace.result_row = 1;
        front.app.workspace.result_column = 2;
        let mut old_form = RowDetail::new(&front.app.workspace.result, 1).unwrap();
        old_form.values[1] = some("changed");

        front.press(KeyCode::Char('e'), NONE);
        match &mut front.app.workspace.overlay {
            Some(Overlay::Connection(form)) => form.values[1] = "new-server".into(),
            _ => panic!("connection editor must open"),
        }
        front.press(KeyCode::Char('s'), CONTROL);

        assert_eq!(front.app.profile("local").unwrap().host, "new-server");
        assert!(front.connections == front.app.profiles);
        assert_eq!(front.app.workspace.result, QueryResult::default());
        assert_eq!((front.app.workspace.result_row, front.app.workspace.result_column), (0, 0));
        assert!(front.app.stage_row(&old_form).unwrap_err().contains("reload the table"));
        assert!(front.app.workspace.database_task.is_none());
        assert_eq!(count(&front), 0);
        front.app.workspace.focus = Focus::Results;
        front.press(KeyCode::Enter, NONE);
        assert!(front.app.workspace.overlay.is_none());
    }
}

#[test]
fn changing_another_connection_preserves_the_current_preview() {
    let mut front = preview_app();
    let result = front.app.workspace.result.clone();
    let mut other = front.app.profiles[0].clone();
    other.id = "other".into();
    front.app.profiles.push(other.clone());
    front.app.active_target = Some(("local".into(), "postgres".into()));
    front.app.workspace.result_column = 2;
    let mut connection_form = ConnectionForm::edit(&other, "devin");
    connection_form.values[1] = "new-server".into();

    front.save_connection(&connection_form).unwrap();
    assert_eq!(front.app.workspace.result, result);
    assert_eq!(front.app.workspace.result_column, 2);
    front.delete_connection("other");
    assert_eq!(front.app.workspace.result, result);
    assert_eq!(front.app.workspace.result_column, 2);
    let mut row_form = RowDetail::new(&front.app.workspace.result, 0).unwrap();
    row_form.values[1] = some("changed");
    front.app.stage_row(&row_form).unwrap();
    front.app.save_changes().unwrap();
    assert!(front.app.workspace.database_task.is_some());
}

#[test]
fn failed_connection_save_preserves_the_profile_and_preview() {
    let mut front = preview_app();
    front.connections = front.app.profiles.clone();
    let profiles = front.app.profiles.clone();
    let result = front.app.workspace.result.clone();
    front.app.active_target = Some(("local".into(), "postgres".into()));
    let target = front.app.active_target.clone();
    let mut connection_form = ConnectionForm::edit(&front.app.profiles[0], "devin");
    connection_form.values[1] = "new-server".into();
    front.fail_storage = true;

    assert!(front.save_connection(&connection_form).is_err());
    assert_eq!(front.app.workspace.status, "Could not save connection: disk full");
    assert!(front.app.profiles == profiles);
    assert!(front.connections == profiles);
    assert_eq!(front.app.workspace.result, result);
    assert_eq!(front.app.active_target, target);
    let mut row_form = RowDetail::new(&front.app.workspace.result, 0).unwrap();
    row_form.values[1] = some("changed");
    front.app.stage_row(&row_form).unwrap();
    front.app.save_changes().unwrap();
    assert!(front.app.workspace.database_task.is_some());
}

#[test]
fn connection_deletion_invalidates_its_preview() {
    let mut front = preview_app();
    let mut old_form = RowDetail::new(&front.app.workspace.result, 0).unwrap();
    old_form.values[1] = some("changed");
    front.app.workspace.result_column = 2;
    front.connections = front.app.profiles.clone();
    front.press(KeyCode::Char('d'), NONE);
    front.press(KeyCode::Char('y'), NONE);

    assert!(front.app.profiles.is_empty());
    assert!(front.connections.is_empty());
    assert_eq!(front.app.workspace.result, QueryResult::default());
    assert_eq!((front.app.workspace.result_row, front.app.workspace.result_column), (0, 0));
    assert!(front.app.workspace.overlay.is_none());
    assert!(front.app.stage_row(&old_form).is_err());
    assert!(front.app.workspace.database_task.is_none());
}

#[test]
fn failed_connection_deletion_preserves_the_preview() {
    let mut front = preview_app();
    front.connections = front.app.profiles.clone();
    let profiles = front.app.profiles.clone();
    let result = front.app.workspace.result.clone();
    front.fail_storage = true;

    front.delete_connection("local");
    assert!(front.app.workspace.status_is_error);
    assert_eq!(front.app.workspace.status, "Could not delete connection: disk full");
    assert!(front.app.profiles == profiles);
    assert!(front.connections == profiles);
    assert_eq!(front.app.workspace.result, result);
}

#[test]
fn refused_sessions_and_tunnels_keep_the_connection() {
    let mut front = preview_app();
    let profiles = front.app.profiles.clone();
    front.app.connection_saved(
        "local",
        Vec::new(),
        ProfileOutcome::SessionsRefused("Disconnect all SQL sessions".to_owned()),
    );
    assert_eq!(front.app.workspace.status, "Disconnect all SQL sessions");
    assert!(front.app.workspace.status_is_error);
    front.app.connection_saved("local", Vec::new(), ProfileOutcome::TunnelFailed("gone".to_owned()));
    assert_eq!(front.app.workspace.status, "Could not close the previous SSH tunnel: gone");
    front.app.connection_deleted("local", Vec::new(), ProfileOutcome::TunnelFailed("gone".to_owned()));
    assert_eq!(front.app.workspace.status, "Could not close the SSH tunnel: gone");
    assert!(front.app.profiles == profiles);
}

#[test]
fn new_connections_take_their_id_from_the_time() {
    let mut front = preview_app();
    front.press(KeyCode::Char('n'), NONE);
    match &mut front.app.workspace.overlay {
        Some(Overlay::Connection(form)) => {
            assert_eq!(form.value(ConnectionField::Host), Some("localhost"));
            assert_eq!(form.value(ConnectionField::Port), Some("5432"));
            assert_eq!(form.value(ConnectionField::User), Some("devin"));
            assert_eq!(form.value(ConnectionField::SshPort), Some("22"));
            assert_eq!(form.value(ConnectionField::RequireTls), None);
            form.values[0] = "  Fresh  ".into();
        }
        _ => panic!("connection editor must open"),
    }
    front.press(KeyCode::Char('s'), CONTROL);
    assert!(front.app.workspace.overlay.is_none());
    let profile = front.app.profile("connection-abc").unwrap();
    assert_eq!(profile.name, "Fresh");
    assert_eq!(profile.port, 5432);
    assert!(profile.ssh.is_none());
    assert_eq!(front.app.workspace.status, "Connection saved");
}

#[test]
fn connection_form_reports_each_problem() {
    let mut front = preview_app();
    let mut form = ConnectionForm::edit(&front.app.profiles[0], "devin");
    form.values[2] = "70000".into();
    assert_eq!(
        front.save_connection(&form).unwrap_err(),
        "Port must be an integer from 1 through 65535"
    );
    form.values[2] = "5432".into();
    form.values[0] = " ".into();
    assert_eq!(
        front.save_connection(&form).unwrap_err(),
        "Name, host, port, database, and user are required"
    );
    form.values[0] = "Local".into();
    form.ssh_enabled = true;
    assert_eq!(front.save_connection(&form).unwrap_err(), "SSH host and user are required");
    form.values[6] = "gateway".into();
    form.values[7] = "x".into();
    assert_eq!(
        front.save_connection(&form).unwrap_err(),
        "SSH port must be an integer from 1 through 65535"
    );
    form.values[7] = "2222".into();
    form.values[9] = " ~/.ssh/work ".into();
    front.save_connection(&form).unwrap();
    assert_eq!(
        front.app.profile("local").unwrap().ssh,
        Some(SshConfig {
            host: "gateway".into(),
            port: 2222,
            user: "devin".into(),
            identity_file: some("~/.ssh/work"),
        })
    );
    front.app.workspace.busy = some("working");
    assert_eq!(
        front.app.save_connection(&form, 1).unwrap_err(),
        "Wait for the current database operation to finish"
    );
}

#[test]
fn connection_form_preserves_ssh_settings() {
    let profile = ConnectionProfile {
        id: "remote".into(),
        name: "Remote".into(),
        host: "db.internal".into(),
        port: 5432,
        database: "postgres".into(),
        user: "postgres".into(),
        password: None,
        require_tls: true,
        ssh: Some(SshConfig {
            host: "gateway.example.com".into(),
            port: 2222,
            user: "devin".into(),
            identity_file: some("~/.ssh/work"),
        }),
    };

    let form = ConnectionForm::edit(&profile, "");

    assert!(form.ssh_enabled);
    assert_eq!(form.value(ConnectionField::SshHost), Some("gateway.example.com"));
    assert_eq!(form.value(ConnectionField::SshPort), Some("2222"));
    assert_eq!(form.value(ConnectionField::SshUser), Some("devin"));
    assert_eq!(form.value(ConnectionField::SshIdentityFile), Some("~/.ssh/work"));
    assert!(form.build_profile("remote").unwrap() == profile);
}

#[test]
fn connection_form_cycles_fields_and_toggles() {
    let mut form = ConnectionForm::new("devin");
    for (index, label) in [
        "Name", "Host", "Port", "Default database", "User", "Password (saved)", "TLS", "Enabled",
        "Host", "Port", "User", "Identity file",
    ]
    .iter()
    .enumerate()
    {
        assert_eq!(form.field, index);
        assert_eq!(form.selected_field().label(), *label);
        assert_eq!(form.selected_field().is_toggle(), index == 6 || index == 7);
        form.press(KeyEvent::new(KeyCode::Char(' '), NONE));
        form.press(KeyEvent::new(KeyCode::Tab, NONE));
    }
    assert_eq!(form.field, 0);
    assert!(form.require_tls);
    assert!(form.ssh_enabled);
    assert_eq!(form.values[0], " ");
    form.press(KeyEvent::new(KeyCode::BackTab, SHIFT));
    assert_eq!(form.selected_field(), ConnectionField::SshIdentityFile);
}

// ---- Row forms ----

#[test]
fn edits_and_nulls_supported_row_values() {
    let result = editable_result();
    let mut form = RowDetail::new(&result, 0).unwrap();

    assert!(form.row_is_editable());
    assert!(form.selected_is_editable());
    form.select(1);
    assert_eq!(form.selected_value(), Some("before"));
    form.begin_edit();
    form.editor.input(KeyEvent::new(KeyCode::Char('a'), NONE));
    form.finish_edit();
    assert_eq!(form.selected_value(), Some("beforea"));

    form.toggle_null();
    assert_eq!(form.selected_value(), None);
    form.select(2);
    assert!(!form.selected_is_editable());
}

#[test]
fn custom_query_rows_are_read_only() {
    let result = QueryResult {
        columns: vec!["value".into()],
        rows: vec![vec![some("42")]],
        ..Default::default()
    };
    let form = RowDetail::new(&result, 0).unwrap();

    assert!(!form.row_is_editable());
    assert!(!form.selected_is_editable());
    assert_eq!(row_read_only_reason(&form), "Custom SQL results are read-only");
}

#[test]
fn row_editor_types_through_key_handling() {
    let mut front = preview_app();
    front.app.workspace.focus = Focus::Results;
    front.press(KeyCode::Enter, NONE);
    front.press(KeyCode::Down, NONE);
    front.press(KeyCode::Enter, NONE);
    front.press(KeyCode::Backspace, NONE);
    front.press(KeyCode::Enter, NONE);
    front.press(KeyCode::Char('x'), NONE);
    front.press(KeyCode::Char('s'), CONTROL);
    assert!(front.app.workspace.overlay.is_none());
    assert_eq!(cell(&front, 0, 1), Some("befor\nx"));
    front.press(KeyCode::Char('e'), NONE);
    front.press(KeyCode::Char('G'), NONE);
    front.press(KeyCode::Enter, NONE);
    assert_eq!(front.app.workspace.status, "This generated or computed column is read-only");
    front.press(KeyCode::Char('g'), NONE);
    front.press(KeyCode::Char('n'), CONTROL);
    let form = take_row(&mut front);
    assert_eq!(form.selected, 0);
    assert_eq!(form.values[0], None);
}

// ---- Table edits ----

#[test]
fn batch_uses_original_values_and_orders_deletes_before_inserts() {
    let mut result = QueryResult {
        rows: vec![vec![some("first")], vec![some("second")]],
        ..Default::default()
    };
    let mut edits = TableEdits::default();
    edits.begin(&result);
    result.rows[0][0] = some("edited then deleted");
    edits.deleted.insert(0);
    result.rows[1][0] = some("changed");
    result.rows.push(vec![None]);
    result.rows.push(vec![None]);
    edits.new_defaults = vec![vec![false], vec![true]];
    assert_eq!(edits.count(&result), 4);
    assert_eq!(
        edits.changes(&result),
        vec![
            RowChange::Delete { original: vec![some("first")] },
            RowChange::Update { original: vec![some("second")], values: vec![some("changed")] },
            RowChange::Insert { values: vec![None], defaults: vec![false] },
            RowChange::Insert { values: vec![None], defaults: vec![true] },
        ]
    );
}

#[test]
fn batch_staging_and_discard_preserve_original_preview() {
    let mut front = preview_app();
    let original = front.app.workspace.result.clone();
    modify(&mut front, 0, "changed");
    assert_eq!(count(&front), 1);
    assert!(front.app.workspace.edits.cell_changed(&front.app.workspace.result, 0, 1));
    assert!(!front.app.workspace.edits.cell_changed(&front.app.workspace.result, 0, 0));
    front.app.workspace.result_row = 0;
    front.app.delete_row().unwrap();
    assert!(front.app.workspace.edits.deleted.contains(&0));
    front.app.delete_row().unwrap();
    assert_eq!(cell(&front, 0, 1), Some("changed"));
    front.app.add_row().unwrap();
    assert_eq!(count(&front), 2);
    assert_eq!(front.app.workspace.edits.defaults(1), Some(&vec![true; 3]));
    assert!(front.app.workspace.database_task.is_none());
    front.app.workspace.overlay = None;
    front.app.discard_changes();
    assert_eq!(front.app.workspace.result, original);
    assert_eq!(count(&front), 0);
}

#[test]
fn reverting_cell_and_deleting_new_row_remove_changes() {
    let mut front = preview_app();
    modify(&mut front, 0, "first");
    modify(&mut front, 0, "second");
    assert_eq!(count(&front), 1);
    modify(&mut front, 0, "before");
    assert_eq!(count(&front), 0);
    front.app.add_row().unwrap();
    front.app.workspace.overlay = None;
    front.app.add_row().unwrap();
    front.app.workspace.overlay = None;
    front.app.workspace.result_row = 1;
    front.app.delete_row().unwrap();
    assert_eq!(front.app.workspace.result.rows.len(), 2);
    assert_eq!(count(&front), 1);
    assert!(front.app.workspace.edits.defaults(1).is_some());
    front.app.delete_row().unwrap();
    assert_eq!(count(&front), 0);
}

#[test]
fn insert_form_tracks_defaults_and_explicit_nulls() {
    let mut front = preview_app();
    front.app.add_row().unwrap();
    let mut form = take_row(&mut front);
    assert!(form.is_new);
    assert!(form.defaults.iter().all(|value| *value));
    form.selected = 1;
    form.toggle_null();
    assert_eq!(form.values[1], None);
    assert!(!form.defaults[1]);
    form.begin_edit();
    form.finish_edit();
    assert_eq!(form.values[1], Some(String::new()));
    assert!(!form.defaults[1]);
    form.toggle_null();
    assert_eq!(form.values[1], None);
    assert!(!form.defaults[1]);
    front.app.workspace.overlay = Some(Overlay::RowDetail(form));
    front.press(KeyCode::Char('d'), CONTROL);
    let form = take_row(&mut front);
    assert!(form.defaults[1]);
    assert!(form.selected_is_editable());
    front.app.stage_row(&form).unwrap();
    assert_eq!(count(&front), 1);
}

#[test]
fn refresh_preserves_draft_until_success() {
    let mut front = preview_app();
    let original = front.app.workspace.result.clone();
    modify(&mut front, 0, "changed");
    front.app.workspace.focus = Focus::Results;
    front.press(KeyCode::F(5), NONE);
    assert!(matches!(front.app.workspace.overlay, Some(Overlay::ConfirmRefresh)));
    assert!(front.app.workspace.database_task.is_none());
    front.press(KeyCode::Char('n'), NONE);
    assert_eq!(count(&front), 1);
    front.app.refresh_results(true).unwrap();
    let id = front.operation();
    front.respond(id, None, Err(Error::cancelled()));
    assert_eq!(cell(&front, 0, 1), Some("changed"));
    assert_eq!(count(&front), 1);
    front.app.refresh_results(true).unwrap();
    let id = front.operation();
    front.respond(id, None, Ok(Output::Result(original.clone())));
    assert_eq!(front.app.workspace.result, original);
    assert_eq!(count(&front), 0);
}

#[test]
fn pending_batches_guard_navigation_and_quit() {
    let mut front = preview_app();
    let first: Target = ("local".into(), "postgres".into());
    front.app.switch_workspace(first.clone());
    modify(&mut front, 0, "changed");
    front.app.sql = sql_editor("SELECT 1");
    front.app.run_sql();
    assert!(front.app.workspace.database_task.is_none());
    let form = ConnectionForm::edit(&front.app.profiles[0], "devin");
    front.app.switch_workspace(("local".into(), "other".into()));
    assert!(front.save_connection(&form).unwrap_err().contains("table changes"));
    front.app.request_session_action(SessionAction::Quit, &Vec::new());
    assert!(!front.app.should_quit);
    assert!(matches!(
        front.app.workspace.overlay,
        Some(Overlay::ConfirmSession(SessionAction::Quit))
    ));
    front.app.workspace.overlay = None;
    front.app.switch_workspace(first);
    assert_eq!(cell(&front, 0, 1), Some("changed"));
    assert_eq!(count(&front), 1);
}

#[test]
fn unknown_commit_requires_refresh_before_retry() {
    let mut front = pending_row_app();
    let id = front.operation();
    front.respond(
        id,
        None,
        Err(Error::caused_by(Cause::UnknownCommit(UnknownCommit {
            reason: "connection lost".into(),
        }))),
    );
    assert!(front.app.workspace.edits.uncertain);
    assert!(front.app.save_changes().unwrap_err().contains("unknown"));
    assert!(front.app.add_row().is_err());
    assert!(front.app.delete_row().is_err());
    front.app.discard_changes();
    assert!(front.app.workspace.edits.uncertain);
    assert!(front.app.save_changes().is_err());
    front.app.refresh_results(false).unwrap();
    let id = front.operation();
    front.respond(id, None, Ok(Output::Result(editable_result())));
    assert!(!front.app.workspace.edits.uncertain);
    modify(&mut front, 0, "retry after verification");
    front.app.save_changes().unwrap();
}

#[test]
fn unknown_outcomes_alone_guard_neither_profile_nor_quit() {
    let mut front = pending_row_app();
    let id = front.operation();
    front.respond(id, None, Err(Error::unknown_commit("connection lost".into())));
    let form = ConnectionForm::edit(&front.app.profiles[0], "devin");
    assert_eq!(
        front.save_connection(&form).unwrap_err(),
        "Save or discard table changes before changing this connection"
    );
    front.app.discard_changes();
    assert_eq!(count(&front), 0);
    assert!(front.app.workspace.edits.uncertain);
    front.app.workspace.status_is_error = false;
    front.app.request_session_action(SessionAction::Quit, &Vec::new());
    assert!(front.app.should_quit);
    assert!(front.app.workspace.overlay.is_none());
    let profiles = front.app.profiles.clone();
    front.save_connection(&form).unwrap();
    assert!(front.app.profiles == profiles);
    assert!(front.connections == profiles);
    assert_eq!(front.app.workspace.status, "Connection saved");
    front.app.workspace.edits.uncertain = true;
    front.delete_connection("local");
    assert!(front.app.profiles.is_empty());
}

#[test]
fn committed_batch_keeps_refresh_target_after_preview_failure() {
    let mut front = pending_row_app();
    let id = front.operation();
    front.respond(id, None, Ok(Output::Saved(Err(Error::new("refresh failed")))));
    assert!(front.app.workspace.result.rows.is_empty());
    assert_eq!(count(&front), 0);
    front.app.refresh_results(false).unwrap();
    assert!(front.app.workspace.database_task.is_some());
}

#[test]
fn running_save_freezes_local_changes() {
    let mut front = pending_row_app();
    let staged = front.app.workspace.result.clone();
    assert!(front.app.add_row().is_err());
    assert!(front.app.delete_row().is_err());
    assert!(front.app.save_changes().is_err());
    assert!(front.app.refresh_results(true).is_err());
    front.app.discard_changes();
    front.app.open_row_detail();
    let form = take_row(&mut front);
    assert!(!form.row_is_editable());
    assert!(front.app.stage_row(&form).is_err());
    assert_eq!(front.app.workspace.result, staged);
    assert_eq!(count(&front), 1);
}

#[test]
fn batch_permissions_follow_table_metadata() {
    let mut front = preview_app();
    front.app.workspace.result.source.as_mut().unwrap().table.kind = "view".into();
    assert!(front.app.add_row().is_err());
    assert!(front.app.delete_row().is_err());
    front.app.workspace.result = editable_result();
    for column in &mut front.app.workspace.result.source.as_mut().unwrap().columns {
        column.primary_key = false;
    }
    assert!(front.app.delete_row().is_err());
    front.app.add_row().unwrap();
    front.app.workspace.overlay = None;
    assert_eq!(count(&front), 1);
    front.app.workspace.result = QueryResult::default();
    assert!(front.app.refresh_results(false).is_err());
}

#[test]
fn saved_batches_are_snapshots_of_the_staged_rows() {
    let front = {
        let mut front = pending_row_app();
        front.settle();
        front
    };
    let (_, request) = &front.spawned[0];
    match request {
        Request::SaveChanges { source, changes, .. } => {
            assert_eq!(source.table.name, "items");
            assert_eq!(
                *changes,
                vec![RowChange::Update {
                    original: vec![some("7"), some("before"), some("generated")],
                    values: vec![some("7"), some("changed"), some("generated")],
                }]
            );
        }
        _ => panic!("a save must be requested"),
    }
    assert_eq!(front.app.workspace.status, "Saving 1 row change(s)");
}

#[test]
fn staging_reports_why_a_row_is_refused() {
    let mut front = preview_app();
    front.app.add_row().unwrap();
    let mut form = take_row(&mut front);
    form.defaults[2] = false;
    assert_eq!(
        front.app.stage_row(&form).unwrap_err(),
        "Column slug requires its generated default"
    );
    form.values.pop();
    assert_eq!(front.app.stage_row(&form).unwrap_err(), "Row does not match table metadata");
    front.app.workspace.result_row = 0;
    front.app.open_row_detail();
    let mut form = take_row(&mut front);
    form.values[2] = some("other");
    assert_eq!(front.app.stage_row(&form).unwrap_err(), "Column slug is read-only");
    front.app.delete_row().unwrap();
    form.values[2] = some("generated");
    assert_eq!(
        front.app.stage_row(&form).unwrap_err(),
        "Undo this row's deletion before modifying it"
    );
    front.app.delete_row().unwrap();
    form.read_only = true;
    assert_eq!(front.app.stage_row(&form).unwrap_err(), "Close and reopen this row before editing");
}

// ---- Custom query results ----

fn query_app() -> Front {
    let mut front = preview_app();
    let source = front.app.workspace.result.source.as_mut().unwrap();
    source.query = Some(Box::new(QuerySource {
        sql: "SELECT id, name, slug FROM items WHERE id=7".into(),
        execution_id: 1,
        table_oid: 42,
        table_columns: source.columns.clone(),
        attribute_ids: vec![1, 2, 3],
        mapping: vec![Some(0), Some(1), Some(2)],
    }));
    front.app.workspace.refresh_query =
        Some((source.table.clone(), source.query.as_ref().unwrap().sql.clone()));
    front.app.workspace.refresh_table = None;
    front.app.workspace.session_state = SessionState::Connected(TransactionState::Idle);
    front
}

#[test]
fn custom_result_capabilities_are_separate() {
    let mut front = query_app();
    assert!(front.app.add_row().unwrap_err().contains("updates only"));
    assert!(front.app.delete_row().unwrap_err().contains("updates only"));
    front.app.open_row_detail();
    let mut form = take_row(&mut front);
    assert!(form.row_is_editable());
    form.values[2] = some("computed change");
    assert!(front.app.stage_row(&form).is_err());
    form.values[2] = form.original[2].clone();
    form.values[1] = some("after");
    front.app.stage_row(&form).unwrap();
    front.app.discard_changes();
    assert_eq!(cell(&front, 0, 1), Some("before"));
    front.app.workspace.session_state = SessionState::Lost;
    assert!(front.app.stage_row(&form).is_err());
    front.app.open_row_detail();
    let form = take_row(&mut front);
    assert!(!form.row_is_editable());
}

#[test]
fn custom_save_marks_results_stale_without_automatic_rerun() {
    let mut front = query_app();
    front.app.open_row_detail();
    let mut form = take_row(&mut front);
    form.values[1] = some("after");
    front.app.stage_row(&form).unwrap();
    front.app.save_changes().unwrap();
    let operation_id = front.operation();
    front.respond(
        operation_id,
        Some(SessionState::Connected(TransactionState::Idle)),
        Ok(Output::QuerySaved),
    );
    assert!(front.app.workspace.database_task.is_none());
    assert_eq!(count(&front), 0);
    assert_eq!(cell(&front, 0, 1), Some("after"));
    assert!(front.app.workspace.result.source.is_none());
    assert!(front.app.workspace.result.page.is_none());
    assert!(front.app.workspace.refresh_table.is_none());
    front.app.open_row_detail();
    let form = take_row(&mut front);
    assert!(!form.row_is_editable());
    assert!(row_read_only_reason(&form).contains("stale"));
    front.app.sql = sql_editor("DELETE FROM items");
    assert_eq!(
        front.app.workspace.refresh_query.as_ref().unwrap().1,
        "SELECT id, name, slug FROM items WHERE id=7"
    );
    front.app.refresh_results(false).unwrap();
    assert!(front.app.workspace.database_task.is_some());
    assert_eq!(front.app.workspace.status, "Rerunning original query");
}

#[test]
fn custom_unknown_save_requires_verification() {
    let mut front = query_app();
    front.app.workspace.edits.uncertain = true;
    assert!(front.app.save_changes().unwrap_err().contains("unknown"));
    front.app.refresh_results(false).unwrap();
    assert!(matches!(front.app.workspace.overlay, Some(Overlay::ConfirmRefresh)));
    assert!(front.app.workspace.database_task.is_none());
    front.app.refresh_results(true).unwrap();
    assert!(front.app.workspace.database_task.is_some());
}

#[test]
fn custom_missing_key_reason_reaches_the_row_editor() {
    let mut front = query_app();
    front.app.workspace.result.source = None;
    front.app.workspace.result.read_only_reason =
        some("Include primary key column(s) id to edit rows");
    front.app.open_row_detail();
    let form = take_row(&mut front);
    assert!(!form.row_is_editable());
    assert!(row_read_only_reason(&form).contains("id"));
    assert!(front.app.save_changes().unwrap_err().contains("Include primary key"));
}

#[test]
fn custom_failed_refresh_preserves_drafts_but_requires_rerun() {
    let mut front = query_app();
    front.app.open_row_detail();
    let mut form = take_row(&mut front);
    form.values[1] = some("draft");
    front.app.stage_row(&form).unwrap();
    front.app.refresh_results(true).unwrap();
    let operation_id = front.operation();
    front.respond(
        operation_id,
        Some(SessionState::Connected(TransactionState::Idle)),
        Err(Error::new("query failed")),
    );
    assert_eq!(count(&front), 1);
    assert_eq!(cell(&front, 0, 1), Some("draft"));
    assert!(front.app.save_changes().unwrap_err().contains("no longer current"));
    front.app.open_row_detail();
    let form = take_row(&mut front);
    assert!(!form.row_is_editable());
    front.app.discard_changes();
    assert_eq!(cell(&front, 0, 1), Some("before"));
    assert!(front.app.workspace.refresh_query.is_some());
}

// ---- Paging ----

fn page(id: u64) -> PageRef {
    PageRef { id, profile_id: "local".into(), database: "postgres".into(), preview: true }
}

#[test]
fn scrolling_fetches_once_and_appends_without_resetting_selection() {
    let mut front = preview_app();
    front.app.workspace.result.page = Some(page(1));
    front.app.workspace.focus = Focus::Results;
    front.press(KeyCode::End, NONE);
    let operation_id = front.operation();
    front.press(KeyCode::Down, NONE);
    assert_eq!(front.operation(), operation_id);
    assert_eq!(front.spawned.len(), 1);
    let next = vec![vec![some("8"), some("next"), None]];
    front.respond(
        operation_id,
        None,
        Ok(Output::Page {
            requested: page(1),
            result: QueryResult {
                columns: front.app.workspace.result.columns.clone(),
                rows: next.clone(),
                ..Default::default()
            },
        }),
    );
    assert_eq!(front.app.workspace.result.rows.len(), 2);
    assert_eq!(front.app.workspace.result.rows[1], next[0]);
    assert_eq!(front.app.workspace.result_row, 0);
    assert!(front.app.workspace.result.source.is_some());
    assert!(front.app.workspace.result.page.is_none());
    assert_eq!(front.app.workspace.status, "Loaded 1 more rows; 2 row(s) · complete");
    front.press(KeyCode::End, NONE);
    assert!(front.app.workspace.database_task.is_none());
    assert_eq!(front.app.workspace.result_row, 1);
}

#[test]
fn later_pages_preserve_modified_deleted_and_inserted_rows() {
    let mut front = preview_app();
    front.app.open_row_detail();
    let mut form = take_row(&mut front);
    form.values[1] = some("modified");
    front.app.stage_row(&form).unwrap();
    front.app.delete_row().unwrap();
    front.app.add_row().unwrap();
    front.app.workspace.overlay = None;
    front.app.workspace.result.page = Some(page(1));
    front.app.workspace.focus = Focus::Results;
    front.press(KeyCode::End, NONE);
    let operation_id = front.operation();
    let next = vec![some("8"), some("next"), None];
    front.respond(
        operation_id,
        None,
        Ok(Output::Page {
            requested: page(1),
            result: QueryResult {
                columns: front.app.workspace.result.columns.clone(),
                rows: vec![next.clone()],
                ..Default::default()
            },
        }),
    );
    assert_eq!(front.app.workspace.result.rows.len(), 3);
    assert_eq!(front.app.workspace.result_row, 2);
    assert_eq!(front.app.workspace.edits.defaults(2), Some(&vec![true; 3]));
    assert!(front.app.workspace.edits.defaults(1).is_none());
    assert!(front.app.workspace.edits.deleted.contains(&0));
    assert_eq!(count(&front), 2);
    front.app.discard_changes();
    assert_eq!(front.app.workspace.result.rows.len(), 2);
    assert_eq!(cell(&front, 0, 1), Some("before"));
    assert_eq!(front.app.workspace.result.rows[1], next);
}

#[test]
fn failed_page_fetch_and_wrong_cursor_preserve_loaded_values() {
    for wrong_cursor in [false, true] {
        let mut front = preview_app();
        front.app.workspace.result.page = Some(page(1));
        let original = front.app.workspace.result.rows.clone();
        front.app.workspace.focus = Focus::Results;
        front.press(KeyCode::PageDown, NONE);
        let operation_id = front.operation();
        let result = if wrong_cursor {
            Ok(Output::Page { requested: page(2), result: QueryResult::default() })
        } else {
            Err(Error::cancelled())
        };
        front.respond(operation_id, None, result);
        assert_eq!(front.app.workspace.result.rows, original);
        assert!(front.app.workspace.result.page.is_none());
        assert!(front.app.workspace.status_is_error);
    }
}

#[test]
fn fetched_pages_follow_their_workspace() {
    let mut front = preview_app();
    let first: Target = ("local".into(), "postgres".into());
    front.app.switch_workspace(first.clone());
    front.app.workspace.result.page = Some(page(1));
    front.app.workspace.focus = Focus::Results;
    front.press(KeyCode::End, NONE);
    let operation_id = front.operation();
    let columns = front.app.workspace.result.columns.clone();
    front.app.switch_workspace(("local".into(), "second".into()));
    front.respond(
        operation_id,
        None,
        Ok(Output::Page {
            requested: page(1),
            result: QueryResult {
                columns,
                rows: vec![vec![some("8"), None, None]],
                ..Default::default()
            },
        }),
    );
    assert!(front.app.workspace.result.rows.is_empty());
    front.app.switch_workspace(first);
    assert_eq!(front.app.workspace.result.rows.len(), 2);
}

// ---- Scripts ----

fn script_app() -> Front {
    let mut front = preview_app();
    for name in ["first", "second"] {
        front.save_script(name, "SELECT 1;").unwrap();
    }
    front.app.scripts = front.list_scripts();
    front.app.sql = sql_editor("SELECT unsaved;");
    front.app.workspace.focus = Focus::Sql;
    front.press(KeyCode::Char('l'), CONTROL);
    front.press(KeyCode::Down, NONE);
    front
}

#[test]
fn script_deletion_requires_confirmation_and_supports_cancel() {
    let mut front = script_app();
    for (delete, cancel) in [
        (KeyCode::Char('d'), KeyCode::Char('n')),
        (KeyCode::Delete, KeyCode::Esc),
    ] {
        front.press(delete, NONE);
        let question = overlay_question(front.app.workspace.overlay.as_ref().unwrap()).unwrap();
        assert!(question.contains("Delete script “second.sql”?"));
        let keys = shortcuts(&front.app);
        assert!(keys.iter().any(|(key, _)| key == "Y/Enter"));
        assert!(keys.iter().any(|(key, _)| key == "N/Esc"));
        front.press(KeyCode::Char('d'), NONE);
        assert!(matches!(
            front.app.workspace.overlay,
            Some(Overlay::ConfirmDeleteScript { .. })
        ));
        assert_eq!(front.list_scripts(), ["first", "second"]);
        front.press(cancel, NONE);
        assert!(matches!(front.app.workspace.overlay, Some(Overlay::LoadScript { selected: 1 })));
    }
    assert_eq!(front.app.sql.lines(), ["SELECT unsaved;"]);
}

#[test]
fn confirmed_script_deletion_updates_picker_and_keeps_editor() {
    let mut front = script_app();
    front.press(KeyCode::Delete, NONE);
    front.press(KeyCode::Char('y'), NONE);
    assert_eq!(front.app.scripts, ["first"]);
    assert_eq!(front.list_scripts(), ["first"]);
    assert!(matches!(front.app.workspace.overlay, Some(Overlay::LoadScript { selected: 0 })));
    assert_eq!(front.app.workspace.status, "Deleted second.sql");
    assert!(!front.app.workspace.status_is_error);

    front.press(KeyCode::Char('d'), NONE);
    front.press(KeyCode::Enter, NONE);
    assert!(front.app.scripts.is_empty());
    assert!(front.list_scripts().is_empty());
    assert!(front.app.workspace.overlay.is_none());
    assert_eq!(front.app.sql.lines(), ["SELECT unsaved;"]);
    front.press(KeyCode::Char('l'), CONTROL);
    assert!(front.app.workspace.overlay.is_none());
    assert_eq!(front.app.workspace.status, "No saved scripts");
}

#[test]
fn failed_script_deletion_keeps_confirmation_and_cached_entry() {
    let mut front = script_app();
    front.press(KeyCode::Delete, NONE);
    front.delete_script("second").unwrap();
    front.press(KeyCode::Enter, NONE);
    assert!(front.app.workspace.status_is_error);
    assert!(front.app.workspace.status.starts_with("Could not delete script:"));
    assert_eq!(front.app.scripts, ["first", "second"]);
    assert!(matches!(
        front.app.workspace.overlay,
        Some(Overlay::ConfirmDeleteScript { .. })
    ));
    assert_eq!(front.app.sql.lines(), ["SELECT unsaved;"]);

    front.save_script("second", "SELECT 2;").unwrap();
    front.press(KeyCode::Enter, NONE);
    assert_eq!(front.app.scripts, ["first"]);
    assert!(!front.app.workspace.status_is_error);
}

#[test]
fn scripts_are_saved_and_loaded_through_the_dialogs() {
    let mut front = script_app();
    front.press(KeyCode::Esc, NONE);
    front.app.sql = sql_editor("SELECT 1;\n-- two\n");
    front.press(KeyCode::Char('s'), CONTROL);
    for c in "../x".chars() {
        front.press(KeyCode::Char(c), NONE);
    }
    front.press(KeyCode::Enter, NONE);
    assert_eq!(
        front.app.workspace.status,
        "Could not save script: script names may contain only letters, numbers, '-' and '_'"
    );
    for _ in 0..4 {
        front.press(KeyCode::Backspace, NONE);
    }
    front.press(KeyCode::Char('B'), NONE);
    front.press(KeyCode::Enter, NONE);
    assert_eq!(front.app.workspace.status, "Saved B.sql");
    assert!(front.app.workspace.overlay.is_none());
    assert_eq!(front.app.scripts, ["B", "first", "second"]);
    front.app.sql = sql_editor("");
    front.press(KeyCode::Char('l'), CONTROL);
    front.press(KeyCode::Enter, NONE);
    assert_eq!(front.app.workspace.status, "Loaded B.sql");
    assert_eq!(join(&front.app.sql.lines(), "\n"), "SELECT 1;\n-- two\n");
    front.delete_script("first").unwrap();
    front.press(KeyCode::Char('l'), CONTROL);
    front.press(KeyCode::Down, NONE);
    front.press(KeyCode::Enter, NONE);
    assert_eq!(front.app.workspace.status, "Could not load script: no such file");
    assert!(matches!(front.app.workspace.overlay, Some(Overlay::LoadScript { selected: 1 })));
    front.app.workspace.overlay = Some(Overlay::SaveScript { name: "c".into(), cursor: 1 });
    front.app.script_saved(ScriptSave::Unlisted("unreadable".into()));
    assert_eq!(front.app.workspace.status, "Saved, but refresh failed: unreadable");
}

// ---- Settings ----

#[test]
fn settings_save_filters_cached_metadata_and_preserves_workspace() {
    let mut front = preview_app();
    front.app.expanded.insert(NodeKey::Connection("local".into()));
    front.app.expanded.insert(NodeKey::Database("local".into(), "postgres".into()));
    front.app.databases.insert("local".into(), vec!["postgres".into(), "second".into()]);
    front.app.schemas.insert(
        ("local".into(), "postgres".into()),
        ["public", "pg_catalog", "information_schema", "pg_temp_1", "pg_toast", "pgxtempx1"]
            .map(String::from)
            .to_vec(),
    );
    front.app.active_target = Some(("local".into(), "second".into()));
    front.app.workspace.session_state = SessionState::Connected(TransactionState::Open);
    let result = front.app.workspace.result.clone();
    front.app.explorer_selected = front.app.explorer_rows().len() - 1;
    front.press(KeyCode::F(2), NONE);
    front.press(KeyCode::Char(' '), NONE);
    front.press(KeyCode::Char('s'), CONTROL);
    assert_eq!(front.settings, Some(front.app.settings));
    assert!(front.app.workspace.overlay.is_none());
    assert!(!front.app.settings.show_all_databases);
    assert_eq!(labels(&front), ["Local", "postgres", "public", "pgxtempx1"]);
    assert!(front.app.explorer_selected < front.app.explorer_rows().len());
    assert_eq!(front.app.active_target, Some(("local".into(), "second".into())));
    assert_eq!(front.app.workspace.result, result);
    assert_eq!(
        front.app.workspace.session_state,
        SessionState::Connected(TransactionState::Open)
    );

    front.press(KeyCode::F(2), NONE);
    front.press(KeyCode::BackTab, SHIFT);
    front.press(KeyCode::Enter, NONE);
    front.press(KeyCode::Char('s'), CONTROL);
    let shown = labels(&front);
    assert!(shown.contains(&"pg_temp_1".into()));
    assert!(shown.contains(&"pg_toast".into()));
    assert!(!shown.contains(&"pg_catalog".into()));
    front.app.settings.show_system_schemas = true;
    assert!(front.app.explorer_rows().iter().any(|row| row.label == "information_schema"));
}

#[test]
fn settings_cancel_and_save_failure_do_not_apply_draft() {
    let mut front = preview_app();
    let original = front.app.settings;
    front.press(KeyCode::F(2), NONE);
    front.press(KeyCode::Char(' '), NONE);
    front.press(KeyCode::Esc, NONE);
    assert_eq!(front.app.settings, original);
    assert!(front.settings.is_none());
    front.fail_storage = true;
    front.press(KeyCode::F(2), NONE);
    front.press(KeyCode::Char(' '), NONE);
    front.press(KeyCode::Char('s'), CONTROL);
    assert_eq!(front.app.settings, original);
    assert!(
        matches!(front.app.workspace.overlay, Some(Overlay::Settings { draft, .. }) if !draft.show_all_databases)
    );
    assert!(front.app.workspace.status_is_error);
    assert!(front.app.workspace.status.contains("Could not save settings"));
}

// ---- Sessions ----

#[test]
fn switching_preserves_shared_editor_and_separate_results() {
    let mut front = preview_app();
    let (first, second) = targets();
    front.app.switch_workspace(first.clone());
    front.app.sql = sql_editor("SELECT 1");
    front.app.sql.input(KeyEvent::new(KeyCode::End, NONE));
    front.app.sql.input(KeyEvent::new(KeyCode::Char(';'), NONE));
    front.app.workspace.result_column = 2;
    front.app.workspace.status = "first".into();
    let result = front.app.workspace.result.clone();
    front.app.switch_workspace(second.clone());
    assert!(front.app.workspace.result.rows.is_empty());
    assert_eq!(front.app.sql.lines(), ["SELECT 1;"]);
    front.app.sql.input(KeyEvent::new(KeyCode::Char('2'), NONE));
    front.app.switch_workspace(first);
    assert_eq!(front.app.workspace.result, result);
    assert_eq!(front.app.workspace.result_column, 2);
    assert_eq!(front.app.workspace.status, "first");
    assert_eq!(front.app.sql.lines(), ["SELECT 1;2"]);
    front.app.sql.input(KeyEvent::new(KeyCode::Char('u'), CONTROL));
    assert_eq!(front.app.sql.lines(), ["SELECT 1;"]);
    front.app.switch_workspace(second);
    front.app.sql.input(KeyEvent::new(KeyCode::Char('u'), CONTROL));
    assert_eq!(front.app.sql.lines(), ["SELECT 1"]);
}

#[test]
fn background_responses_stay_with_their_workspace() {
    let mut front = preview_app();
    let (first, second) = targets();
    front.app.switch_workspace(first.clone());
    let first_id = start_sql(&mut front, "SELECT 1");
    front.app.switch_workspace(second.clone());
    let second_id = start_sql(&mut front, "SELECT 2");
    front.app.workspace.focus = Focus::Sql;
    front.app.workspace.overlay = Some(Overlay::SaveScript { name: "second".into(), cursor: 6 });
    front.respond(
        first_id,
        Some(SessionState::Connected(TransactionState::Open)),
        Ok(Output::Result(QueryResult {
            columns: vec!["first".into()],
            status: "first done".into(),
            ..Default::default()
        })),
    );
    assert_eq!(front.app.active_target, Some(second));
    assert_eq!(front.app.sql.lines(), ["SELECT 2"]);
    assert_eq!(front.app.workspace.focus, Focus::Sql);
    assert!(matches!(front.app.workspace.overlay, Some(Overlay::SaveScript { .. })));
    assert!(front.app.workspace.result.columns.is_empty());
    assert_eq!(front.operation(), second_id);
    assert_eq!(hidden(&front, &first).result.columns, vec!["first"]);
    assert_eq!(
        hidden(&front, &first).session_state,
        SessionState::Connected(TransactionState::Open)
    );
    assert!(hidden(&front, &first).database_task.is_none());
    front.respond(first_id, None, Err(Error::new("stale")));
    assert_eq!(hidden(&front, &first).status, "first done");
    front.respond(second_id, None, Err(Error::new("second failed")));
    assert!(front.app.workspace.status.contains("second failed"));
    assert_eq!(hidden(&front, &first).status, "first done");
}

#[test]
fn background_save_errors_stay_with_their_workspace() {
    let mut front = pending_row_app();
    let (first, second) = targets();
    front.app.switch_workspace(first.clone());
    let id = front.operation();
    front.app.switch_workspace(second);
    front.respond(id, None, Err(Error::cancelled()));
    assert!(front.app.workspace.overlay.is_none());
    assert_eq!(front.app.workspace.status, "Ready");
    let saved = hidden(&front, &first);
    assert!(saved.database_task.is_none());
    assert_eq!(saved.edits.count(&saved.result), 1);
    assert_eq!(saved.status, "Database operation cancelled");
}

#[test]
fn busy_workspace_does_not_block_navigation_or_other_operations() {
    let mut front = preview_app();
    let (first, second) = targets();
    front.app.switch_workspace(first.clone());
    let id = start_sql(&mut front, "SELECT 1");
    front.app.databases.insert("local".into(), vec!["postgres".into(), "second".into()]);
    front.app.expanded.insert(NodeKey::Connection("local".into()));
    front.app.explorer_selected = 2;
    front.app.activate_selected();
    assert_eq!(front.app.active_target, Some(second.clone()));
    assert!(front.app.workspace.database_task.is_some());
    assert_eq!(hidden(&front, &first).database_task.as_ref().unwrap().operation_id(), id);
    front.press(KeyCode::PageUp, CONTROL);
    assert_eq!(front.app.active_target, Some(first));
    front.press(KeyCode::Esc, NONE);
    assert_eq!(front.app.workspace.status, "Cancelling…");
    assert!(hidden(&front, &second).status.starts_with("Loading schemas"));
}

#[test]
fn disconnect_and_reconnect_require_transaction_confirmation() {
    for state in [TransactionState::Open, TransactionState::Failed, TransactionState::Unknown] {
        for action in [SessionAction::Disconnect, SessionAction::Reconnect] {
            let mut front = preview_app();
            front.app.switch_workspace(targets().0);
            front.app.workspace.session_state = SessionState::Connected(state);
            front.app.request_session_action(action, &Vec::new());
            assert!(
                matches!(front.app.workspace.overlay, Some(Overlay::ConfirmSession(found)) if found == action)
            );
            assert!(front.app.workspace.database_task.is_none());
            front.press(KeyCode::Enter, NONE);
            assert!(front.app.workspace.database_task.is_none());
            front.press(KeyCode::Esc, NONE);
            assert!(front.app.workspace.overlay.is_none());
            front.app.request_session_action(action, &Vec::new());
            front.press(KeyCode::Char('y'), NONE);
            assert!(front.app.workspace.overlay.is_none());
            assert!(front.app.workspace.database_task.is_some());
        }
    }
}

#[test]
fn quit_protects_inactive_transactions_and_workers() {
    for busy in [false, true] {
        let mut front = preview_app();
        let (first, second) = targets();
        front.app.switch_workspace(first);
        if busy {
            start_sql(&mut front, "SELECT 1");
        } else {
            front.app.workspace.session_state = SessionState::Connected(TransactionState::Open);
        }
        front.app.switch_workspace(second);
        front.press(KeyCode::Char('q'), CONTROL);
        assert!(!front.app.should_quit);
        assert!(matches!(
            front.app.workspace.overlay,
            Some(Overlay::ConfirmSession(SessionAction::Quit))
        ));
        front.press(KeyCode::Char('n'), NONE);
        assert!(!front.app.should_quit);
        front.press(KeyCode::Char('q'), CONTROL);
        front.press(KeyCode::Char('y'), NONE);
        assert!(front.app.should_quit);
    }
}

#[test]
fn lifecycle_rejects_running_workspace() {
    let mut front = preview_app();
    front.app.switch_workspace(targets().0);
    let id = start_sql(&mut front, "SELECT 1");
    for key in [6, 7, 8] {
        front.press(KeyCode::F(key), NONE);
        assert_eq!(front.operation(), id);
        assert!(front.app.workspace.overlay.is_none());
        assert!(front.app.workspace.status.contains("Cancel or wait"));
    }
}

#[test]
fn profile_change_rejects_inactive_work_and_invalidates_all_previews() {
    let mut front = preview_app();
    let (first, second) = targets();
    front.app.switch_workspace(first.clone());
    let form = ConnectionForm::edit(&front.app.profiles[0], "devin");
    let id = start_sql(&mut front, "SELECT 1");
    front.app.switch_workspace(second);
    assert!(front.save_connection(&form).unwrap_err().contains("all operations"));
    front.delete_connection("local");
    assert_eq!(front.app.profiles.len(), 1);
    front.respond(id, None, Err(Error::cancelled()));
    let old_form = RowDetail::new(&hidden(&front, &first).result, 0).unwrap();
    change_hidden(&mut front, &first, |workspace| {
        workspace.overlay = Some(Overlay::RowDetail(Box::new(old_form)));
    });
    front.app.workspace.result = editable_result();
    front.app.workspace.status_is_error = false;
    front.save_connection(&form).unwrap();
    assert!(hidden(&front, &first).result.source.is_none());
    assert!(hidden(&front, &first).overlay.is_none());
    front.app.switch_workspace(first);
    assert_eq!(front.app.sql.lines(), ["SELECT 1"]);
}

#[test]
fn lifecycle_response_preserves_workspace_contents() {
    let mut front = preview_app();
    front.app.switch_workspace(targets().0);
    front.app.sql = sql_editor("BEGIN");
    let result = front.app.workspace.result.clone();
    front.press(KeyCode::F(6), NONE);
    let id = front.operation();
    front.respond(
        id,
        Some(SessionState::Connected(TransactionState::Idle)),
        Ok(Output::Session),
    );
    assert_eq!(front.app.sql.lines(), ["BEGIN"]);
    assert_eq!(front.app.workspace.result, result);
    assert_eq!(front.app.workspace.status, "autocommit");
}

#[test]
fn targetless_input_survives_restoring_and_cycling_workspaces() {
    let mut front = preview_app();
    let (first, second) = targets();
    front.app.sql = sql_editor("SELECT original");
    front.app.switch_workspace(first.clone());
    assert_eq!(front.app.sql.lines(), ["SELECT original"]);
    front.app.park_workspace();
    front.app.sql = sql_editor("SELECT revised");
    front.app.switch_workspace(first.clone());
    assert_eq!(front.app.sql.lines(), ["SELECT revised"]);
    front.app.switch_workspace(second);
    front.app.cycle_workspace(false);
    assert_eq!(front.app.active_target, Some(first));
    assert_eq!(front.app.sql.lines(), ["SELECT revised"]);
}

#[test]
fn explorer_markers_follow_live_sessions() {
    let mut front = preview_app();
    let (first, second) = targets();
    let profile = ExplorerNode::Connection("local".into());
    let first_node =
        ExplorerNode::Database { profile_id: first.0.clone(), database: first.1.clone() };
    let second_node =
        ExplorerNode::Database { profile_id: second.0.clone(), database: second.1.clone() };
    front.app.switch_workspace(first.clone());
    assert!(!front.app.explorer_connected(&profile));
    front.app.workspace.session_state = SessionState::Connected(TransactionState::Open);
    front.app.switch_workspace(second);
    assert!(front.app.explorer_connected(&profile));
    assert!(front.app.explorer_connected(&first_node));
    assert!(!front.app.explorer_connected(&second_node));
    change_hidden(&mut front, &first, |workspace| workspace.session_state = SessionState::Lost);
    assert!(!front.app.explorer_connected(&profile));
    front.app.workspace.session_state = SessionState::Connected(TransactionState::Unknown);
    assert!(front.app.explorer_connected(&profile));
    assert!(front.app.explorer_connected(&second_node));
    assert!(!front.app.explorer_connected(&ExplorerNode::Connection("other".into())));
    front.app.workspace.session_state = SessionState::Disconnected;
    assert!(!front.app.explorer_connected(&profile));
}

#[test]
fn expansion_connects_and_collapse_keeps_session() {
    let mut front = preview_app();
    front.app.activate_selected();
    let id = front.operation();
    assert!(!front.app.explorer_connected(&ExplorerNode::Connection("local".into())));
    front.respond(
        id,
        Some(SessionState::Connected(TransactionState::Idle)),
        Ok(Output::Databases { profile_id: "local".into(), names: vec!["postgres".into()] }),
    );
    front.app.activate_selected();
    assert!(!front.app.expanded.contains(&NodeKey::Connection("local".into())));
    assert!(front.app.explorer_connected(&ExplorerNode::Connection("local".into())));
    assert!(front.app.workspace.database_task.is_none());
    front.app.activate_selected();
    assert!(front.app.workspace.database_task.is_some());
    assert!(front.app.expanded.contains(&NodeKey::Connection("local".into())));
}

#[test]
fn cycling_visits_workspaces_in_a_fixed_order() {
    let mut front = preview_app();
    for name in ["c", "a", "b"] {
        front.app.switch_workspace(("local".into(), name.into()));
    }
    front.app.switch_workspace(("gone".into(), "z".into()));
    front.app.switch_workspace(("local".into(), "b".into()));
    let mut visited = Vec::new();
    for _ in 0..3 {
        front.press(KeyCode::PageDown, CONTROL);
        visited.push(front.app.active_target.clone().unwrap().1);
    }
    assert_eq!(visited, ["c", "a", "b"]);
    front.press(KeyCode::PageUp, CONTROL);
    assert_eq!(front.app.active_target, Some(("local".into(), "a".into())));
}

#[test]
fn polling_reports_lost_sessions_of_idle_workspaces_only() {
    let mut front = preview_app();
    let (first, second) = targets();
    front.app.switch_workspace(first.clone());
    front.app.workspace.session_state = SessionState::Connected(TransactionState::Idle);
    start_sql(&mut front, "SELECT 1");
    front.app.switch_workspace(second.clone());
    front.app.workspace.session_state = SessionState::Connected(TransactionState::Open);
    let states = vec![
        (first.clone(), SessionState::Lost),
        (second, SessionState::Lost),
        (("other".into(), "x".into()), SessionState::Lost),
    ];
    assert!(front.app.poll_sessions(&states));
    assert_eq!(front.app.workspace.session_state, SessionState::Lost);
    assert!(front.app.workspace.status.starts_with("SQL session lost; reconnect explicitly."));
    assert_eq!(
        hidden(&front, &first).session_state,
        SessionState::Connected(TransactionState::Idle)
    );
    assert!(!front.app.poll_sessions(&states));
    let mut operations = front.app.running_operations();
    operations.sort();
    assert_eq!(operations, vec![1]);
}

// ---- Explorer sessions ----

fn connected_workspaces(front: &mut Front) -> [Target; 2] {
    let (first, second) = targets();
    front.app.switch_workspace(first.clone());
    front.app.workspace.session_state = SessionState::Connected(TransactionState::Idle);
    front.app.switch_workspace(second.clone());
    front.app.workspace.session_state = SessionState::Connected(TransactionState::Idle);
    front.app.expanded.insert(NodeKey::Connection("local".into()));
    front.app.databases.insert("local".into(), vec!["postgres".into(), "second".into()]);
    front.app.workspace.focus = Focus::Explorer;
    [first, second]
}

fn complete_disconnect(front: &mut Front, target: &Target) {
    let task = if front.app.active_target.as_ref() == Some(target) {
        front.app.workspace.database_task
    } else {
        hidden(front, target).database_task
    };
    let operation_id = task.unwrap().operation_id();
    front.respond(operation_id, Some(SessionState::Disconnected), Ok(Output::Session));
}

#[test]
fn explorer_profile_disconnects_all_databases_and_keeps_drafts() {
    let mut front = preview_app();
    let [first, second] = connected_workspaces(&mut front);
    front.app.workspace.result = editable_result();
    front.app.add_row().unwrap();
    front.app.workspace.overlay = None;
    let result = front.app.workspace.result.clone();
    front.app.sql = sql_editor("SELECT retained");
    front.app.explorer_selected = 0;
    front.press(KeyCode::Char('c'), NONE);
    assert_eq!(front.app.active_target, Some(second.clone()));
    assert!(hidden(&front, &first).database_task.is_some());
    assert!(front.app.workspace.database_task.is_some());
    complete_disconnect(&mut front, &first);
    assert!(front.app.explorer_connected(&ExplorerNode::Connection("local".into())));
    complete_disconnect(&mut front, &second);
    assert!(!front.app.explorer_connected(&ExplorerNode::Connection("local".into())));
    assert_eq!(front.app.workspace.result, result);
    assert_eq!(count(&front), 1);
    assert_eq!(front.app.sql.lines(), ["SELECT retained"]);
    assert_eq!(front.app.workspace.focus, Focus::Explorer);
}

#[test]
fn explorer_database_disconnect_uses_selection() {
    let mut front = preview_app();
    let [first, second] = connected_workspaces(&mut front);
    front.app.explorer_selected = 1;
    front.press(KeyCode::Char('c'), NONE);
    assert_eq!(front.app.active_target, Some(second));
    assert!(front.app.workspace.database_task.is_none());
    assert!(hidden(&front, &first).database_task.is_some());
    complete_disconnect(&mut front, &first);
    assert_eq!(hidden(&front, &first).session_state, SessionState::Disconnected);
    assert!(matches!(front.app.workspace.session_state, SessionState::Connected(_)));
}

#[test]
fn explorer_disconnect_confirms_entire_group_before_rollback() {
    for state in [TransactionState::Open, TransactionState::Failed, TransactionState::Unknown] {
        let mut front = preview_app();
        let [first, second] = connected_workspaces(&mut front);
        change_hidden(&mut front, &first, |workspace| {
            workspace.session_state = SessionState::Connected(state);
        });
        front.app.explorer_selected = 0;
        front.press(KeyCode::Char('c'), NONE);
        assert!(matches!(
            front.app.workspace.overlay,
            Some(Overlay::ConfirmExplorerDisconnect { .. })
        ));
        assert!(front.app.workspace.database_task.is_none());
        assert!(hidden(&front, &first).database_task.is_none());
        front.press(KeyCode::Esc, NONE);
        assert!(front.app.workspace.overlay.is_none());
        front.press(KeyCode::Char('c'), NONE);
        front.app.explorer_selected = 1;
        front.press(KeyCode::Char('y'), NONE);
        assert_eq!(front.app.active_target, Some(second));
        assert!(front.app.workspace.database_task.is_some());
        assert!(hidden(&front, &first).database_task.is_some());
    }
}

#[test]
fn explorer_disconnect_rejects_busy_group_without_partial_disconnect() {
    let mut front = preview_app();
    let [first, second] = connected_workspaces(&mut front);
    front.app.switch_workspace(first.clone());
    let original_operation = start_sql(&mut front, "SELECT 1");
    front.app.switch_workspace(second);
    front.app.explorer_selected = 0;
    front.press(KeyCode::Char('c'), NONE);
    assert!(front.app.workspace.database_task.is_none());
    assert!(front.app.workspace.status_is_error);
    assert_eq!(
        hidden(&front, &first).database_task.as_ref().unwrap().operation_id(),
        original_operation
    );
}

#[test]
fn explorer_descendants_disconnect_and_clear_preview_continuation() {
    let mut front = preview_app();
    let [first, second] = connected_workspaces(&mut front);
    front.app.expanded.insert(NodeKey::Database(first.0.clone(), first.1.clone()));
    front.app.schemas.insert(first.clone(), vec!["public".into()]);
    front.app.explorer_selected = 2;
    assert!(matches!(front.app.explorer_rows()[2].node, ExplorerNode::Schema { .. }));
    let continuation = PageRef {
        id: 42,
        profile_id: first.0.clone(),
        database: first.1.clone(),
        preview: true,
    };
    change_hidden(&mut front, &first, |workspace| workspace.result.page = Some(continuation));
    front.press(KeyCode::F(7), NONE);
    complete_disconnect(&mut front, &first);
    assert!(hidden(&front, &first).result.page.is_none());
    assert!(!hidden(&front, &first).result.rows.is_empty());
    front.press(KeyCode::F(7), NONE);
    assert!(hidden(&front, &first).database_task.is_none());
    assert!(front.app.workspace.status.contains("already disconnected"));
    assert_eq!(front.app.active_target, Some(second));
}

#[test]
fn explorer_toggle_connects_selected_database_and_preserves_other_workspace() {
    let mut front = preview_app();
    let [first, second] = connected_workspaces(&mut front);
    change_hidden(&mut front, &first, |workspace| {
        workspace.session_state = SessionState::Disconnected;
    });
    front.app.workspace.result = editable_result();
    front.app.sql = sql_editor("SELECT retained");
    front.app.explorer_selected = 1;
    assert!(!front.app.selected_connection_is_connected());
    front.press(KeyCode::Char('c'), CONTROL);
    assert_eq!(front.app.active_target, Some(second.clone()));
    assert!(front.app.workspace.database_task.is_none());
    front.press(KeyCode::Char('c'), NONE);
    assert_eq!(front.app.active_target, Some(first.clone()));
    let operation_id = front.operation();
    front.press(KeyCode::Char('c'), NONE);
    assert_eq!(front.operation(), operation_id);
    front.respond(
        operation_id,
        Some(SessionState::Connected(TransactionState::Idle)),
        Ok(Output::Session),
    );
    assert!(front.app.selected_connection_is_connected());
    assert!(matches!(hidden(&front, &second).session_state, SessionState::Connected(_)));
    assert_eq!(hidden(&front, &second).result, editable_result());
    assert_eq!(front.app.sql.lines(), ["SELECT retained"]);
    front.press(KeyCode::Char('c'), NONE);
    complete_disconnect(&mut front, &first);
    assert!(!front.app.selected_connection_is_connected());
}

#[test]
fn explorer_toggle_connects_profile_default_database() {
    for state in [SessionState::Disconnected, SessionState::Lost] {
        let mut front = preview_app();
        let target: Target = ("local".into(), "postgres".into());
        front.app.switch_workspace(target.clone());
        front.app.workspace.session_state = state;
        front.app.explorer_selected = 0;
        assert!(!front.app.selected_connection_is_connected());
        front.press(KeyCode::Char('c'), NONE);
        assert_eq!(front.app.active_target, Some(target));
        assert!(front.app.workspace.database_task.is_some());
        assert!(front.app.workspace.overlay.is_none());
        assert!(front.app.workspace.busy.as_ref().unwrap().contains("Connect"));
    }
}

// ---- Keys of the panes ----

#[test]
fn panes_resize_within_their_bounds() {
    let mut front = preview_app();
    for _ in 0..30 {
        front.press(KeyCode::Right, CONTROL);
    }
    assert_eq!(front.app.explorer_width_percent, 50);
    assert_eq!(front.app.workspace.status, "Explorer width: 50%");
    for _ in 0..30 {
        front.press(KeyCode::Left, CONTROL);
    }
    assert_eq!(front.app.explorer_width_percent, 15);
    front.press(KeyCode::Tab, NONE);
    assert_eq!(front.app.workspace.focus, Focus::Sql);
    front.press(KeyCode::Down, CONTROL);
    assert_eq!(front.app.sql_height_percent, 36);
    assert_eq!(front.app.workspace.status, "SQL height: 36%");
    for _ in 0..40 {
        front.press(KeyCode::Down, CONTROL);
    }
    assert_eq!(front.app.sql_height_percent, 80);
    front.press(KeyCode::BackTab, SHIFT);
    assert_eq!(front.app.workspace.focus, Focus::Explorer);
}

#[test]
fn sql_runs_only_with_text_and_target() {
    let mut front = preview_app();
    front.app.workspace.focus = Focus::Sql;
    front.press(KeyCode::F(5), NONE);
    assert_eq!(front.app.workspace.status, "SQL is empty");
    front.press(KeyCode::Char('x'), NONE);
    front.press(KeyCode::Enter, CONTROL);
    assert_eq!(
        front.app.workspace.status,
        "Expand a connection or database before running SQL"
    );
    front.app.active_target = Some(("gone".into(), "postgres".into()));
    front.press(KeyCode::F(5), NONE);
    assert_eq!(front.app.workspace.status, "The active connection no longer exists");
    front.app.active_target = Some(("local".into(), "postgres".into()));
    front.press(KeyCode::F(5), NONE);
    assert_eq!(front.app.workspace.status, "Running SQL on postgres");
    assert!(matches!(&front.spawned[0].1, Request::Query { sql, .. } if sql == "x"));
    front.app.dispatch(
        "again".into(),
        Request::Databases { profile: local_profile(), password: None },
    );
    assert_eq!(front.app.workspace.status, "Wait for this workspace's operation to finish");
}

#[test]
fn result_selection_stays_in_the_rows() {
    let mut front = preview_app();
    front.app.workspace.focus = Focus::Results;
    front.app.workspace.result.rows = (0..50).map(|row| vec![Some(row.to_string())]).collect();
    front.press(KeyCode::PageDown, NONE);
    assert_eq!(front.app.workspace.result_row, 20);
    front.press(KeyCode::PageDown, NONE);
    front.press(KeyCode::PageDown, NONE);
    assert_eq!(front.app.workspace.result_row, 49);
    front.press(KeyCode::PageUp, NONE);
    assert_eq!(front.app.workspace.result_row, 29);
    front.press(KeyCode::Char('g'), NONE);
    front.press(KeyCode::Up, NONE);
    assert_eq!(front.app.workspace.result_row, 0);
    for _ in 0..9 {
        front.press(KeyCode::Char('l'), NONE);
    }
    assert_eq!(front.app.workspace.result_column, 2);
    front.press(KeyCode::Char('h'), NONE);
    assert_eq!(front.app.workspace.result_column, 1);
}

#[test]
fn explorer_expands_to_tables_and_previews_them() {
    let mut front = preview_app();
    front.press(KeyCode::Enter, NONE);
    let id = front.operation();
    front.respond(
        id,
        None,
        Ok(Output::Databases { profile_id: "local".into(), names: vec!["postgres".into()] }),
    );
    front.press(KeyCode::Down, NONE);
    front.press(KeyCode::Enter, NONE);
    let id = front.operation();
    front.respond(
        id,
        None,
        Ok(Output::Schemas {
            profile_id: "local".into(),
            database: "postgres".into(),
            names: vec!["public".into()],
        }),
    );
    assert_eq!(front.app.workspace.status, "Loaded 1 schema(s)");
    front.press(KeyCode::End, NONE);
    front.press(KeyCode::Char(' '), NONE);
    let id = front.operation();
    let table = TableRef {
        profile_id: "local".into(),
        database: "postgres".into(),
        schema: "public".into(),
        name: "items".into(),
        kind: "table".into(),
    };
    front.respond(
        id,
        None,
        Ok(Output::Tables {
            profile_id: "local".into(),
            database: "postgres".into(),
            schema: "public".into(),
            tables: vec![table.clone()],
        }),
    );
    assert_eq!(front.app.workspace.status, "Loaded 1 relation(s)");
    assert_eq!(labels(&front), ["Local", "postgres", "public", "items  [table]"]);
    front.press(KeyCode::Char('j'), NONE);
    front.press(KeyCode::Right, NONE);
    assert_eq!(front.app.workspace.status, "Previewing public.items");
    assert!(
        matches!(&front.spawned.last().unwrap().1, Request::Preview { table: found, .. } if *found == table)
    );
    front.press(KeyCode::Char('k'), NONE);
    front.press(KeyCode::Left, NONE);
    assert_eq!(labels(&front), ["Local", "postgres", "public"]);
    front.press(KeyCode::Char('e'), NONE);
    assert_eq!(front.app.workspace.status, "Select a connection to edit it");
    front.press(KeyCode::Char('d'), NONE);
    assert_eq!(front.app.workspace.status, "Select a connection to delete it");
}
