//! Keys and responses act on the node, the target and the workspace that they are about.
use vstd::prelude::*;
use vstd::string::*;

use crate::app::explorer::ExplorerNodeView;
use crate::app::workspace::{Focus, OverlayView, SessionAction, WorkspaceView};
use crate::app::{AppView, EffectView, NodeKeyView};
use crate::db::paging::PageRefView;
use crate::db::sessions::{SessionState, TargetView};
use crate::db::{ErrorView, OutputView, QueryResultView, RequestView, ResponseView, TableRefView};
use crate::editor::EditorView;
use crate::keys::{KeyCode, KeyEvent};
use crate::laws::editing::hands_out;
use crate::storage::ConnectionProfileView;
use crate::text::{blank, joined};

verus! {

/// Opening a table previews that very table, with the profile it belongs to and that profile's password.
pub proof fn tables_are_previewed(app: AppView, table: TableRefView, profile: ConnectionProfileView)
    requires
        app.profile(table.profile_id) == Some(profile),
        app.workspace.database_task is None,
        !app.workspace.pending(),
    ensures
        hands_out(
            app,
            app.table_activated(table),
            RequestView::Preview { profile, password: profile.password, table },
        ),
{
}

/// Expanding a profile, a database or a schema asks for what lies directly below that very node, with the
/// profile of the node; it is expanded at once.
pub proof fn expanding_asks_for_what_lies_below(
    app: AppView,
    profile: ConnectionProfileView,
    database: Seq<char>,
    schema: Seq<char>,
)
    requires
        app.profile(profile.id) == Some(profile),
        app.workspace.database_task is None,
    ensures
        !app.expanded.contains(NodeKeyView::Connection(profile.id)) ==> hands_out(
            app,
            app.profile_activated(profile.id),
            RequestView::Databases { profile, password: profile.password },
        ) && app.profile_activated(profile.id).expanded == app.expanded.insert(
            NodeKeyView::Connection(profile.id),
        ),
        !app.expanded.contains(NodeKeyView::Database(profile.id, database)) ==> hands_out(
            app,
            app.database_activated(profile.id, database),
            RequestView::Schemas { profile, password: profile.password, database },
        ) && app.database_activated(profile.id, database).expanded == app.expanded.insert(
            NodeKeyView::Database(profile.id, database),
        ),
        !app.expanded.contains(NodeKeyView::Schema(profile.id, database, schema))
            && !app.tables.contains_key((profile.id, database, schema)) ==> hands_out(
            app,
            app.schema_activated(profile.id, database, schema),
            RequestView::Tables { profile, password: profile.password, database, schema },
        ),
        !app.expanded.contains(NodeKeyView::Schema(profile.id, database, schema))
            ==> app.schema_activated(profile.id, database, schema).expanded == app.expanded.insert(
            NodeKeyView::Schema(profile.id, database, schema),
        ),
{
}

/// Activating an expanded node collapses that node alone, and asks for nothing.
pub proof fn activating_an_expanded_node_collapses_it(
    app: AppView,
    profile_id: Seq<char>,
    database: Seq<char>,
    schema: Seq<char>,
)
    ensures
        app.expanded.contains(NodeKeyView::Connection(profile_id)) ==> app.profile_activated(
            profile_id,
        ) == (AppView {
            expanded: app.expanded.remove(NodeKeyView::Connection(profile_id)),
            ..app
        }),
        app.expanded.contains(NodeKeyView::Database(profile_id, database))
            ==> app.database_activated(profile_id, database) == (AppView {
            expanded: app.expanded.remove(NodeKeyView::Database(profile_id, database)),
            ..app
        }),
        app.expanded.contains(NodeKeyView::Schema(profile_id, database, schema))
            ==> app.schema_activated(profile_id, database, schema) == (AppView {
            expanded: app.expanded.remove(NodeKeyView::Schema(profile_id, database, schema)),
            ..app
        }),
{
}

/// Activating a node shows the workspace of its own profile and database, or of the default database for a
/// profile. The SQL text stays.
pub proof fn activating_shows_the_nodes_target(app: AppView, target: TargetView)
    requires
        app.selected_row() is Some,
        match app.selected_row()->Some_0.node {
            ExplorerNodeView::Connection(id) => app.profile(id) matches Some(profile) && target == (
                id,
                profile.database,
            ),
            ExplorerNodeView::Database { profile_id, database } => target == (profile_id, database),
            ExplorerNodeView::Schema { profile_id, database, .. } => target == (
                profile_id,
                database,
            ),
            ExplorerNodeView::Table(table) => target == (table.profile_id, table.database),
        },
    ensures
        app.activated().active_target == Some(target),
        app.activated().sql == app.sql,
        app.activated().profiles == app.profiles,
        app.switched(target).workspace.database_task is None ==> app.activated() == app.switched(
            target,
        ).node_activated(app.selected_row()->Some_0.node),
        app.switched(target).workspace.database_task is Some ==> app.activated() == app.switched(
            target,
        ),
{
    reveal(AppView::activated);
}

/// Running SQL sends the whole text of the editor, line by line, to the shown database of the shown profile.
/// Blank text is not sent.
pub proof fn sql_runs_on_the_shown_target(
    app: AppView,
    target: TargetView,
    profile: ConnectionProfileView,
)
    requires
        app.active_target == Some(target),
        app.profile(target.0) == Some(profile),
        app.workspace.database_task is None,
        app.workspace.busy is None,
        !app.workspace.pending(),
    ensures
        !blank(joined(app.sql.lines, "\n"@)) ==> hands_out(
            app,
            app.sql_run(),
            RequestView::Query { profile, database: target.1, sql: joined(app.sql.lines, "\n"@) },
        ),
        blank(joined(app.sql.lines, "\n"@)) ==> app.sql_run().effects == app.effects,
        app.sql_run().sql == app.sql,
{
    reveal(AppView::sql_run);
}

/// Lifecycle actions act on the shown database of the shown profile: Disconnect closes, Connect opens,
/// Reconnect opens anew, Quit quits.
pub proof fn lifecycle_actions_act_on_the_shown_target(
    app: AppView,
    target: TargetView,
    profile: ConnectionProfileView,
)
    requires
        app.active_target == Some(target),
        app.profile(target.0) == Some(profile),
        app.workspace.database_task is None,
    ensures
        hands_out(
            app,
            app.performed(SessionAction::Connect),
            RequestView::Connect { profile, database: target.1, reconnect: false },
        ),
        hands_out(
            app,
            app.performed(SessionAction::Reconnect),
            RequestView::Connect { profile, database: target.1, reconnect: true },
        ),
        hands_out(
            app,
            app.performed(SessionAction::Disconnect),
            RequestView::Disconnect { profile, database: target.1 },
        ),
        app.performed(SessionAction::Quit) == (AppView { should_quit: true, ..app }),
        app.performed(SessionAction::Connect).should_quit == app.should_quit,
        app.performed(SessionAction::Reconnect).should_quit == app.should_quit,
        app.performed(SessionAction::Disconnect).should_quit == app.should_quit,
{
}

/// Cancelling asks for the end of the operation that the shown workspace waits for, and keeps waiting.
pub proof fn cancelling_stops_the_shown_operation(app: AppView, operation_id: u64)
    requires
        app.workspace.database_task == Some(crate::db::Task { operation_id }),
    ensures
        app.cancel().effects == app.effects.push(EffectView::Cancel { operation_id }),
        app.cancel().workspace.database_task == app.workspace.database_task,
        app.cancel().workspace.result == app.workspace.result,
        app.cancel().workspace.edits == app.workspace.edits,
{
}

/// What a response says of databases, schemas or tables is kept under the place it was labelled with, and
/// what is known of other places stays.
pub proof fn listings_are_kept_under_their_place(
    app: AppView,
    output: OutputView,
    other: Seq<char>,
    other_target: TargetView,
    other_schema: (Seq<char>, Seq<char>, Seq<char>),
)
    ensures
        ({
            let next = app.with_metadata(Ok(output));
            match output {
                OutputView::Databases { profile_id, names } => next.databases.contains_key(
                    profile_id,
                ) && next.databases[profile_id] == names && (other != profile_id
                    && app.databases.contains_key(other) ==> next.databases.contains_key(other)
                    && next.databases[other] == app.databases[other]) && next.schemas == app.schemas
                    && next.tables == app.tables,
                OutputView::Schemas { profile_id, database, names } => next.schemas.contains_key(
                    (profile_id, database),
                ) && next.schemas[(profile_id, database)] == names && (other_target != (
                    profile_id,
                    database,
                ) && app.schemas.contains_key(other_target) ==> next.schemas.contains_key(
                    other_target,
                ) && next.schemas[other_target] == app.schemas[other_target]) && next.databases
                    == app.databases && next.tables == app.tables,
                OutputView::Tables { profile_id, database, schema, tables } =>
                next.tables.contains_key((profile_id, database, schema)) && next.tables[(
                    profile_id,
                    database,
                    schema,
                )] == tables && (other_schema != (profile_id, database, schema)
                    && app.tables.contains_key(other_schema) ==> next.tables.contains_key(
                    other_schema,
                ) && next.tables[other_schema] == app.tables[other_schema]) && next.databases
                    == app.databases && next.schemas == app.schemas,
                _ => next == app,
            }
        }),
{
}

/// A result that arrives is shown whole, from its first row, with nothing staged. F5 then loads the same again:
/// the table, or the query in its own database.
pub proof fn results_are_shown_whole(
    workspace: WorkspaceView,
    operation_id: u64,
    result: QueryResultView,
)
    requires
        workspace.owns(operation_id),
    ensures
        ({
            let after = workspace.respond(
                ResponseView {
                    session_state: None,
                    operation_id,
                    result: Ok(OutputView::Result(result)),
                },
            );
            &&& after.result == result && after.result_row == 0 && after.result_column == 0
            &&& after.edits.original is None && after.edits.new_defaults.len() == 0
                && !after.edits.uncertain
            &&& after.focus == Focus::Results && after.status == result.status
                && !after.status_is_error
            &&& result.source is Some && result.source->Some_0.query is None ==> after.refresh_table
                == Some(result.source->Some_0.table) && after.refresh_query is None
            &&& result.source is Some && result.source->Some_0.query is Some ==> after.refresh_query
                == Some((result.source->Some_0.table, result.source->Some_0.query->Some_0.sql))
                && after.refresh_table is None
        }),
{
}

/// A further page that fits comes behind the loaded rows and before the new ones, and nothing that was there
/// changes. A page of another cursor or of other columns changes no row.
pub proof fn pages_are_appended(
    workspace: WorkspaceView,
    operation_id: u64,
    requested: PageRefView,
    page: QueryResultView,
)
    requires
        workspace.owns(operation_id),
        workspace.valid(),
    ensures
        ({
            let after = workspace.respond(
                ResponseView {
                    session_state: None,
                    operation_id,
                    result: Ok(OutputView::Page { requested, result: page }),
                },
            );
            let loaded = workspace.result.rows.len() - workspace.edits.new_defaults.len();
            if workspace.result.page == Some(requested) && workspace.result.columns == page.columns {
                &&& after.result.rows == workspace.result.rows.take(loaded) + page.rows
                    + workspace.result.rows.skip(loaded)
                &&& after.result.page == page.page && after.result.columns
                    == workspace.result.columns && after.result.source == workspace.result.source
                &&& after.edits.new_defaults == workspace.edits.new_defaults && after.edits.deleted
                    == workspace.edits.deleted
            } else {
                after.result.rows == workspace.result.rows && after.result.page is None
                    && after.edits == workspace.edits && after.status_is_error
            }
        }),
{
    let loaded = workspace.result.rows.len() - workspace.edits.new_defaults.len();
    let rows = crate::app::table_edits::paged_rows(
        workspace.edits,
        workspace.result.rows,
        page.rows,
    );
    assert(workspace.result.rows.take(loaded) + page.rows + workspace.result.rows.skip(loaded)
        =~= rows);
}

/// A failure is reported as an error with its own message, a cancellation is not an error, and only a lost
/// COMMIT makes an outcome unknown.
pub proof fn failures_are_reported(workspace: WorkspaceView, operation_id: u64, error: ErrorView)
    requires
        workspace.owns(operation_id),
        !workspace.fetching_page,
    ensures
        ({
            let after = workspace.respond(
                ResponseView { session_state: None, operation_id, result: Err(error) },
            );
            &&& after.status_is_error == !(error.cause is Cancelled)
            &&& !(error.cause is Cancelled) ==> after.status == error.message()
            &&& after.edits.uncertain == (workspace.edits.uncertain
                || error.cause is UnknownCommit)
            &&& after.result == workspace.result
        }),
{
}

/// The session state of a response becomes that of the workspace, and without one it stays.
pub proof fn responses_carry_the_session_state(workspace: WorkspaceView, response: ResponseView)
    requires
        workspace.owns(response.operation_id),
    ensures
        workspace.respond(response).session_state == (match response.session_state {
            Some(state) => state,
            None => workspace.session_state,
        }),
{
}

/// A response reaches the workspace that waits for it and no other.
pub proof fn responses_reach_their_workspace(
    app: AppView,
    target: TargetView,
    response: ResponseView,
    other: TargetView,
)
    requires
        app.workspaces.contains_key(target),
        app.workspaces[target].owns(response.operation_id),
        other != target,
    ensures
        app.responded_at(target, response).workspaces[target] == app.workspaces[target].respond(
            response,
        ),
        app.responded_at(target, response).workspace == app.workspace,
        app.workspaces.contains_key(other) ==> app.responded_at(target, response).workspaces[other]
            == app.workspaces[other],
        app.responded(response).workspaces == app.workspaces,
        app.responded(response).workspace == app.workspace.respond(response),
{
}

/// An observed state reaches the workspace of its target, unless an operation runs there.
pub proof fn observed_states_reach_their_target(
    app: AppView,
    target: TargetView,
    state: SessionState,
    other: TargetView,
)
    requires
        other != target,
    ensures
        app.workspace_of(target) is Some && app.workspace_of(target)->Some_0.database_task is None
            ==> {
            let before = app.workspace_of(target)->Some_0;
            let after = app.observed(target, state).workspace_of(target)->Some_0;
            after.session_state == state && after.result == before.result && after.edits
                == before.edits
        },
        app.workspace_of(target) is Some && app.workspace_of(target)->Some_0.database_task is Some
            ==> app.observed(target, state) == app,
        app.observed(target, state).workspace_of(other) == app.workspace_of(other),
{
}

/// A new operation retires what it replaces: SQL, previews, disconnecting and reconnecting take the write
/// authority of query rows, and SQL, previews and saving end the continuation. Nothing else does, and the rows
/// stay in any case.
pub proof fn new_work_retires_the_old_result(
    app: AppView,
    description: Seq<char>,
    request: RequestView,
)
    requires
        app.workspace.database_task is None,
    ensures
        ({
            let after = app.dispatch(description, request).workspace;
            let before = app.workspace;
            let retires = request is Query || request is Preview || request is Disconnect || (
            request is Connect && request->reconnect);
            let ends = request is Query || request is Preview || request is SaveChanges;
            let custom = before.result.source is Some && before.result.source->Some_0.query is Some;
            &&& after.result.rows == before.result.rows && after.result.columns
                == before.result.columns
            &&& after.result.source == (if retires && custom {
                None
            } else {
                before.result.source
            })
            &&& retires && custom ==> after.result.read_only_reason is Some
            &&& after.result.page == (if ends {
                None
            } else {
                before.result.page
            })
            &&& after.fetching_page == request is FetchPage
            &&& after.status == description
        }),
{
}

/// The keys of the results: n adds, d deletes, Ctrl+S saves, Ctrl+Z discards, F5 refreshes, e and Enter open
/// the row.
pub proof fn result_keys_do_what_they_say(app: AppView, key: KeyEvent)
    ensures
        key.code == KeyCode::Insert || (key.code == KeyCode::Char('n') && !key.modifiers.control)
            ==> app.results_key(key) == app.attempted(app.row_added()),
        key.code == KeyCode::Delete || (key.code == KeyCode::Char('d') && !key.modifiers.control)
            ==> app.results_key(key) == app.attempted(app.row_deleted()),
        key.code == KeyCode::Char('s') && key.modifiers.control ==> app.results_key(key)
            == app.attempted(app.changes_saved()),
        key.code == KeyCode::Char('z') && key.modifiers.control ==> app.results_key(key)
            == app.changes_discarded(),
        key.code == KeyCode::F(5) ==> app.results_key(key) == app.attempted(app.refreshed(false)),
        key.code == KeyCode::Enter || key.code == KeyCode::Char('e') ==> app.results_key(key)
            == app.row_opened(),
{
    reveal(AppView::results_key);
}

/// The keys of the SQL pane: F5 and Ctrl+Enter run, Ctrl+S asks for a script name, Ctrl+L opens the picker,
/// and what is typed reaches the editor.
pub proof fn sql_keys_do_what_they_say(app: AppView, key: KeyEvent, typed: EditorView)
    ensures
        key.code == KeyCode::F(5) ==> app.sql_key(key, typed) == app.sql_run(),
        key.code == KeyCode::Enter && key.modifiers.control ==> app.sql_key(key, typed)
            == app.sql_run(),
        key.code == KeyCode::Char('s') && key.modifiers.control ==> (app.sql_key(
            key,
            typed,
        ).workspace.overlay matches Some(OverlayView::SaveScript { name, cursor }) && name.len()
            == 0 && cursor == 0),
        key.code == KeyCode::Char('l') && key.modifiers.control ==> app.sql_key(key, typed)
            == app.picker_opened(),
        key.code is Char && !key.modifiers.control ==> app.sql_key(key, typed) == (AppView {
            sql: typed,
            ..app
        }),
{
    reveal(AppView::sql_key);
}

/// The keys of the explorer: n opens an empty form, e the form of the selected connection, d asks about it, c
/// alone toggles its session, Enter opens and Left closes the node.
pub proof fn explorer_keys_do_what_they_say(
    app: AppView,
    key: KeyEvent,
    states: Seq<(TargetView, SessionState)>,
)
    requires
        !key.modifiers.control,
    ensures
        key.code == KeyCode::Char('n') ==> (app.explorer_key(
            key,
            states,
        ).workspace.overlay matches Some(OverlayView::Connection(form)) && form.editing_id is None),
        key.code == KeyCode::Char('e') ==> app.explorer_key(key, states) == app.connection_edited(),
        key.code == KeyCode::Char('d') ==> app.explorer_key(key, states) == app.deletion_asked(),
        key.code == KeyCode::Char('c') && !key.modifiers.alt && !key.modifiers.shift
            && !key.modifiers.other ==> app.explorer_key(key, states) == app.toggled(states),
        key.code == KeyCode::Enter || key.code == KeyCode::Right || key.code == KeyCode::Char(' ')
            ==> app.explorer_key(key, states) == app.activated(),
        key.code == KeyCode::Left ==> app.explorer_key(key, states) == app.collapsed(),
{
    reveal(AppView::explorer_key);
}

/// The keys that mean the same everywhere: Ctrl+Q asks to quit, F2 opens the settings as they are, F6 connects,
/// F8 reconnects, Escape cancels a running operation, Ctrl+PageDown and Ctrl+PageUp switch workspaces.
pub proof fn global_keys_do_what_they_say(
    app: AppView,
    key: KeyEvent,
    states: Seq<(TargetView, SessionState)>,
)
    ensures
        key.code == KeyCode::Char('q') && key.modifiers.control ==> app.global_key(key, states)
            == Some(app.requested(SessionAction::Quit, states)),
        key.code == KeyCode::PageDown && key.modifiers.control ==> app.global_key(key, states)
            == Some(app.cycled(true)),
        key.code == KeyCode::PageUp && key.modifiers.control ==> app.global_key(key, states)
            == Some(app.cycled(false)),
        key.code == KeyCode::F(2) ==> (app.global_key(key, states) matches Some(next)
            && next.workspace.overlay == Some(
            OverlayView::Settings { draft: app.settings, selected: 0 },
        )),
        key.code == KeyCode::F(6) ==> app.global_key(key, states) == Some(
            app.requested(SessionAction::Connect, states),
        ),
        key.code == KeyCode::F(7) && app.workspace.focus != Focus::Explorer ==> app.global_key(
            key,
            states,
        ) == Some(app.requested(SessionAction::Disconnect, states)),
        key.code == KeyCode::F(8) ==> app.global_key(key, states) == Some(
            app.requested(SessionAction::Reconnect, states),
        ),
        key.code == KeyCode::Esc && app.workspace.database_task is Some ==> app.global_key(
            key,
            states,
        ) == Some(app.cancel()),
        key.code == KeyCode::Tab ==> (app.global_key(key, states) matches Some(next)
            && next.workspace.focus == (match app.workspace.focus {
            Focus::Explorer => Focus::Sql,
            Focus::Sql => Focus::Results,
            Focus::Results => Focus::Explorer,
        }) && next.workspace.result == app.workspace.result && next.sql == app.sql),
{
    reveal(AppView::global_key);
}

/// A key goes to the open dialog; without one to the global keys, and otherwise to the focused pane.
pub proof fn keys_go_to_what_is_open(
    app: AppView,
    key: KeyEvent,
    states: Seq<(TargetView, SessionState)>,
    now: u128,
    typed: EditorView,
)
    ensures
        app.workspace.overlay is Some ==> app.key_pressed(key, states, now, typed)
            == app.overlay_key(key, states, now, typed),
        app.workspace.overlay is None ==> app.key_pressed(key, states, now, typed) == (
        match app.global_key(key, states) {
            Some(next) => next,
            None => match app.workspace.focus {
                Focus::Explorer => app.explorer_key(key, states),
                Focus::Sql => app.sql_key(key, typed),
                Focus::Results => app.results_key(key),
            },
        }),
{
}

/// The keys of the script dialogs: a name saves the whole text of the editor under it, Enter loads the
/// selected script, d asks about the selected one, and consent deletes the one that was asked about.
pub proof fn script_keys_name_their_script(
    app: AppView,
    key: KeyEvent,
    name: Seq<char>,
    cursor: usize,
    selected: usize,
)
    ensures
        key.code == KeyCode::Enter ==> app.save_script_key(name, cursor, key).effects
            == app.effects.push(
            EffectView::SaveScript { name, sql: joined(app.sql.lines, "\n"@) },
        ),
        key.code != KeyCode::Enter ==> app.save_script_key(name, cursor, key).effects
            == app.effects,
        selected < app.scripts.len() && key.code == KeyCode::Enter ==> app.load_script_key(
            selected,
            key,
        ).effects == app.effects.push(
            EffectView::LoadScript { name: app.scripts[selected as int] },
        ),
        selected < app.scripts.len() && (key.code == KeyCode::Char('d') || key.code
            == KeyCode::Delete) ==> app.load_script_key(selected, key).workspace.overlay == Some(
            OverlayView::ConfirmDeleteScript { name: app.scripts[selected as int], selected },
        ) && app.load_script_key(selected, key).effects == app.effects,
        key.code == KeyCode::Char('y') || key.code == KeyCode::Enter ==> app.delete_script_key(
            name,
            selected,
            key,
        ).effects == app.effects.push(EffectView::DeleteScript { name }),
        key.code != KeyCode::Char('y') && key.code != KeyCode::Enter ==> app.delete_script_key(
            name,
            selected,
            key,
        ).effects == app.effects,
{
    reveal(AppView::save_script_key);
    reveal(AppView::load_script_key);
    reveal(AppView::delete_script_key);
}

/// Questions act only on consent: a refresh, a lifecycle action, a group and a deletion happen on Y, as they
/// were asked about, and on nothing else but, for deletions, Enter.
pub proof fn questions_act_on_consent(
    app: AppView,
    key: KeyEvent,
    action: SessionAction,
    targets: Seq<TargetView>,
    profile_id: Seq<char>,
    states: Seq<(TargetView, SessionState)>,
)
    ensures
        key.code == KeyCode::Char('y') ==> app.session_key(action, key)
            == app.without_overlay().performed(action) && app.group_key(targets, key, states)
            == app.without_overlay().disconnected(true, Some(targets), states)
            && app.delete_connection_key(profile_id, key)
            == app.without_overlay().deletion_requested(profile_id),
        key.code == KeyCode::Enter ==> app.delete_connection_key(profile_id, key)
            == app.without_overlay().deletion_requested(profile_id),
        key.code != KeyCode::Char('y') ==> app.session_key(action, key).effects == app.effects
            && app.session_key(action, key).should_quit == app.should_quit && app.group_key(
            targets,
            key,
            states,
        ).effects == app.effects && app.refresh_key(key).effects == app.effects,
        key.code != KeyCode::Char('y') && key.code != KeyCode::Enter ==> app.delete_connection_key(
            profile_id,
            key,
        ).effects == app.effects,
{
    reveal(AppView::session_key);
    reveal(AppView::group_key);
    reveal(AppView::refresh_key);
    reveal(AppView::delete_connection_key);
}

/// A node is marked connected exactly where a workspace of its own profile, and of its own database where it
/// has one, is connected.
pub proof fn marks_follow_the_sessions(
    app: AppView,
    profile_id: Seq<char>,
    database: Option<Seq<char>>,
    target: TargetView,
)
    ensures
        target.0 == profile_id && (database is None || database == Some(target.1))
            && app.workspace_of(target) is Some && app.workspace_of(
            target,
        )->Some_0.session_state is Connected ==> app.connected(profile_id, database),
        app.connected(profile_id, database) ==> exists|other: TargetView|
            other.0 == profile_id && (database is None || database == Some(other.1)) && (
            (app.active_target == Some(other) && app.workspace.session_state is Connected) || (
            #[trigger] app.workspaces.contains_key(other)
                && app.workspaces[other].session_state is Connected)),
{
    if app.workspace_of(target) is Some && app.workspace_of(
        target,
    )->Some_0.session_state is Connected {
        assert(app.has_session(target));
    }
    if app.connected(profile_id, database) {
        let other = choose|other: TargetView| #[trigger]
            app.has_session(other) && other.0 == profile_id && (database is None || database
                == Some(other.1));
        assert(app.has_session(other));
        let hidden = app.workspaces.contains_key(other);
        assert((app.active_target == Some(other) && app.workspace.session_state is Connected) || (
        hidden && app.workspaces[other].session_state is Connected));
    }
}

} // verus!
