//! Keys for the panes, and the actions behind them.
use vstd::prelude::*;
use vstd::string::*;

use crate::app::explorer::{
    collapsing_removes_the_rows_below, pruned, ExplorerNode, ExplorerNodeView,
};
use crate::app::explorer_sessions::closing_keeps_the_shown_target;
use crate::app::forms::{new_form, ConnectionForm};
use crate::app::overlays::{move_in_list, moved};
use crate::app::sessions::polling_keeps_the_rest;
use crate::app::workspace::{Focus, Overlay, OverlayView, SessionAction, WorkspaceView};
use crate::app::{App, AppView, NodeKey, NodeKeyView};
use crate::db::sessions::{SessionState, TargetView};
use crate::db::{Request, RequestView};
use crate::editor::{types, EditorView};
use crate::keys::{is_run_key, KeyCode, KeyEvent};
use crate::text::{blank, concat, concat3, decimal, decimal_text, is_blank, join, joined};
use crate::value::Value;

verus! {

/// The bounds of the explorer's width, in percent.
pub const MIN_EXPLORER_WIDTH_PERCENT: u16 = 15;

/// The bounds of the explorer's width, in percent.
pub const MAX_EXPLORER_WIDTH_PERCENT: u16 = 50;

/// The bounds of the SQL pane's height, in percent.
pub const MIN_SQL_HEIGHT_PERCENT: u16 = 15;

/// The bounds of the SQL pane's height, in percent.
pub const MAX_SQL_HEIGHT_PERCENT: u16 = 80;

/// How much one key press resizes a pane, in percent.
pub const RESIZE_STEP_PERCENT: i16 = 2;

/// A number brought between bounds.
pub open spec fn bounded(value: int, low: int, high: int) -> int {
    if value < low {
        low
    } else if value > high {
        high
    } else {
        value
    }
}

/// The pane behind Tab.
pub open spec fn next_focus(focus: Focus) -> Focus {
    match focus {
        Focus::Explorer => Focus::Sql,
        Focus::Sql => Focus::Results,
        Focus::Results => Focus::Explorer,
    }
}

/// The pane behind Shift+Tab.
pub open spec fn previous_focus(focus: Focus) -> Focus {
    match focus {
        Focus::Explorer => Focus::Results,
        Focus::Sql => Focus::Explorer,
        Focus::Results => Focus::Sql,
    }
}

/// Shift+Tab undoes Tab.
pub proof fn shift_tab_undoes_tab(focus: Focus)
    ensures
        previous_focus(next_focus(focus)) == focus,
        next_focus(previous_focus(focus)) == focus,
{
}

/// The key under which a node's expansion is remembered; tables cannot be expanded.
pub open spec fn expansion_key(node: ExplorerNodeView) -> Option<NodeKeyView> {
    match node {
        ExplorerNodeView::Connection(id) => Some(NodeKeyView::Connection(id)),
        ExplorerNodeView::Database { profile_id, database } => Some(
            NodeKeyView::Database(profile_id, database),
        ),
        ExplorerNodeView::Schema { profile_id, database, schema } => Some(
            NodeKeyView::Schema(profile_id, database, schema),
        ),
        ExplorerNodeView::Table(_) => None,
    }
}

/// The position behind a key in the rows of a result.
pub open spec fn moved_row(selected: usize, count: nat, code: KeyCode) -> usize {
    let last = if count > 0 { count - 1 } else { 0 };
    if code == KeyCode::PageDown {
        bounded(selected + 20, 0, last) as usize
    } else if code == KeyCode::PageUp {
        if selected > 20 {
            (selected - 20) as usize
        } else {
            0
        }
    } else {
        moved(selected, count, code)
    }
}

/// The position behind a key in the columns of a result.
pub open spec fn moved_column(selected: usize, count: nat, code: KeyCode) -> usize {
    let last = if count > 0 { count - 1 } else { 0 };
    if code == KeyCode::Left || code == KeyCode::Char('h') {
        if selected > 0 {
            (selected - 1) as usize
        } else {
            0
        }
    } else if code == KeyCode::Right || code == KeyCode::Char('l') {
        if selected < last {
            (selected + 1) as usize
        } else {
            last as usize
        }
    } else {
        selected
    }
}

/// Whether a key asks for the end of the rows.
pub open spec fn reaches_down(code: KeyCode) -> bool {
    code == KeyCode::Down || code == KeyCode::Char('j') || code == KeyCode::PageDown || code
        == KeyCode::End || code == KeyCode::Char('G')
}

impl AppView {
    /// The state with another explorer width, within bounds that keep every pane usable.
    pub open spec fn explorer_resized(self, change: int) -> AppView {
        let width = bounded(
            self.explorer_width_percent + change,
            MIN_EXPLORER_WIDTH_PERCENT as int,
            MAX_EXPLORER_WIDTH_PERCENT as int,
        );
        AppView { explorer_width_percent: width as u16, ..self }.with_status(
            "Explorer width: "@ + decimal(width as nat) + "%"@,
            false,
        )
    }

    /// The state with another SQL height, within bounds that keep every pane usable.
    pub open spec fn sql_resized(self, change: int) -> AppView {
        let height = bounded(
            self.sql_height_percent + change,
            MIN_SQL_HEIGHT_PERCENT as int,
            MAX_SQL_HEIGHT_PERCENT as int,
        );
        AppView { sql_height_percent: height as u16, ..self }.with_status(
            "SQL height: "@ + decimal(height as nat) + "%"@,
            false,
        )
    }

    /// The target of an explorer node; that of a profile is its default database.
    pub open spec fn node_target(self, node: ExplorerNodeView) -> Option<TargetView> {
        match node {
            ExplorerNodeView::Connection(id) => match self.profile(id) {
                Some(profile) => Some((id, profile.database)),
                None => None,
            },
            ExplorerNodeView::Database { profile_id, database } => Some((profile_id, database)),
            ExplorerNodeView::Schema { profile_id, database, .. } => Some((profile_id, database)),
            ExplorerNodeView::Table(table) => Some((table.profile_id, table.database)),
        }
    }

    pub open spec fn expand(self, key: NodeKeyView) -> AppView {
        AppView { expanded: self.expanded.insert(key), ..self }
    }

    pub open spec fn collapse(self, key: NodeKeyView) -> AppView {
        AppView { expanded: self.expanded.remove(key), ..self }
    }

    /// The state with a profile collapsed, or expanded and its databases loading. Loading ensures a session
    /// even where the databases are cached.
    pub open spec fn profile_activated(self, id: Seq<char>) -> AppView {
        let key = NodeKeyView::Connection(id);
        if self.expanded.contains(key) {
            self.collapse(key)
        } else {
            match self.profile(id) {
                Some(profile) => self.expand(key).dispatch(
                    "Connecting to "@ + profile.name,
                    RequestView::Databases { password: profile.password, profile },
                ),
                None => self.expand(key),
            }
        }
    }

    /// The state with a database collapsed, or expanded and its schemas loading.
    pub open spec fn database_activated(self, id: Seq<char>, database: Seq<char>) -> AppView {
        let key = NodeKeyView::Database(id, database);
        if self.expanded.contains(key) {
            self.collapse(key)
        } else {
            match self.profile(id) {
                Some(profile) => self.expand(key).dispatch(
                    "Loading schemas from "@ + database,
                    RequestView::Schemas { password: profile.password, profile, database },
                ),
                None => self.expand(key),
            }
        }
    }

    /// The state with a schema collapsed, or expanded and its tables loading where they are not cached.
    pub open spec fn schema_activated(
        self,
        id: Seq<char>,
        database: Seq<char>,
        schema: Seq<char>,
    ) -> AppView {
        let key = NodeKeyView::Schema(id, database, schema);
        if self.expanded.contains(key) {
            self.collapse(key)
        } else {
            match self.profile(id) {
                Some(profile) => if self.tables.contains_key((id, database, schema)) {
                    self.expand(key)
                } else {
                    self.expand(key).dispatch(
                        "Loading relations from "@ + schema,
                        RequestView::Tables {
                            password: profile.password,
                            profile,
                            database,
                            schema,
                        },
                    )
                },
                None => self.expand(key),
            }
        }
    }

    /// The state with a table's rows loading. Staged rows are never replaced silently.
    pub open spec fn table_activated(self, table: crate::db::TableRefView) -> AppView {
        if self.workspace.pending() {
            self.with_status(
                "Save or discard table changes before opening another table; refresh any unknown save outcome first"@,
                true,
            )
        } else {
            match self.profile(table.profile_id) {
                Some(profile) => self.dispatch(
                    "Previewing "@ + table.schema + "."@ + table.name,
                    RequestView::Preview { password: profile.password, profile, table },
                ),
                None => self,
            }
        }
    }

    /// The state with an explorer node activated.
    pub open spec fn node_activated(self, node: ExplorerNodeView) -> AppView {
        match node {
            ExplorerNodeView::Connection(id) => self.profile_activated(id),
            ExplorerNodeView::Database { profile_id, database } => self.database_activated(
                profile_id,
                database,
            ),
            ExplorerNodeView::Schema { profile_id, database, schema } => self.schema_activated(
                profile_id,
                database,
                schema,
            ),
            ExplorerNodeView::Table(table) => self.table_activated(table),
        }
    }

    /// The state with the selected node activated. Its workspace is shown first, so that a busy database
    /// never blocks navigation to another.
    #[verifier::opaque]
    pub open spec fn activated(self) -> AppView {
        match self.selected_row() {
            None => self,
            Some(row) => match self.node_target(row.node) {
                None => self,
                Some(target) => {
                    let next = self.switched(target);
                    if next.workspace.database_task is Some {
                        next
                    } else {
                        next.node_activated(row.node)
                    }
                },
            },
        }
    }

    /// The state with the selected node collapsed.
    #[verifier::opaque]
    pub open spec fn collapsed(self) -> AppView {
        match self.selected_row() {
            None => self,
            Some(row) => match expansion_key(row.node) {
                Some(key) => self.collapse(key),
                None => self,
            },
        }
    }

    /// The state with the text of the SQL editor running. Staged rows are never replaced silently.
    #[verifier::opaque]
    pub open spec fn sql_run(self) -> AppView {
        let sql = joined(self.sql.lines, "\n"@);
        if self.workspace.pending() {
            self.with_status(
                "Save or discard table changes before running SQL; refresh any unknown save outcome first"@,
                true,
            )
        } else if self.workspace.busy is Some {
            self
        } else if blank(sql) {
            self.with_status("SQL is empty"@, true)
        } else {
            match self.active_target {
                None => self.with_status(
                    "Expand a connection or database before running SQL"@,
                    true,
                ),
                Some(target) => match self.profile(target.0) {
                    None => self.with_status("The active connection no longer exists"@, true),
                    Some(profile) => self.dispatch(
                        "Running SQL on "@ + target.1,
                        RequestView::Query { profile, database: target.1, sql },
                    ),
                },
            }
        }
    }

    /// The explorer behind a key.
    #[verifier::opaque]
    pub open spec fn explorer_key(
        self,
        key: KeyEvent,
        states: Seq<(TargetView, SessionState)>,
    ) -> AppView {
        let code = key.code;
        let rows = self.rows().len();
        if key.modifiers.control && code == KeyCode::Left {
            self.explorer_resized(-RESIZE_STEP_PERCENT)
        } else if key.modifiers.control && code == KeyCode::Right {
            self.explorer_resized(RESIZE_STEP_PERCENT as int)
        } else {
            match code {
                KeyCode::Enter | KeyCode::Right => self.activated(),
                KeyCode::Left => self.collapsed(),
                KeyCode::Char(c) => if c == ' ' {
                    self.activated()
                } else if c == 'n' {
                    self.with_overlay(OverlayView::Connection(new_form(self.user)))
                } else if c == 'e' {
                    self.connection_edited()
                } else if c == 'd' {
                    self.deletion_asked()
                } else if c == 'c' && key.modifiers.empty() {
                    self.toggled(states)
                } else {
                    AppView { explorer_selected: moved(self.explorer_selected, rows, code), ..self }
                },
                _ => AppView {
                    explorer_selected: moved(self.explorer_selected, rows, code),
                    ..self
                },
            }
        }
    }

    /// The SQL pane behind a key. `typed` is what the key makes of the editor, where it takes the key.
    #[verifier::opaque]
    pub open spec fn sql_key(self, key: KeyEvent, typed: EditorView) -> AppView {
        if key.modifiers.control && key.code == KeyCode::Up {
            self.sql_resized(-RESIZE_STEP_PERCENT)
        } else if key.modifiers.control && key.code == KeyCode::Down {
            self.sql_resized(RESIZE_STEP_PERCENT as int)
        } else if key.runs_sql() {
            self.sql_run()
        } else if key.is_control('s') {
            self.with_overlay(OverlayView::SaveScript { name: Seq::empty(), cursor: 0 })
        } else if key.is_control('l') {
            self.picker_opened()
        } else {
            AppView { sql: typed, ..self }
        }
    }

    /// Whether the SQL editor takes a key of its pane.
    pub open spec fn sql_takes(self, key: KeyEvent) -> bool {
        !(key.modifiers.control && (key.code == KeyCode::Up || key.code == KeyCode::Down))
            && !key.runs_sql() && !key.is_control('s') && !key.is_control('l')
    }

    /// What is known of what a key makes of the editor that takes it: that of an open row, or the SQL
    /// editor of the focused pane.
    pub open spec fn typing(
        self,
        key: KeyEvent,
        states: Seq<(TargetView, SessionState)>,
        typed: EditorView,
    ) -> bool {
        if self.workspace.overlay is Some {
            self.row_typing(key, typed)
        } else {
            self.global_key(key, states) is None && self.workspace.focus == Focus::Sql
                && self.sql_takes(key) ==> types(self.sql, key, typed)
        }
    }

    /// The state behind an action, with the reason where it was refused.
    pub open spec fn attempted(self, outcome: Result<AppView, Seq<char>>) -> AppView {
        match outcome {
            Ok(next) => next,
            Err(problem) => self.with_status(problem, true),
        }
    }

    /// The results with the selection moved by a key.
    pub open spec fn selection_moved(self, code: KeyCode) -> AppView {
        self.with_workspace(
            WorkspaceView {
                result_row: moved_row(
                    self.workspace.result_row,
                    self.workspace.result.rows.len(),
                    code,
                ),
                result_column: moved_column(
                    self.workspace.result_column,
                    self.workspace.result.columns.len(),
                    code,
                ),
                ..self.workspace
            },
        )
    }

    /// The state that fetches the next page, where a key reached the last row and there is one. One such
    /// key requests one page; the end of the rows is never drained automatically.
    pub open spec fn page_requested(self, code: KeyCode) -> AppView {
        let rows = self.workspace.result.rows.len();
        let last = if rows > 0 { rows - 1 } else { 0 };
        if reaches_down(code) && self.workspace.result_row >= last
            && self.workspace.database_task is None && self.workspace.result.page is Some {
            self.dispatch(
                "Loading next 200 rows"@,
                RequestView::FetchPage { page: self.workspace.result.page->Some_0 },
            )
        } else {
            self
        }
    }

    /// The results behind a key. Row actions stage locally; only Ctrl+S sends the batch.
    #[verifier::opaque]
    pub open spec fn results_key(self, key: KeyEvent) -> AppView {
        let code = key.code;
        let control = key.modifiers.control;
        if code == KeyCode::Insert || (code == KeyCode::Char('n') && !control) {
            self.attempted(self.row_added())
        } else if code == KeyCode::Delete || (code == KeyCode::Char('d') && !control) {
            self.attempted(self.row_deleted())
        } else if code == KeyCode::Char('s') && control {
            self.attempted(self.changes_saved())
        } else if code == KeyCode::Char('z') && control {
            self.changes_discarded()
        } else if code == KeyCode::F(5) {
            self.attempted(self.refreshed(false))
        } else if code == KeyCode::Enter || code == KeyCode::Char('e') {
            self.row_opened()
        } else {
            self.selection_moved(code).page_requested(code)
        }
    }

    /// The state behind a key. `states` are the session states that were just observed, `now` is the time in
    /// nanoseconds, and `typed` is what the key makes of a text editor that takes it.
    pub open spec fn key_pressed(
        self,
        key: KeyEvent,
        states: Seq<(TargetView, SessionState)>,
        now: u128,
        typed: EditorView,
    ) -> AppView {
        if self.workspace.overlay is Some {
            self.overlay_key(key, states, now, typed)
        } else {
            match self.global_key(key, states) {
                Some(next) => next,
                None => match self.workspace.focus {
                    Focus::Explorer => self.explorer_key(key, states),
                    Focus::Sql => self.sql_key(key, typed),
                    Focus::Results => self.results_key(key),
                },
            }
        }
    }

    /// The state behind a key that means the same in every pane; none for other keys.
    #[verifier::opaque]
    pub open spec fn global_key(
        self,
        key: KeyEvent,
        states: Seq<(TargetView, SessionState)>,
    ) -> Option<AppView> {
        let code = key.code;
        if key.is_control('q') {
            Some(self.requested(SessionAction::Quit, states))
        } else if key.modifiers.control && (code == KeyCode::PageUp || code == KeyCode::PageDown) {
            Some(self.cycled(code == KeyCode::PageDown))
        } else if code == KeyCode::F(2) {
            Some(self.with_overlay(OverlayView::Settings { draft: self.settings, selected: 0 }))
        } else if code == KeyCode::F(6) {
            Some(self.requested(SessionAction::Connect, states))
        } else if code == KeyCode::F(7) {
            if self.workspace.focus == Focus::Explorer {
                Some(self.disconnected(false, None, states))
            } else {
                Some(self.requested(SessionAction::Disconnect, states))
            }
        } else if code == KeyCode::F(8) {
            Some(self.requested(SessionAction::Reconnect, states))
        } else if code == KeyCode::Esc && self.workspace.database_task is Some {
            Some(self.cancel())
        } else if code == KeyCode::Tab {
            Some(
                self.with_workspace(
                    WorkspaceView { focus: next_focus(self.workspace.focus), ..self.workspace },
                ),
            )
        } else if code == KeyCode::BackTab {
            Some(
                self.with_workspace(
                    WorkspaceView { focus: previous_focus(self.workspace.focus), ..self.workspace },
                ),
            )
        } else {
            None
        }
    }
}

fn bring_between(value: i32, low: u16, high: u16) -> (result: u16)
    requires
        low <= high,
    ensures
        result == bounded(value as int, low as int, high as int),
{
    if value < low as i32 {
        low
    } else if value > high as i32 {
        high
    } else {
        value as u16
    }
}

fn percent_text(what: &str, value: u16) -> (text: String)
    ensures
        text@ == what@ + decimal(value as nat) + "%"@,
{
    concat3(what, decimal_text(value as u64).as_str(), "%")
}

fn move_row(selected: usize, count: usize, code: KeyCode) -> (next: usize)
    ensures
        next == moved_row(selected, count as nat, code),
{
    let last: usize = if count > 0 {
        count - 1
    } else {
        0
    };
    if code == KeyCode::PageDown {
        if selected <= last && last - selected >= 20 {
            selected + 20
        } else {
            last
        }
    } else if code == KeyCode::PageUp {
        if selected > 20 {
            selected - 20
        } else {
            0
        }
    } else {
        move_in_list(selected, count, code)
    }
}

fn move_column(selected: usize, count: usize, code: KeyCode) -> (next: usize)
    ensures
        next == moved_column(selected, count as nat, code),
{
    let last: usize = if count > 0 {
        count - 1
    } else {
        0
    };
    if code == KeyCode::Left || code == KeyCode::Char('h') {
        if selected > 0 {
            selected - 1
        } else {
            0
        }
    } else if code == KeyCode::Right || code == KeyCode::Char('l') {
        if selected < last {
            selected + 1
        } else {
            last
        }
    } else {
        selected
    }
}

impl App {
    fn resize_explorer(&mut self, change: i16)
        ensures
            final(self)@ == old(self)@.explorer_resized(change as int),
            old(self)@.valid() ==> final(self)@.valid(),
    {
        self.explorer_width_percent = bring_between(
            self.explorer_width_percent as i32 + change as i32,
            MIN_EXPLORER_WIDTH_PERCENT,
            MAX_EXPLORER_WIDTH_PERCENT,
        );
        let status = percent_text("Explorer width: ", self.explorer_width_percent);
        self.set_status(status, false);
    }

    fn resize_sql(&mut self, change: i16)
        ensures
            final(self)@ == old(self)@.sql_resized(change as int),
            old(self)@.valid() ==> final(self)@.valid(),
    {
        self.sql_height_percent = bring_between(
            self.sql_height_percent as i32 + change as i32,
            MIN_SQL_HEIGHT_PERCENT,
            MAX_SQL_HEIGHT_PERCENT,
        );
        let status = percent_text("SQL height: ", self.sql_height_percent);
        self.set_status(status, false);
    }

    fn target_of(&self, node: &ExplorerNode) -> (target: Option<(String, String)>)
        ensures
            target.deep_view() == self@.node_target(node@),
    {
        match node {
            ExplorerNode::Connection(id) => match self.profile(id.as_str()) {
                Some(profile) => Some((id.clone(), profile.database.clone())),
                None => None,
            },
            ExplorerNode::Database { profile_id, database } => Some(
                (profile_id.clone(), database.clone()),
            ),
            ExplorerNode::Schema { profile_id, database, schema: _ } => Some(
                (profile_id.clone(), database.clone()),
            ),
            ExplorerNode::Table(table) => Some((table.profile_id.clone(), table.database.clone())),
        }
    }

    fn activate_profile(&mut self, id: String)
        ensures
            final(self)@ == old(self)@.profile_activated(id@),
            old(self)@.valid() ==> final(self)@.valid(),
    {
        let key = NodeKey::Connection(id.clone());
        if self.expanded.remove(&key) {
            return;
        }
        self.expanded.insert(key);
        proof {
            assert(self@.expanded =~= old(self)@.expanded.insert(NodeKeyView::Connection(id@)));
        }
        let profile = match self.profile(id.as_str()) {
            Some(profile) => profile.duplicate(),
            None => {
                return;
            },
        };
        let password = profile.password.duplicate();
        self.dispatch(
            concat("Connecting to ", profile.name.as_str()),
            Request::Databases { profile, password },
        );
    }

    fn activate_database(&mut self, id: String, database: String)
        ensures
            final(self)@ == old(self)@.database_activated(id@, database@),
            old(self)@.valid() ==> final(self)@.valid(),
    {
        let key = NodeKey::Database(id.clone(), database.clone());
        if self.expanded.remove(&key) {
            return;
        }
        self.expanded.insert(key);
        proof {
            assert(self@.expanded =~= old(self)@.expanded.insert(
                NodeKeyView::Database(id@, database@),
            ));
        }
        let profile = match self.profile(id.as_str()) {
            Some(profile) => profile.duplicate(),
            None => {
                return;
            },
        };
        let password = profile.password.duplicate();
        self.dispatch(
            concat("Loading schemas from ", database.as_str()),
            Request::Schemas { profile, password, database },
        );
    }

    fn activate_schema(&mut self, id: String, database: String, schema: String)
        ensures
            final(self)@ == old(self)@.schema_activated(id@, database@, schema@),
            old(self)@.valid() ==> final(self)@.valid(),
    {
        let key = NodeKey::Schema(id.clone(), database.clone(), schema.clone());
        if self.expanded.remove(&key) {
            return;
        }
        self.expanded.insert(key);
        proof {
            assert(self@.expanded =~= old(self)@.expanded.insert(
                NodeKeyView::Schema(id@, database@, schema@),
            ));
        }
        if self.tables.contains(&(id.clone(), database.clone(), schema.clone())) {
            return;
        }
        let profile = match self.profile(id.as_str()) {
            Some(profile) => profile.duplicate(),
            None => {
                return;
            },
        };
        let password = profile.password.duplicate();
        self.dispatch(
            concat("Loading relations from ", schema.as_str()),
            Request::Tables { profile, password, database, schema },
        );
    }

    fn activate_table(&mut self, table: crate::db::TableRef)
        requires
            old(self)@.valid(),
        ensures
            final(self)@ == old(self)@.table_activated(table@),
            final(self)@.valid(),
    {
        if self.workspace.is_pending() {
            self.report(
                "Save or discard table changes before opening another table; refresh any unknown save outcome first",
                true,
            );
            return;
        }
        let profile = match self.profile(table.profile_id.as_str()) {
            Some(profile) => profile.duplicate(),
            None => {
                return;
            },
        };
        let password = profile.password.duplicate();
        let mut description = concat3("Previewing ", table.schema.as_str(), ".");
        description.append(table.name.as_str());
        self.dispatch(description, Request::Preview { profile, password, table });
    }

    /// Activates the selected node: shows its workspace, and expands, collapses or previews it.
    pub fn activate_selected(&mut self)
        requires
            old(self)@.valid(),
        ensures
            final(self)@ == old(self)@.activated(),
            final(self)@.valid(),
    {
        proof {
            reveal(AppView::activated);
        }
        let row = match self.selected_explorer_row() {
            Some(row) => row,
            None => {
                return;
            },
        };
        let target = match self.target_of(&row.node) {
            Some(target) => target,
            None => {
                return;
            },
        };
        self.switch_workspace(target);
        if self.workspace.database_task.is_some() {
            return;
        }
        match row.node {
            ExplorerNode::Connection(id) => self.activate_profile(id),
            ExplorerNode::Database { profile_id, database } => self.activate_database(
                profile_id,
                database,
            ),
            ExplorerNode::Schema { profile_id, database, schema } => self.activate_schema(
                profile_id,
                database,
                schema,
            ),
            ExplorerNode::Table(table) => self.activate_table(table),
        }
    }

    /// Collapses the selected node. The session stays as it is.
    pub fn collapse_selected(&mut self)
        ensures
            final(self)@ == old(self)@.collapsed(),
            old(self)@.valid() ==> final(self)@.valid(),
    {
        proof {
            reveal(AppView::collapsed);
        }
        let row = match self.selected_explorer_row() {
            Some(row) => row,
            None => {
                return;
            },
        };
        let key = match row.node {
            ExplorerNode::Connection(id) => NodeKey::Connection(id),
            ExplorerNode::Database { profile_id, database } => NodeKey::Database(
                profile_id,
                database,
            ),
            ExplorerNode::Schema { profile_id, database, schema } => NodeKey::Schema(
                profile_id,
                database,
                schema,
            ),
            ExplorerNode::Table(_) => {
                return;
            },
        };
        let _ = self.expanded.remove(&key);
    }

    /// Runs the text of the SQL editor.
    pub fn run_sql(&mut self)
        requires
            old(self)@.valid(),
        ensures
            final(self)@ == old(self)@.sql_run(),
            final(self)@.valid(),
    {
        proof {
            reveal(AppView::sql_run);
        }
        if self.workspace.is_pending() {
            self.report(
                "Save or discard table changes before running SQL; refresh any unknown save outcome first",
                true,
            );
            return;
        }
        if self.workspace.busy.is_some() {
            return;
        }
        let sql = join(&self.sql.lines(), "\n");
        if is_blank(sql.as_str()) {
            self.report("SQL is empty", true);
            return;
        }
        let (profile_id, database) = match &self.active_target {
            Some(target) => target.duplicate(),
            None => {
                self.report("Expand a connection or database before running SQL", true);
                return;
            },
        };
        let profile = match self.profile(profile_id.as_str()) {
            Some(profile) => profile.duplicate(),
            None => {
                self.report("The active connection no longer exists", true);
                return;
            },
        };
        self.dispatch(
            concat("Running SQL on ", database.as_str()),
            Request::Query { profile, database, sql },
        );
    }

    fn handle_explorer_key(&mut self, key: KeyEvent, states: &Vec<((String, String), SessionState)>)
        requires
            old(self)@.valid(),
        ensures
            final(self)@ == old(self)@.explorer_key(key, states.deep_view()),
            final(self)@.valid(),
    {
        proof {
            reveal(AppView::explorer_key);
        }
        if key.modifiers.control && key.code == KeyCode::Left {
            self.resize_explorer(-RESIZE_STEP_PERCENT);
            return;
        }
        if key.modifiers.control && key.code == KeyCode::Right {
            self.resize_explorer(RESIZE_STEP_PERCENT);
            return;
        }
        match key.code {
            KeyCode::Enter | KeyCode::Right => {
                self.activate_selected();
                return;
            },
            KeyCode::Left => {
                self.collapse_selected();
                return;
            },
            KeyCode::Char(c) => {
                if c == ' ' {
                    self.activate_selected();
                    return;
                }
                if c == 'n' {
                    let form = ConnectionForm::new(self.user.as_str());
                    self.open_overlay(Overlay::Connection(Box::new(form)));
                    return;
                }
                if c == 'e' {
                    self.edit_selected_connection();
                    return;
                }
                if c == 'd' {
                    self.confirm_delete_selected_connection();
                    return;
                }
                if c == 'c' && key.modifiers.is_empty() {
                    self.toggle_selected_connection(states);
                    return;
                }
            },
            _ => {},
        }
        let rows = self.explorer_rows();
        assert(self@.rows().len() == rows@.len());
        self.explorer_selected = move_in_list(self.explorer_selected, rows.len(), key.code);
    }

    fn handle_sql_key(&mut self, key: KeyEvent) -> (typed: Ghost<EditorView>)
        requires
            old(self)@.valid(),
        ensures
            old(self)@.sql_takes(key) ==> types(old(self)@.sql, key, typed@),
            final(self)@ == old(self)@.sql_key(key, typed@),
            final(self)@.valid(),
    {
        proof {
            reveal(AppView::sql_key);
        }
        let ghost mut typed = self@.sql;
        if key.modifiers.control && key.code == KeyCode::Up {
            self.resize_sql(-RESIZE_STEP_PERCENT);
        } else if key.modifiers.control && key.code == KeyCode::Down {
            self.resize_sql(RESIZE_STEP_PERCENT);
        } else if is_run_key(key) {
            self.run_sql();
        } else if key.control('s') {
            let name = String::new();
            assert(name@ =~= Seq::empty());
            self.open_overlay(Overlay::SaveScript { name, cursor: 0 });
        } else if key.control('l') {
            self.open_script_picker();
        } else {
            let _ = self.sql.input(key);
            proof {
                typed = self@.sql;
            }
        }
        Ghost(typed)
    }

    fn move_selection(&mut self, code: KeyCode)
        requires
            old(self)@.valid(),
        ensures
            final(self)@ == old(self)@.selection_moved(code),
            final(self)@.valid(),
    {
        let rows: usize = self.workspace.result.rows.len();
        let columns: usize = self.workspace.result.columns.len();
        assert(self@.workspace.result.rows.len() == rows);
        assert(self@.workspace.result.columns.len() == columns);
        self.workspace.result_row = move_row(self.workspace.result_row, rows, code);
        self.workspace.result_column = move_column(self.workspace.result_column, columns, code);
    }

    fn request_page(&mut self, code: KeyCode)
        requires
            old(self)@.valid(),
        ensures
            final(self)@ == old(self)@.page_requested(code),
            final(self)@.valid(),
    {
        let rows: usize = self.workspace.result.rows.len();
        assert(self@.workspace.result.rows.len() == rows);
        let last: usize = if rows > 0 {
            rows - 1
        } else {
            0
        };
        let down = code == KeyCode::Down || code == KeyCode::Char('j') || code == KeyCode::PageDown
            || code == KeyCode::End || code == KeyCode::Char('G');
        if down && self.workspace.result_row >= last && self.workspace.database_task.is_none() {
            let page = self.workspace.result.page.duplicate();
            match page {
                Some(page) => self.dispatch(
                    "Loading next 200 rows".to_owned(),
                    Request::FetchPage { page },
                ),
                None => {},
            }
        }
    }

    fn settle(&mut self, result: Result<(), String>)
        ensures
            match result {
                Ok(_) => final(self)@ == old(self)@,
                Err(problem) => final(self)@ == old(self)@.with_status(problem@, true),
            },
            old(self)@.valid() ==> final(self)@.valid(),
    {
        match result {
            Ok(_) => {},
            Err(problem) => self.set_status(problem, true),
        }
    }

    fn handle_results_key(&mut self, key: KeyEvent)
        requires
            old(self)@.valid(),
        ensures
            final(self)@ == old(self)@.results_key(key),
            final(self)@.valid(),
    {
        proof {
            reveal(AppView::results_key);
        }
        let code = key.code;
        let control = key.modifiers.control;
        if code == KeyCode::Insert || (code == KeyCode::Char('n') && !control) {
            let result = self.add_row();
            self.settle(result);
        } else if code == KeyCode::Delete || (code == KeyCode::Char('d') && !control) {
            let result = self.delete_row();
            self.settle(result);
        } else if code == KeyCode::Char('s') && control {
            let result = self.save_changes();
            self.settle(result);
        } else if code == KeyCode::Char('z') && control {
            self.discard_changes();
        } else if code == KeyCode::F(5) {
            let result = self.refresh_results(false);
            self.settle(result);
        } else if code == KeyCode::Enter || code == KeyCode::Char('e') {
            self.open_row_detail();
        } else {
            self.move_selection(code);
            self.request_page(code);
        }
    }

    fn handle_global_key(&mut self, key: KeyEvent, states: &Vec<((String, String), SessionState)>) -> (handled:
        bool)
        requires
            old(self)@.valid(),
            old(self)@.workspace.overlay is None,
        ensures
            final(self)@.valid(),
            old(self)@.global_key(key, states.deep_view()) == (if handled {
                Some(final(self)@)
            } else {
                None
            }),
            !handled ==> final(self)@ == old(self)@,
    {
        proof {
            reveal(AppView::global_key);
        }
        let code = key.code;
        if key.control('q') {
            self.request_session_action(SessionAction::Quit, states);
        } else if key.modifiers.control && (code == KeyCode::PageUp || code == KeyCode::PageDown) {
            self.cycle_workspace(code == KeyCode::PageDown);
        } else if code == KeyCode::F(2) {
            let draft = self.settings;
            self.open_overlay(Overlay::Settings { draft, selected: 0 });
        } else if code == KeyCode::F(6) {
            self.request_session_action(SessionAction::Connect, states);
        } else if code == KeyCode::F(7) {
            if self.workspace.focus == Focus::Explorer {
                self.disconnect_selected(false, None, states);
            } else {
                self.request_session_action(SessionAction::Disconnect, states);
            }
        } else if code == KeyCode::F(8) {
            self.request_session_action(SessionAction::Reconnect, states);
        } else if code == KeyCode::Esc && self.workspace.database_task.is_some() {
            self.cancel_database_operation();
        } else if code == KeyCode::Tab {
            self.workspace.focus = match self.workspace.focus {
                Focus::Explorer => Focus::Sql,
                Focus::Sql => Focus::Results,
                Focus::Results => Focus::Explorer,
            };
        } else if code == KeyCode::BackTab {
            self.workspace.focus = match self.workspace.focus {
                Focus::Explorer => Focus::Results,
                Focus::Sql => Focus::Explorer,
                Focus::Results => Focus::Sql,
            };
        } else {
            return false;
        }
        true
    }

    /// Takes a key. An open dialog comes first, then global actions, then the focused pane. `states` are the
    /// session states that were just observed, and `now` is the time in nanoseconds.
    pub fn handle_key(
        &mut self,
        key: KeyEvent,
        states: &Vec<((String, String), SessionState)>,
        now: u128,
    )
        requires
            old(self)@.valid(),
        ensures
            final(self)@.valid(),
            exists|typed: EditorView|
                old(self)@.typing(key, states.deep_view(), typed) && final(self)@ == #[trigger] old(self)@.key_pressed(
                    key,
                    states.deep_view(),
                    now,
                    typed,
                ),
    {
        let ghost before = self@;
        let ghost typed = self@.sql;
        if self.workspace.overlay.is_some() {
            let Ghost(typed) = self.handle_overlay_key(key, states, now);
            assert(self@ == before.key_pressed(key, states.deep_view(), now, typed));
            return;
        }
        if self.handle_global_key(key, states) {
            assert(self@ == before.key_pressed(key, states.deep_view(), now, typed));
            return;
        }
        match self.workspace.focus {
            Focus::Explorer => {
                self.handle_explorer_key(key, states);
                assert(self@ == before.key_pressed(key, states.deep_view(), now, typed));
            },
            Focus::Sql => {
                let Ghost(typed) = self.handle_sql_key(key);
                assert(self@ == before.key_pressed(key, states.deep_view(), now, typed));
            },
            Focus::Results => {
                self.handle_results_key(key);
                assert(self@ == before.key_pressed(key, states.deep_view(), now, typed));
            },
        }
    }
}

/// Resizing keeps the panes within their bounds.
pub proof fn panes_stay_usable(app: AppView, change: int)
    ensures
        MIN_EXPLORER_WIDTH_PERCENT <= app.explorer_resized(change).explorer_width_percent
            <= MAX_EXPLORER_WIDTH_PERCENT,
        MIN_SQL_HEIGHT_PERCENT <= app.sql_resized(change).sql_height_percent
            <= MAX_SQL_HEIGHT_PERCENT,
{
}

/// Neither opening a table nor running SQL replaces staged rows, or rows whose save outcome is unknown.
pub proof fn staged_rows_are_not_replaced(app: AppView, table: crate::db::TableRefView)
    requires
        app.workspace.pending(),
    ensures
        app.table_activated(table).effects == app.effects,
        app.sql_run().effects == app.effects,
        app.table_activated(table).workspace.result == app.workspace.result,
        app.sql_run().workspace.result == app.workspace.result,
{
    reveal(AppView::sql_run);
}

/// One key requests at most one page, and none while an operation runs.
pub proof fn one_key_fetches_one_page(app: AppView, code: KeyCode)
    ensures
        app.page_requested(code).effects.len() <= app.effects.len() + 1,
        app.workspace.database_task is Some ==> app.page_requested(code) == app,
{
}

/// Collapsing a node changes the tree alone: no session, no workspace, no request.
pub proof fn collapsing_keeps_sessions(app: AppView)
    ensures
        app.collapsed() == (AppView { expanded: app.collapsed().expanded, ..app }),
{
    reveal(AppView::collapsed);
}

/// Collapsing the selected node hides the rows below it, and no others.
pub proof fn collapsing_hides_the_rows_below(app: AppView)
    ensures
        app.collapsed().rows() == (match app.selected_row() {
            Some(row) => match expansion_key(row.node) {
                Some(key) => pruned(app.rows(), key),
                None => app.rows(),
            },
            None => app.rows(),
        }),
{
    reveal(AppView::collapsed);
    match app.selected_row() {
        Some(row) => match expansion_key(row.node) {
            Some(key) => {
                collapsing_removes_the_rows_below(app.tree(), key);
                assert(app.collapsed().tree() == app.tree().without(key));
            },
            None => {},
        },
        None => {},
    }
}

/// The keys of a dialog reach no text behind it: the SQL editor stays as it is.
pub proof fn dialogs_keep_the_sql_editor(
    app: AppView,
    key: KeyEvent,
    states: Seq<(TargetView, SessionState)>,
    now: u128,
    typed: EditorView,
)
    requires
        app.workspace.overlay is Some,
    ensures
        app.key_pressed(key, states, now, typed).sql == app.sql,
{
    reveal(AppView::settings_key);
    reveal(AppView::connection_key);
    reveal(AppView::save_script_key);
    reveal(AppView::load_script_key);
    reveal(AppView::delete_script_key);
    reveal(AppView::row_key);
    reveal(AppView::row_staged);
    reveal(AppView::refresh_key);
    reveal(AppView::refreshed);
    reveal(AppView::session_key);
    reveal(AppView::group_key);
    reveal(AppView::disconnected);
    reveal(AppView::delete_connection_key);
    polling_keeps_the_rest(app.without_overlay(), states);
    match app.workspace.overlay {
        Some(OverlayView::ConfirmExplorerDisconnect { targets, .. }) => {
            let seen = app.without_overlay().polled(states).0;
            let open = seen.open_targets(targets);
            closing_keeps_the_shown_target(
                seen.with_status(
                    "Disconnect requested for "@ + decimal(open.len()) + " database session(s)"@,
                    false,
                ),
                open,
            );
        },
        _ => {},
    }
}

} // verus!
