//! Each database owns its results, dialogs and running operation; SQL input is shared.
use vstd::prelude::*;
use vstd::string::*;

use crate::app::forms::{ConnectionForm, ConnectionFormView};
use crate::app::row_detail::{RowDetail, RowDetailView};
use crate::app::table_edits::{
    no_edits, paged_rows, paged_selection, TableEdits, TableEditsView,
};
use crate::db::paging::{page_status, page_status_text, PageRef, PageRefView};
use crate::db::sessions::SessionState;
use crate::db::{
    empty_result, format_error, outcome_view, Error, ErrorView, Output, OutputView, QueryResult,
    QueryResultView, Request, RequestView, Response, ResponseView, TableRef, TableRefView, TableResultSource,
    TableResultSourceView, Task,
};
use crate::storage::Settings;
use crate::text::{concat, concat3, decimal, decimal_text, same_text};
use crate::value::Value;

verus! {

/// The three persistent work areas, in the order in which Tab visits them.
#[derive(Clone, Copy, Debug, PartialEq, Eq, Structural)]
pub enum Focus {
    Explorer,
    Sql,
    Results,
}

impl DeepView for Focus {
    type V = Focus;

    open spec fn deep_view(&self) -> Focus {
        *self
    }
}

impl Value for Focus {
    fn duplicate(&self) -> (copy: Focus) {
        *self
    }

    fn same(&self, other: &Focus) -> (same: bool) {
        *self == *other
    }
}

/// The same actions drive keyboard handling, confirmation and request dispatch.
#[derive(Clone, Copy, Debug, PartialEq, Eq, Structural)]
pub enum SessionAction {
    Connect,
    Disconnect,
    Reconnect,
    Quit,
}

impl DeepView for SessionAction {
    type V = SessionAction;

    open spec fn deep_view(&self) -> SessionAction {
        *self
    }
}

impl Value for SessionAction {
    fn duplicate(&self) -> (copy: SessionAction) {
        *self
    }

    fn same(&self, other: &SessionAction) -> (same: bool) {
        *self == *other
    }
}

impl SessionAction {
    /// The name of the action.
    pub open spec fn name(self) -> Seq<char> {
        match self {
            SessionAction::Connect => "Connect"@,
            SessionAction::Disconnect => "Disconnect"@,
            SessionAction::Reconnect => "Reconnect"@,
            SessionAction::Quit => "Quit"@,
        }
    }

    /// The name of the action.
    pub fn text(self) -> (name: &'static str)
        ensures
            name@ == self.name(),
    {
        match self {
            SessionAction::Connect => "Connect",
            SessionAction::Disconnect => "Disconnect",
            SessionAction::Reconnect => "Reconnect",
            SessionAction::Quit => "Quit",
        }
    }

    /// The question before an action that could end user work.
    pub open spec fn question(self) -> Seq<char> {
        match self {
            SessionAction::Quit => "Quit all sessions? Running operations will be cancelled and open transactions rolled back. Write outcomes may be unknown. Unsaved SQL text will be lost. Y: quit · N/Esc: keep working"@,
            SessionAction::Reconnect => "Reconnect this SQL session? Any open transaction will be rolled back and session settings lost. Y: reconnect · N/Esc: keep working"@,
            _ => "Disconnect this SQL session? Any open transaction will be rolled back. Y: disconnect · N/Esc: keep working"@,
        }
    }

    /// The question before an action that could end user work. Consent never commits SQL; a user can
    /// decline and COMMIT first.
    pub fn confirmation(self) -> (question: &'static str)
        ensures
            question@ == self.question(),
    {
        match self {
            SessionAction::Quit => "Quit all sessions? Running operations will be cancelled and open transactions rolled back. Write outcomes may be unknown. Unsaved SQL text will be lost. Y: quit · N/Esc: keep working",
            SessionAction::Reconnect => "Reconnect this SQL session? Any open transaction will be rolled back and session settings lost. Y: reconnect · N/Esc: keep working",
            _ => "Disconnect this SQL session? Any open transaction will be rolled back. Y: disconnect · N/Esc: keep working",
        }
    }
}

/// The dialog over a workspace. Only one exists at once, which prevents conflicting key handlers.
pub enum Overlay {
    /// Edits a copy, so that Escape leaves the explorer and the saved preferences unchanged.
    Settings {
        draft: Settings,
        selected: usize,
    },
    Connection(Box<ConnectionForm>),
    SaveScript {
        name: String,
        cursor: usize,
    },
    LoadScript {
        selected: usize,
    },
    /// Keeps the confirmed name, and the picker position to return to.
    ConfirmDeleteScript {
        name: String,
        selected: usize,
    },
    RowDetail(Box<RowDetail>),
    ConfirmSession(SessionAction),
    ConfirmExplorerDisconnect {
        targets: Vec<(String, String)>,
        label: String,
    },
    ConfirmRefresh,
    ConfirmDelete {
        profile_id: String,
        name: String,
    },
}

/// What a `Overlay` denotes.
pub ghost enum OverlayView {
    Settings {
        draft: Settings,
        selected: usize,
    },
    Connection(ConnectionFormView),
    SaveScript {
        name: Seq<char>,
        cursor: usize,
    },
    LoadScript {
        selected: usize,
    },
    ConfirmDeleteScript {
        name: Seq<char>,
        selected: usize,
    },
    RowDetail(RowDetailView),
    ConfirmSession(SessionAction),
    ConfirmExplorerDisconnect {
        targets: Seq<(Seq<char>, Seq<char>)>,
        label: Seq<char>,
    },
    ConfirmRefresh,
    ConfirmDelete {
        profile_id: Seq<char>,
        name: Seq<char>,
    },
}

impl DeepView for Overlay {
    type V = OverlayView;

    open spec fn deep_view(&self) -> OverlayView {
        match self {
            Overlay::Settings { draft, selected } => OverlayView::Settings {
                draft: *draft,
                selected: *selected,
            },
            Overlay::Connection(value) => OverlayView::Connection(value.deep_view()),
            Overlay::SaveScript { name, cursor } => OverlayView::SaveScript {
                name: name@,
                cursor: *cursor,
            },
            Overlay::LoadScript { selected } => OverlayView::LoadScript { selected: *selected },
            Overlay::ConfirmDeleteScript { name, selected } => OverlayView::ConfirmDeleteScript {
                name: name@,
                selected: *selected,
            },
            Overlay::RowDetail(value) => OverlayView::RowDetail(value.deep_view()),
            Overlay::ConfirmSession(value) => OverlayView::ConfirmSession(*value),
            Overlay::ConfirmExplorerDisconnect { targets, label } => OverlayView::ConfirmExplorerDisconnect {
                targets: targets.deep_view(),
                label: label@,
            },
            Overlay::ConfirmRefresh => OverlayView::ConfirmRefresh,
            Overlay::ConfirmDelete { profile_id, name } => OverlayView::ConfirmDelete {
                profile_id: profile_id@,
                name: name@,
            },
        }
    }
}

impl View for Overlay {
    type V = OverlayView;

    open spec fn view(&self) -> OverlayView {
        self.deep_view()
    }
}

impl OverlayView {
    /// Text cursors stand in their texts.
    pub open spec fn valid(self) -> bool {
        match self {
            OverlayView::Connection(form) => form.valid(),
            OverlayView::SaveScript { name, cursor } => cursor <= name.len(),
            _ => true,
        }
    }
}

/// The state of one database. Keeping it together makes switching and response routing atomic.
pub struct Workspace {
    pub focus: Focus,
    pub result: QueryResult,
    pub result_row: usize,
    pub result_column: usize,
    pub overlay: Option<Overlay>,
    pub busy: Option<String>,
    pub status: String,
    pub status_is_error: bool,
    pub session_state: SessionState,
    pub edits: TableEdits,
    /// The table to refresh, also when a committed batch lost its follow-up preview.
    pub refresh_table: Option<TableRef>,
    /// The custom query to run again, with the table that its rows came from.
    pub refresh_query: Option<(TableRef, String)>,
    pub database_task: Option<Task>,
    /// Whether the running operation fetches a page. A failed fetch cannot be repeated, because the
    /// server may already have advanced its cursor.
    pub fetching_page: bool,
}

/// What a `Workspace` denotes.
pub ghost struct WorkspaceView {
    pub focus: Focus,
    pub result: QueryResultView,
    pub result_row: usize,
    pub result_column: usize,
    pub overlay: Option<OverlayView>,
    pub busy: Option<Seq<char>>,
    pub status: Seq<char>,
    pub status_is_error: bool,
    pub session_state: SessionState,
    pub edits: TableEditsView,
    pub refresh_table: Option<TableRefView>,
    pub refresh_query: Option<(TableRefView, Seq<char>)>,
    pub database_task: Option<Task>,
    pub fetching_page: bool,
}

impl DeepView for Workspace {
    type V = WorkspaceView;

    open spec fn deep_view(&self) -> WorkspaceView {
        WorkspaceView {
            focus: self.focus,
            result: self.result@,
            result_row: self.result_row,
            result_column: self.result_column,
            overlay: self.overlay.deep_view(),
            busy: self.busy.deep_view(),
            status: self.status@,
            status_is_error: self.status_is_error,
            session_state: self.session_state,
            edits: self.edits@,
            refresh_table: self.refresh_table.deep_view(),
            refresh_query: self.refresh_query.deep_view(),
            database_task: self.database_task,
            fetching_page: self.fetching_page,
        }
    }
}

impl View for Workspace {
    type V = WorkspaceView;

    open spec fn view(&self) -> WorkspaceView {
        self.deep_view()
    }
}

/// A workspace without any history.
pub open spec fn empty_workspace() -> WorkspaceView {
    WorkspaceView {
        focus: Focus::Explorer,
        result: empty_result(),
        result_row: 0,
        result_column: 0,
        overlay: None,
        busy: None,
        status: "Ready"@,
        status_is_error: false,
        session_state: SessionState::Disconnected,
        edits: no_edits(),
        refresh_table: None,
        refresh_query: None,
        database_task: None,
        fetching_page: false,
    }
}

impl Default for Workspace {
    fn default() -> (workspace: Workspace)
        ensures
            workspace@ == empty_workspace(),
    {
        Workspace {
            focus: Focus::Explorer,
            result: QueryResult::default(),
            result_row: 0,
            result_column: 0,
            overlay: None,
            busy: None,
            status: "Ready".to_owned(),
            status_is_error: false,
            session_state: SessionState::Disconnected,
            edits: TableEdits::default(),
            refresh_table: None,
            refresh_query: None,
            database_task: None,
            fetching_page: false,
        }
    }
}

/// The rows of a result, given that it came from a profile.
pub open spec fn from_profile(source: Option<TableResultSourceView>, profile_id: Seq<char>) -> bool {
    source is Some && source->Some_0.table.profile_id == profile_id
}

/// Whether a request takes write authority from the rows of a custom query.
pub open spec fn retires_rows(request: RequestView) -> bool {
    match request {
        RequestView::Query { .. } => true,
        RequestView::Preview { .. } => true,
        RequestView::Disconnect { .. } => true,
        RequestView::Connect { reconnect, .. } => reconnect,
        _ => false,
    }
}

/// Whether a request retires the cursor of the shown result.
pub open spec fn retires_page(request: RequestView) -> bool {
    request is Query || request is Preview || request is SaveChanges
}

/// Why rows of a custom query lost their write authority.
pub open spec fn retirement() -> Seq<char> {
    "Query result is no longer current; press F5 in Results to rerun the original query"@
}

impl WorkspaceView {
    /// Edits belong to the rows, the selected row is one of them or the first, and a dialog's text
    /// cursor stands in its text.
    pub open spec fn valid(self) -> bool {
        &&& self.edits.fits(self.result.rows)
        &&& self.result_row <= self.result.rows.len()
        &&& self.overlay is Some ==> self.overlay->Some_0.valid()
    }

    pub open spec fn with_status(self, status: Seq<char>, is_error: bool) -> WorkspaceView {
        WorkspaceView { status, status_is_error: is_error, ..self }
    }

    pub open spec fn with_overlay(self, overlay: OverlayView) -> WorkspaceView {
        WorkspaceView { overlay: Some(overlay), ..self }
    }

    pub open spec fn without_page(self) -> WorkspaceView {
        WorkspaceView { result: QueryResultView { page: None, ..self.result }, ..self }
    }

    /// The workspace that waits for a new operation.
    pub open spec fn awaiting(self, description: Seq<char>, request: RequestView, task: Task) -> WorkspaceView {
        let retired = if retires_rows(request) {
            self.retired(retirement())
        } else {
            self
        };
        let cut = if retires_page(request) {
            retired.without_page()
        } else {
            retired
        };
        WorkspaceView {
            fetching_page: request is FetchPage,
            busy: Some(description),
            database_task: Some(task),
            ..cut
        }.with_status(description, false)
    }

    /// Whether rows are staged: changed, deleted or new ones.
    pub open spec fn staged(self) -> bool {
        self.edits.count(self.result.rows) > 0
    }

    /// Whether something is staged, or a save outcome is unknown.
    pub open spec fn pending(self) -> bool {
        self.edits.pending(self.result.rows)
    }

    /// Whether this operation runs here.
    pub open spec fn owns(self, operation_id: u64) -> bool {
        self.database_task == Some(Task { operation_id })
    }

    /// The workspace in another session state. An explicit disconnect closes all cursors; a lost SQL
    /// session leaves independent previews intact.
    pub open spec fn in_session(self, state: SessionState) -> WorkspaceView {
        let closed = state == SessionState::Disconnected || (state == SessionState::Lost
            && self.result.page is Some && !self.result.page->Some_0.preview);
        let next = WorkspaceView { session_state: state, ..self };
        if closed {
            next.without_page()
        } else {
            next
        }
    }

    /// The workspace with a further page. Operation ids and cursor ids together protect results from
    /// stale or misrouted pages.
    pub open spec fn with_page(self, requested: PageRefView, page: QueryResultView) -> WorkspaceView {
        if self.result.page != Some(requested) || self.result.columns != page.columns {
            self.without_page().with_status(
                "Result page no longer matches; refresh or run the query again"@,
                true,
            )
        } else {
            let rows = paged_rows(self.edits, self.result.rows, page.rows);
            let status = page_status_text(
                (rows.len() - self.edits.new_defaults.len()) as nat,
                page.page is Some,
            );
            WorkspaceView {
                edits: self.edits.paged(page.rows),
                result: QueryResultView { rows, page: page.page, status, ..self.result },
                result_row: paged_selection(
                    self.edits,
                    self.result_row as int,
                    page.rows.len(),
                ) as usize,
                ..self
            }.with_status(
                "Loaded "@ + decimal(page.rows.len()) + " more rows; "@ + status,
                false,
            )
        }
    }

    /// The workspace with a new result, which replaces edits and selection.
    pub open spec fn with_result(self, result: QueryResultView) -> WorkspaceView {
        let source = result.source;
        WorkspaceView {
            refresh_table: if source is Some && source->Some_0.query is None {
                Some(source->Some_0.table)
            } else {
                None
            },
            refresh_query: if source is Some && source->Some_0.query is Some {
                Some((source->Some_0.table, source->Some_0.query->Some_0.sql))
            } else {
                None
            },
            edits: no_edits(),
            result,
            result_row: 0,
            result_column: 0,
            focus: Focus::Results,
            ..self
        }.with_status(result.status, false)
    }

    /// The workspace behind a committed batch of table rows. Old row values must not remain editable.
    pub open spec fn saved(self, refreshed: Result<QueryResultView, ErrorView>) -> WorkspaceView {
        let next = WorkspaceView {
            edits: no_edits(),
            result_row: 0,
            result_column: 0,
            focus: Focus::Results,
            result: match refreshed {
                Ok(result) => result,
                Err(_) => empty_result(),
            },
            ..self
        };
        match refreshed {
            Ok(result) => next.with_status("Changes saved; "@ + result.status, false),
            Err(error) => if error.cause is Cancelled {
                next.with_status("Changes saved; refresh cancelled"@, false)
            } else {
                next.with_status("Changes saved; refresh failed: "@ + error.message(), true)
            },
        }
    }

    /// The workspace behind a committed batch of custom query rows. The rows stay for inspection, but they
    /// are stale; only the original query can be run again.
    pub open spec fn query_saved(self) -> WorkspaceView {
        WorkspaceView {
            edits: no_edits(),
            result: QueryResultView {
                source: None,
                page: None,
                read_only_reason: Some(
                    "Query results are stale after saving; press F5 in Results to rerun the original query"@,
                ),
                ..self.result
            },
            refresh_table: None,
            focus: Focus::Results,
            ..self
        }.with_status(
            "Changes saved; press F5 in Results to rerun the original query"@,
            false,
        )
    }

    /// The workspace behind a failed operation. Failed batches stay staged, but an uncertain COMMIT is
    /// never offered for a blind retry.
    pub open spec fn failed(self, error: ErrorView, fetched: bool) -> WorkspaceView {
        if fetched {
            self.without_page().with_status(
                "Page fetch failed; loaded rows retained. Refresh or run the query again: "@
                    + error.message(),
                true,
            )
        } else {
            let next = WorkspaceView {
                edits: TableEditsView {
                    uncertain: self.edits.uncertain || error.cause is UnknownCommit,
                    ..self.edits
                },
                ..self
            };
            if error.cause is Cancelled {
                next.with_status(error.outermost(), false)
            } else {
                next.with_status(error.message(), true)
            }
        }
    }

    /// The workspace with an operation's result. `fetched` says that the operation fetched a page.
    pub open spec fn receive(self, result: Result<OutputView, ErrorView>, fetched: bool) -> WorkspaceView {
        match result {
            Ok(OutputView::Page { requested, result }) => self.with_page(requested, result),
            Ok(OutputView::Session) => self.with_status(self.session_state.text(), false),
            Ok(OutputView::Databases { names, .. }) => self.with_status(
                "Loaded "@ + decimal(names.len()) + " database(s)"@,
                false,
            ),
            Ok(OutputView::Schemas { names, .. }) => self.with_status(
                "Loaded "@ + decimal(names.len()) + " schema(s)"@,
                false,
            ),
            Ok(OutputView::Tables { tables, .. }) => self.with_status(
                "Loaded "@ + decimal(tables.len()) + " relation(s)"@,
                false,
            ),
            Ok(OutputView::Result(result)) => self.with_result(result),
            Ok(OutputView::Saved(refreshed)) => self.saved(refreshed),
            Ok(OutputView::QuerySaved) => self.query_saved(),
            Err(error) => self.failed(error, fetched),
        }
    }

    /// The workspace with its operation over.
    pub open spec fn idle(self) -> WorkspaceView {
        WorkspaceView { database_task: None, busy: None, fetching_page: false, ..self }
    }

    /// The workspace behind a response. Only the response of the running operation counts.
    pub open spec fn respond(self, response: ResponseView) -> WorkspaceView {
        if !self.owns(response.operation_id) {
            self
        } else {
            match response.session_state {
                Some(state) => self.idle().in_session(state),
                None => self.idle(),
            }.receive(response.result, self.fetching_page)
        }
    }

    /// The workspace without editable state of a profile, whose id may soon name another endpoint.
    pub open spec fn invalidated(self, profile_id: Seq<char>) -> WorkspaceView {
        let stale = from_profile(self.result.source, profile_id);
        WorkspaceView {
            edits: if stale { no_edits() } else { self.edits },
            result: if stale { empty_result() } else { self.result },
            result_row: if stale { 0 } else { self.result_row },
            result_column: if stale { 0 } else { self.result_column },
            refresh_table: if self.refresh_table is Some && self.refresh_table->Some_0.profile_id
                == profile_id {
                None
            } else {
                self.refresh_table
            },
            refresh_query: if self.refresh_query is Some && self.refresh_query->Some_0.0.profile_id
                == profile_id {
                None
            } else {
                self.refresh_query
            },
            overlay: match self.overlay {
                Some(OverlayView::RowDetail(form)) => if from_profile(form.source, profile_id) {
                    None
                } else {
                    self.overlay
                },
                _ => self.overlay,
            },
            ..self
        }
    }

    /// The workspace whose custom query rows can no longer write. Drafts stay for inspection.
    pub open spec fn retired(self, reason: Seq<char>) -> WorkspaceView {
        if self.result.source is Some && self.result.source->Some_0.query is Some {
            WorkspaceView {
                result: QueryResultView {
                    source: None,
                    read_only_reason: Some(reason),
                    ..self.result
                },
                ..self
            }
        } else {
            self
        }
    }
}

fn loaded_text(count: usize, what: &str) -> (text: String)
    ensures
        text@ == "Loaded "@ + decimal(count as nat) + what@,
{
    concat3("Loaded ", decimal_text(count as u64).as_str(), what)
}

impl Workspace {
    /// Puts a status; it belongs to the operation's workspace, also while that is hidden.
    pub fn set_status(&mut self, status: String, is_error: bool)
        ensures
            final(self)@ == old(self)@.with_status(status@, is_error),
    {
        self.status = status;
        self.status_is_error = is_error;
    }

    /// Waits for a new operation.
    pub fn await_operation(&mut self, description: String, request: &Request, task: Task)
        ensures
            final(self)@ == old(self)@.awaiting(description@, request@, task),
            old(self)@.valid() ==> final(self)@.valid(),
    {
        self.fetching_page = matches!(request, Request::FetchPage { .. });
        let retires = match request {
            Request::Query { .. } => true,
            Request::Preview { .. } => true,
            Request::Disconnect { .. } => true,
            Request::Connect { profile: _, database: _, reconnect } => *reconnect,
            _ => false,
        };
        if retires {
            self.retire_query_result(
                "Query result is no longer current; press F5 in Results to rerun the original query",
            );
        }
        if matches!(
            request,
            Request::Query { .. } | Request::Preview { .. } | Request::SaveChanges { .. }
        ) {
            self.result.page = None;
        }
        self.busy = Some(description.clone());
        self.set_status(description, false);
        self.database_task = Some(task);
    }

    /// Whether rows are staged: changed, deleted or new ones.
    pub fn has_staged_rows(&self) -> (staged: bool)
        requires
            self@.edits.countable(self@.result.rows),
        ensures
            staged == self@.staged(),
    {
        self.edits.count(&self.result) > 0
    }

    /// Whether something is staged, or a save outcome is unknown.
    pub fn is_pending(&self) -> (pending: bool)
        requires
            self@.edits.countable(self@.result.rows),
        ensures
            pending == self@.pending(),
    {
        self.edits.count(&self.result) > 0 || self.edits.uncertain
    }

    /// Whether this operation runs here.
    pub fn owns_operation(&self, operation_id: u64) -> (owns: bool)
        ensures
            owns == self@.owns(operation_id),
    {
        match &self.database_task {
            Some(task) => task.operation_id() == operation_id,
            None => false,
        }
    }

    fn receive_page(&mut self, requested: &PageRef, page: QueryResult)
        requires
            old(self)@.valid(),
        ensures
            final(self)@ == old(self)@.with_page(requested@, page@),
            final(self)@.valid(),
    {
        let current = match &self.result.page {
            Some(page) => page.same(requested),
            None => false,
        };
        if !current || !self.result.columns.same(&page.columns) {
            self.result.page = None;
            self.set_status(
                "Result page no longer matches; refresh or run the query again".to_owned(),
                true,
            );
            return;
        }
        let ghost before = self@;
        let added: usize = page.rows.len();
        assert(page@.rows.len() == added);
        self.edits.append_page(&mut self.result, page.rows, &mut self.result_row);
        let more = page.page.is_some();
        self.result.page = page.page;
        assert(self.result@.rows.len() == self.result.rows@.len());
        assert(self.edits@.new_defaults.len() == self.edits.new_defaults@.len());
        self.result.status = page_status(
            self.result.rows.len() - self.edits.new_defaults.len(),
            more,
        );
        let mut status = loaded_text(added, " more rows; ");
        status.append(self.result.status.as_str());
        self.set_status(status, false);
    }

    fn receive_result(&mut self, result: QueryResult)
        ensures
            final(self)@ == old(self)@.with_result(result@),
            old(self)@.valid() ==> final(self)@.valid(),
    {
        let status = result.status.clone();
        match &result.source {
            Some(source) => match &source.query {
                Some(query) => {
                    self.refresh_table = None;
                    self.refresh_query = Some((source.table.duplicate(), query.sql.clone()));
                },
                None => {
                    self.refresh_table = Some(source.table.duplicate());
                    self.refresh_query = None;
                },
            },
            None => {
                self.refresh_table = None;
                self.refresh_query = None;
            },
        }
        self.edits = TableEdits::default();
        self.result = result;
        self.result_row = 0;
        self.result_column = 0;
        self.focus = Focus::Results;
        self.set_status(status, false);
    }

    fn receive_saved(&mut self, refreshed: Result<QueryResult, Error>)
        ensures
            final(self)@ == old(self)@.saved(outcome_view(refreshed)),
            old(self)@.valid() ==> final(self)@.valid(),
    {
        self.edits = TableEdits::default();
        self.result_row = 0;
        self.result_column = 0;
        self.focus = Focus::Results;
        match refreshed {
            Ok(result) => {
                let status = concat("Changes saved; ", result.status.as_str());
                self.result = result;
                self.set_status(status, false);
            },
            Err(error) => {
                self.result = QueryResult::default();
                if error.is_cancelled() {
                    self.set_status("Changes saved; refresh cancelled".to_owned(), false);
                } else {
                    let status = concat(
                        "Changes saved; refresh failed: ",
                        format_error(&error).as_str(),
                    );
                    self.set_status(status, true);
                }
            },
        }
    }

    fn receive_query_saved(&mut self)
        ensures
            final(self)@ == old(self)@.query_saved(),
            old(self)@.valid() ==> final(self)@.valid(),
    {
        self.edits = TableEdits::default();
        self.result.source = None;
        self.result.page = None;
        self.result.read_only_reason = Some(
            "Query results are stale after saving; press F5 in Results to rerun the original query".to_owned(),
        );
        self.refresh_table = None;
        self.focus = Focus::Results;
        self.set_status(
            "Changes saved; press F5 in Results to rerun the original query".to_owned(),
            false,
        );
    }

    fn receive_failure(&mut self, error: &Error, fetched: bool)
        ensures
            final(self)@ == old(self)@.failed(error@, fetched),
            old(self)@.valid() ==> final(self)@.valid(),
    {
        if fetched {
            self.result.page = None;
            let status = concat(
                "Page fetch failed; loaded rows retained. Refresh or run the query again: ",
                format_error(error).as_str(),
            );
            self.set_status(status, true);
            return;
        }
        if error.is_unknown_commit() {
            self.edits.uncertain = true;
        }
        if error.is_cancelled() {
            self.set_status(error.outermost_text(), false);
        } else {
            self.set_status(format_error(error), true);
        }
    }

    /// Applies a response, if it belongs to the running operation. A stale response does not discard
    /// the outcome of the active worker.
    pub fn apply_database_response(&mut self, response: Response)
        requires
            old(self)@.valid(),
        ensures
            final(self)@ == old(self)@.respond(response@),
            final(self)@.valid(),
    {
        if !self.owns_operation(response.operation_id) {
            return;
        }
        self.database_task = None;
        self.busy = None;
        let fetched = self.fetching_page;
        self.fetching_page = false;
        match response.session_state {
            Some(state) => {
                self.session_state = state;
                let sql_page = match &self.result.page {
                    Some(page) => !page.preview,
                    None => false,
                };
                if state == SessionState::Disconnected || (state == SessionState::Lost
                    && sql_page) {
                    self.result.page = None;
                }
            },
            None => {},
        }
        match response.result {
            Ok(Output::Page { requested, result }) => self.receive_page(&requested, result),
            Ok(Output::Session) => {
                let label = self.session_state.label().to_owned();
                self.set_status(label, false)
            },
            Ok(Output::Databases { profile_id: _, names }) => {
                assert(names.deep_view().len() == names@.len());
                self.set_status(loaded_text(names.len(), " database(s)"), false)
            },
            Ok(Output::Schemas { profile_id: _, database: _, names }) => {
                assert(names.deep_view().len() == names@.len());
                self.set_status(loaded_text(names.len(), " schema(s)"), false)
            },
            Ok(Output::Tables { profile_id: _, database: _, schema: _, tables }) => {
                assert(tables.deep_view().len() == tables@.len());
                self.set_status(loaded_text(tables.len(), " relation(s)"), false)
            },
            Ok(Output::Result(result)) => self.receive_result(result),
            Ok(Output::Saved(refreshed)) => self.receive_saved(refreshed),
            Ok(Output::QuerySaved) => self.receive_query_saved(),
            Err(error) => self.receive_failure(&error, fetched),
        }
    }

    /// Removes editable state before the same profile id can resolve to another endpoint.
    pub fn invalidate_connection_preview(&mut self, profile_id: &str)
        requires
            old(self)@.valid(),
        ensures
            final(self)@ == old(self)@.invalidated(profile_id@),
            final(self)@.valid(),
    {
        if is_from_profile(&self.result.source, profile_id) {
            self.edits = TableEdits::default();
            self.result = QueryResult::default();
            self.result_row = 0;
            self.result_column = 0;
        }
        let stale_table = match &self.refresh_table {
            Some(table) => same_text(table.profile_id.as_str(), profile_id),
            None => false,
        };
        if stale_table {
            self.refresh_table = None;
        }
        let stale_query = match &self.refresh_query {
            Some((table, _)) => same_text(table.profile_id.as_str(), profile_id),
            None => false,
        };
        if stale_query {
            self.refresh_query = None;
        }
        let stale_form = match &self.overlay {
            Some(Overlay::RowDetail(form)) => is_from_profile(&form.source, profile_id),
            _ => false,
        };
        if stale_form {
            self.overlay = None;
        }
    }

    /// Takes write authority from the rows of a custom query. Drafts stay for inspection.
    pub fn retire_query_result(&mut self, reason: &str)
        ensures
            final(self)@ == old(self)@.retired(reason@),
            old(self)@.valid() ==> final(self)@.valid(),
    {
        let custom = match &self.result.source {
            Some(source) => source.query.is_some(),
            None => false,
        };
        if custom {
            self.result.source = None;
            self.result.read_only_reason = Some(reason.to_owned());
        }
    }
}

fn is_from_profile(source: &Option<TableResultSource>, profile_id: &str) -> (result: bool)
    ensures
        result == from_profile(source.deep_view(), profile_id@),
{
    match source {
        Some(source) => same_text(source.table.profile_id.as_str(), profile_id),
        None => false,
    }
}

/// A response of an operation that does not run here changes nothing.
pub proof fn stale_responses_change_nothing(workspace: WorkspaceView, response: ResponseView)
    requires
        !workspace.owns(response.operation_id),
    ensures
        workspace.respond(response) == workspace,
{
}

/// Behind its response an operation is over, and a second response changes nothing.
pub proof fn responses_count_once(
    workspace: WorkspaceView,
    response: ResponseView,
    again: ResponseView,
)
    requires
        workspace.owns(response.operation_id),
    ensures
        workspace.respond(response).database_task is None,
        workspace.respond(response).busy is None,
        workspace.respond(response).respond(again) == workspace.respond(response),
{
}

/// A failed or cancelled operation keeps the rows and what is staged on them.
pub proof fn failures_keep_drafts(workspace: WorkspaceView, response: ResponseView)
    requires
        response.result is Err,
    ensures
        workspace.respond(response).result.rows == workspace.result.rows,
        workspace.respond(response).edits.original == workspace.edits.original,
        workspace.respond(response).edits.new_defaults == workspace.edits.new_defaults,
        workspace.respond(response).edits.deleted == workspace.edits.deleted,
{
}

/// A committed batch is never offered for a retry: nothing stays staged, whatever came of the refresh.
pub proof fn committed_batches_leave_nothing_staged(
    workspace: WorkspaceView,
    response: ResponseView,
)
    requires
        workspace.owns(response.operation_id),
        response.result is Ok,
        response.result->Ok_0 is Saved || response.result->Ok_0 is QuerySaved,
    ensures
        workspace.respond(response).edits == no_edits(),
{
}

/// Rows of a profile that was changed or deleted are no longer there to be edited.
pub proof fn invalidated_workspaces_hold_no_rows_of_the_profile(
    workspace: WorkspaceView,
    profile_id: Seq<char>,
)
    ensures
        !from_profile(workspace.invalidated(profile_id).result.source, profile_id),
        workspace.invalidated(profile_id).overlay matches Some(OverlayView::RowDetail(form))
            ==> !from_profile(form.source, profile_id),
        !from_profile(workspace.result.source, profile_id) ==> workspace.invalidated(
            profile_id,
        ).result == workspace.result,
{
}

} // verus!
