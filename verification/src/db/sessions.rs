//! Persistent SQL connections are isolated by profile and database, never shared across sessions.
use vstd::prelude::*;
use vstd::string::*;

use crate::db::paging::{
    close_failure, close_result, closed_read, continues, finish_read, is_continued, CloseOutcome,
    preview_problem, preview_result, CloseOutcomeView, Cursor, CursorView, PageRef, PageRefView,
    Previews,
};
use crate::db::changes::{RowChange, RowChangeView};
use crate::db::syntax::{read_text, select_statement, syntax_tree};
use crate::db::{
    cancelled_error, outcome_view, plain_error, Error, ErrorView, Output, OutputView, QueryResult,
    QueryResultView, Request, RequestView, ResultColumn, TableRef, TableResultSource,
    TableResultSourceView,
};
use crate::keyed::{without_owner, KeyedMap};
use crate::storage::{ConnectionProfile, ConnectionProfileView};
use crate::text::{concat, same_text};
use crate::value::Value;

verus! {

/// Server-observed state, which also covers arbitrary SQL, errors and cancelled transactions.
#[derive(Clone, Copy, Debug, PartialEq, Eq, Structural)]
pub enum TransactionState {
    Idle,
    /// A read-only cursor transaction that closes before the next SQL command.
    Paging,
    Open,
    Failed,
    Unknown,
}

impl DeepView for TransactionState {
    type V = TransactionState;

    open spec fn deep_view(&self) -> TransactionState {
        *self
    }
}

impl Value for TransactionState {
    fn duplicate(&self) -> (copy: TransactionState) {
        *self
    }

    fn same(&self, other: &TransactionState) -> (same: bool) {
        *self == *other
    }
}

/// A disconnected or lost session requires an explicit user action to open again.
#[derive(Clone, Copy, Debug, PartialEq, Eq, Structural)]
pub enum SessionState {
    Disconnected,
    Connected(TransactionState),
    Lost,
}

impl DeepView for SessionState {
    type V = SessionState;

    open spec fn deep_view(&self) -> SessionState {
        *self
    }
}

impl Value for SessionState {
    fn duplicate(&self) -> (copy: SessionState) {
        *self
    }

    fn same(&self, other: &SessionState) -> (same: bool) {
        *self == *other
    }
}

impl Default for SessionState {
    fn default() -> (state: SessionState)
        ensures
            state == SessionState::Disconnected,
    {
        SessionState::Disconnected
    }
}

impl SessionState {
    /// How a state reads.
    pub open spec fn text(self) -> Seq<char> {
        match self {
            SessionState::Disconnected => "disconnected"@,
            SessionState::Connected(TransactionState::Idle) => "autocommit"@,
            SessionState::Connected(TransactionState::Paging) => "result cursor open"@,
            SessionState::Connected(TransactionState::Open) => "transaction open"@,
            SessionState::Connected(
                TransactionState::Failed,
            ) => "transaction failed · ROLLBACK required"@,
            SessionState::Connected(TransactionState::Unknown) => "transaction state unknown"@,
            SessionState::Lost => "session lost · reconnect required"@,
        }
    }

    /// Whether leaving the session could end user work.
    pub open spec fn holds_work(self) -> bool {
        match self {
            SessionState::Connected(state) => state is Open || state is Failed || state is Unknown,
            _ => false,
        }
    }

    /// Presents the state without implying that a failed transaction has been rolled back.
    pub fn label(self) -> (label: &'static str)
        ensures
            label@ == self.text(),
    {
        match self {
            SessionState::Disconnected => "disconnected",
            SessionState::Connected(TransactionState::Idle) => "autocommit",
            SessionState::Connected(TransactionState::Paging) => "result cursor open",
            SessionState::Connected(TransactionState::Open) => "transaction open",
            SessionState::Connected(
                TransactionState::Failed,
            ) => "transaction failed · ROLLBACK required",
            SessionState::Connected(TransactionState::Unknown) => "transaction state unknown",
            SessionState::Lost => "session lost · reconnect required",
        }
    }

    /// An unknown state must never allow an implicit rollback through disconnect or exit.
    pub fn needs_confirmation(self) -> (needed: bool)
        ensures
            needed == self.holds_work(),
    {
        matches!(
            self,
            SessionState::Connected(TransactionState::Open) | SessionState::Connected(
                TransactionState::Failed,
            ) | SessionState::Connected(TransactionState::Unknown)
        )
    }

    /// Whether rows of a custom query may be written: no user transaction is open.
    pub open spec fn allows_query_edits(self) -> bool {
        self == SessionState::Connected(TransactionState::Idle) || self == SessionState::Connected(
            TransactionState::Paging,
        )
    }

    /// Whether rows of a custom query may be written.
    pub fn permits_query_edits(self) -> (allowed: bool)
        ensures
            allowed == self.allows_query_edits(),
    {
        matches!(
            self,
            SessionState::Connected(TransactionState::Idle) | SessionState::Connected(
                TransactionState::Paging,
            )
        )
    }
}

/// The transaction state behind a backend's activity; none while a statement is still running.
pub open spec fn activity_state(activity: Option<Seq<char>>) -> Option<TransactionState> {
    match activity {
        Some(text) => if text == "idle"@ {
            Some(TransactionState::Idle)
        } else if text == "idle in transaction"@ {
            Some(TransactionState::Open)
        } else if text == "idle in transaction (aborted)"@ {
            Some(TransactionState::Failed)
        } else if text == "active"@ {
            None
        } else {
            Some(TransactionState::Unknown)
        },
        None => Some(TransactionState::Unknown),
    }
}

/// The transaction state behind a backend's activity; none asks to look again.
pub fn observed_state(activity: &Option<String>) -> (state: Option<TransactionState>)
    ensures
        state == activity_state(activity.deep_view()),
{
    match activity {
        Some(text) => {
            if same_text(text.as_str(), "idle") {
                Some(TransactionState::Idle)
            } else if same_text(text.as_str(), "idle in transaction") {
                Some(TransactionState::Open)
            } else if same_text(text.as_str(), "idle in transaction (aborted)") {
                Some(TransactionState::Failed)
            } else if same_text(text.as_str(), "active") {
                None
            } else {
                Some(TransactionState::Unknown)
            }
        },
        None => Some(TransactionState::Unknown),
    }
}

/// One SQL session. The immutable profile prevents an existing socket from being relabelled as a new
/// endpoint.
#[derive(PartialEq, Eq)]
pub struct Session {
    pub profile: ConnectionProfile,
    pub connected: bool,
    pub pid: i32,
    pub state: SessionState,
    pub cursor: Option<Cursor>,
    /// Only the current result may write through this exact session.
    pub edit_source: Option<TableResultSource>,
}

/// What a `Session` denotes.
pub ghost struct SessionView {
    pub profile: ConnectionProfileView,
    pub connected: bool,
    pub pid: i32,
    pub state: SessionState,
    pub cursor: Option<CursorView>,
    pub edit_source: Option<TableResultSourceView>,
}

impl DeepView for Session {
    type V = SessionView;

    open spec fn deep_view(&self) -> SessionView {
        SessionView {
            profile: self.profile.deep_view(),
            connected: self.connected,
            pid: self.pid,
            state: self.state,
            cursor: self.cursor.deep_view(),
            edit_source: self.edit_source.deep_view(),
        }
    }
}

impl Clone for Session {
    fn clone(&self) -> (copy: Session)
        ensures
            copy@ == self@,
    {
        self.duplicate()
    }
}

impl View for Session {
    type V = SessionView;

    open spec fn view(&self) -> SessionView {
        self.deep_view()
    }
}

impl Value for Session {
    fn duplicate(&self) -> (copy: Session) {
        Session {
            profile: self.profile.duplicate(),
            connected: self.connected,
            pid: self.pid,
            state: self.state.duplicate(),
            cursor: self.cursor.duplicate(),
            edit_source: self.edit_source.duplicate(),
        }
    }

    fn same(&self, other: &Session) -> (same: bool) {
        self.profile.same(&other.profile)
            && self.connected == other.connected
            && self.pid == other.pid
            && self.state.same(&other.state)
            && self.cursor.same(&other.cursor)
            && self.edit_source.same(&other.edit_source)
    }
}

impl SessionView {
    /// A session that was never connected.
    pub open spec fn fresh(profile: ConnectionProfileView) -> SessionView {
        SessionView {
            profile,
            connected: false,
            pid: 0,
            state: SessionState::Disconnected,
            cursor: None,
            edit_source: None,
        }
    }

    /// Only a connected session has a cursor, and its state says whether it is connected.
    pub open spec fn valid(self) -> bool {
        &&& self.cursor is Some ==> self.connected
        &&& self.connected <==> self.state is Connected
    }

    /// The session after its connection was looked at; a lost one takes everything with it.
    pub open spec fn checked(self, broken: bool) -> SessionView {
        if self.connected && broken {
            SessionView {
                connected: false,
                cursor: None,
                edit_source: None,
                state: SessionState::Lost,
                ..self
            }
        } else {
            self
        }
    }

    /// The session without a connection, on purpose.
    pub open spec fn disconnected(self) -> SessionView {
        SessionView {
            connected: false,
            cursor: None,
            edit_source: None,
            state: SessionState::Disconnected,
            ..self
        }
    }

    /// The session behind an observation of its transaction: an open transaction that belongs to the
    /// cursor is no user transaction.
    pub open spec fn observed(self, state: TransactionState) -> SessionView {
        let owned = self.cursor is Some && self.cursor->Some_0.owns_transaction;
        SessionView {
            state: SessionState::Connected(
                if state == TransactionState::Open && owned {
                    TransactionState::Paging
                } else {
                    state
                },
            ),
            ..self
        }
    }
}

impl Session {
    /// A session that was never connected.
    pub fn new(profile: ConnectionProfile) -> (session: Session)
        ensures
            session@ == SessionView::fresh(profile@),
    {
        Session {
            profile,
            connected: false,
            pid: 0,
            state: SessionState::Disconnected,
            cursor: None,
            edit_source: None,
        }
    }

    /// Invalidates the session when its connection is gone, even without another SQL execution.
    pub fn check_health(&mut self, broken: bool)
        ensures
            final(self)@ == old(self)@.checked(broken),
    {
        if self.connected && broken {
            self.connected = false;
            self.cursor = None;
            self.edit_source = None;
            self.state = SessionState::Lost;
        }
    }

    fn disconnect(&mut self)
        ensures
            final(self)@ == old(self)@.disconnected(),
    {
        self.cursor = None;
        self.edit_source = None;
        self.connected = false;
        self.state = SessionState::Disconnected;
    }
}

/// How far an operation in a session has come.
pub enum RunPhase {
    Fetching {
        cursor: Cursor,
        page: PageRef,
    },
    ClosingPage {
        page: PageRef,
        result: Result<QueryResult, Error>,
    },
    ClosingForSave {
        source: TableResultSource,
        changes: Vec<RowChange>,
    },
    Saving,
    Connecting,
    ClosingEarlier {
        cursor: Cursor,
    },
    Opening {
        cursor: Cursor,
        statement: String,
    },
    FetchingFirst {
        cursor: Cursor,
        statement: String,
    },
    Attaching {
        cursor: Cursor,
    },
    ClosingQuery {
        result: Result<QueryResult, Error>,
    },
    Executing,
    Browsing,
    Observing {
        outcome: Result<Output, Error>,
    },
    Finished,
}

/// What a `RunPhase` denotes.
pub ghost enum RunPhaseView {
    Fetching {
        cursor: CursorView,
        page: PageRefView,
    },
    ClosingPage {
        page: PageRefView,
        result: Result<QueryResultView, ErrorView>,
    },
    ClosingForSave {
        source: TableResultSourceView,
        changes: Seq<RowChangeView>,
    },
    Saving,
    Connecting,
    ClosingEarlier {
        cursor: CursorView,
    },
    Opening {
        cursor: CursorView,
        statement: Seq<char>,
    },
    FetchingFirst {
        cursor: CursorView,
        statement: Seq<char>,
    },
    Attaching {
        cursor: CursorView,
    },
    ClosingQuery {
        result: Result<QueryResultView, ErrorView>,
    },
    Executing,
    Browsing,
    Observing {
        outcome: Result<OutputView, ErrorView>,
    },
    Finished,
}

impl DeepView for RunPhase {
    type V = RunPhaseView;

    open spec fn deep_view(&self) -> RunPhaseView {
        match self {
            RunPhase::Fetching { cursor, page } => RunPhaseView::Fetching {
                cursor: cursor.deep_view(),
                page: page.deep_view(),
            },
            RunPhase::ClosingPage { page, result } => RunPhaseView::ClosingPage {
                page: page.deep_view(),
                result: outcome_view(*result),
            },
            RunPhase::ClosingForSave { source, changes } => RunPhaseView::ClosingForSave {
                source: source.deep_view(),
                changes: changes.deep_view(),
            },
            RunPhase::Saving => RunPhaseView::Saving,
            RunPhase::Connecting => RunPhaseView::Connecting,
            RunPhase::ClosingEarlier { cursor } => RunPhaseView::ClosingEarlier {
                cursor: cursor.deep_view(),
            },
            RunPhase::Opening { cursor, statement } => RunPhaseView::Opening {
                cursor: cursor.deep_view(),
                statement: statement@,
            },
            RunPhase::FetchingFirst { cursor, statement } => RunPhaseView::FetchingFirst {
                cursor: cursor.deep_view(),
                statement: statement@,
            },
            RunPhase::Attaching { cursor } => RunPhaseView::Attaching {
                cursor: cursor.deep_view(),
            },
            RunPhase::ClosingQuery { result } => RunPhaseView::ClosingQuery {
                result: outcome_view(*result),
            },
            RunPhase::Executing => RunPhaseView::Executing,
            RunPhase::Browsing => RunPhaseView::Browsing,
            RunPhase::Observing { outcome } => RunPhaseView::Observing {
                outcome: outcome_view(*outcome),
            },
            RunPhase::Finished => RunPhaseView::Finished,
        }
    }
}

impl View for RunPhase {
    type V = RunPhaseView;

    open spec fn view(&self) -> RunPhaseView {
        self.deep_view()
    }
}

/// What an operation in a session asks for next, or how it ended.
pub enum RunAction {
    Fetch {
        sql: String,
    },
    /// Closes within a bounded time, also after cancellation.
    Close {
        sql: String,
    },
    Save {
        source: TableResultSource,
        changes: Vec<RowChange>,
    },
    /// Opens the connection and reads the id of its backend.
    Connect {
        profile: ConnectionProfile,
        database: String,
    },
    Open {
        commands: Vec<String>,
    },
    Attach {
        sql: String,
        page: PageRef,
        autocommit: bool,
        result: QueryResult,
    },
    Execute {
        sql: String,
    },
    /// Reads the catalog over a connection of its own.
    Browse {
        request: Request,
    },
    /// Asks another connection for the state; an aborted transaction must remain untouched.
    Observe {
        profile: ConnectionProfile,
        database: String,
        pid: i32,
    },
    Done {
        outcome: Result<Output, Error>,
        state: SessionState,
    },
}

/// What a `RunAction` denotes.
pub ghost enum RunActionView {
    Fetch {
        sql: Seq<char>,
    },
    Close {
        sql: Seq<char>,
    },
    Save {
        source: TableResultSourceView,
        changes: Seq<RowChangeView>,
    },
    Connect {
        profile: ConnectionProfileView,
        database: Seq<char>,
    },
    Open {
        commands: Seq<Seq<char>>,
    },
    Attach {
        sql: Seq<char>,
        page: PageRefView,
        autocommit: bool,
        result: QueryResultView,
    },
    Execute {
        sql: Seq<char>,
    },
    Browse {
        request: RequestView,
    },
    Observe {
        profile: ConnectionProfileView,
        database: Seq<char>,
        pid: i32,
    },
    Done {
        outcome: Result<OutputView, ErrorView>,
        state: SessionState,
    },
}

impl DeepView for RunAction {
    type V = RunActionView;

    open spec fn deep_view(&self) -> RunActionView {
        match self {
            RunAction::Fetch { sql } => RunActionView::Fetch { sql: sql@ },
            RunAction::Close { sql } => RunActionView::Close { sql: sql@ },
            RunAction::Save { source, changes } => RunActionView::Save {
                source: source.deep_view(),
                changes: changes.deep_view(),
            },
            RunAction::Connect { profile, database } => RunActionView::Connect {
                profile: profile.deep_view(),
                database: database@,
            },
            RunAction::Open { commands } => RunActionView::Open { commands: commands.deep_view() },
            RunAction::Attach { sql, page, autocommit, result } => RunActionView::Attach {
                sql: sql@,
                page: page.deep_view(),
                autocommit: *autocommit,
                result: result.deep_view(),
            },
            RunAction::Execute { sql } => RunActionView::Execute { sql: sql@ },
            RunAction::Browse { request } => RunActionView::Browse { request: request.deep_view() },
            RunAction::Observe { profile, database, pid } => RunActionView::Observe {
                profile: profile.deep_view(),
                database: database@,
                pid: *pid,
            },
            RunAction::Done { outcome, state } => RunActionView::Done {
                outcome: outcome_view(*outcome),
                state: *state,
            },
        }
    }
}

impl View for RunAction {
    type V = RunActionView;

    open spec fn view(&self) -> RunActionView {
        self.deep_view()
    }
}

/// What came of an action.
pub enum RunEvent {
    Rows(Result<QueryResult, Error>),
    Closed(CloseOutcome),
    Saved(Option<Error>),
    Connected(Result<i32, Error>),
    Opened(Option<Error>),
    Attached(Result<QueryResult, Error>),
    Browsed(Result<Output, Error>),
    Observed(TransactionState),
}

/// What a `RunEvent` denotes.
pub ghost enum RunEventView {
    Rows(Result<QueryResultView, ErrorView>),
    Closed(CloseOutcomeView),
    Saved(Option<ErrorView>),
    Connected(Result<i32, ErrorView>),
    Opened(Option<ErrorView>),
    Attached(Result<QueryResultView, ErrorView>),
    Browsed(Result<OutputView, ErrorView>),
    Observed(TransactionState),
}

impl DeepView for RunEvent {
    type V = RunEventView;

    open spec fn deep_view(&self) -> RunEventView {
        match self {
            RunEvent::Rows(value) => RunEventView::Rows(outcome_view(*value)),
            RunEvent::Closed(value) => RunEventView::Closed(value.deep_view()),
            RunEvent::Saved(value) => RunEventView::Saved(value.deep_view()),
            RunEvent::Connected(value) => RunEventView::Connected(outcome_view(*value)),
            RunEvent::Opened(value) => RunEventView::Opened(value.deep_view()),
            RunEvent::Attached(value) => RunEventView::Attached(outcome_view(*value)),
            RunEvent::Browsed(value) => RunEventView::Browsed(outcome_view(*value)),
            RunEvent::Observed(value) => RunEventView::Observed(*value),
        }
    }
}

impl View for RunEvent {
    type V = RunEventView;

    open spec fn view(&self) -> RunEventView {
        self.deep_view()
    }
}

/// One operation that holds its session until it is done.
pub struct Operation {
    pub session: Session,
    pub request: Request,
    pub database: String,
    /// Whether the session was created for this operation; a first query may connect lazily.
    pub first: bool,
    /// The id of the cursor that this operation may open.
    pub cursor_id: u64,
    pub phase: RunPhase,
}

/// What an `Operation` denotes.
pub ghost struct OperationView {
    pub session: SessionView,
    pub request: RequestView,
    pub database: Seq<char>,
    pub first: bool,
    pub cursor_id: u64,
    pub phase: RunPhaseView,
}

impl View for Operation {
    type V = OperationView;

    open spec fn view(&self) -> OperationView {
        OperationView {
            session: self.session@,
            request: self.request@,
            database: self.database@,
            first: self.first,
            cursor_id: self.cursor_id,
            phase: self.phase@,
        }
    }
}

/// A state of an operation and the action that it asks for.
pub type RunStepView = (OperationView, RunActionView);

/// The statement that is read page by page in a session of this state. Unknown and failed transactions
/// keep the plain execution path, and so does everything but a single read.
pub open spec fn paged_statement(state: SessionState, sql: Seq<char>) -> Option<Seq<char>> {
    if state == SessionState::Connected(TransactionState::Idle) || state == SessionState::Connected(
        TransactionState::Open,
    ) {
        match syntax_tree(sql) {
            Some(nodes) => read_text(nodes),
            None => None,
        }
    } else {
        None
    }
}

/// The page behind fetched rows.
pub open spec fn fetched_page(cursor: CursorView, rows: Result<QueryResultView, ErrorView>) -> Result<
    QueryResultView,
    ErrorView,
> {
    match rows {
        Ok(result) => Ok(cursor.fetched(result)),
        Err(error) => Err(error),
    }
}

impl OperationView {
    pub open spec fn with_session(self, session: SessionView) -> OperationView {
        OperationView { session, ..self }
    }

    pub open spec fn ask(self, phase: RunPhaseView, action: RunActionView) -> RunStepView {
        (OperationView { phase, ..self }, action)
    }

    /// Ends with a result. A session that is still connected is observed first.
    #[verifier::opaque]
    pub open spec fn conclude(self, outcome: Result<OutputView, ErrorView>, broken: bool) -> RunStepView {
        let session = self.session.checked(broken);
        let next = self.with_session(session);
        if session.connected {
            next.ask(
                RunPhaseView::Observing { outcome },
                RunActionView::Observe {
                    profile: session.profile,
                    database: self.database,
                    pid: session.pid,
                },
            )
        } else {
            next.ask(
                RunPhaseView::Finished,
                RunActionView::Done { outcome, state: session.state },
            )
        }
    }

    pub open spec fn refuse(self, reason: Seq<char>, broken: bool) -> RunStepView {
        self.conclude(Err(plain_error(reason)), broken)
    }

    /// Ends a fetch of a further page. Only a page that continues keeps its cursor.
    #[verifier::opaque]
    pub open spec fn page_done(
        self,
        cursor: Option<CursorView>,
        page: PageRefView,
        result: Result<QueryResultView, ErrorView>,
        broken: bool,
    ) -> RunStepView {
        self.with_session(SessionView { cursor, ..self.session }).conclude(
            match result {
                Ok(result) => Ok(OutputView::Page { requested: page, result }),
                Err(error) => Err(error),
            },
            broken,
        )
    }

    /// Ends a query. A result that continues keeps its cursor, and its source may write.
    #[verifier::opaque]
    pub open spec fn query_done(
        self,
        cursor: Option<CursorView>,
        result: Result<QueryResultView, ErrorView>,
        broken: bool,
    ) -> RunStepView {
        match result {
            Ok(result) => self.with_session(
                SessionView { cursor, edit_source: result.source, ..self.session },
            ).conclude(Ok(OutputView::Result(result)), broken),
            Err(error) => self.conclude(Err(error), broken),
        }
    }

    /// Behind the analysis of a query, or its failure: closes the cursor unless the result continues.
    #[verifier::opaque]
    pub open spec fn finish_query(
        self,
        cursor: CursorView,
        result: Result<QueryResultView, ErrorView>,
        broken: bool,
    ) -> RunStepView {
        if continues(result) {
            self.query_done(Some(cursor), result, broken)
        } else {
            self.ask(
                RunPhaseView::ClosingQuery { result },
                RunActionView::Close { sql: cursor.closing() },
            )
        }
    }

    /// Hands a batch over to the server, on the connection that produced the rows.
    #[verifier::opaque]
    pub open spec fn save_now(
        self,
        source: TableResultSourceView,
        changes: Seq<RowChangeView>,
        broken: bool,
    ) -> RunStepView {
        if self.session.connected {
            self.ask(RunPhaseView::Saving, RunActionView::Save { source, changes })
        } else {
            self.refuse("SQL session lost; reconnect and run the query again"@, broken)
        }
    }

    /// Carries the request out, on a connected session without an earlier cursor in the way.
    #[verifier::opaque]
    pub open spec fn dispatch(self, broken: bool) -> RunStepView {
        match self.request {
            RequestView::Query { profile, sql, .. } => match paged_statement(
                self.session.state,
                sql,
            ) {
                Some(statement) => {
                    let cursor = CursorView {
                        page: PageRefView {
                            id: self.cursor_id,
                            profile_id: profile.id,
                            database: self.database,
                            preview: false,
                        },
                        owns_transaction: self.session.state == SessionState::Connected(
                            TransactionState::Idle,
                        ),
                    };
                    self.ask(
                        RunPhaseView::Opening { cursor, statement },
                        RunActionView::Open { commands: cursor.opening(statement) },
                    )
                },
                None => self.ask(RunPhaseView::Executing, RunActionView::Execute { sql }),
            },
            RequestView::Databases { .. } | RequestView::Schemas { .. } => self.ask(
                RunPhaseView::Browsing,
                RunActionView::Browse { request: self.request },
            ),
            _ => self.conclude(Ok(OutputView::Session), broken),
        }
    }

    /// Goes on with a connected session. Even failed replacement SQL retires the write authority of the
    /// old result, and the earlier cursor closes before user SQL.
    #[verifier::opaque]
    pub open spec fn proceed(self, broken: bool) -> RunStepView {
        if self.request is Query {
            let session = SessionView { cursor: None, edit_source: None, ..self.session };
            match self.session.cursor {
                Some(cursor) => self.with_session(session).ask(
                    RunPhaseView::ClosingEarlier { cursor },
                    RunActionView::Close { sql: cursor.closing() },
                ),
                None => self.with_session(session).dispatch(broken),
            }
        } else {
            self.dispatch(broken)
        }
    }

    /// Connects where that is needed and allowed. Only a first or explicit request may connect.
    #[verifier::opaque]
    pub open spec fn connect(
        self,
        profile: ConnectionProfileView,
        explicit: bool,
        reconnect: bool,
        broken: bool,
    ) -> RunStepView {
        if self.session.profile != profile {
            self.refuse("Connection settings changed; disconnect and reopen the session"@, broken)
        } else {
            let session = if reconnect { self.session.disconnected() } else { self.session };
            let next = self.with_session(session);
            if session.connected {
                next.proceed(broken)
            } else if self.first || explicit {
                next.ask(
                    RunPhaseView::Connecting,
                    RunActionView::Connect { profile, database: self.database },
                )
            } else {
                next.refuse(
                    "SQL session is disconnected or lost; use Connect or Reconnect explicitly"@,
                    broken,
                )
            }
        }
    }

    /// Starts to fetch a further page.
    #[verifier::opaque]
    pub open spec fn begin_page(self, page: PageRefView, broken: bool) -> RunStepView {
        match self.session.cursor {
            None => self.refuse("SQL result cursor is closed; run the query again"@, broken),
            Some(cursor) => if cursor.page != page {
                self.refuse("SQL result cursor was replaced; run the query again"@, broken)
            } else {
                let next = self.with_session(SessionView { cursor: None, ..self.session });
                if self.session.connected {
                    next.ask(
                        RunPhaseView::Fetching { cursor, page },
                        RunActionView::Fetch { sql: cursor.fetching() },
                    )
                } else {
                    next.refuse("SQL session lost; reconnect and run the query again"@, broken)
                }
            },
        }
    }

    /// Starts to save rows of a custom query. Only the current result of this very session may write,
    /// and never inside a user transaction.
    #[verifier::opaque]
    pub open spec fn begin_save(
        self,
        profile: ConnectionProfileView,
        source: TableResultSourceView,
        changes: Seq<RowChangeView>,
        broken: bool,
    ) -> RunStepView {
        if self.session.profile != profile || self.session.edit_source != Some(source) {
            self.refuse("Query result is no longer current; run the query again"@, broken)
        } else if !self.session.state.allows_query_edits() {
            self.refuse("End the SQL transaction and run the query again before editing"@, broken)
        } else {
            match self.session.cursor {
                Some(cursor) => {
                    let next = self.with_session(SessionView { cursor: None, ..self.session });
                    if cursor.owns_transaction {
                        next.ask(
                            RunPhaseView::ClosingForSave { source, changes },
                            RunActionView::Close { sql: cursor.closing() },
                        )
                    } else {
                        next.refuse("Cannot save inside a user transaction"@, broken)
                    }
                },
                None => self.save_now(source, changes, broken),
            }
        }
    }

    /// Starts the operation.
    pub open spec fn begin(self, cancelled: bool, broken: bool) -> RunStepView {
        let next = self.with_session(self.session.checked(broken));
        if cancelled {
            next.conclude(Err(cancelled_error()), broken)
        } else {
            match self.request {
                RequestView::Disconnect { .. } => next.with_session(
                    next.session.disconnected(),
                ).conclude(Ok(OutputView::Session), broken),
                RequestView::FetchPage { page } => next.begin_page(page, broken),
                RequestView::SaveChanges { profile, source, changes, .. } => next.begin_save(
                    profile,
                    source,
                    changes,
                    broken,
                ),
                RequestView::Connect { profile, reconnect, .. } => next.connect(
                    profile,
                    true,
                    reconnect,
                    broken,
                ),
                RequestView::Query { profile, .. } => next.connect(profile, false, false, broken),
                RequestView::Databases { profile, .. } => next.connect(
                    profile,
                    false,
                    false,
                    broken,
                ),
                RequestView::Schemas { profile, .. } => next.connect(profile, false, false, broken),
                _ => next.refuse("This request does not use a SQL session"@, broken),
            }
        }
    }

    /// Takes what came of an action. `broken` says that the connection is known to be gone. An event
    /// that does not answer the action counts as a failure.
    pub open spec fn step(self, event: RunEventView, broken: bool) -> RunStepView {
        let next = OperationView { phase: RunPhaseView::Finished, ..self };
        match (self.phase, event) {
            (RunPhaseView::Fetching { cursor, page }, RunEventView::Rows(rows)) => {
                let result = fetched_page(cursor, rows);
                if continues(result) {
                    next.page_done(Some(cursor), page, result, broken)
                } else {
                    next.ask(
                        RunPhaseView::ClosingPage { page, result },
                        RunActionView::Close { sql: cursor.closing() },
                    )
                }
            },
            (RunPhaseView::ClosingPage { page, result }, RunEventView::Closed(outcome)) => {
                let (error, gone) = close_failure(outcome);
                next.page_done(
                    self.session.cursor,
                    page,
                    closed_read(result, error),
                    broken || gone,
                )
            },
            (
                RunPhaseView::ClosingForSave { source, changes },
                RunEventView::Closed(outcome),
            ) => match close_failure(outcome) {
                (Some(error), gone) => next.conclude(Err(error), broken || gone),
                (None, _) => next.save_now(source, changes, broken),
            },
            (RunPhaseView::Saving, RunEventView::Saved(failure)) => match failure {
                None => next.with_session(
                    SessionView { edit_source: None, ..self.session },
                ).conclude(Ok(OutputView::QuerySaved), broken),
                // Never retry an uncertain write with the old row snapshot.
                Some(error) => next.with_session(
                    SessionView {
                        edit_source: if error.cause is UnknownCommit {
                            None
                        } else {
                            self.session.edit_source
                        },
                        ..self.session
                    },
                ).conclude(Err(error), broken),
            },
            (RunPhaseView::Connecting, RunEventView::Connected(outcome)) => match outcome {
                Ok(pid) => next.with_session(
                    SessionView {
                        connected: true,
                        pid,
                        state: SessionState::Connected(TransactionState::Idle),
                        ..self.session
                    },
                ).proceed(broken),
                Err(error) => next.conclude(Err(error), broken),
            },
            (RunPhaseView::ClosingEarlier { cursor }, RunEventView::Closed(outcome)) =>
            match close_failure(outcome) {
                (Some(error), gone) => next.conclude(Err(error), broken || gone),
                (None, _) => if cursor.owns_transaction {
                    next.with_session(
                        SessionView {
                            state: SessionState::Connected(TransactionState::Idle),
                            ..self.session
                        },
                    ).dispatch(broken)
                } else {
                    next.dispatch(broken)
                },
            },
            (RunPhaseView::Opening { cursor, statement }, RunEventView::Opened(failure)) =>
            match failure {
                Some(error) => next.finish_query(cursor, Err(error), broken),
                None => next.ask(
                    RunPhaseView::FetchingFirst { cursor, statement },
                    RunActionView::Fetch { sql: cursor.fetching() },
                ),
            },
            (RunPhaseView::FetchingFirst { cursor, statement }, RunEventView::Rows(rows)) =>
            match rows {
                Ok(result) => next.ask(
                    RunPhaseView::Attaching { cursor },
                    RunActionView::Attach {
                        sql: statement,
                        page: cursor.page,
                        autocommit: cursor.owns_transaction,
                        result: cursor.fetched(result),
                    },
                ),
                Err(error) => next.finish_query(cursor, Err(error), broken),
            },
            (RunPhaseView::Attaching { cursor }, RunEventView::Attached(result)) =>
                next.finish_query(cursor, result, broken),
            (RunPhaseView::ClosingQuery { result }, RunEventView::Closed(outcome)) => {
                let (error, gone) = close_failure(outcome);
                next.query_done(self.session.cursor, closed_read(result, error), broken || gone)
            },
            (RunPhaseView::Executing, RunEventView::Rows(rows)) => next.conclude(
                match rows {
                    Ok(result) => Ok(OutputView::Result(result)),
                    Err(error) => Err(error),
                },
                broken,
            ),
            (RunPhaseView::Browsing, RunEventView::Browsed(result)) => next.conclude(
                result,
                broken,
            ),
            (RunPhaseView::Observing { outcome }, RunEventView::Observed(state)) => {
                let session = self.session.observed(state).checked(broken);
                next.with_session(session).ask(
                    RunPhaseView::Finished,
                    RunActionView::Done { outcome, state: session.state },
                )
            },
            _ => next.refuse("The server answered another question"@, broken),
        }
    }
}

fn page_of(cursor: &Cursor, rows: Result<QueryResult, Error>) -> (page: Result<QueryResult, Error>)
    ensures
        outcome_view(page) == fetched_page(cursor@, outcome_view(rows)),
{
    match rows {
        Ok(result) => Ok(cursor.fetch(result)),
        Err(error) => Err(error),
    }
}

impl Operation {
    /// An operation that has not begun.
    pub fn new(
        session: Session,
        request: Request,
        database: String,
        first: bool,
        cursor_id: u64,
    ) -> (operation: Operation)
        ensures
            operation@ == (OperationView {
                session: session@,
                request: request@,
                database: database@,
                first,
                cursor_id,
                phase: RunPhaseView::Finished,
            }),
    {
        Operation { session, request, database, first, cursor_id, phase: RunPhase::Finished }
    }

    fn ask(self, phase: RunPhase, action: RunAction) -> (next: (Operation, RunAction))
        ensures
            (next.0@, next.1@) == self@.ask(phase@, action@),
    {
        let mut operation = self;
        operation.phase = phase;
        (operation, action)
    }

    fn conclude(self, outcome: Result<Output, Error>, broken: bool) -> (next: (Operation, RunAction))
        ensures
            (next.0@, next.1@) == self@.conclude(outcome_view(outcome), broken),
    {
        proof {
            reveal(OperationView::conclude);
        }
        let mut operation = self;
        operation.session.check_health(broken);
        if operation.session.connected {
            let action = RunAction::Observe {
                profile: operation.session.profile.duplicate(),
                database: operation.database.clone(),
                pid: operation.session.pid,
            };
            operation.ask(RunPhase::Observing { outcome }, action)
        } else {
            let state = operation.session.state;
            operation.ask(RunPhase::Finished, RunAction::Done { outcome, state })
        }
    }

    fn refuse(self, reason: &str, broken: bool) -> (next: (Operation, RunAction))
        ensures
            (next.0@, next.1@) == self@.refuse(reason@, broken),
    {
        self.conclude(Err(Error::new(reason)), broken)
    }

    fn page_done(
        self,
        cursor: Option<Cursor>,
        page: PageRef,
        result: Result<QueryResult, Error>,
        broken: bool,
    ) -> (next: (Operation, RunAction))
        ensures
            (next.0@, next.1@) == self@.page_done(
                cursor.deep_view(),
                page@,
                outcome_view(result),
                broken,
            ),
    {
        proof {
            reveal(OperationView::page_done);
        }
        let mut operation = self;
        operation.session.cursor = cursor;
        match result {
            Ok(result) => operation.conclude(Ok(Output::Page { requested: page, result }), broken),
            Err(error) => operation.conclude(Err(error), broken),
        }
    }

    fn query_done(
        self,
        cursor: Option<Cursor>,
        result: Result<QueryResult, Error>,
        broken: bool,
    ) -> (next: (Operation, RunAction))
        ensures
            (next.0@, next.1@) == self@.query_done(
                cursor.deep_view(),
                outcome_view(result),
                broken,
            ),
    {
        proof {
            reveal(OperationView::query_done);
        }
        let mut operation = self;
        match result {
            Ok(result) => {
                operation.session.cursor = cursor;
                operation.session.edit_source = result.source.duplicate();
                operation.conclude(Ok(Output::Result(result)), broken)
            },
            Err(error) => operation.conclude(Err(error), broken),
        }
    }

    fn finish_query(self, cursor: Cursor, result: Result<QueryResult, Error>, broken: bool) -> (next: (
        Operation,
        RunAction,
    ))
        ensures
            (next.0@, next.1@) == self@.finish_query(cursor@, outcome_view(result), broken),
    {
        proof {
            reveal(OperationView::finish_query);
        }
        if is_continued(&result) {
            self.query_done(Some(cursor), result, broken)
        } else {
            let sql = cursor.close();
            self.ask(RunPhase::ClosingQuery { result }, RunAction::Close { sql })
        }
    }

    fn save_now(self, source: TableResultSource, changes: Vec<RowChange>, broken: bool) -> (next: (
        Operation,
        RunAction,
    ))
        ensures
            (next.0@, next.1@) == self@.save_now(source@, changes.deep_view(), broken),
    {
        proof {
            reveal(OperationView::save_now);
        }
        if self.session.connected {
            self.ask(RunPhase::Saving, RunAction::Save { source, changes })
        } else {
            self.refuse("SQL session lost; reconnect and run the query again", broken)
        }
    }

    fn dispatch(self, broken: bool) -> (next: (Operation, RunAction))
        ensures
            (next.0@, next.1@) == self@.dispatch(broken),
    {
        proof {
            reveal(OperationView::dispatch);
        }
        let idle = matches!(
            self.session.state,
            SessionState::Connected(TransactionState::Idle)
        );
        let open = matches!(
            self.session.state,
            SessionState::Connected(TransactionState::Open)
        );
        match &self.request {
            Request::Query { profile, database: _, sql } => {
                let statement = if idle || open {
                    select_statement(sql.as_str())
                } else {
                    None
                };
                match statement {
                    Some(statement) => {
                        let cursor = Cursor::new(
                            self.cursor_id,
                            profile.id.as_str(),
                            self.database.as_str(),
                            false,
                            idle,
                        );
                        let commands = cursor.open(statement.as_str());
                        self.ask(
                            RunPhase::Opening { cursor, statement },
                            RunAction::Open { commands },
                        )
                    },
                    None => {
                        let sql = sql.clone();
                        self.ask(RunPhase::Executing, RunAction::Execute { sql })
                    },
                }
            },
            Request::Databases { .. } => {
                let request = self.request.duplicate();
                self.ask(RunPhase::Browsing, RunAction::Browse { request })
            },
            Request::Schemas { .. } => {
                let request = self.request.duplicate();
                self.ask(RunPhase::Browsing, RunAction::Browse { request })
            },
            _ => self.conclude(Ok(Output::Session), broken),
        }
    }

    fn proceed(self, broken: bool) -> (next: (Operation, RunAction))
        ensures
            (next.0@, next.1@) == self@.proceed(broken),
    {
        proof {
            reveal(OperationView::proceed);
        }
        let mut operation = self;
        let query = matches!(operation.request, Request::Query { .. });
        if query {
            operation.session.edit_source = None;
            let mut earlier: Option<Cursor> = None;
            std::mem::swap(&mut earlier, &mut operation.session.cursor);
            match earlier {
                Some(cursor) => {
                    let sql = cursor.close();
                    operation.ask(RunPhase::ClosingEarlier { cursor }, RunAction::Close { sql })
                },
                None => operation.dispatch(broken),
            }
        } else {
            operation.dispatch(broken)
        }
    }

    fn connect(self, profile: ConnectionProfile, explicit: bool, reconnect: bool, broken: bool) -> (next: (
        Operation,
        RunAction,
    ))
        ensures
            (next.0@, next.1@) == self@.connect(profile@, explicit, reconnect, broken),
    {
        proof {
            reveal(OperationView::connect);
        }
        let mut operation = self;
        if !operation.session.profile.same(&profile) {
            return operation.refuse(
                "Connection settings changed; disconnect and reopen the session",
                broken,
            );
        }
        if reconnect {
            operation.session.disconnect();
        }
        if operation.session.connected {
            return operation.proceed(broken);
        }
        if operation.first || explicit {
            let database = operation.database.clone();
            return operation.ask(RunPhase::Connecting, RunAction::Connect { profile, database });
        }
        operation.refuse(
            "SQL session is disconnected or lost; use Connect or Reconnect explicitly",
            broken,
        )
    }

    fn begin_page(self, page: PageRef, broken: bool) -> (next: (Operation, RunAction))
        ensures
            (next.0@, next.1@) == self@.begin_page(page@, broken),
    {
        proof {
            reveal(OperationView::begin_page);
        }
        let mut operation = self;
        let mut taken: Option<Cursor> = None;
        std::mem::swap(&mut taken, &mut operation.session.cursor);
        match taken {
            None => operation.refuse("SQL result cursor is closed; run the query again", broken),
            Some(cursor) => {
                if !cursor.page.same(&page) {
                    operation.session.cursor = Some(cursor);
                    return operation.refuse(
                        "SQL result cursor was replaced; run the query again",
                        broken,
                    );
                }
                if operation.session.connected {
                    let sql = cursor.fetch_command();
                    operation.ask(RunPhase::Fetching { cursor, page }, RunAction::Fetch { sql })
                } else {
                    operation.refuse("SQL session lost; reconnect and run the query again", broken)
                }
            },
        }
    }

    fn begin_save(
        self,
        profile: &ConnectionProfile,
        source: TableResultSource,
        changes: Vec<RowChange>,
        broken: bool,
    ) -> (next: (Operation, RunAction))
        ensures
            (next.0@, next.1@) == self@.begin_save(
                profile@,
                source@,
                changes.deep_view(),
                broken,
            ),
    {
        proof {
            reveal(OperationView::begin_save);
        }
        let mut operation = self;
        let current = match &operation.session.edit_source {
            Some(current) => current.same(&source),
            None => false,
        };
        if !operation.session.profile.same(profile) || !current {
            return operation.refuse(
                "Query result is no longer current; run the query again",
                broken,
            );
        }
        if !operation.session.state.permits_query_edits() {
            return operation.refuse(
                "End the SQL transaction and run the query again before editing",
                broken,
            );
        }
        let mut taken: Option<Cursor> = None;
        std::mem::swap(&mut taken, &mut operation.session.cursor);
        match taken {
            Some(cursor) => {
                if cursor.owns_transaction {
                    let sql = cursor.close();
                    operation.ask(
                        RunPhase::ClosingForSave { source, changes },
                        RunAction::Close { sql },
                    )
                } else {
                    operation.refuse("Cannot save inside a user transaction", broken)
                }
            },
            None => operation.save_now(source, changes, broken),
        }
    }

    /// Starts the operation. `cancelled` says that it was cancelled already, and `broken` that the
    /// connection is known to be gone.
    pub fn begin(self, cancelled: bool, broken: bool) -> (next: (Operation, RunAction))
        ensures
            (next.0@, next.1@) == self@.begin(cancelled, broken),
    {
        let mut operation = self;
        operation.session.check_health(broken);
        if cancelled {
            return operation.conclude(Err(Error::cancelled()), broken);
        }
        let request = operation.request.duplicate();
        match request {
            Request::Disconnect { .. } => {
                operation.session.disconnect();
                operation.conclude(Ok(Output::Session), broken)
            },
            Request::FetchPage { page } => operation.begin_page(page, broken),
            Request::SaveChanges { profile, password: _, source, changes } => operation.begin_save(
                &profile,
                source,
                changes,
                broken,
            ),
            Request::Connect { profile, database: _, reconnect } => operation.connect(
                profile,
                true,
                reconnect,
                broken,
            ),
            Request::Query { profile, .. } => operation.connect(profile, false, false, broken),
            Request::Databases { profile, .. } => operation.connect(profile, false, false, broken),
            Request::Schemas { profile, .. } => operation.connect(profile, false, false, broken),
            _ => operation.refuse("This request does not use a SQL session", broken),
        }
    }

    /// Takes what came of an action and goes on.
    pub fn step(self, event: RunEvent, broken: bool) -> (next: (Operation, RunAction))
        ensures
            (next.0@, next.1@) == self@.step(event@, broken),
    {
        let mut operation = self;
        let mut phase = RunPhase::Finished;
        std::mem::swap(&mut phase, &mut operation.phase);
        match (phase, event) {
            (RunPhase::Fetching { cursor, page }, RunEvent::Rows(rows)) => {
                let result = page_of(&cursor, rows);
                if is_continued(&result) {
                    operation.page_done(Some(cursor), page, result, broken)
                } else {
                    let sql = cursor.close();
                    operation.ask(RunPhase::ClosingPage { page, result }, RunAction::Close { sql })
                }
            },
            (RunPhase::ClosingPage { page, result }, RunEvent::Closed(outcome)) => {
                let (error, gone) = close_result(outcome);
                let kept = operation.session.cursor.duplicate();
                operation.page_done(kept, page, finish_read(result, error), broken || gone)
            },
            (RunPhase::ClosingForSave { source, changes }, RunEvent::Closed(outcome)) => {
                match close_result(outcome) {
                    (Some(error), gone) => operation.conclude(Err(error), broken || gone),
                    (None, _) => operation.save_now(source, changes, broken),
                }
            },
            (RunPhase::Saving, RunEvent::Saved(failure)) => match failure {
                None => {
                    operation.session.edit_source = None;
                    operation.conclude(Ok(Output::QuerySaved), broken)
                },
                Some(error) => {
                    if error.is_unknown_commit() {
                        operation.session.edit_source = None;
                    }
                    operation.conclude(Err(error), broken)
                },
            },
            (RunPhase::Connecting, RunEvent::Connected(outcome)) => match outcome {
                Ok(pid) => {
                    operation.session.connected = true;
                    operation.session.pid = pid;
                    operation.session.state = SessionState::Connected(TransactionState::Idle);
                    operation.proceed(broken)
                },
                Err(error) => operation.conclude(Err(error), broken),
            },
            (RunPhase::ClosingEarlier { cursor }, RunEvent::Closed(outcome)) => {
                match close_result(outcome) {
                    (Some(error), gone) => operation.conclude(Err(error), broken || gone),
                    (None, _) => {
                        if cursor.owns_transaction {
                            operation.session.state = SessionState::Connected(
                                TransactionState::Idle,
                            );
                        }
                        operation.dispatch(broken)
                    },
                }
            },
            (RunPhase::Opening { cursor, statement }, RunEvent::Opened(failure)) => match failure {
                Some(error) => operation.finish_query(cursor, Err(error), broken),
                None => {
                    let sql = cursor.fetch_command();
                    operation.ask(
                        RunPhase::FetchingFirst { cursor, statement },
                        RunAction::Fetch { sql },
                    )
                },
            },
            (RunPhase::FetchingFirst { cursor, statement }, RunEvent::Rows(rows)) => match rows {
                Ok(result) => {
                    let action = RunAction::Attach {
                        sql: statement,
                        page: cursor.page.duplicate(),
                        autocommit: cursor.owns_transaction,
                        result: cursor.fetch(result),
                    };
                    operation.ask(RunPhase::Attaching { cursor }, action)
                },
                Err(error) => operation.finish_query(cursor, Err(error), broken),
            },
            (RunPhase::Attaching { cursor }, RunEvent::Attached(result)) => operation.finish_query(
                cursor,
                result,
                broken,
            ),
            (RunPhase::ClosingQuery { result }, RunEvent::Closed(outcome)) => {
                let (error, gone) = close_result(outcome);
                let kept = operation.session.cursor.duplicate();
                operation.query_done(kept, finish_read(result, error), broken || gone)
            },
            (RunPhase::Executing, RunEvent::Rows(rows)) => match rows {
                Ok(result) => operation.conclude(Ok(Output::Result(result)), broken),
                Err(error) => operation.conclude(Err(error), broken),
            },
            (RunPhase::Browsing, RunEvent::Browsed(result)) => operation.conclude(result, broken),
            (RunPhase::Observing { outcome }, RunEvent::Observed(state)) => {
                let owned = match &operation.session.cursor {
                    Some(cursor) => cursor.owns_transaction,
                    None => false,
                };
                operation.session.state = SessionState::Connected(
                    if matches!(state, TransactionState::Open) && owned {
                        TransactionState::Paging
                    } else {
                        state
                    },
                );
                operation.session.check_health(broken);
                let state = operation.session.state;
                operation.ask(RunPhase::Finished, RunAction::Done { outcome, state })
            },
            _ => operation.refuse("The server answered another question", broken),
        }
    }
}

/// The place of a session in the table: the session itself, or the mark of a running operation.
#[derive(PartialEq, Eq)]
pub enum Slot {
    Idle(Session),
    Busy,
}

/// What a `Slot` denotes.
pub ghost enum SlotView {
    Idle(SessionView),
    Busy,
}

impl DeepView for Slot {
    type V = SlotView;

    open spec fn deep_view(&self) -> SlotView {
        match self {
            Slot::Idle(value) => SlotView::Idle(value.deep_view()),
            Slot::Busy => SlotView::Busy,
        }
    }
}

impl Clone for Slot {
    fn clone(&self) -> (copy: Slot)
        ensures
            copy@ == self@,
    {
        self.duplicate()
    }
}

impl View for Slot {
    type V = SlotView;

    open spec fn view(&self) -> SlotView {
        self.deep_view()
    }
}

impl Value for Slot {
    fn duplicate(&self) -> (copy: Slot) {
        match self {
            Slot::Idle(value) => Slot::Idle(value.duplicate()),
            Slot::Busy => Slot::Busy,
        }
    }

    fn same(&self, other: &Slot) -> (same: bool) {
        match (self, other) {
            (Slot::Idle(value_a), Slot::Idle(value_b)) => value_a.same(value_b),
            (Slot::Busy, Slot::Busy) => true,
            _ => false,
        }
    }
}

/// A profile and a database.
pub type TargetView = (Seq<char>, Seq<char>);

impl SlotView {
    /// The slot after the connection of its session was looked at.
    pub open spec fn checked(self, broken: bool) -> SlotView {
        match self {
            SlotView::Idle(session) => SlotView::Idle(session.checked(broken)),
            SlotView::Busy => SlotView::Busy,
        }
    }

    /// Whether an idle session is connected.
    pub open spec fn connected(self) -> bool {
        self is Idle && self->Idle_0.connected
    }
}

/// All SQL sessions and table previews. A lookup holds the table; each session has its own operation.
pub struct SessionManager {
    entries: KeyedMap<(String, String), Slot>,
    previews: Previews,
}

/// What a `SessionManager` denotes.
pub ghost struct SessionManagerView {
    pub entries: Map<TargetView, SlotView>,
    pub previews: Map<TargetView, CursorView>,
}

impl View for SessionManager {
    type V = SessionManagerView;

    closed spec fn view(&self) -> SessionManagerView {
        SessionManagerView { entries: self.entries@, previews: self.previews@ }
    }
}

/// The sessions after the connections of some were looked at.
pub open spec fn checked_entries(
    entries: Map<TargetView, SlotView>,
    looked_at: spec_fn(TargetView) -> bool,
    gone: Seq<TargetView>,
) -> Map<TargetView, SlotView> {
    Map::new(
        |key: TargetView| entries.contains_key(key),
        |key: TargetView|
            if looked_at(key) {
                entries[key].checked(gone.contains(key))
            } else {
                entries[key]
            },
    )
}

/// The session that serves a request.
pub open spec fn session_key(request: RequestView) -> Option<TargetView> {
    match request {
        RequestView::FetchPage { page } => Some((page.profile_id, page.database)),
        RequestView::SaveChanges { source, .. } => Some(
            (source.table.profile_id, source.table.database),
        ),
        RequestView::Query { profile, database, .. } => Some((profile.id, database)),
        RequestView::Connect { profile, database, .. } => Some((profile.id, database)),
        RequestView::Disconnect { profile, database } => Some((profile.id, database)),
        RequestView::Schemas { profile, database, .. } => Some((profile.id, database)),
        RequestView::Databases { profile, .. } => Some((profile.id, profile.database)),
        _ => None,
    }
}

/// The profile of a request that may create a session.
pub open spec fn session_profile(request: RequestView) -> Option<ConnectionProfileView> {
    match request {
        RequestView::Query { profile, .. } => Some(profile),
        RequestView::Connect { profile, .. } => Some(profile),
        RequestView::Disconnect { profile, .. } => Some(profile),
        RequestView::Schemas { profile, .. } => Some(profile),
        RequestView::Databases { profile, .. } => Some(profile),
        _ => None,
    }
}

/// The previews after a request arrived. Disconnecting releases an idle preview, and SQL and saves
/// replace it.
pub open spec fn previews_behind(
    previews: Map<TargetView, CursorView>,
    request: RequestView,
) -> Map<TargetView, CursorView> {
    match request {
        RequestView::Disconnect { profile, database } => previews.remove((profile.id, database)),
        RequestView::Query { profile, database, .. } => previews.remove((profile.id, database)),
        RequestView::SaveChanges { source, .. } => if source.query is None {
            previews.remove((source.table.profile_id, source.table.database))
        } else {
            previews
        },
        _ => previews,
    }
}

/// Where a request is served.
pub enum Route {
    /// A new table preview.
    Preview,
    /// A batch of changes of a table preview.
    SaveTable,
    /// A further page of a table preview.
    PreviewPage,
    /// The catalog, over a connection of its own.
    Metadata,
    /// A SQL session, which is taken out of the table until it is handed back.
    Session { session: Session, profile_id: String, database: String, first: bool },
    Refused(Error),
}

/// What a `Route` denotes.
pub ghost enum RouteView {
    Preview,
    SaveTable,
    PreviewPage,
    Metadata,
    Session { session: SessionView, profile_id: Seq<char>, database: Seq<char>, first: bool },
    Refused(ErrorView),
}

impl View for Route {
    type V = RouteView;

    open spec fn view(&self) -> RouteView {
        match self {
            Route::Preview => RouteView::Preview,
            Route::SaveTable => RouteView::SaveTable,
            Route::PreviewPage => RouteView::PreviewPage,
            Route::Metadata => RouteView::Metadata,
            Route::Session { session, profile_id, database, first } => RouteView::Session {
                session: session@,
                profile_id: profile_id@,
                database: database@,
                first: *first,
            },
            Route::Refused(error) => RouteView::Refused(error@),
        }
    }
}

impl SessionManagerView {
    /// Takes the session of a key, creating it where the request may.
    pub open spec fn take(self, key: TargetView, request: RequestView) -> (
        SessionManagerView,
        RouteView,
    ) {
        let busy = SessionManagerView {
            entries: self.entries.insert(key, SlotView::Busy),
            ..self
        };
        if self.entries.contains_key(key) {
            match self.entries[key] {
                SlotView::Idle(session) => (
                    busy,
                    RouteView::Session { session, profile_id: key.0, database: key.1, first: false },
                ),
                SlotView::Busy => (
                    self,
                    RouteView::Refused(
                        plain_error("This SQL session already has an active operation"@),
                    ),
                ),
            }
        } else {
            match session_profile(request) {
                Some(profile) => (
                    busy,
                    RouteView::Session {
                        session: SessionView::fresh(profile),
                        profile_id: key.0,
                        database: key.1,
                        first: true,
                    },
                ),
                None => (
                    self,
                    RouteView::Refused(
                        plain_error("SQL result cursor is closed; run the query again"@),
                    ),
                ),
            }
        }
    }

    /// Where a request is served, and what that does to the table. Table cursors have their own
    /// connections and never borrow the transaction of a SQL session.
    pub open spec fn route(self, request: RequestView) -> (SessionManagerView, RouteView) {
        let next = SessionManagerView { previews: previews_behind(self.previews, request), ..self };
        match request {
            RequestView::Preview { .. } => (next, RouteView::Preview),
            RequestView::Tables { .. } => (next, RouteView::Metadata),
            _ => if request is SaveChanges && request->source.query is None {
                (next, RouteView::SaveTable)
            } else if request is FetchPage && request->page.preview {
                (next, RouteView::PreviewPage)
            } else {
                next.take(session_key(request)->Some_0, request)
            },
        }
    }
}

fn key_of(profile_id: &String, database: &String) -> (key: (String, String))
    ensures
        key.deep_view() == (profile_id@, database@),
{
    (profile_id.clone(), database.clone())
}

fn profile_of(request: &Request) -> (profile: Option<&ConnectionProfile>)
    ensures
        match profile {
            Some(profile) => session_profile(request@) == Some(profile@),
            None => session_profile(request@) is None,
        },
{
    match request {
        Request::Query { profile, .. } => Some(profile),
        Request::Connect { profile, .. } => Some(profile),
        Request::Disconnect { profile, .. } => Some(profile),
        Request::Schemas { profile, .. } => Some(profile),
        Request::Databases { profile, .. } => Some(profile),
        _ => None,
    }
}

fn lists(keys: &Vec<(String, String)>, key: &(String, String)) -> (found: bool)
    ensures
        found == keys.deep_view().contains(key.deep_view()),
{
    let mut i: usize = 0;
    while i < keys.len()
        invariant
            i <= keys@.len(),
            forall|k: int| 0 <= k < i ==> keys.deep_view()[k] != key.deep_view(),
        decreases keys@.len() - i,
    {
        assert(keys.deep_view()[i as int] == keys@[i as int].deep_view());
        if keys[i].same(key) {
            assert(keys.deep_view()[i as int] == key.deep_view());
            return true;
        }
        i += 1;
    }
    false
}

/// Whether a listing says of every idle session its state, once, and nothing else.
pub open spec fn lists_states(
    listing: Seq<(TargetView, SessionState)>,
    entries: Map<TargetView, SlotView>,
) -> bool {
    &&& forall|i: int|
        0 <= i < listing.len() ==> entries.contains_key((#[trigger] listing[i]).0)
            && entries[listing[i].0] is Idle && entries[listing[i].0]->Idle_0.state == listing[i].1
    &&& forall|key: TargetView| #[trigger]
        entries.contains_key(key) && entries[key] is Idle ==> exists|i: int|
            0 <= i < listing.len() && (#[trigger] listing[i]).0 == key
    &&& forall|i: int, j: int|
        0 <= i < j < listing.len() ==> (#[trigger] listing[i]).0 != (#[trigger] listing[j]).0
}

impl SessionManager {
    /// No sessions and no previews.
    pub fn new() -> (manager: SessionManager)
        ensures
            manager@.entries == Map::<TargetView, SlotView>::empty(),
            manager@.previews == Map::<TargetView, CursorView>::empty(),
    {
        SessionManager { entries: KeyedMap::new(), previews: Previews::new() }
    }

    /// Looks at the connections of the sessions that belong to `owner`, or of all; those in `gone` are
    /// lost.
    fn check_entries(&mut self, owner: Option<&str>, gone: &Vec<(String, String)>)
        ensures
            final(self)@.previews == old(self)@.previews,
            final(self)@.entries == checked_entries(
                old(self)@.entries,
                |key: TargetView| owner is None || key.0 == owner->Some_0@,
                gone.deep_view(),
            ),
            final(self).entries.keys() == old(self).entries.keys(),
    {
        let ghost before = self.entries@;
        let ghost keys = self.entries.keys();
        let ghost looked_at = |key: TargetView| owner is None || key.0 == owner->Some_0@;
        let ghost lost = gone.deep_view();
        let ghost goal = checked_entries(before, looked_at, lost);
        let mut i: usize = 0;
        proof {
            self.entries.lemma_keys();
        }
        while i < self.entries.len()
            invariant
                i <= keys.len(),
                self.entries.keys() == keys,
                self@.previews == old(self)@.previews,
                looked_at == (|key: TargetView| owner is None || key.0 == owner->Some_0@),
                lost == gone.deep_view(),
                goal == checked_entries(before, looked_at, lost),
                forall|k: TargetView| #[trigger] before.contains_key(k) ==> keys.contains(k),
                forall|k: TargetView| #[trigger]
                    self.entries@.contains_key(k) <==> before.contains_key(k),
                forall|a: int|
                    0 <= a < i && before.contains_key(#[trigger] keys[a]) ==> self.entries@[keys[a]]
                        == goal[keys[a]],
                forall|k: TargetView|
                    before.contains_key(k) && !(exists|a: int| 0 <= a < i && keys[a] == k)
                        ==> #[trigger] self.entries@[k] == before[k],
            decreases keys.len() - i,
        {
            let key = self.entries.key_at(i).duplicate();
            let ghost k = key.deep_view();
            let ghost earlier = self.entries@;
            let wanted = match owner {
                Some(owner) => same_text(key.0.as_str(), owner),
                None => true,
            };
            assert(wanted == looked_at(k));
            let ghost twice = exists|a: int| 0 <= a < i && keys[a] == k;
            if wanted {
                let broken = lists(gone, &key);
                let mut slot = Slot::Busy;
                self.entries.exchange(i, &mut slot);
                let ghost taken = slot@;
                match &mut slot {
                    Slot::Idle(session) => session.check_health(broken),
                    Slot::Busy => {},
                }
                assert(slot@ == taken.checked(broken));
                let ghost put = slot@;
                self.entries.exchange(i, &mut slot);
                proof {
                    assert(self.entries@ =~= earlier.insert(k, put));
                    if twice {
                        let a = choose|a: int| 0 <= a < i && keys[a] == k;
                        assert(earlier[keys[a]] == goal[keys[a]]);
                        lemma_checked_twice(before[k], broken);
                    } else {
                        assert(earlier[k] == before[k]);
                    }
                    assert(put == goal[k]);
                }
            } else {
                proof {
                    if twice {
                        let a = choose|a: int| 0 <= a < i && keys[a] == k;
                        assert(earlier[keys[a]] == goal[keys[a]]);
                    } else {
                        assert(earlier[k] == before[k]);
                    }
                }
            }
            proof {
                assert forall|a: int|
                    0 <= a < i + 1 && before.contains_key(#[trigger] keys[a]) implies self.entries@[keys[a]]
                    == goal[keys[a]] by {
                    if keys[a] != k {
                        assert(a < i);
                        assert(earlier[keys[a]] == goal[keys[a]]);
                    }
                }
                assert forall|x: TargetView|
                    before.contains_key(x) && !(exists|a: int| 0 <= a < i + 1 && keys[a] == x)
                        implies #[trigger] self.entries@[x] == before[x] by {
                    assert(keys[i as int] == k);
                    assert(x != k);
                    assert(!(exists|a: int| 0 <= a < i && keys[a] == x));
                    assert(earlier[x] == before[x]);
                }
            }
            i += 1;
        }
        proof {
            assert forall|k: TargetView| before.contains_key(k) implies self.entries@[k]
                == goal[k] by {
                assert(keys.contains(k));
                let a = choose|a: int| 0 <= a < keys.len() && keys[a] == k;
                assert(self.entries@[keys[a]] == goal[keys[a]]);
            }
            assert(self.entries@ =~= goal);
        }
    }

    /// The states of all idle sessions, without waiting for running operations. The sessions in `gone`
    /// have lost their connection.
    pub fn states(&mut self, gone: &Vec<(String, String)>) -> (states: Vec<
        ((String, String), SessionState),
    >)
        ensures
            final(self)@.previews == old(self)@.previews,
            final(self)@.entries == checked_entries(
                old(self)@.entries,
                |key: TargetView| true,
                gone.deep_view(),
            ),
            lists_states(states.deep_view(), final(self)@.entries),
    {
        self.check_entries(None, gone);
        proof {
            assert(self@.entries =~= checked_entries(
                old(self)@.entries,
                |key: TargetView| true,
                gone.deep_view(),
            ));
            self.entries.lemma_keys();
        }
        let ghost all = self.entries@;
        let ghost keys = self.entries.keys();
        let mut states: Vec<((String, String), SessionState)> = Vec::new();
        let mut i: usize = 0;
        let count: usize = self.entries.len();
        while i < count
            invariant
                i <= count,
                count == keys.len(),
                keys == self.entries.keys(),
                keys.no_duplicates(),
                all == self.entries@,
                forall|j: int|
                    0 <= j < states.deep_view().len() ==> exists|a: int|
                        0 <= a < i && #[trigger] keys[a] == (#[trigger] states.deep_view()[j]).0,
                forall|j: int, k: int|
                    0 <= j < k < states.deep_view().len() ==> (
                    #[trigger] states.deep_view()[j]).0 != (#[trigger] states.deep_view()[k]).0,
                forall|j: int|
                    0 <= j < states.deep_view().len() ==> all.contains_key(
                        (#[trigger] states.deep_view()[j]).0,
                    ) && all[states.deep_view()[j].0] is Idle
                        && all[states.deep_view()[j].0]->Idle_0.state == states.deep_view()[j].1,
                forall|a: int|
                    0 <= a < i && all[#[trigger] keys[a]] is Idle ==> exists|j: int|
                        0 <= j < states.deep_view().len() && (
                        #[trigger] states.deep_view()[j]).0 == keys[a],
            decreases keys.len() - i,
        {
            let key = self.entries.key_at(i).duplicate();
            let ghost before = states.deep_view();
            match self.entries.value_at(i) {
                Slot::Idle(session) => {
                    let state = session.state;
                    let ghost entry = (key.deep_view(), state);
                    states.push((key, state));
                    proof {
                        assert(states.deep_view() =~= before.push(entry));
                        assert(states.deep_view()[before.len() as int].0 == keys[i as int]);
                        assert forall|j: int| 0 <= j < before.len() implies (
                        #[trigger] states.deep_view()[j]).0 != keys[i as int] by {
                            assert(states.deep_view()[j] == before[j]);
                            let a = choose|a: int|
                                0 <= a < i && #[trigger] keys[a] == before[j].0;
                            assert(keys[a] != keys[i as int]);
                        }
                        assert forall|j: int|
                            0 <= j < states.deep_view().len() implies exists|a: int|
                            0 <= a < i + 1 && #[trigger] keys[a] == (
                            #[trigger] states.deep_view()[j]).0 by {
                            if j < before.len() {
                                assert(states.deep_view()[j] == before[j]);
                                let a = choose|a: int|
                                    0 <= a < i && #[trigger] keys[a] == before[j].0;
                                assert(keys[a] == states.deep_view()[j].0);
                            } else {
                                assert(keys[i as int] == states.deep_view()[j].0);
                            }
                        }
                        assert forall|a: int|
                            0 <= a < i + 1 && all[#[trigger] keys[a]] is Idle implies exists|j: int|
                            0 <= j < states.deep_view().len() && (
                            #[trigger] states.deep_view()[j]).0 == keys[a] by {
                            if a < i {
                                let j = choose|j: int|
                                    0 <= j < before.len() && (#[trigger] before[j]).0 == keys[a];
                                assert(states.deep_view()[j].0 == keys[a]);
                            }
                        }
                    }
                },
                Slot::Busy => {},
            }
            i += 1;
        }
        proof {
            assert forall|key: TargetView| #[trigger]
                all.contains_key(key) && all[key] is Idle implies exists|j: int|
                0 <= j < states.deep_view().len() && (#[trigger] states.deep_view()[j]).0
                    == key by {
                assert(keys.contains(key));
                let a = choose|a: int| 0 <= a < keys.len() && keys[a] == key;
                assert(all[keys[a]] is Idle);
            }
        }
        states
    }

    /// Forgets the sessions and previews of a profile. Profile edits cannot close a live session or
    /// retarget it.
    pub fn invalidate_profile(&mut self, profile_id: &str, gone: &Vec<(String, String)>) -> (result: Result<
        (),
        Error,
    >)
        ensures
            ({
                let checked = checked_entries(
                    old(self)@.entries,
                    |key: TargetView| key.0 == profile_id@,
                    gone.deep_view(),
                );
                match result {
                    Ok(_) => {
                        &&& forall|key: TargetView| #[trigger]
                            checked.contains_key(key) && key.0 == profile_id@ ==> checked[key] is Idle
                                && !checked[key].connected()
                        &&& final(self)@.entries == without_owner::<(String, String), SlotView>(
                            checked,
                            profile_id@,
                        )
                        &&& final(self)@.previews == without_owner::<
                            (String, String),
                            CursorView,
                        >(old(self)@.previews, profile_id@)
                    },
                    Err(error) => {
                        &&& final(self)@.entries == checked
                        &&& final(self)@.previews == old(self)@.previews
                        &&& exists|key: TargetView| #[trigger]
                            checked.contains_key(key) && key.0 == profile_id@ && (
                            (checked[key] is Busy && error@ == plain_error(
                                "Wait for the running operation on "@ + profile_id@,
                            )) || (checked[key].connected() && error@ == plain_error(
                                "Disconnect all SQL sessions for this profile before changing or deleting it"@,
                            )))
                    },
                }
            }),
    {
        self.check_entries(Some(profile_id), gone);
        let ghost checked = checked_entries(
            old(self)@.entries,
            |key: TargetView| key.0 == profile_id@,
            gone.deep_view(),
        );
        proof {
            assert(self@.entries =~= checked);
            self.entries.lemma_keys();
        }
        let ghost keys = self.entries.keys();
        let mut i: usize = 0;
        while i < self.entries.len()
            invariant
                i <= keys.len(),
                keys == self.entries.keys(),
                checked == self.entries@,
                self@.previews == old(self)@.previews,
                checked == checked_entries(
                    old(self)@.entries,
                    |key: TargetView| key.0 == profile_id@,
                    gone.deep_view(),
                ),
                forall|k: TargetView| #[trigger] checked.contains_key(k) ==> keys.contains(k),
                forall|a: int|
                    0 <= a < i && (#[trigger] keys[a]).0 == profile_id@ ==> checked[keys[a]] is Idle
                        && !checked[keys[a]].connected(),
            decreases keys.len() - i,
        {
            let key = self.entries.key_at(i);
            if same_text(key.0.as_str(), profile_id) {
                match self.entries.value_at(i) {
                    Slot::Busy => {
                        assert(checked.contains_key(key.deep_view()));
                        return Err(
                            Error::new(
                                concat("Wait for the running operation on ", profile_id).as_str(),
                            ),
                        );
                    },
                    Slot::Idle(session) => {
                        if session.connected {
                            assert(checked.contains_key(key.deep_view()));
                            return Err(
                                Error::new(
                                    "Disconnect all SQL sessions for this profile before changing or deleting it",
                                ),
                            );
                        }
                    },
                }
            }
            i += 1;
        }
        proof {
            assert forall|key: TargetView| #[trigger]
                checked.contains_key(key) && key.0 == profile_id@ implies checked[key] is Idle
                && !checked[key].connected() by {
                assert(keys.contains(key));
                let a = choose|a: int| 0 <= a < keys.len() && keys[a] == key;
                assert(keys[a].0 == profile_id@);
            }
        }
        self.entries.forget_owner(profile_id);
        self.previews.clear(Some(profile_id));
        Ok(())
    }

    /// Forgets everything; shutdown comes only after open transactions were confirmed.
    pub fn close_all(&mut self)
        ensures
            final(self)@.entries == Map::<TargetView, SlotView>::empty(),
            final(self)@.previews == Map::<TargetView, CursorView>::empty(),
    {
        self.entries = KeyedMap::new();
        self.previews.clear(None);
    }

    fn take(&mut self, key: (String, String), request: &Request) -> (route: Route)
        ensures
            (final(self)@, route@) == old(self)@.take(key.deep_view(), request@),
    {
        let found = match self.entries.get(&key) {
            Some(slot) => Some(slot.duplicate()),
            None => None,
        };
        match found {
            Some(Slot::Idle(session)) => {
                let profile_id = key.0.clone();
                let database = key.1.clone();
                self.entries.insert(key, Slot::Busy);
                Route::Session { session, profile_id, database, first: false }
            },
            Some(Slot::Busy) => Route::Refused(
                Error::new("This SQL session already has an active operation"),
            ),
            None => match profile_of(request) {
                Some(profile) => {
                    let profile_id = key.0.clone();
                    let database = key.1.clone();
                    self.entries.insert(key, Slot::Busy);
                    Route::Session {
                        session: Session::new(profile.duplicate()),
                        profile_id,
                        database,
                        first: true,
                    }
                },
                None => Route::Refused(
                    Error::new("SQL result cursor is closed; run the query again"),
                ),
            },
        }
    }

    /// Finds out where a request is served, and takes its session out of the table.
    pub fn route(&mut self, request: &Request) -> (route: Route)
        ensures
            (final(self)@, route@) == old(self)@.route(request@),
    {
        match request {
            Request::Preview { .. } => Route::Preview,
            Request::Tables { .. } => Route::Metadata,
            Request::SaveChanges { profile: _, password: _, source, changes: _ } => {
                if source.query.is_none() {
                    self.previews.remove(
                        source.table.profile_id.as_str(),
                        source.table.database.as_str(),
                    );
                    return Route::SaveTable;
                }
                self.take(key_of(&source.table.profile_id, &source.table.database), request)
            },
            Request::FetchPage { page } => {
                if page.preview {
                    return Route::PreviewPage;
                }
                self.take(key_of(&page.profile_id, &page.database), request)
            },
            Request::Query { profile, database, sql: _ } => {
                self.previews.remove(profile.id.as_str(), database.as_str());
                self.take(key_of(&profile.id, database), request)
            },
            Request::Connect { profile, database, reconnect: _ } => self.take(
                key_of(&profile.id, database),
                request,
            ),
            Request::Disconnect { profile, database } => {
                self.previews.remove(profile.id.as_str(), database.as_str());
                self.take(key_of(&profile.id, database), request)
            },
            Request::Schemas { profile, password: _, database } => self.take(
                key_of(&profile.id, database),
                request,
            ),
            Request::Databases { profile, password: _ } => self.take(
                key_of(&profile.id, &profile.database),
                request,
            ),
        }
    }

    /// Hands a session back behind its operation.
    pub fn release(&mut self, profile_id: &str, database: &str, session: Session)
        ensures
            final(self)@.previews == old(self)@.previews,
            final(self)@.entries == (if old(self)@.entries.contains_key((profile_id@, database@)) {
                old(self)@.entries.insert((profile_id@, database@), SlotView::Idle(session@))
            } else {
                old(self)@.entries
            }),
    {
        let key = (profile_id.to_owned(), database.to_owned());
        if self.entries.contains(&key) {
            self.entries.insert(key, Slot::Idle(session));
        }
    }

    /// Makes room for a table preview: the result of the SQL session loses its write authority, and its
    /// cursor is handed out to be closed. Only a cursor is released, never user work.
    pub fn begin_cursor_close(&mut self, profile_id: &str, database: &str, broken: bool) -> (result: Result<
        Option<(Session, Cursor)>,
        Error,
    >)
        ensures
            final(self)@.previews == old(self)@.previews,
            ({
                let key = (profile_id@, database@);
                let before = old(self)@.entries;
                if !before.contains_key(key) {
                    result == Ok::<Option<(Session, Cursor)>, Error>(None) && final(self)@.entries
                        == before
                } else {
                    match before[key] {
                        SlotView::Busy => outcome_view(result) == Err::<
                            Option<(SessionView, CursorView)>,
                            ErrorView,
                        >(plain_error("Wait for the SQL session's operation to finish"@))
                            && final(self)@.entries == before,
                        SlotView::Idle(session) => {
                            let checked = session.checked(broken);
                            let bare = SessionView { edit_source: None, cursor: None, ..checked };
                            if checked.cursor is Some && checked.connected {
                                outcome_view(result) == Ok::<
                                    Option<(SessionView, CursorView)>,
                                    ErrorView,
                                >(Some((bare, checked.cursor->Some_0))) && final(self)@.entries
                                    == before.insert(key, SlotView::Busy)
                            } else {
                                outcome_view(result) == Ok::<
                                    Option<(SessionView, CursorView)>,
                                    ErrorView,
                                >(None) && final(self)@.entries == before.insert(
                                    key,
                                    SlotView::Idle(bare),
                                )
                            }
                        },
                    }
                }
            }),
    {
        let key = (profile_id.to_owned(), database.to_owned());
        let found = match self.entries.get(&key) {
            Some(slot) => Some(slot.duplicate()),
            None => None,
        };
        match found {
            None => Ok(None),
            Some(Slot::Busy) => Err(Error::new("Wait for the SQL session's operation to finish")),
            Some(Slot::Idle(session)) => {
                let mut session = session;
                session.check_health(broken);
                session.edit_source = None;
                let mut cursor: Option<Cursor> = None;
                std::mem::swap(&mut cursor, &mut session.cursor);
                match cursor {
                    Some(cursor) => {
                        if session.connected {
                            self.entries.insert(key, Slot::Busy);
                            return Ok(Some((session, cursor)));
                        }
                        self.entries.insert(key, Slot::Idle(session));
                        Ok(None)
                    },
                    None => {
                        self.entries.insert(key, Slot::Idle(session));
                        Ok(None)
                    },
                }
            },
        }
    }

    /// Takes what came of closing the cursor, and hands the session back.
    pub fn end_cursor_close(
        &mut self,
        profile_id: &str,
        database: &str,
        session: Session,
        cursor: &Cursor,
        outcome: CloseOutcome,
        broken: bool,
    ) -> (failure: Option<Error>)
        ensures
            failure.deep_view() == close_failure(outcome@).0,
            final(self)@.previews == old(self)@.previews,
            final(self)@.entries == (if old(self)@.entries.contains_key((profile_id@, database@)) {
                old(self)@.entries.insert(
                    (profile_id@, database@),
                    SlotView::Idle(cursor_closed(session@, cursor@, outcome@, broken)),
                )
            } else {
                old(self)@.entries
            }),
    {
        let mut session = session;
        let (failure, gone) = close_result(outcome);
        session.check_health(broken || gone);
        if failure.is_none() && cursor.owns_transaction {
            session.state = SessionState::Connected(TransactionState::Idle);
        }
        self.release(profile_id, database, session);
        failure
    }

    /// Forgets the preview of a database.
    pub fn remove_preview(&mut self, profile_id: &str, database: &str)
        ensures
            final(self)@.entries == old(self)@.entries,
            final(self)@.previews == old(self)@.previews.remove((profile_id@, database@)),
    {
        self.previews.remove(profile_id, database);
    }

    /// Takes the first page of a new preview.
    pub fn preview_started(
        &mut self,
        table: &TableRef,
        columns: Vec<ResultColumn>,
        cursor: Cursor,
        result: QueryResult,
    ) -> (shown: QueryResult)
        ensures
            shown@ == preview_result(table@, columns.deep_view(), result@),
            final(self)@.entries == old(self)@.entries,
            final(self)@.previews == (if result@.page is Some {
                old(self)@.previews.insert((table@.profile_id, table@.database), cursor@)
            } else {
                old(self)@.previews
            }),
    {
        self.previews.start_connected(table, columns, cursor, result)
    }

    /// The cursor of a further preview page. `busy` says that it is in use.
    pub fn claim_preview(&self, page: &PageRef, busy: bool) -> (result: Result<Cursor, Error>)
        ensures
            match preview_problem(self@.previews, page@, busy) {
                Some(problem) => outcome_view(result) == Err::<CursorView, ErrorView>(
                    plain_error(problem),
                ),
                None => outcome_view(result) == Ok::<CursorView, ErrorView>(
                    self@.previews[(page@.profile_id, page@.database)],
                ),
            },
    {
        self.previews.claim(page, busy)
    }

    /// Drops the cursor behind a preview page that did not continue.
    pub fn preview_fetched(&mut self, page: &PageRef, result: &Result<QueryResult, Error>)
        ensures
            final(self)@.entries == old(self)@.entries,
            final(self)@.previews == (if continues(outcome_view(*result)) {
                old(self)@.previews
            } else {
                old(self)@.previews.remove((page@.profile_id, page@.database))
            }),
    {
        self.previews.fetched(page, result)
    }
}

/// A session whose cursor was closed for a preview: where that worked, the cursor's own transaction is
/// over.
pub open spec fn cursor_closed(
    session: SessionView,
    cursor: CursorView,
    outcome: CloseOutcomeView,
    broken: bool,
) -> SessionView {
    let checked = session.checked(broken || close_failure(outcome).1);
    if close_failure(outcome).0 is None && cursor.owns_transaction {
        SessionView { state: SessionState::Connected(TransactionState::Idle), ..checked }
    } else {
        checked
    }
}

proof fn lemma_checked_twice(slot: SlotView, broken: bool)
    ensures
        slot.checked(broken).checked(broken) == slot.checked(broken),
{
}

/// The phases in which an operation works on a connection.
pub open spec fn working(phase: RunPhaseView) -> bool {
    phase is Fetching || phase is ClosingEarlier || phase is Opening || phase is FetchingFirst
        || phase is Attaching || phase is Observing || phase is ClosingPage || phase is ClosingQuery
}

impl OperationView {
    /// The session is consistent, and connected in every phase that works on its connection.
    pub open spec fn valid(self) -> bool {
        self.session.valid() && (working(self.phase) ==> self.session.connected)
    }
}

proof fn lemma_conclude(operation: OperationView, outcome: Result<OutputView, ErrorView>, broken: bool)
    requires
        operation.session.valid(),
    ensures
        operation.conclude(outcome, broken).0.valid(),
{
    reveal(OperationView::conclude);
}

proof fn lemma_finish_query(
    operation: OperationView,
    cursor: CursorView,
    result: Result<QueryResultView, ErrorView>,
    broken: bool,
)
    requires
        operation.session.valid(),
        operation.session.connected,
    ensures
        operation.finish_query(cursor, result, broken).0.valid(),
{
    reveal(OperationView::finish_query);
    reveal(OperationView::query_done);
    reveal(OperationView::conclude);
}

proof fn lemma_dispatch(operation: OperationView, broken: bool)
    requires
        operation.session.valid(),
        operation.session.connected,
    ensures
        operation.dispatch(broken).0.valid(),
{
    reveal(OperationView::dispatch);
    lemma_conclude(operation, Ok(OutputView::Session), broken);
}

proof fn lemma_proceed(operation: OperationView, broken: bool)
    requires
        operation.session.valid(),
        operation.session.connected,
    ensures
        operation.proceed(broken).0.valid(),
{
    reveal(OperationView::proceed);
    lemma_dispatch(operation, broken);
    lemma_dispatch(
        operation.with_session(
            SessionView { cursor: None, edit_source: None, ..operation.session },
        ),
        broken,
    );
}

proof fn lemma_connect(
    operation: OperationView,
    profile: ConnectionProfileView,
    explicit: bool,
    reconnect: bool,
    broken: bool,
)
    requires
        operation.session.valid(),
    ensures
        operation.connect(profile, explicit, reconnect, broken).0.valid(),
{
    reveal(OperationView::connect);
    let session = if reconnect { operation.session.disconnected() } else { operation.session };
    let next = operation.with_session(session);
    if next.session.connected {
        lemma_proceed(next, broken);
    }
    lemma_conclude(
        operation,
        Err(
            plain_error("Connection settings changed; disconnect and reopen the session"@),
        ),
        broken,
    );
    lemma_conclude(
        next,
        Err(
            plain_error(
                "SQL session is disconnected or lost; use Connect or Reconnect explicitly"@,
            ),
        ),
        broken,
    );
}

/// A new operation keeps its session consistent: a cursor only with a connection, and a state that says
/// whether there is one.
pub proof fn beginning_keeps_sessions_valid(operation: OperationView, cancelled: bool, broken: bool)
    requires
        operation.session.valid(),
    ensures
        operation.begin(cancelled, broken).0.valid(),
{
    let next = operation.with_session(operation.session.checked(broken));
    assert(next.session.valid());
    lemma_conclude(next, Err(cancelled_error()), broken);
    lemma_conclude(
        next,
        Err(plain_error("This request does not use a SQL session"@)),
        broken,
    );
    match operation.request {
        RequestView::Disconnect { .. } => {
            lemma_conclude(
                next.with_session(next.session.disconnected()),
                Ok(OutputView::Session),
                broken,
            );
        },
        RequestView::FetchPage { page } => {
            reveal(OperationView::begin_page);
            reveal(OperationView::conclude);
        },
        RequestView::SaveChanges { .. } => {
            reveal(OperationView::begin_save);
            reveal(OperationView::save_now);
            reveal(OperationView::conclude);
        },
        RequestView::Connect { profile, reconnect, .. } => {
            lemma_connect(next, profile, true, reconnect, broken);
        },
        RequestView::Query { profile, .. } => {
            lemma_connect(next, profile, false, false, broken);
        },
        RequestView::Databases { profile, .. } => {
            lemma_connect(next, profile, false, false, broken);
        },
        RequestView::Schemas { profile, .. } => {
            lemma_connect(next, profile, false, false, broken);
        },
        _ => {},
    }
}

/// Every step of an operation keeps its session consistent.
pub proof fn steps_keep_sessions_valid(operation: OperationView, event: RunEventView, broken: bool)
    requires
        operation.valid(),
    ensures
        operation.step(event, broken).0.valid(),
{
    let next = OperationView { phase: RunPhaseView::Finished, ..operation };
    lemma_conclude(next, Err(plain_error("The server answered another question"@)), broken);
    match (operation.phase, event) {
        (RunPhaseView::Fetching { .. }, RunEventView::Rows(_)) => {
            reveal(OperationView::page_done);
            reveal(OperationView::conclude);
        },
        (RunPhaseView::ClosingPage { .. }, RunEventView::Closed(_)) => {
            reveal(OperationView::page_done);
            reveal(OperationView::conclude);
        },
        (RunPhaseView::ClosingForSave { .. }, RunEventView::Closed(_)) => {
            reveal(OperationView::save_now);
            reveal(OperationView::conclude);
        },
        (RunPhaseView::Saving, RunEventView::Saved(_)) => {
            reveal(OperationView::conclude);
        },
        (RunPhaseView::Connecting, RunEventView::Connected(outcome)) => {
            match outcome {
                Ok(pid) => {
                    lemma_proceed(
                        next.with_session(
                            SessionView {
                                connected: true,
                                pid,
                                state: SessionState::Connected(TransactionState::Idle),
                                ..next.session
                            },
                        ),
                        broken,
                    );
                },
                Err(error) => {
                    lemma_conclude(next, Err(error), broken);
                },
            }
        },
        (RunPhaseView::ClosingEarlier { .. }, RunEventView::Closed(_)) => {
            lemma_dispatch(next, broken);
            lemma_dispatch(
                next.with_session(
                    SessionView {
                        state: SessionState::Connected(TransactionState::Idle),
                        ..next.session
                    },
                ),
                broken,
            );
            reveal(OperationView::conclude);
        },
        (RunPhaseView::Opening { cursor, .. }, RunEventView::Opened(failure)) => {
            if failure is Some {
                lemma_finish_query(next, cursor, Err(failure->Some_0), broken);
            }
        },
        (RunPhaseView::FetchingFirst { cursor, .. }, RunEventView::Rows(rows)) => {
            if rows is Err {
                lemma_finish_query(next, cursor, Err(rows->Err_0), broken);
            }
        },
        (RunPhaseView::Attaching { cursor }, RunEventView::Attached(result)) => {
            lemma_finish_query(next, cursor, result, broken);
        },
        (RunPhaseView::ClosingQuery { .. }, RunEventView::Closed(_)) => {
            reveal(OperationView::query_done);
            reveal(OperationView::conclude);
        },
        (RunPhaseView::Executing, RunEventView::Rows(_)) => {
            reveal(OperationView::conclude);
        },
        (RunPhaseView::Browsing, RunEventView::Browsed(result)) => {
            lemma_conclude(next, result, broken);
        },
        _ => {},
    }
}

/// A disconnected or lost session opens again only for an explicit connect, or for the request that
/// created it.
pub proof fn only_explicit_requests_reconnect(operation: OperationView, cancelled: bool, broken: bool)
    requires
        operation.begin(cancelled, broken).1 is Connect,
    ensures
        operation.first || operation.request is Connect,
        !cancelled,
{
    reveal(OperationView::conclude);
    reveal(OperationView::save_now);
    reveal(OperationView::dispatch);
    reveal(OperationView::proceed);
    reveal(OperationView::connect);
    reveal(OperationView::begin_page);
    reveal(OperationView::begin_save);
}

/// A session that is lost stays lost through every request that does not connect explicitly.
pub proof fn lost_sessions_stay_lost(operation: OperationView, cancelled: bool, broken: bool)
    requires
        operation.session.valid(),
        operation.session.state is Lost,
        !operation.first,
        !(operation.request is Connect),
        !(operation.request is Disconnect),
    ensures
        ({
            let (next, action) = operation.begin(cancelled, broken);
            next.session.state is Lost && action is Done && action->outcome is Err
        }),
{
    reveal(OperationView::conclude);
    reveal(OperationView::save_now);
    reveal(OperationView::proceed);
    reveal(OperationView::connect);
    reveal(OperationView::begin_page);
    reveal(OperationView::begin_save);
}

/// User SQL starts only when the earlier result has lost its write authority and its cursor is out of
/// the way.
pub proof fn queries_retire_the_earlier_result(operation: OperationView, cancelled: bool, broken: bool)
    requires
        operation.request is Query,
    ensures
        ({
            let (next, action) = operation.begin(cancelled, broken);
            (action is Execute || action is Open || action is Close) ==> next.session.edit_source is None
                && next.session.cursor is None
        }),
{
    reveal(OperationView::conclude);
    reveal(OperationView::dispatch);
    reveal(OperationView::proceed);
    reveal(OperationView::connect);
}

/// A batch of a custom query reaches the server only from the current result of the session, on its own
/// connection and outside user transactions.
pub proof fn only_current_results_write(operation: OperationView, cancelled: bool, broken: bool)
    requires
        operation.begin(cancelled, broken).1 is Save,
    ensures
        operation.request is SaveChanges,
        operation.session.connected,
        operation.session.edit_source == Some(operation.request->source),
        operation.session.state.allows_query_edits(),
{
    reveal(OperationView::conclude);
    reveal(OperationView::save_now);
    reveal(OperationView::dispatch);
    reveal(OperationView::proceed);
    reveal(OperationView::connect);
    reveal(OperationView::begin_page);
    reveal(OperationView::begin_save);
}

/// Committed and uncertain batches are never written again with the same rows.
pub proof fn finished_saves_retire_their_rows(
    operation: OperationView,
    failure: Option<ErrorView>,
    broken: bool,
)
    requires
        operation.phase is Saving,
        failure is None || failure->Some_0.cause is UnknownCommit,
    ensures
        operation.step(RunEventView::Saved(failure), broken).0.session.edit_source is None,
{
    reveal(OperationView::conclude);
}

/// A fresh result that continues keeps its cursor, so that the next page comes from the same execution.
pub proof fn continuing_queries_keep_their_cursor(
    operation: OperationView,
    cursor: CursorView,
    result: QueryResultView,
)
    requires
        operation.phase == (RunPhaseView::Attaching { cursor }),
        result.page is Some,
    ensures
        operation.step(RunEventView::Attached(Ok(result)), false).0.session.cursor == Some(cursor),
        operation.step(RunEventView::Attached(Ok(result)), false).0.session.edit_source
            == result.source,
{
    reveal(OperationView::conclude);
    reveal(OperationView::query_done);
    reveal(OperationView::finish_query);
}

/// Disconnecting leaves nothing behind that could write or fetch.
pub proof fn disconnecting_clears_the_session(operation: OperationView, broken: bool)
    requires
        operation.request is Disconnect,
    ensures
        ({
            let (next, action) = operation.begin(false, broken);
            action is Done && action->state == SessionState::Disconnected && !next.session.connected
                && next.session.cursor is None && next.session.edit_source is None
        }),
{
    reveal(OperationView::conclude);
}

/// Table previews, and batches that are saved to a table, leave every SQL session where it is.
pub proof fn table_requests_spare_sessions(manager: SessionManagerView, request: RequestView)
    requires
        request is Preview || request is Tables || (request is SaveChanges
            && request->source.query is None) || (request is FetchPage && request->page.preview),
    ensures
        manager.route(request).0.entries == manager.entries,
        !(manager.route(request).1 is Session),
{
}

/// While an operation holds a session, every further request to it is refused, and the session stays with
/// its operation.
pub proof fn busy_sessions_refuse_requests(
    manager: SessionManagerView,
    request: RequestView,
    key: TargetView,
)
    requires
        session_key(request) == Some(key),
        !(request is SaveChanges && request->source.query is None),
        !(request is FetchPage && request->page.preview),
        manager.entries.contains_key(key),
        manager.entries[key] is Busy,
    ensures
        manager.route(request).1 is Refused,
        manager.route(request).0.entries == manager.entries,
{
}

} // verus!
