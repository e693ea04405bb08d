//! SQL sessions serve the database that was asked for, and spare the transactions of the user.
use vstd::prelude::*;
use vstd::string::*;

use crate::db::paging::{
    close_failure, closing_spares_user_transactions, preview_result, CloseOutcomeView, CursorView,
};
use crate::db::sessions::{
    activity_state, cursor_closed, paged_statement, OperationView, RouteView, RunActionView,
    RunEventView, RunPhaseView, RunStepView, SessionManagerView, SessionState, SessionView,
    SlotView, TargetView, TransactionState,
};
use crate::db::{ErrorView, OutputView, QueryResultView, RequestView, ResultColumnView, TableRefView};
use crate::text::decimal;

verus! {

/// A run of an operation from its first step: the state and the action behind a number of events, each with
/// whether the connection is known to be gone.
pub open spec fn behind(start: RunStepView, events: Seq<(RunEventView, bool)>) -> RunStepView
    decreases events.len(),
{
    if events.len() == 0 {
        start
    } else {
        behind(start, events.drop_last()).0.step(events.last().0, events.last().1)
    }
}

/// Whether an action leaves the transaction alone: it neither begins one nor ends one.
pub open spec fn spares_transaction(action: RunActionView) -> bool {
    &&& action matches RunActionView::Close { sql } ==> sql != "ROLLBACK"@
    &&& action matches RunActionView::Open { commands } ==> commands.len() == 1 && commands[0]
        != "BEGIN READ ONLY"@
    &&& !(action is Save)
}

/// Whether a session is inside a transaction of the user, whatever became of it.
pub open spec fn in_user_transaction(session: SessionView) -> bool {
    &&& session.connected
    &&& session.state == SessionState::Connected(TransactionState::Open) || session.state
        == SessionState::Connected(TransactionState::Failed) || session.state
        == SessionState::Connected(TransactionState::Unknown)
    &&& session.cursor is Some ==> !session.cursor->Some_0.owns_transaction
}

spec fn borrows(operation: OperationView) -> bool {
    &&& operation.session.cursor is Some ==> !operation.session.cursor->Some_0.owns_transaction
    &&& match operation.phase {
        RunPhaseView::Fetching { cursor, .. } => !cursor.owns_transaction,
        RunPhaseView::ClosingEarlier { cursor } => !cursor.owns_transaction && in_user_transaction(
            operation.session,
        ),
        RunPhaseView::Opening { cursor, .. } => !cursor.owns_transaction,
        RunPhaseView::FetchingFirst { cursor, .. } => !cursor.owns_transaction,
        RunPhaseView::Attaching { cursor } => !cursor.owns_transaction,
        RunPhaseView::ClosingForSave { .. } => false,
        RunPhaseView::Saving => false,
        RunPhaseView::Connecting => operation.request is Connect,
        _ => true,
    }
}

proof fn lemma_declaring(cursor: CursorView, sql: Seq<char>)
    ensures
        cursor.opening(sql).last() != "BEGIN READ ONLY"@,
        cursor.opening(sql).last() == "DECLARE \"textgres_result_"@ + decimal(cursor.page.id as nat)
            + "\" NO SCROLL CURSOR FOR\n"@ + sql + "\n"@,
{
    reveal_strlit("DECLARE ");
    reveal_strlit("DECLARE \"textgres_result_");
    reveal_strlit("\"textgres_result_");
    reveal_strlit("\"");
    reveal_strlit(" NO SCROLL CURSOR FOR\n");
    reveal_strlit("\" NO SCROLL CURSOR FOR\n");
    reveal_strlit("BEGIN READ ONLY");
    let declare = cursor.opening(sql).last();
    assert(declare[0] == 'D');
    assert(declare =~= "DECLARE \"textgres_result_"@ + decimal(cursor.page.id as nat)
        + "\" NO SCROLL CURSOR FOR\n"@ + sql + "\n"@);
}

proof fn lemma_dispatch_borrows(operation: OperationView, broken: bool)
    requires
        borrows(operation),
        in_user_transaction(operation.session),
        !(operation.phase is Connecting),
    ensures
        borrows(operation.dispatch(broken).0),
        spares_transaction(operation.dispatch(broken).1),
{
    reveal(OperationView::dispatch);
    reveal(OperationView::conclude);
    if let RequestView::Query { profile, sql, .. } = operation.request {
        if let Some(statement) = paged_statement(operation.session.state, sql) {
            if let RunActionView::Open { commands } = operation.dispatch(broken).1 {
                if let RunPhaseView::Opening { cursor, .. } = operation.dispatch(broken).0.phase {
                    lemma_declaring(cursor, statement);
                }
            }
        }
    }
}

proof fn lemma_begin_borrows(operation: OperationView, cancelled: bool)
    requires
        in_user_transaction(operation.session),
    ensures
        borrows(operation.begin(cancelled, false).0),
        spares_transaction(operation.begin(cancelled, false).1),
{
    reveal(OperationView::conclude);
    reveal(OperationView::begin_page);
    reveal(OperationView::begin_save);
    reveal(OperationView::connect);
    reveal(OperationView::proceed);
    let next = operation.with_session(operation.session.checked(false));
    assert(next == operation);
    if let Some(cursor) = operation.session.cursor {
        closing_spares_user_transactions(cursor);
    }
    let retired = operation.with_session(
        SessionView { cursor: None, edit_source: None, ..operation.session },
    );
    let plain = OperationView { phase: RunPhaseView::Finished, ..operation };
    let bare = OperationView { phase: RunPhaseView::Finished, ..retired };
    lemma_dispatch_borrows(plain, false);
    lemma_dispatch_borrows(bare, false);
    lemma_dispatch_ignores_phase(operation, false);
    lemma_dispatch_ignores_phase(retired, false);
}

proof fn lemma_dispatch_ignores_phase(operation: OperationView, broken: bool)
    ensures
        operation.dispatch(broken) == (OperationView {
            phase: RunPhaseView::Finished,
            ..operation
        }).dispatch(broken),
{
    reveal(OperationView::dispatch);
    reveal(OperationView::conclude);
}

proof fn lemma_step_borrows(operation: OperationView, event: RunEventView, broken: bool)
    requires
        borrows(operation),
    ensures
        borrows(operation.step(event, broken).0),
        spares_transaction(operation.step(event, broken).1),
{
    reveal(OperationView::conclude);
    reveal(OperationView::page_done);
    reveal(OperationView::query_done);
    reveal(OperationView::finish_query);
    reveal(OperationView::save_now);
    reveal(OperationView::proceed);
    let next = OperationView { phase: RunPhaseView::Finished, ..operation };
    match operation.phase {
        RunPhaseView::Fetching { cursor, .. } => closing_spares_user_transactions(cursor),
        RunPhaseView::Opening { cursor, .. } => closing_spares_user_transactions(cursor),
        RunPhaseView::FetchingFirst { cursor, .. } => closing_spares_user_transactions(cursor),
        RunPhaseView::Attaching { cursor } => closing_spares_user_transactions(cursor),
        RunPhaseView::ClosingEarlier { .. } => lemma_dispatch_borrows(next, broken),
        RunPhaseView::Connecting => {
            reveal(OperationView::dispatch);
        },
        _ => {},
    }
}

/// Inside a transaction of the user no operation begins a transaction, rolls one back or writes rows of its
/// own, whatever the server answers at any step.
pub proof fn user_transactions_are_left_alone(
    operation: OperationView,
    cancelled: bool,
    events: Seq<(RunEventView, bool)>,
)
    requires
        in_user_transaction(operation.session),
    ensures
        spares_transaction(behind(operation.begin(cancelled, false), events).1),
    decreases events.len(),
{
    lemma_run_borrows(operation, cancelled, events);
}

proof fn lemma_run_borrows(
    operation: OperationView,
    cancelled: bool,
    events: Seq<(RunEventView, bool)>,
)
    requires
        in_user_transaction(operation.session),
    ensures
        borrows(behind(operation.begin(cancelled, false), events).0),
        spares_transaction(behind(operation.begin(cancelled, false), events).1),
    decreases events.len(),
{
    if events.len() == 0 {
        lemma_begin_borrows(operation, cancelled);
    } else {
        lemma_run_borrows(operation, cancelled, events.drop_last());
        lemma_step_borrows(
            behind(operation.begin(cancelled, false), events.drop_last()).0,
            events.last().0,
            events.last().1,
        );
    }
}

/// A query that finds its session connected, with the same settings and without an earlier cursor.
pub open spec fn plain_query(operation: OperationView) -> bool {
    &&& operation.request matches RequestView::Query { profile, .. } && profile
        == operation.session.profile
    &&& operation.session.connected
    &&& operation.session.cursor is None
}

/// A single read is declared as a cursor exactly as it was written. In autocommit mode it gets a read-only
/// transaction of its own; in a transaction of the user it joins that one. In every other state, and for
/// every other statement, the text runs as it stands.
pub proof fn queries_open_cursors_by_transaction_state(operation: OperationView)
    requires
        plain_query(operation),
    ensures
        ({
            let action = operation.begin(false, false).1;
            let sql = operation.request->Query_sql;
            let state = operation.session.state;
            let number = decimal(operation.cursor_id as nat);
            match paged_statement(state, sql) {
                Some(statement) => {
                    let declare = "DECLARE \"textgres_result_"@ + number
                        + "\" NO SCROLL CURSOR FOR\n"@ + statement + "\n"@;
                    &&& state == SessionState::Connected(TransactionState::Idle) ==> action
                        == RunActionView::Open { commands: seq!["BEGIN READ ONLY"@, declare] }
                    &&& state == SessionState::Connected(TransactionState::Open) ==> action
                        == RunActionView::Open { commands: seq![declare] }
                    &&& state == SessionState::Connected(TransactionState::Idle) || state
                        == SessionState::Connected(TransactionState::Open)
                },
                None => action == RunActionView::Execute { sql },
            }
        }),
{
    reveal(OperationView::connect);
    reveal(OperationView::proceed);
    reveal(OperationView::dispatch);
    let sql = operation.request->Query_sql;
    if let Some(statement) = paged_statement(operation.session.state, sql) {
        if let RunPhaseView::Opening { cursor, .. } = operation.begin(false, false).0.phase {
            lemma_declaring(cursor, statement);
            assert(cursor.opening(statement) =~= if cursor.owns_transaction {
                seq!["BEGIN READ ONLY"@, cursor.opening(statement).last()]
            } else {
                seq![cursor.opening(statement).last()]
            });
        }
    }
}

/// In autocommit mode a finished query rolls back the transaction that it began, and nothing else.
pub proof fn own_transactions_are_rolled_back(
    operation: OperationView,
    rows: QueryResultView,
    result: QueryResultView,
)
    requires
        plain_query(operation),
        operation.session.state == SessionState::Connected(TransactionState::Idle),
        operation.begin(false, false).1 is Open,
        result.page is None,
    ensures
        ({
            let fetching = operation.begin(false, false).0.step(RunEventView::Opened(None), false);
            let attaching = fetching.0.step(RunEventView::Rows(Ok(rows)), false);
            let closing = attaching.0.step(RunEventView::Attached(Ok(result)), false);
            fetching.1 is Fetch && attaching.1 is Attach && closing.1 == RunActionView::Close {
                sql: "ROLLBACK"@,
            }
        }),
{
    reveal(OperationView::connect);
    reveal(OperationView::proceed);
    reveal(OperationView::dispatch);
    reveal(OperationView::finish_query);
}

/// The rows of a page are analysed as they came, for the statement that produced them, and rows can become
/// editable only outside a transaction of the user.
pub proof fn pages_are_analysed_as_they_came(
    operation: OperationView,
    cursor: CursorView,
    statement: Seq<char>,
    rows: QueryResultView,
)
    requires
        operation.phase == (RunPhaseView::FetchingFirst { cursor, statement }),
    ensures
        operation.step(RunEventView::Rows(Ok(rows)), false).1 matches RunActionView::Attach {
            sql,
            page,
            autocommit,
            result,
        } && sql == statement && page == cursor.page && autocommit == cursor.owns_transaction
            && result.rows == rows.rows && result.columns == rows.columns,
{
}

/// What a session reports behind its work is what the work gave: the rows of a statement, the answer of the
/// catalog, or the failure.
pub proof fn results_are_reported_unchanged(
    operation: OperationView,
    rows: Result<QueryResultView, ErrorView>,
    browsed: Result<OutputView, ErrorView>,
    state: TransactionState,
)
    requires
        operation.session.connected,
    ensures
        operation.phase is Executing ==> {
            let observing = operation.step(RunEventView::Rows(rows), false);
            let done = observing.0.step(RunEventView::Observed(state), false).1;
            done matches RunActionView::Done { outcome, .. } && outcome == (match rows {
                Ok(result) => Ok::<OutputView, ErrorView>(OutputView::Result(result)),
                Err(error) => Err(error),
            })
        },
        operation.phase is Browsing ==> {
            let observing = operation.step(RunEventView::Browsed(browsed), false);
            let done = observing.0.step(RunEventView::Observed(state), false).1;
            done matches RunActionView::Done { outcome, .. } && outcome == browsed
        },
{
    reveal(OperationView::conclude);
}

/// A session is observed where it is connected: with its own settings, in its own database, by the process
/// id of its own connection. What is reported then is what was observed, but for a transaction that belongs
/// to a cursor.
pub proof fn sessions_report_what_was_observed(
    operation: OperationView,
    outcome: Result<OutputView, ErrorView>,
    state: TransactionState,
)
    requires
        operation.session.connected,
    ensures
        operation.conclude(outcome, false).1 == (RunActionView::Observe {
            profile: operation.session.profile,
            database: operation.database,
            pid: operation.session.pid,
        }),
        ({
            let done = operation.conclude(outcome, false).0.step(
                RunEventView::Observed(state),
                false,
            );
            let paging = state == TransactionState::Open && operation.session.cursor is Some
                && operation.session.cursor->Some_0.owns_transaction;
            done.1 == RunActionView::Done {
                outcome,
                state: SessionState::Connected(
                    if paging {
                        TransactionState::Paging
                    } else {
                        state
                    },
                ),
            } && done.0.session.state == done.1->state
        }),
        operation.conclude(outcome, true).1 == (RunActionView::Done {
            outcome,
            state: SessionState::Lost,
        }),
{
    reveal(OperationView::conclude);
}

/// A new connection is opened with the settings of the request, which are those of the session, to the
/// database of the operation; its process id is kept.
pub proof fn sessions_connect_where_they_were_asked(
    operation: OperationView,
    cancelled: bool,
    broken: bool,
    pid: i32,
)
    requires
        operation.begin(cancelled, broken).1 is Connect,
    ensures
        operation.begin(cancelled, broken).1 == (RunActionView::Connect {
            profile: operation.session.profile,
            database: operation.database,
        }),
        operation.request matches RequestView::Query { profile, .. } ==> profile
            == operation.session.profile,
        operation.request matches RequestView::Connect { profile, .. } ==> profile
            == operation.session.profile,
        operation.request matches RequestView::Databases { profile, .. } ==> profile
            == operation.session.profile,
        operation.request matches RequestView::Schemas { profile, .. } ==> profile
            == operation.session.profile,
        operation.request is Connect ==> {
            let next = operation.begin(cancelled, broken).0.step(
                RunEventView::Connected(Ok(pid)),
                false,
            ).0;
            next.session.connected && next.session.pid == pid && next.session.state
                == SessionState::Connected(TransactionState::Idle)
        },
{
    reveal(OperationView::conclude);
    reveal(OperationView::connect);
    reveal(OperationView::begin_page);
    reveal(OperationView::begin_save);
    reveal(OperationView::save_now);
    reveal(OperationView::proceed);
    reveal(OperationView::dispatch);
}

/// A batch reaches the server as it was requested, and the catalog is asked what was requested.
pub proof fn sessions_hand_requests_on_unchanged(
    operation: OperationView,
    cancelled: bool,
    broken: bool,
)
    ensures
        operation.begin(cancelled, broken).1 matches RunActionView::Save { source, changes }
            ==> operation.request matches RequestView::SaveChanges {
            source: asked,
            changes: wanted,
            ..
        } && source == asked && changes == wanted,
        operation.begin(cancelled, broken).1 matches RunActionView::Browse { request } ==> request
            == operation.request && (request is Databases || request is Schemas),
        operation.begin(cancelled, broken).1 matches RunActionView::Execute { sql }
            ==> operation.request matches RequestView::Query { sql: asked, .. } && sql == asked,
{
    reveal(OperationView::conclude);
    reveal(OperationView::connect);
    reveal(OperationView::begin_page);
    reveal(OperationView::begin_save);
    reveal(OperationView::save_now);
    reveal(OperationView::proceed);
    reveal(OperationView::dispatch);
}

/// A further page comes from the very cursor that the request names, is reported under it, and holds the
/// fetched rows; the cursor stays only behind a full page.
pub proof fn pages_come_from_their_cursor(operation: OperationView, rows: QueryResultView)
    requires
        operation.request is FetchPage,
        rows.page is None,
    ensures
        ({
            let page = operation.request->FetchPage_page;
            let fetching = operation.begin(false, false);
            fetching.1 is Fetch ==> {
                &&& operation.session.cursor is Some && operation.session.cursor->Some_0.page == page
                &&& operation.session.connected
                &&& fetching.1 == RunActionView::Fetch {
                    sql: "FETCH FORWARD "@ + decimal(200) + " FROM "@ + "\"textgres_result_"@
                        + decimal(page.id as nat) + "\""@,
                }
                &&& rows.rows.len() == 200 ==> {
                    let next = fetching.0.step(RunEventView::Rows(Ok(rows)), false);
                    &&& next.0.session.cursor == operation.session.cursor
                    &&& next.0.phase matches RunPhaseView::Observing { outcome }
                        && outcome matches Ok(OutputView::Page { requested, result }) && requested
                        == page && result.rows == rows.rows && result.columns == rows.columns
                        && result.page == Some(page)
                }
                &&& rows.rows.len() != 200 ==> {
                    let closing = fetching.0.step(RunEventView::Rows(Ok(rows)), false);
                    let next = closing.0.step(
                        RunEventView::Closed(CloseOutcomeView::Completed),
                        false,
                    );
                    &&& closing.1 is Close
                    &&& next.0.session.cursor is None
                    &&& next.0.phase matches RunPhaseView::Observing { outcome }
                        && outcome matches Ok(OutputView::Page { requested, result }) && requested
                        == page && result.rows == rows.rows && result.columns == rows.columns
                        && result.page is None
                }
            }
        }),
{
    reveal(OperationView::conclude);
    reveal(OperationView::begin_page);
    reveal(OperationView::page_done);
    let cursor = operation.session.cursor;
    if operation.begin(false, false).1 is Fetch {
        assert(cursor->Some_0.fetching() =~= "FETCH FORWARD "@ + decimal(200) + " FROM "@
            + "\"textgres_result_"@ + decimal(cursor->Some_0.page.id as nat) + "\""@);
    }
}

/// The target that a request names.
pub open spec fn named_target(request: RequestView) -> TargetView {
    match request {
        RequestView::Connect { profile, database, .. } => (profile.id, database),
        RequestView::Disconnect { profile, database } => (profile.id, database),
        RequestView::Databases { profile, .. } => (profile.id, profile.database),
        RequestView::Schemas { profile, database, .. } => (profile.id, database),
        RequestView::Tables { profile, database, .. } => (profile.id, database),
        RequestView::Preview { table, .. } => (table.profile_id, table.database),
        RequestView::Query { profile, database, .. } => (profile.id, database),
        RequestView::SaveChanges { source, .. } => (source.table.profile_id, source.table.database),
        RequestView::FetchPage { page } => (page.profile_id, page.database),
    }
}

/// A request is served by the session of the very profile and database that it names. A session that is there
/// is handed out as it is; a new one has the settings of the request and no connection. No other session, and
/// no preview of another database, is touched.
pub proof fn requests_reach_their_own_session(
    manager: SessionManagerView,
    request: RequestView,
    other: TargetView,
)
    requires
        other != named_target(request),
    ensures
        ({
            let (next, route) = manager.route(request);
            &&& next.entries.contains_key(other) == manager.entries.contains_key(other)
            &&& manager.entries.contains_key(other) ==> next.entries[other]
                == manager.entries[other]
            &&& next.previews.contains_key(other) == manager.previews.contains_key(other)
            &&& manager.previews.contains_key(other) ==> next.previews[other]
                == manager.previews[other]
            &&& route matches RouteView::Session { session, profile_id, database, first } ==> {
                let target = named_target(request);
                &&& (profile_id, database) == target
                &&& first == !manager.entries.contains_key(target)
                &&& !first ==> manager.entries[target] == SlotView::Idle(session)
                &&& first ==> !session.connected && session.cursor is None && session.edit_source is None
                    && session.state == SessionState::Disconnected
                &&& first ==> (match request {
                    RequestView::Query { profile, .. } => session.profile == profile,
                    RequestView::Connect { profile, .. } => session.profile == profile,
                    RequestView::Disconnect { profile, .. } => session.profile == profile,
                    RequestView::Schemas { profile, .. } => session.profile == profile,
                    RequestView::Databases { profile, .. } => session.profile == profile,
                    _ => false,
                })
                &&& next.entries[target] is Busy
            }
        }),
{
}

/// Which requests a session serves, and which are served elsewhere.
pub proof fn requests_are_served_by_kind(manager: SessionManagerView, request: RequestView)
    ensures
        manager.route(request).1 is Preview <==> request is Preview,
        manager.route(request).1 is Metadata <==> request is Tables,
        manager.route(request).1 is SaveTable <==> request is SaveChanges
            && request->source.query is None,
        manager.route(request).1 is PreviewPage <==> request is FetchPage && request->page.preview,
{
}

/// SQL, disconnecting and saving to a table release the preview of their database; nothing else does.
pub proof fn previews_end_with_new_work(manager: SessionManagerView, request: RequestView)
    ensures
        manager.previews.contains_key(named_target(request)) ==> (manager.route(
            request,
        ).0.previews.contains_key(named_target(request)) <==> !(request is Query
            || request is Disconnect || (request is SaveChanges && request->source.query is None))),
{
}

/// Closing a cursor for a preview ends a transaction only where the cursor owned it: a transaction of the
/// user stays as it was.
pub proof fn closing_for_a_preview_keeps_user_transactions(
    session: SessionView,
    cursor: CursorView,
    error: ErrorView,
)
    ensures
        !cursor.owns_transaction ==> cursor_closed(
            session,
            cursor,
            CloseOutcomeView::Completed,
            false,
        ) == session,
        cursor.owns_transaction ==> cursor_closed(
            session,
            cursor,
            CloseOutcomeView::Completed,
            false,
        ).state == SessionState::Connected(TransactionState::Idle),
        cursor_closed(session, cursor, CloseOutcomeView::Failed(error), false) == session,
        session.connected ==> cursor_closed(
            session,
            cursor,
            CloseOutcomeView::TimedOut,
            false,
        ).state == SessionState::Lost,
        close_failure(CloseOutcomeView::Failed(error)).0 == Some(error),
        close_failure(CloseOutcomeView::TimedOut).0 is Some,
{
}

/// Only what the server says to be idle counts as autocommit, and every answer but a running statement tells
/// a state; an answer that is not understood is unknown.
pub proof fn activities_tell_the_transaction(activity: Option<Seq<char>>)
    ensures
        activity_state(activity) == Some(TransactionState::Idle) <==> activity == Some("idle"@),
        activity_state(activity) == Some(TransactionState::Open) <==> activity == Some(
            "idle in transaction"@,
        ),
        activity_state(activity) == Some(TransactionState::Failed) <==> activity == Some(
            "idle in transaction (aborted)"@,
        ),
        activity_state(activity) is None <==> activity == Some("active"@),
        activity_state(activity) != Some(TransactionState::Paging),
{
    reveal_strlit("idle");
    reveal_strlit("idle in transaction");
    reveal_strlit("idle in transaction (aborted)");
    reveal_strlit("active");
    assert("idle"@.len() == 4 && "idle in transaction"@.len() == 19 && "active"@.len() == 6);
    assert("idle in transaction (aborted)"@.len() == 29);
}

/// Only open, failed and unknown transactions ask for consent, and only autocommit and paging sessions may
/// write rows of a query.
pub proof fn states_guard_user_work(state: SessionState)
    ensures
        state.holds_work() <==> state == SessionState::Connected(TransactionState::Open) || state
            == SessionState::Connected(TransactionState::Failed) || state
            == SessionState::Connected(TransactionState::Unknown),
        state.allows_query_edits() <==> state == SessionState::Connected(TransactionState::Idle)
            || state == SessionState::Connected(TransactionState::Paging),
        state.holds_work() ==> !state.allows_query_edits(),
{
}

/// A preview shows the rows that came, and becomes editable exactly where the table's columns are those that
/// came back, in order: then with this table and these columns.
pub proof fn previews_show_their_table(
    table: TableRefView,
    columns: Seq<ResultColumnView>,
    result: QueryResultView,
)
    requires
        result.source is None,
    ensures
        ({
            let shown = preview_result(table, columns, result);
            &&& shown.rows == result.rows && shown.columns == result.columns && shown.page
                == result.page && shown.status == result.status
            &&& shown.source is Some <==> columns.len() == result.columns.len() && forall|i: int|
                0 <= i < columns.len() ==> (#[trigger] columns[i]).name == result.columns[i]
            &&& shown.source matches Some(source) ==> source.table == table && source.columns
                == columns && source.query is None
        }),
{
    let names = Seq::new(columns.len(), |i: int| columns[i].name);
    if columns.len() == result.columns.len() && forall|i: int|
        0 <= i < columns.len() ==> (#[trigger] columns[i]).name == result.columns[i] {
        assert(names =~= result.columns);
    } else if names == result.columns {
        assert forall|i: int| 0 <= i < columns.len() implies (#[trigger] columns[i]).name
            == result.columns[i] by {
            assert(names[i] == result.columns[i]);
        }
    }
}

} // verus!
