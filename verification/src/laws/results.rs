//! Replies of the server are shown as they came, and failures read as they were reported.
use vstd::prelude::*;
use vstd::string::*;

use crate::db::query::{
    statement_failure, MessageView, QueryRunView, StatementOutcomeView, MAX_RESULT_ROWS,
};
use crate::db::{quoted, CauseView, ErrorView, ServerErrorView};
use crate::text::{decimal, digit, replaced};

verus! {

/// A row is appended as it came while there is room, and leaves the others as they are. Columns start a new
/// set, a completed statement adds its count, and anything else changes nothing.
pub proof fn messages_change_what_they_say(run: QueryRunView, message: MessageView)
    ensures
        message matches MessageView::Row(row) ==> run.receive(message).columns == run.columns && (
        run.rows.len() != MAX_RESULT_ROWS ==> run.receive(message).rows == run.rows.push(row)) && (
        run.rows.len() == MAX_RESULT_ROWS ==> run.receive(message).rows == run.rows && run.receive(
            message,
        ).truncated),
        message matches MessageView::Columns(columns) ==> run.receive(message).columns == columns
            && run.receive(message).rows.len() == 0 && !run.receive(message).truncated
            && run.receive(message).affected == run.affected,
        message matches MessageView::Complete(count) ==> run.receive(message).affected
            == run.affected.push(count) && run.receive(message).rows == run.rows,
        message is Other ==> run.receive(message) == run,
        MAX_RESULT_ROWS == 500,
{
}

/// A result shows the columns and rows that were received, says how many, and is not editable by itself.
pub proof fn results_show_what_was_received(run: QueryRunView)
    ensures
        run.finish().columns == run.columns && run.finish().rows == run.rows
            && run.finish().truncated == run.truncated,
        run.finish().source is None && run.finish().page is None,
        !run.truncated && run.columns.len() > 0 ==> run.finish().status == decimal(run.rows.len())
            + " row(s)"@,
        run.truncated ==> run.finish().status == "Showing first "@ + decimal(500)
            + " rows; result truncated"@,
{
}

/// An error of the server is reported as it is, unless it confirms a cancellation that was asked for or ends
/// the connection; a completed statement is no failure, whether or not cancellation was asked for.
pub proof fn server_errors_are_kept(report: ServerErrorView, cancelled: bool)
    requires
        report.severity != "FATAL"@,
        report.severity != "PANIC"@,
    ensures
        !cancelled || report.code != "57014"@ ==> (statement_failure(
            StatementOutcomeView::Refused(report),
            cancelled,
        ).0 matches Some(error) && error.cause == CauseView::Server(report) && error.contexts.len()
            == 0),
        cancelled && report.code == "57014"@ ==> (statement_failure(
            StatementOutcomeView::Refused(report),
            cancelled,
        ).0 matches Some(error) && error.cause is Cancelled),
        statement_failure(StatementOutcomeView::Completed, cancelled).0 is None,
{
}

/// A server report starts with its code, severity and message in this order; a detail and a hint follow under
/// their names.
pub proof fn reports_name_their_parts(report: ServerErrorView)
    ensures
        report.lines().len() > 0,
        report.lines()[0] == "SQL Error ["@ + report.code + "]: "@ + report.severity + ": "@
            + report.message,
        report.detail is Some ==> report.lines().contains("Detail: "@ + report.detail->Some_0),
        report.hint is Some ==> report.lines().contains("Hint: "@ + report.hint->Some_0),
{
    let lines = report.lines();
    assert(lines[0] =~= "SQL Error ["@ + report.code + "]: "@ + report.severity + ": "@
        + report.message);
    if report.detail is Some {
        assert(lines[1] == "Detail: "@ + report.detail->Some_0);
        if report.hint is Some {
            assert(lines[2] == "Hint: "@ + report.hint->Some_0);
        }
    } else if report.hint is Some {
        assert(lines[1] == "Hint: "@ + report.hint->Some_0);
    }
}

/// A context adds itself in front and keeps the cause, so that a cancellation stays one and an unknown outcome
/// stays unknown.
pub proof fn contexts_keep_the_cause(error: ErrorView, context: Seq<char>)
    ensures
        error.in_context(context).cause == error.cause,
        error.in_context(context).outermost() == context,
        error.cause is Server ==> error.in_context(context).message() == error.message(),
{
}

/// Quoting puts an identifier between quotes and doubles the quotes in it: text without quotes stays as it is.
pub proof fn quoting_doubles_quotes(a: Seq<char>, c: char)
    ensures
        quoted(a).len() >= 2 && quoted(a)[0] == '"' && quoted(a).last() == '"',
        quoted(a.push(c)) == quoted(a).drop_last() + (if c == '"' {
            seq!['"', '"']
        } else {
            seq![c]
        }) + seq!['"'],
        quoted(Seq::empty()) == seq!['"', '"'],
{
    reveal_strlit("\"");
    reveal_strlit("\"\"");
    assert("\"\""@ =~= seq!['"', '"']);
    let both = "\"\""@;
    assert(a.push(c).drop_last() =~= a);
    assert(quoted(a).drop_last() =~= seq!['"'] + replaced(a, '"', both));
    assert(quoted(a.push(c)) =~= quoted(a).drop_last() + (if c == '"' {
        seq!['"', '"']
    } else {
        seq![c]
    }) + seq!['"']);
    assert(quoted(Seq::empty()) =~= seq!['"', '"']);
}

/// Numbers are written digit by digit, the most significant first.
pub proof fn numbers_are_written_in_digits(n: nat, d: nat)
    requires
        d < 10,
    ensures
        n > 0 ==> decimal(10 * n + d) == decimal(n) + decimal(d),
        decimal(d).len() == 1 && decimal(d)[0] as u32 == '0' as u32 + d,
{
    if n > 0 {
        let whole = 10 * n + d;
        assert(whole / 10 == n && whole % 10 == d);
        assert(decimal(whole) =~= decimal(n) + decimal(d));
    }
}

} // verus!
