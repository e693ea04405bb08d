//! Running SQL: how streamed messages become a result, and what an outcome means.
use vstd::prelude::*;
use vstd::string::*;

use crate::db::{
    cancelled_error, empty_result, format_database_error, plain_error, Cause, CauseView, Error,
    ErrorView, QueryResult, QueryResultView, ServerError, ServerErrorView,
};
use crate::text::{concat, concat3, decimal, decimal_text, large_decimal_text, same_text};
use crate::value::Value;

verus! {

/// One message of a simple query's reply.
#[derive(Debug, PartialEq, Eq)]
pub enum Message {
    Columns(Vec<String>),
    Row(Vec<Option<String>>),
    Complete(u64),
    Other,
}

/// What a `Message` denotes.
pub ghost enum MessageView {
    Columns(Seq<Seq<char>>),
    Row(Seq<Option<Seq<char>>>),
    Complete(u64),
    Other,
}

impl DeepView for Message {
    type V = MessageView;

    open spec fn deep_view(&self) -> MessageView {
        match self {
            Message::Columns(value) => MessageView::Columns(value.deep_view()),
            Message::Row(value) => MessageView::Row(value.deep_view()),
            Message::Complete(value) => MessageView::Complete(*value),
            Message::Other => MessageView::Other,
        }
    }
}

impl Clone for Message {
    fn clone(&self) -> (copy: Message)
        ensures
            copy@ == self@,
    {
        self.duplicate()
    }
}

impl View for Message {
    type V = MessageView;

    open spec fn view(&self) -> MessageView {
        self.deep_view()
    }
}

impl Value for Message {
    fn duplicate(&self) -> (copy: Message) {
        match self {
            Message::Columns(value) => Message::Columns(value.duplicate()),
            Message::Row(value) => Message::Row(value.duplicate()),
            Message::Complete(value) => Message::Complete(*value),
            Message::Other => Message::Other,
        }
    }

    fn same(&self, other: &Message) -> (same: bool) {
        match (self, other) {
            (Message::Columns(value_a), Message::Columns(value_b)) => value_a.same(value_b),
            (Message::Row(value_a), Message::Row(value_b)) => value_a.same(value_b),
            (Message::Complete(value_a), Message::Complete(value_b)) => *value_a == *value_b,
            (Message::Other, Message::Other) => true,
            _ => false,
        }
    }
}

/// The most rows that a result keeps.
pub const MAX_RESULT_ROWS: usize = 500;

/// A result that is being received.
pub struct QueryRun {
    result: QueryResult,
    affected: Vec<u64>,
}

/// What a `QueryRun` denotes: the columns and rows of the last result set so far, whether rows were
/// left out, and the affected counts of the completed statements.
pub ghost struct QueryRunView {
    pub columns: Seq<Seq<char>>,
    pub rows: Seq<Seq<Option<Seq<char>>>>,
    pub truncated: bool,
    pub affected: Seq<u64>,
}

/// The state before any message.
pub open spec fn no_messages() -> QueryRunView {
    QueryRunView {
        columns: Seq::empty(),
        rows: Seq::empty(),
        truncated: false,
        affected: Seq::empty(),
    }
}

/// The sum of some counts.
pub open spec fn total(counts: Seq<u64>) -> nat
    decreases counts.len(),
{
    if counts.len() == 0 {
        0
    } else {
        total(counts.drop_last()) + counts.last() as nat
    }
}

impl QueryRunView {
    /// What one message does. A new result set replaces the earlier one: the last is the least
    /// surprising view of several statements.
    pub open spec fn receive(self, message: MessageView) -> QueryRunView {
        match message {
            MessageView::Columns(columns) => QueryRunView {
                columns,
                rows: Seq::empty(),
                truncated: false,
                ..self
            },
            MessageView::Row(row) => if self.rows.len() == MAX_RESULT_ROWS {
                QueryRunView { truncated: true, ..self }
            } else {
                QueryRunView { rows: self.rows.push(row), ..self }
            },
            MessageView::Complete(count) => QueryRunView {
                affected: self.affected.push(count),
                ..self
            },
            MessageView::Other => self,
        }
    }

    /// What all messages do, in order.
    pub open spec fn receive_all(self, messages: Seq<MessageView>) -> QueryRunView
        decreases messages.len(),
    {
        if messages.len() == 0 {
            self
        } else {
            self.receive_all(messages.drop_last()).receive(messages.last())
        }
    }

    /// The status line.
    pub open spec fn status(self) -> Seq<char> {
        if self.truncated {
            "Showing first "@ + decimal(MAX_RESULT_ROWS as nat) + " rows; result truncated"@
        } else if self.columns.len() > 0 {
            decimal(self.rows.len()) + " row(s)"@
        } else if self.affected.len() == 0 {
            "Query completed"@
        } else {
            "Query completed; "@ + decimal(total(self.affected)) + " row(s) affected"@
        }
    }

    /// The result, when the reply is complete.
    pub open spec fn finish(self) -> QueryResultView {
        QueryResultView {
            columns: self.columns,
            rows: self.rows,
            status: self.status(),
            truncated: self.truncated,
            ..empty_result()
        }
    }
}

impl View for QueryRun {
    type V = QueryRunView;

    closed spec fn view(&self) -> QueryRunView {
        QueryRunView {
            columns: self.result@.columns,
            rows: self.result@.rows,
            truncated: self.result.truncated,
            affected: self.affected@,
        }
    }
}

impl QueryRun {
    #[verifier::type_invariant]
    closed spec fn bare(self) -> bool {
        &&& self.result@.source is None
        &&& self.result@.page is None
        &&& self.result@.read_only_reason is None
        &&& self.result.rows@.len() <= MAX_RESULT_ROWS
    }

    /// Starts with nothing.
    pub fn new() -> (run: QueryRun)
        ensures
            run@ == no_messages(),
    {
        let result = QueryResult::default();
        assert(result@.rows.len() == result.rows@.len());
        let run = QueryRun { result, affected: Vec::new() };
        assert(run.affected@ =~= Seq::empty());
        run
    }

    /// Takes one message.
    pub fn receive(self, message: Message) -> (next: QueryRun)
        ensures
            next@ == self@.receive(message@),
    {
        proof {
            use_type_invariant(&self);
        }
        let QueryRun { mut result, mut affected } = self;
        assert(result@.rows.len() == result.rows@.len());
        match message {
            Message::Columns(columns) => {
                result.columns = columns;
                result.rows = Vec::new();
                assert(result@.rows =~= Seq::empty());
                result.truncated = false;
            },
            Message::Row(row) => {
                if result.rows.len() == MAX_RESULT_ROWS {
                    result.truncated = true;
                } else {
                    let ghost before = result@.rows;
                    result.rows.push(row);
                    assert(result@.rows =~= before.push(row.deep_view()));
                }
            },
            Message::Complete(count) => {
                affected.push(count);
            },
            Message::Other => {},
        }
        QueryRun { result, affected }
    }

    /// The result, when the reply is complete.
    pub fn finish(self) -> (result: QueryResult)
        ensures
            result@ == self@.finish(),
    {
        proof {
            use_type_invariant(&self);
        }
        let QueryRun { mut result, affected } = self;
        assert(result@.columns.len() == result.columns@.len());
        assert(result@.rows.len() == result.rows@.len());
        result.status = if result.truncated {
            concat3(
                "Showing first ",
                decimal_text(MAX_RESULT_ROWS as u64).as_str(),
                " rows; result truncated",
            )
        } else if result.columns.len() > 0 {
            concat(decimal_text(result.rows.len() as u64).as_str(), " row(s)")
        } else if affected.len() == 0 {
            "Query completed".to_owned()
        } else {
            concat3(
                "Query completed; ",
                large_decimal_text(sum(&affected)).as_str(),
                " row(s) affected",
            )
        };
        result
    }
}

fn sum(counts: &Vec<u64>) -> (sum: u128)
    ensures
        sum == total(counts@),
{
    let mut sum: u128 = 0;
    let mut i: usize = 0;
    while i < counts.len()
        invariant
            i <= counts@.len(),
            sum == total(counts@.take(i as int)),
            sum <= i * u64::MAX,
        decreases counts@.len() - i,
    {
        proof {
            let next = counts@.take(i + 1);
            assert(next.drop_last() =~= counts@.take(i as int));
            assert(i * u64::MAX + u64::MAX == (i + 1) * u64::MAX) by (nonlinear_arith);
            assert((i + 1) * u64::MAX <= u128::MAX) by (nonlinear_arith)
                requires
                    i + 1 <= usize::MAX,
            ;
        }
        sum += counts[i] as u128;
        i += 1;
    }
    assert(counts@.take(i as int) =~= counts@);
    sum
}

/// No reply makes a result larger than its bound, and rows are left out only from a full result.
pub proof fn results_are_bounded(messages: Seq<MessageView>)
    ensures
        ({
            let run = no_messages().receive_all(messages);
            run.rows.len() <= MAX_RESULT_ROWS && (run.truncated ==> run.rows.len()
                == MAX_RESULT_ROWS)
        }),
    decreases messages.len(),
{
    if messages.len() > 0 {
        results_are_bounded(messages.drop_last());
    }
}

/// The rows of the last result set are the first ones that came behind its columns, in order.
pub proof fn rows_follow_their_columns(
    run: QueryRunView,
    columns: Seq<Seq<char>>,
    rows: Seq<Seq<Option<Seq<char>>>>,
)
    ensures
        ({
            let messages = seq![MessageView::Columns(columns)] + rows.map_values(
                |row: Seq<Option<Seq<char>>>| MessageView::Row(row),
            );
            let after = run.receive_all(messages);
            after.columns == columns && after.rows == (if rows.len() <= MAX_RESULT_ROWS {
                rows
            } else {
                rows.take(MAX_RESULT_ROWS as int)
            }) && after.truncated == (rows.len() > MAX_RESULT_ROWS)
        }),
    decreases rows.len(),
{
    let as_row = |row: Seq<Option<Seq<char>>>| MessageView::Row(row);
    let messages = seq![MessageView::Columns(columns)] + rows.map_values(as_row);
    if rows.len() == 0 {
        assert(messages.drop_last() =~= Seq::empty());
        assert(messages.last() == MessageView::Columns(columns));
        assert(rows =~= Seq::empty());
        assert(run.receive_all(messages.drop_last()) == run);
    } else {
        let earlier = rows.drop_last();
        rows_follow_their_columns(run, columns, earlier);
        assert(messages.drop_last() =~= seq![MessageView::Columns(columns)] + earlier.map_values(
            as_row,
        ));
        assert(messages.last() == MessageView::Row(rows.last()));
        if rows.len() <= MAX_RESULT_ROWS {
            assert(earlier.push(rows.last()) =~= rows);
        } else if earlier.len() == MAX_RESULT_ROWS {
            assert(rows.take(MAX_RESULT_ROWS as int) =~= earlier);
        } else {
            assert(rows.take(MAX_RESULT_ROWS as int) =~= earlier.take(MAX_RESULT_ROWS as int));
        }
    }
}

/// What came of one supervised statement.
#[derive(Debug, PartialEq, Eq)]
pub enum StatementOutcome {
    Completed,
    /// The server reported an error.
    Refused(ServerError),
    /// The connection failed in a way that the text describes.
    Disconnected(String),
    /// The statement did not end in time after it was cancelled; the text says why the cancel request
    /// failed, where it did.
    Unconfirmed(Option<String>),
}

/// What a `StatementOutcome` denotes.
pub ghost enum StatementOutcomeView {
    Completed,
    Refused(ServerErrorView),
    Disconnected(Seq<char>),
    Unconfirmed(Option<Seq<char>>),
}

impl DeepView for StatementOutcome {
    type V = StatementOutcomeView;

    open spec fn deep_view(&self) -> StatementOutcomeView {
        match self {
            StatementOutcome::Completed => StatementOutcomeView::Completed,
            StatementOutcome::Refused(value) => StatementOutcomeView::Refused(value.deep_view()),
            StatementOutcome::Disconnected(value) => StatementOutcomeView::Disconnected(value@),
            StatementOutcome::Unconfirmed(value) => {
                StatementOutcomeView::Unconfirmed(value.deep_view())
            },
        }
    }
}

impl Clone for StatementOutcome {
    fn clone(&self) -> (copy: StatementOutcome)
        ensures
            copy@ == self@,
    {
        self.duplicate()
    }
}

impl View for StatementOutcome {
    type V = StatementOutcomeView;

    open spec fn view(&self) -> StatementOutcomeView {
        self.deep_view()
    }
}

impl Value for StatementOutcome {
    fn duplicate(&self) -> (copy: StatementOutcome) {
        match self {
            StatementOutcome::Completed => StatementOutcome::Completed,
            StatementOutcome::Refused(value) => StatementOutcome::Refused(value.duplicate()),
            StatementOutcome::Disconnected(value) => {
                StatementOutcome::Disconnected(value.duplicate())
            },
            StatementOutcome::Unconfirmed(value) => {
                StatementOutcome::Unconfirmed(value.duplicate())
            },
        }
    }

    fn same(&self, other: &StatementOutcome) -> (same: bool) {
        match (self, other) {
            (StatementOutcome::Completed, StatementOutcome::Completed) => true,
            (StatementOutcome::Refused(value_a), StatementOutcome::Refused(value_b)) => {
                value_a.same(value_b)
            },
            (StatementOutcome::Disconnected(value_a), StatementOutcome::Disconnected(value_b)) => {
                value_a.same(value_b)
            },
            (StatementOutcome::Unconfirmed(value_a), StatementOutcome::Unconfirmed(value_b)) => {
                value_a.same(value_b)
            },
            _ => false,
        }
    }
}

/// How the outcome of a statement is reported, and whether its connection is lost. `cancelled` says
/// that cancellation was requested.
pub open spec fn statement_failure(outcome: StatementOutcomeView, cancelled: bool) -> (
    Option<ErrorView>,
    bool,
) {
    match outcome {
        StatementOutcomeView::Completed => (None, false),
        StatementOutcomeView::Refused(report) => if cancelled && report.code == "57014"@ {
            (Some(cancelled_error()), false)
        } else if report.severity == "FATAL"@ || report.severity == "PANIC"@ {
            // A disconnect can arrive after a commit but before its acknowledgement.
            (
                Some(
                    plain_error(
                        "Database connection failed; write outcome is unknown: "@
                            + report.report(),
                    ),
                ),
                true,
            )
        } else {
            (
                Some(ErrorView { contexts: Seq::empty(), cause: CauseView::Server(report) }),
                false,
            )
        },
        StatementOutcomeView::Disconnected(text) => (
            Some(
                plain_error(text).in_context(
                    "Database connection failed; write outcome is unknown"@,
                ),
            ),
            true,
        ),
        StatementOutcomeView::Unconfirmed(detail) => (
            Some(
                plain_error(
                    "Cancellation was not confirmed within 5 seconds; write outcome is unknown"@
                        + (match detail {
                        Some(detail) => "; cancel request failed: "@ + detail,
                        None => Seq::empty(),
                    }),
                ),
            ),
            true,
        ),
    }
}

/// How the outcome of a statement is reported, and whether its connection is lost.
pub fn supervise(outcome: StatementOutcome, cancelled: bool) -> (result: (Option<Error>, bool))
    ensures
        (result.0.deep_view(), result.1) == statement_failure(outcome@, cancelled),
{
    match outcome {
        StatementOutcome::Completed => (None, false),
        StatementOutcome::Refused(report) => {
            if cancelled && same_text(report.code.as_str(), "57014") {
                return (Some(Error::cancelled()), false);
            }
            if same_text(report.severity.as_str(), "FATAL") || same_text(
                report.severity.as_str(),
                "PANIC",
            ) {
                let text = concat(
                    "Database connection failed; write outcome is unknown: ",
                    format_database_error(&report).as_str(),
                );
                return (Some(Error::new(text.as_str())), true);
            }
            (Some(Error::caused_by(Cause::Server(report))), false)
        },
        StatementOutcome::Disconnected(text) => (
            Some(
                Error::new(text.as_str()).context(
                    "Database connection failed; write outcome is unknown",
                ),
            ),
            true,
        ),
        StatementOutcome::Unconfirmed(detail) => {
            let mut text =
                "Cancellation was not confirmed within 5 seconds; write outcome is unknown".to_owned();
            match detail {
                Some(detail) => {
                    let ghost head = text@;
                    text.append("; cancel request failed: ");
                    text.append(detail.as_str());
                    assert(text@ =~= head + ("; cancel request failed: "@ + detail@));
                },
                None => {
                    assert(text@ =~= text@ + Seq::empty());
                },
            }
            (Some(Error::new(text.as_str())), true)
        },
    }
}

/// A statement counts as cancelled only where the server confirmed it.
pub proof fn cancellation_is_confirmed(outcome: StatementOutcomeView, cancelled: bool)
    ensures
        statement_failure(outcome, cancelled).0 matches Some(error) && error.cause is Cancelled
            ==> cancelled && outcome is Refused && outcome->Refused_0.code == "57014"@,
{
}

/// Whether an error says that the outcome of a write is unknown.
pub open spec fn tells_unknown_outcome(error: ErrorView) -> bool {
    let text = "Database connection failed; write outcome is unknown"@;
    let unconfirmed =
        "Cancellation was not confirmed within 5 seconds; write outcome is unknown"@;
    ||| error.contexts.contains(text)
    ||| error.cause matches CauseView::Other(message) && (message.take(text.len() as int) == text
        || message.take(unconfirmed.len() as int) == unconfirmed)
}

/// A connection is given up exactly where the outcome of the statement is unknown, and the error says so.
pub proof fn lost_connections_report_unknown_outcomes(
    outcome: StatementOutcomeView,
    cancelled: bool,
)
    ensures
        statement_failure(outcome, cancelled).1 ==> statement_failure(outcome, cancelled).0 is Some
            && tells_unknown_outcome(statement_failure(outcome, cancelled).0->Some_0),
        statement_failure(outcome, cancelled).1 <==> match outcome {
            StatementOutcomeView::Completed => false,
            StatementOutcomeView::Refused(report) => !(cancelled && report.code == "57014"@) && (
            report.severity == "FATAL"@ || report.severity == "PANIC"@),
            StatementOutcomeView::Disconnected(_) | StatementOutcomeView::Unconfirmed(_) => true,
        },
        outcome is Completed ==> statement_failure(outcome, cancelled) == (
            None::<ErrorView>,
            false,
        ),
{
    let text = "Database connection failed; write outcome is unknown"@;
    let long = "Database connection failed; write outcome is unknown: "@;
    let unconfirmed =
        "Cancellation was not confirmed within 5 seconds; write outcome is unknown"@;
    reveal_strlit("Database connection failed; write outcome is unknown");
    reveal_strlit("Database connection failed; write outcome is unknown: ");
    assert(long.take(text.len() as int) =~= text);
    if statement_failure(outcome, cancelled).1 {
        let error = statement_failure(outcome, cancelled).0->Some_0;
        match outcome {
            StatementOutcomeView::Refused(report) => {
                assert((long + report.report()).take(text.len() as int) =~= text);
            },
            StatementOutcomeView::Disconnected(_) => {
                assert(error.contexts[0] == text);
            },
            StatementOutcomeView::Unconfirmed(detail) => {
                assert(error.cause->Other_0.take(unconfirmed.len() as int) =~= unconfirmed);
            },
            StatementOutcomeView::Completed => {},
        }
    }
}

} // verus!
