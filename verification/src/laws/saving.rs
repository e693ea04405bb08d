//! Batches are saved change by change, and only to the table that was shown.
use vstd::prelude::*;
use vstd::string::*;

use crate::db::changes::{change_statement, RowChangeView, RowView};
use crate::db::query_edits::projection_problem;
use crate::db::save::{save_start, SaveActionView, SavePhaseView, SaveReplyView, SaveView};
use crate::db::tables::{
    preview_job, save_job, JobActionView, JobEventView, JobPhaseView, TableJobView,
};
use crate::db::{ErrorView, QueryResultView, ResultColumnView, TableRefView, TableResultSourceView};
use crate::storage::ConnectionProfileView;
use crate::text::decimal;

verus! {

/// Whether the statement of change `k` is what was asked for behind the first `at` answers.
pub open spec fn asks_for_change(
    start: SaveView,
    replies: Seq<SaveReplyView>,
    at: int,
    k: int,
) -> bool {
    &&& 0 < at <= replies.len()
    &&& change_statement(start.source, start.changes[k]) matches Ok((sql, parameters))
        && start.asked(replies.take(at)) == (SaveActionView::Execute { sql, parameters })
}

/// Whether the statements of the first `count` changes were asked for in order, one per answer, the first
/// behind the first `from` answers.
#[verifier::opaque]
spec fn asked_in_order(
    start: SaveView,
    replies: Seq<SaveReplyView>,
    from: int,
    count: int,
) -> bool {
    forall|k: int| 0 <= k < count ==> #[trigger] asks_for_change(start, replies, from + k, k)
}

proof fn lemma_asked_earlier(start: SaveView, replies: Seq<SaveReplyView>, from: int, count: int)
    requires
        replies.len() > 0,
        asked_in_order(start, replies.drop_last(), from, count),
    ensures
        asked_in_order(start, replies, from, count),
{
    reveal(asked_in_order);
    let earlier = replies.drop_last();
    assert forall|k: int| 0 <= k < count implies #[trigger] asks_for_change(
        start,
        replies,
        from + k,
        k,
    ) by {
        assert(asks_for_change(start, earlier, from + k, k));
        assert(earlier.take(from + k) =~= replies.take(from + k));
    }
}

proof fn lemma_asked_next(
    start: SaveView,
    replies: Seq<SaveReplyView>,
    from: int,
    count: int,
    sql: Seq<char>,
    parameters: RowView,
)
    requires
        replies.len() > 0,
        count >= 0,
        from + count == replies.len(),
        asked_in_order(start, replies, from, count),
        change_statement(start.source, start.changes[count]) == Ok::<_, ErrorView>(
            (sql, parameters),
        ),
        start.asked(replies) == (SaveActionView::Execute { sql, parameters }),
    ensures
        asked_in_order(start, replies, from, count + 1),
{
    reveal(asked_in_order);
    assert(replies.take(replies.len() as int) =~= replies);
    assert(asks_for_change(start, replies, from + count, count));
}

/// Only the start of the writing and a written change lead to the next change, and what is asked for then is
/// the statement of that change.
proof fn lemma_one_write(save: SaveView, reply: SaveReplyView)
    requires
        save.changes.len() <= usize::MAX,
    ensures
        save.step(reply).0.source == save.source,
        save.step(reply).0.changes == save.changes,
        !(save.step(reply).0.phase is Beginning),
        save.step(reply).0.phase matches SavePhaseView::Writing { index } ==> index
            < save.changes.len() && (change_statement(
            save.source,
            save.changes[index as int],
        ) matches Ok((sql, parameters)) && save.step(reply).1 == (SaveActionView::Execute {
            sql,
            parameters,
        })) && (index > 0 ==> save.phase == (SavePhaseView::Writing {
            index: (index - 1) as usize,
        })),
        save.step(reply).0.phase is Committing && save.changes.len() > 0 ==> save.phase is Writing
            && save.phase->index + 1 >= save.changes.len(),
{
}

proof fn lemma_writes_in_order(start: SaveView, replies: Seq<SaveReplyView>)
    requires
        start.phase is Beginning,
        0 < start.changes.len() <= usize::MAX,
    ensures
        ({
            let now = start.after(replies);
            &&& now.source == start.source && now.changes == start.changes
            &&& now.phase matches SavePhaseView::Writing { index } ==> index < start.changes.len()
                && asked_in_order(start, replies, replies.len() - index, index + 1)
            &&& now.phase is Committing ==> asked_in_order(
                start,
                replies,
                replies.len() - start.changes.len(),
                start.changes.len() as int,
            )
        }),
    decreases replies.len(),
{
    if replies.len() > 0 {
        let earlier = replies.drop_last();
        let before = start.after(earlier);
        lemma_writes_in_order(start, earlier);
        lemma_one_write(before, replies.last());
        let now = start.after(replies);
        assert(now == before.step(replies.last()).0);
        assert(start.asked(replies) == before.step(replies.last()).1);
        if let SavePhaseView::Writing { index } = now.phase {
            let from = replies.len() - index;
            let statement = change_statement(start.source, start.changes[index as int])->Ok_0;
            if index > 0 {
                assert(earlier.len() - (index - 1) == from);
                lemma_asked_earlier(start, replies, from, index as int);
            } else {
                reveal(asked_in_order);
            }
            lemma_asked_next(start, replies, from, index as int, statement.0, statement.1);
        } else if now.phase is Committing {
            let count = start.changes.len() as int;
            lemma_asked_earlier(start, replies, replies.len() - count, count);
        }
    }
}

/// Behind a COMMIT every change of the batch was sent, each with its own statement, in order and one after
/// the other, and the commit comes directly behind the last.
pub proof fn commits_follow_the_whole_batch(
    source: TableResultSourceView,
    changes: Seq<RowChangeView>,
    replies: Seq<SaveReplyView>,
    k: int,
)
    requires
        0 <= k < changes.len() <= usize::MAX,
        source.table.kind == "table"@ || source.table.kind == "partitioned table"@,
        save_start(source, changes).0.after(replies).phase is Committing,
    ensures
        asks_for_change(
            save_start(source, changes).0,
            replies,
            replies.len() - changes.len() + k,
            k,
        ),
{
    lemma_writes_in_order(save_start(source, changes).0, replies);
    reveal(asked_in_order);
}

/// Before a batch is written its table is locked under its own name, and its columns are read again.
pub proof fn tables_are_locked_and_read_first(save: SaveView)
    ensures
        save.phase is Beginning ==> save.step(SaveReplyView::Completed).1 == SaveActionView::Batch(
            "LOCK TABLE "@ + save.source.table.qualified() + " IN ROW EXCLUSIVE MODE"@,
        ),
        save.phase is Locking ==> save.step(SaveReplyView::Completed).1 == SaveActionView::Columns(
            save.source.table,
        ),
{
}

/// Rows of a table are written only where its columns are still those that were shown.
pub proof fn changed_tables_are_not_written(save: SaveView, current: Seq<ResultColumnView>)
    requires
        save.phase is Reading,
        save.source.query is None,
    ensures
        save.step(SaveReplyView::Columns(current)).1 is Execute ==> current == save.source.columns,
        current != save.source.columns ==> save.step(SaveReplyView::Columns(current)).1 is Rollback,
{
}

/// Rows of a query are written only to the very table that was analysed: with the same object id, the same
/// columns under the same numbers, each shown column still being the one it was, and the whole key among
/// them.
pub proof fn changed_query_tables_are_not_written(
    save: SaveView,
    current: Seq<ResultColumnView>,
    oid: u32,
    ids: Seq<i16>,
)
    requires
        save.source.query is Some,
    ensures
        save.phase is Reading ==> !(save.step(SaveReplyView::Columns(current)).1 is Execute),
        save.phase == (SavePhaseView::Locating { current }) && save.step(
            SaveReplyView::TableOid(oid),
        ).1 is Attributes ==> oid == save.source.query->Some_0.table_oid && current
            == save.source.query->Some_0.table_columns,
        save.phase == (SavePhaseView::Numbering { current }) && save.step(
            SaveReplyView::Attributes(ids),
        ).1 is Execute ==> {
            let query = save.source.query->Some_0;
            let columns = save.source.columns;
            &&& ids == query.attribute_ids
            &&& query.mapping.len() == columns.len()
            &&& forall|k: int|
                0 <= k < columns.len() ==> (match #[trigger] query.mapping[k] {
                    Some(index) => index < current.len() && current[index as int] == columns[k],
                    None => !columns[k].editable && !columns[k].primary_key
                        && !columns[k].insertable,
                })
            &&& exists|i: int| 0 <= i < current.len() && (#[trigger] current[i]).primary_key
            &&& forall|i: int|
                0 <= i < current.len() && (#[trigger] current[i]).primary_key
                    ==> query.mapping.contains(Some(i as usize))
        },
{
    if save.phase == (SavePhaseView::Numbering { current }) && save.step(
        SaveReplyView::Attributes(ids),
    ).1 is Execute {
        let query = save.source.query->Some_0;
        let columns = save.source.columns;
        assert(projection_problem(columns, query, current, ids) is None);
        assert forall|k: int| 0 <= k < columns.len() implies (match #[trigger] query.mapping[k] {
            Some(index) => index < current.len() && current[index as int] == columns[k],
            None => !columns[k].editable && !columns[k].primary_key && !columns[k].insertable,
        }) by {
            assert(crate::db::query_edits::projection_holds(columns[k], query.mapping[k], current));
        }
    }
}

/// A row that was not found once gives the whole batch up, and the report says how many were found.
pub proof fn conflicts_give_the_batch_up(save: SaveView, rows: u64)
    requires
        save.phase is Writing,
        rows != 1,
    ensures
        save.step(SaveReplyView::Affected(rows)).1 is Rollback,
        save.step(SaveReplyView::Affected(rows)).0.phase matches SavePhaseView::RollingBack {
            error,
        } && error.cause == crate::db::CauseView::Other(
            "Row conflict: expected one matching row, found "@ + decimal(rows as nat)
                + "; no changes saved"@,
        ),
{
}

/// A table job connects with the profile and the password that it was given, to the database of its table,
/// and saves its own batch; it reads and shows its own table.
pub proof fn table_jobs_work_on_their_table(job: TableJobView, event: JobEventView)
    ensures
        match job.step(event).1 {
            JobActionView::Connect { profile, password, database } => profile == job.profile
                && password == job.password && database == job.table.database,
            JobActionView::Save { source, changes } => job.batch == Some((source, changes)),
            JobActionView::Columns(table) => table == job.table,
            JobActionView::Open { commands } => commands.len() == 2 && commands[0]
                == "BEGIN READ ONLY"@ && commands[1] == "DECLARE "@ + ("\"textgres_result_"@
                + decimal(job.cursor_id as nat) + "\""@) + " NO SCROLL CURSOR FOR\n"@ + (
            "SELECT * FROM "@ + job.table.qualified()) + "\n"@,
            JobActionView::Show { columns, cursor, result } => event matches JobEventView::Rows(
                Ok(rows),
            ) && result.rows == rows.rows && result.columns == rows.columns && job.phase
                == (JobPhaseView::Fetching { columns, cursor }),
            _ => true,
        },
{
}

/// The columns that a preview is shown with are those that the catalog gave, and its cursor is one of its own
/// database.
pub proof fn previews_keep_their_columns(job: TableJobView, columns: Seq<ResultColumnView>)
    requires
        job.phase is Reading,
    ensures
        ({
            let opening = job.step(JobEventView::Columns(Ok(columns))).0;
            let fetching = opening.step(JobEventView::Opened(None)).0;
            fetching.phase matches JobPhaseView::Fetching { columns: kept, cursor } && kept
                == columns && cursor.page.profile_id == job.table.profile_id && cursor.page.database
                == job.table.database && cursor.page.preview && cursor.owns_transaction
                && cursor.page.id == job.cursor_id
        }),
{
}

/// A preview shows what it was told to show, and every failure on the way is the failure that is reported.
pub proof fn previews_report_their_outcome(
    job: TableJobView,
    error: ErrorView,
    result: QueryResultView,
)
    requires
        !job.committed,
    ensures
        job.phase is Showing ==> job.step(JobEventView::Shown(result)).1 == JobActionView::Done(
            Ok(crate::db::OutputView::Result(result)),
        ),
        job.phase is Releasing ==> job.step(JobEventView::Released(Some(error))).1
            == JobActionView::Done(Err(error)),
        job.phase is Connecting ==> job.step(JobEventView::Connected(Some(error))).1
            == JobActionView::Done(Err(error)),
        job.phase is Saving ==> job.step(JobEventView::Saved(Some(error))).1 == JobActionView::Done(
            Err(error),
        ),
        job.phase is Reading ==> job.step(JobEventView::Columns(Err(error))).1
            == JobActionView::Done(Err(error)),
        job.phase is Opening ==> job.step(JobEventView::Opened(Some(error))).1
            == JobActionView::Done(Err(error)),
        job.phase is Fetching ==> job.step(JobEventView::Rows(Err(error))).1 == JobActionView::Done(
            Err(error),
        ),
{
}

/// Jobs start on the table they are about: a save on the table of its rows, with those rows.
pub proof fn table_jobs_start_as_asked(
    profile: ConnectionProfileView,
    password: Option<Seq<char>>,
    table: TableRefView,
    source: TableResultSourceView,
    changes: Seq<RowChangeView>,
    cursor_id: u64,
)
    ensures
        ({
            let job = preview_job(profile, password, table, cursor_id);
            job.profile == profile && job.password == password && job.table == table && job.batch is None
                && !job.committed && job.cursor_id == cursor_id && job.phase is Releasing
        }),
        ({
            let job = save_job(profile, password, source, changes, cursor_id);
            job.profile == profile && job.password == password && job.table == source.table
                && job.batch == Some((source, changes)) && !job.committed && job.cursor_id
                == cursor_id && job.phase is Releasing
        }),
{
}

} // verus!
