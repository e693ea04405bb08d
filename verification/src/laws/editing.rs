//! Staged rows hold what was typed, and a batch holds what was staged.
use vstd::prelude::*;
use vstd::string::*;

use crate::app::row_detail::RowDetailView;
use crate::app::table_edits::TableEditsView;
use crate::app::workspace::OverlayView;
use crate::app::{AppView, EffectView};
use crate::db::changes::{RowChangeView, RowView};
use crate::db::{RequestView, TableResultSourceView};
use crate::selection::{selected, selected_ascends};
use crate::text::joined;

verus! {

/// Whether an app behind a step has handed out one more operation, with this request, and waits for it.
pub open spec fn hands_out(before: AppView, after: AppView, request: RequestView) -> bool {
    &&& after.effects == before.effects.push(
        EffectView::Spawn { operation_id: before.next_operation_id, request },
    )
    &&& after.workspace.database_task == Some(
        crate::db::Task { operation_id: before.next_operation_id },
    )
    &&& after.workspace.busy is Some && !after.workspace.status_is_error
}

/// Staging puts the typed values into their own row and into no other, with the default marks of a new row.
/// The rows that were loaded are remembered as they were.
pub proof fn staging_changes_one_row(app: AppView, form: RowDetailView, next: AppView)
    requires
        app.valid(),
        app.row_staged(form) == Ok::<AppView, Seq<char>>(next),
    ensures
        ({
            let before = app.workspace;
            let after = next.workspace;
            let row = form.row_index as int;
            &&& row < before.result.rows.len() && after.result.rows.len() == before.result.rows.len()
            &&& after.result.rows[row] == form.values
            &&& forall|other: int|
                0 <= other < before.result.rows.len() && other != row
                    ==> #[trigger] after.result.rows[other] == before.result.rows[other]
            &&& after.result.columns == before.result.columns && after.result.source
                == before.result.source && after.result.page == before.result.page
            &&& after.edits.deleted == before.edits.deleted && after.edits.uncertain
                == before.edits.uncertain
            &&& after.edits.original == Some(
                match before.edits.original {
                    Some(rows) => rows,
                    None => before.result.rows,
                },
            )
            &&& after.edits.new_defaults.len() == before.edits.new_defaults.len()
            &&& forall|index: int|
                0 <= index < before.edits.new_defaults.len() ==> (
                #[trigger] after.edits.new_defaults[index]) == (if before.edits.original is Some
                    && before.edits.original->Some_0.len() + index == row {
                    form.defaults
                } else {
                    before.edits.new_defaults[index]
                })
        }),
{
    reveal(AppView::row_staged);
}

/// A row is staged only while it is as it was opened, not marked for deletion, and nothing runs. An existing
/// row needs a key, and only its editable columns may differ; a new row may set only what the server does not
/// generate.
pub proof fn staging_respects_the_columns(app: AppView, form: RowDetailView, c: int)
    requires
        app.row_staged(form) is Ok,
        form.source is Some,
        0 <= c < form.source->Some_0.columns.len(),
        app.workspace.result.rows[form.row_index as int].len() == form.source->Some_0.columns.len(),
    ensures
        ({
            let columns = form.source->Some_0.columns;
            let is_new = app.workspace.edits.original is Some && form.row_index
                >= app.workspace.edits.original->Some_0.len() && form.row_index
                < app.workspace.edits.original->Some_0.len()
                + app.workspace.edits.new_defaults.len();
            &&& app.workspace.database_task is None && !app.workspace.edits.uncertain
            &&& app.workspace.result.source == form.source
            &&& app.workspace.result.rows[form.row_index as int] == form.original
            &&& !app.workspace.edits.deleted.contains(form.row_index)
            &&& form.values.len() == columns.len() && form.defaults.len() == columns.len()
            &&& is_new && !columns[c].insertable ==> form.defaults[c]
            &&& !is_new && !columns[c].editable ==> form.values[c] == form.original[c]
            &&& !is_new ==> exists|k: int|
                0 <= k < columns.len() && (#[trigger] columns[k]).primary_key
        }),
{
    reveal(AppView::row_staged);
    let columns = form.source->Some_0.columns;
    let is_new = app.workspace.edits.defaults(form.row_index as int) is Some;
    lemma_nothing_forbidden(form, columns, is_new, columns.len() as int);
    assert(!crate::app::row_edits::sets_forbidden(form, columns, is_new, c));
}

proof fn lemma_nothing_forbidden(
    form: RowDetailView,
    columns: Seq<crate::db::ResultColumnView>,
    is_new: bool,
    count: int,
)
    requires
        0 <= count <= columns.len(),
        forall|i: int| !crate::app::row_edits::forbidden_column(form, columns, is_new, i),
    ensures
        forall|i: int|
            0 <= i < count ==> !#[trigger] crate::app::row_edits::sets_forbidden(
                form,
                columns,
                is_new,
                i,
            ),
    decreases count,
{
    if count > 0 {
        lemma_nothing_forbidden(form, columns, is_new, count - 1);
        assert(!crate::app::row_edits::forbidden_column(form, columns, is_new, count - 1));
    }
}

/// A new row comes behind all others, one cell per column, every cell at its default. It is selected and
/// opened as a new row.
pub proof fn new_rows_start_at_their_defaults(app: AppView, next: AppView)
    requires
        app.valid(),
        app.workspace.result.rows.len() < usize::MAX,
        app.row_added() == Ok::<AppView, Seq<char>>(next),
    ensures
        ({
            let rows = app.workspace.result.rows;
            let width = app.workspace.result.source->Some_0.columns.len();
            let after = next.workspace;
            &&& after.result.rows.len() == rows.len() + 1
            &&& forall|row: int|
                0 <= row < rows.len() ==> #[trigger] after.result.rows[row] == rows[row]
            &&& after.result.rows.last().len() == width && after.edits.new_defaults.last().len()
                == width
            &&& forall|c: int|
                0 <= c < width ==> after.result.rows.last()[c] is None
                    && #[trigger] after.edits.new_defaults.last()[c]
            &&& after.result_row == rows.len()
            &&& after.edits.new_defaults.len() == app.workspace.edits.new_defaults.len() + 1
            &&& after.edits.deleted == app.workspace.edits.deleted
            &&& after.overlay matches Some(OverlayView::RowDetail(form)) && form.is_new
                && form.row_index == rows.len() && form.defaults == after.edits.new_defaults.last()
                && form.values == after.result.rows.last() && form.source
                == app.workspace.result.source
        }),
{
    reveal(AppView::row_added);
    reveal(AppView::row_opened);
}

/// Deleting marks the selected loaded row, or removes the selected new row; no other row is touched.
pub proof fn deleting_touches_the_selected_row(app: AppView, next: AppView)
    requires
        app.valid(),
        app.row_deleted() == Ok::<AppView, Seq<char>>(next),
    ensures
        ({
            let rows = app.workspace.result.rows;
            let row = app.workspace.result_row;
            let is_new = app.workspace.edits.original is Some && row
                >= app.workspace.edits.original->Some_0.len();
            let after = next.workspace;
            &&& row < rows.len()
            &&& !is_new ==> after.result.rows == rows && after.result_row == row
                && after.edits.new_defaults == app.workspace.edits.new_defaults && forall|
                other: usize,
            |
                #[trigger] after.edits.deleted.contains(other) <==> (if other == row {
                    !app.workspace.edits.deleted.contains(row)
                } else {
                    app.workspace.edits.deleted.contains(other)
                })
            &&& is_new ==> after.result.rows.len() == rows.len() - 1 && after.edits.deleted
                == app.workspace.edits.deleted && (forall|other: int|
                0 <= other < rows.len() - 1 ==> (#[trigger] after.result.rows[other]) == (if other
                    < row {
                    rows[other]
                } else {
                    rows[other + 1]
                })) && after.edits.new_defaults.len() == app.workspace.edits.new_defaults.len() - 1
        }),
{
    reveal(AppView::row_deleted);
}

/// Every loaded row that is marked becomes a deletion of what was loaded, every other loaded row that differs
/// an update from what was loaded to what is shown, and every new row an insertion of what is shown. The batch
/// holds nothing else.
pub proof fn batches_hold_what_was_staged(
    edits: TableEditsView,
    rows: Seq<RowView>,
    original: Seq<RowView>,
)
    requires
        edits.original == Some(original),
        edits.fits(rows),
        rows.len() <= usize::MAX,
    ensures
        forall|row: int|
            0 <= row < original.len() && edits.deleted.contains(row as usize)
                ==> edits.batch(rows).contains(
                RowChangeView::Delete { original: #[trigger] original[row] },
            ),
        forall|row: int|
            0 <= row < original.len() && !edits.deleted.contains(row as usize)
                && #[trigger] original[row] != rows[row] ==> edits.batch(rows).contains(
                RowChangeView::Update { original: original[row], values: rows[row] },
            ),
        forall|index: int|
            0 <= index < edits.new_defaults.len() ==> edits.batch(rows).contains(
                RowChangeView::Insert {
                    values: rows[original.len() + index],
                    defaults: #[trigger] edits.new_defaults[index],
                },
            ),
        forall|k: int|
            0 <= k < edits.batch(rows).len() ==> staged_change(
                edits,
                rows,
                original,
                #[trigger] edits.batch(rows)[k],
            ),
{
    let deletes = |row: int| edits.deletes(row);
    let differs = |row: int| !edits.deletes(row) && edits.differs(rows, row);
    let gone = selected(original.len(), deletes);
    let changed = selected(original.len(), differs);
    selected_ascends(original.len(), deletes);
    selected_ascends(original.len(), differs);
    let deletions = edits.deletions(rows);
    let updates = edits.updates(rows);
    let insertions = edits.insertions(rows);
    let batch = edits.batch(rows);
    assert forall|row: int|
        0 <= row < original.len() && edits.deleted.contains(row as usize) implies batch.contains(
        RowChangeView::Delete { original: #[trigger] original[row] },
    ) by {
        assert(deletes(row));
        let k = choose|k: int| 0 <= k < gone.len() && gone[k] == row;
        assert(gone.contains(row));
        assert(deletions[k] == batch[k]);
    }
    assert forall|row: int|
        0 <= row < original.len() && !edits.deleted.contains(row as usize)
            && #[trigger] original[row] != rows[row] implies batch.contains(
        RowChangeView::Update { original: original[row], values: rows[row] },
    ) by {
        assert(differs(row));
        assert(changed.contains(row));
        let k = choose|k: int| 0 <= k < changed.len() && changed[k] == row;
        assert(updates[k] == batch[deletions.len() + k]);
    }
    assert forall|index: int| 0 <= index < edits.new_defaults.len() implies batch.contains(
        RowChangeView::Insert {
            values: rows[original.len() + index],
            defaults: #[trigger] edits.new_defaults[index],
        },
    ) by {
        assert(insertions[index] == batch[deletions.len() + updates.len() + index]);
    }
    assert forall|k: int| 0 <= k < batch.len() implies staged_change(
        edits,
        rows,
        original,
        #[trigger] batch[k],
    ) by {
        if k < deletions.len() {
            assert(batch[k] == deletions[k]);
            assert(deletes(gone[k]));
        } else if k < deletions.len() + updates.len() {
            assert(batch[k] == updates[k - deletions.len()]);
            assert(differs(changed[k - deletions.len()]));
        } else {
            assert(batch[k] == insertions[k - deletions.len() - updates.len()]);
        }
    }
}

/// Whether a change is one of those that are staged.
pub open spec fn staged_change(
    edits: TableEditsView,
    rows: Seq<RowView>,
    original: Seq<RowView>,
    change: RowChangeView,
) -> bool {
    match change {
        RowChangeView::Delete { original: loaded } => exists|row: int|
            0 <= row < original.len() && edits.deleted.contains(row as usize)
                && #[trigger] original[row] == loaded,
        RowChangeView::Update { original: loaded, values } => exists|row: int|
            0 <= row < original.len() && !edits.deleted.contains(row as usize)
                && #[trigger] original[row] == loaded && rows[row] == values && loaded != values,
        RowChangeView::Insert { values, defaults } => exists|index: int|
            0 <= index < edits.new_defaults.len() && #[trigger] edits.new_defaults[index] == defaults
                && rows[original.len() + index] == values,
    }
}

/// Saving hands out the staged batch for the very source that is shown, with the profile of its table and that
/// profile's password.
pub proof fn saving_sends_the_staged_batch(app: AppView, next: AppView)
    requires
        app.changes_saved() == Ok::<AppView, Seq<char>>(next),
    ensures
        app.workspace.result.source matches Some(source) && app.profile(
            source.table.profile_id,
        ) matches Some(profile) && hands_out(
            app,
            next,
            RequestView::SaveChanges {
                profile,
                password: profile.password,
                source,
                changes: app.workspace.edits.batch(app.workspace.result.rows),
            },
        ),
        app.workspace.edits.batch(app.workspace.result.rows).len() > 0,
        next.workspace.result.rows == app.workspace.result.rows && next.workspace.edits
            == app.workspace.edits,
{
    reveal(AppView::changes_saved);
}

/// Discarding shows the rows that were loaded, forgets every mark, and keeps an unknown outcome unknown.
pub proof fn discarding_shows_what_was_loaded(app: AppView)
    requires
        app.workspace.database_task is None,
    ensures
        ({
            let after = app.changes_discarded().workspace;
            &&& after.result.rows == (match app.workspace.edits.original {
                Some(rows) => rows,
                None => app.workspace.result.rows,
            })
            &&& after.result.columns == app.workspace.result.columns && after.result.source
                == app.workspace.result.source
            &&& after.edits.original is None && after.edits.new_defaults.len() == 0 && forall|
                row: usize,
            |
                !after.edits.deleted.contains(row)
            &&& after.edits.uncertain == app.workspace.edits.uncertain
        }),
{
    reveal(AppView::changes_discarded);
}

/// A refresh loads again what is shown: the query that gave the rows, in the database it ran in, or the table
/// of the rows.
pub proof fn refreshing_loads_the_same_rows(app: AppView, next: AppView)
    requires
        app.refreshed(true) == Ok::<AppView, Seq<char>>(next),
    ensures
        match app.workspace.refresh_query {
            Some((table, sql)) => app.profile(table.profile_id) matches Some(profile) && hands_out(
                app,
                next,
                RequestView::Query { profile, database: table.database, sql },
            ),
            None => {
                let table = match app.workspace.result.source {
                    Some(source) => source.table,
                    None => app.workspace.refresh_table->Some_0,
                };
                app.profile(table.profile_id) matches Some(profile) && hands_out(
                    app,
                    next,
                    RequestView::Preview { profile, password: profile.password, table },
                )
            },
        },
{
    reveal(AppView::refreshed);
}

/// The row editor opens the selected row as it is shown, with its source, and as a new row only where it is
/// one. It is frozen while it must not change.
pub proof fn rows_open_as_they_are_shown(app: AppView)
    requires
        app.valid(),
    ensures
        app.workspace.result_row < app.workspace.result.rows.len() ==> (
        app.row_opened().workspace.overlay matches Some(OverlayView::RowDetail(form)) && {
            let row = app.workspace.result_row as int;
            &&& form.row_index == row && form.columns == app.workspace.result.columns
            &&& form.values == app.workspace.result.rows[row] && form.original
                == app.workspace.result.rows[row]
            &&& form.source == app.workspace.result.source
            &&& form.is_new == (app.workspace.edits.original is Some && row
                >= app.workspace.edits.original->Some_0.len())
            &&& !form.is_new ==> forall|c: int|
                0 <= c < form.values.len() ==> !#[trigger] form.defaults[c]
            &&& form.is_new ==> form.defaults == app.workspace.edits.new_defaults[row
                - app.workspace.edits.original->Some_0.len()]
            &&& app.workspace.database_task is Some || app.workspace.edits.uncertain
                || app.workspace.edits.deleted.contains(row as usize) ==> form.read_only
            &&& form.selected == 0 && !form.editing
        }),
        app.row_opened().workspace.result == app.workspace.result,
        app.row_opened().effects == app.effects,
{
    reveal(AppView::row_opened);
}

/// Editing, NULL and DEFAULT change the selected field and no other.
pub proof fn fields_change_one_by_one(form: RowDetailView, other: int)
    requires
        form.has_field(),
        0 <= other < form.values.len(),
        0 <= other < form.defaults.len(),
        other != form.selected,
    ensures
        form.edited().values[other] == form.values[other] && form.edited().defaults[other]
            == form.defaults[other],
        form.finished().values[other] == form.values[other] && form.finished().defaults
            == form.defaults,
        form.null_toggled().values[other] == form.values[other]
            && form.null_toggled().defaults[other] == form.defaults[other],
        form.defaulted().values[other] == form.values[other] && form.defaulted().defaults[other]
            == form.defaults[other],
        form.edited().original == form.original && form.finished().original == form.original
            && form.null_toggled().original == form.original && form.defaulted().original
            == form.original,
{
}

/// A finished edit holds the text of the editor, a switched field NULL or the empty text, a reset field its
/// default. What the selected field becomes is never what another field is.
pub proof fn fields_become_what_was_asked(form: RowDetailView)
    requires
        form.has_field(),
    ensures
        ({
            let at = form.selected as int;
            &&& form.editing && form.values[at] is Some ==> form.finished().values[at] == Some(
                joined(form.editor.lines, "\n"@),
            )
            &&& !form.editing ==> form.finished().values == form.values
            &&& form.field_editable() ==> form.null_toggled().values[at] == (if form.defaults[at]
                || form.values[at] is Some {
                None
            } else {
                Some(Seq::<char>::empty())
            }) && !form.null_toggled().defaults[at]
            &&& !form.field_editable() ==> form.null_toggled() == form && form.edited() == form
            &&& form.defaulted().values[at] is None && form.defaulted().defaults[at]
            &&& form.field_editable() ==> form.edited().editing && !form.edited().defaults[at]
                && form.edited().values[at] is Some && (form.values[at] is Some
                ==> form.edited().values[at] == form.values[at])
        }),
{
}

/// A field can be edited exactly in an unfrozen row of a table: an existing row needs a key and an editable
/// column, a new row an insertable column.
pub proof fn editable_fields_are_those_of_the_table(
    form: RowDetailView,
    source: TableResultSourceView,
)
    requires
        form.source == Some(source),
        form.selected < source.columns.len(),
    ensures
        form.field_editable() <==> {
            &&& !form.read_only && form.read_only_reason is None
            &&& source.table.kind == "table"@ || source.table.kind == "partitioned table"@
            &&& if form.is_new {
                source.columns[form.selected as int].insertable
            } else {
                source.columns[form.selected as int].editable && exists|k: int|
                    0 <= k < source.columns.len() && (#[trigger] source.columns[k]).primary_key
            }
        },
{
}

} // verus!
