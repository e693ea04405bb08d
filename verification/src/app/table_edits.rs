//! Pending table edits stay local to their source workspace until an explicit batch save.
use std::collections::BTreeSet;
use vstd::prelude::*;

use crate::db::changes::{RowChange, RowChangeView, RowView};
use crate::db::{QueryResult, QueryResultView};
use crate::selection::{positions, selected, selected_ascends};
use crate::value::Value;

verus! {

broadcast use vstd::std_specs::btree::group_btree_axioms;

/// Staged changes of a result. Original rows support exact discard and optimistic concurrency checks; new
/// rows follow them.
pub struct TableEdits {
    /// The rows as they were loaded; none before the first local change.
    pub original: Option<Vec<Vec<Option<String>>>>,
    /// For each new row, which of its cells keep their default.
    pub new_defaults: Vec<Vec<bool>>,
    /// The original rows that are marked for deletion.
    pub deleted: BTreeSet<usize>,
    /// Whether the outcome of a save is unknown.
    pub uncertain: bool,
}

/// What `TableEdits` denote.
pub ghost struct TableEditsView {
    pub original: Option<Seq<RowView>>,
    pub new_defaults: Seq<Seq<bool>>,
    pub deleted: Set<usize>,
    pub uncertain: bool,
}

impl DeepView for TableEdits {
    type V = TableEditsView;

    open spec fn deep_view(&self) -> TableEditsView {
        TableEditsView {
            original: self.original.deep_view(),
            new_defaults: self.new_defaults.deep_view(),
            deleted: self.deleted@,
            uncertain: self.uncertain,
        }
    }
}

impl View for TableEdits {
    type V = TableEditsView;

    open spec fn view(&self) -> TableEditsView {
        self.deep_view()
    }
}

/// No edits.
pub open spec fn no_edits() -> TableEditsView {
    TableEditsView {
        original: None,
        new_defaults: Seq::empty(),
        deleted: Set::empty(),
        uncertain: false,
    }
}

impl Default for TableEdits {
    fn default() -> (edits: TableEdits)
        ensures
            edits@ == no_edits(),
    {
        let edits = TableEdits {
            original: None,
            new_defaults: Vec::new(),
            deleted: BTreeSet::new(),
            uncertain: false,
        };
        assert(edits@.new_defaults =~= Seq::empty());
        assert(edits@.deleted =~= Set::empty());
        edits
    }
}

impl TableEditsView {
    /// Whether the edits belong to rows: the original rows come first, new rows behind them, and only
    /// original rows are deleted.
    pub open spec fn fits(self, rows: Seq<RowView>) -> bool {
        match self.original {
            Some(original) => original.len() + self.new_defaults.len() == rows.len() && forall|
                row: usize,
            | #[trigger]
                self.deleted.contains(row) ==> row < original.len(),
            None => self.new_defaults.len() == 0 && self.deleted == Set::<usize>::empty(),
        }
    }

    /// The edits, with the rows remembered as they are now unless they already were.
    pub open spec fn begun(self, rows: Seq<RowView>) -> TableEditsView {
        TableEditsView {
            original: if self.original is Some {
                self.original
            } else {
                Some(rows)
            },
            ..self
        }
    }

    /// The rows as they were loaded.
    pub open spec fn loaded(self, rows: Seq<RowView>) -> Seq<RowView> {
        match self.original {
            Some(original) => original,
            None => rows,
        }
    }

    /// Which cells of a new row keep their default; none for an original row.
    pub open spec fn defaults(self, row: int) -> Option<Seq<bool>> {
        match self.original {
            Some(original) => if 0 <= row - original.len() < self.new_defaults.len() {
                Some(self.new_defaults[row - original.len()])
            } else {
                None
            },
            None => None,
        }
    }

    /// Whether the values of an original row differ from those that were loaded.
    pub open spec fn differs(self, rows: Seq<RowView>, row: int) -> bool {
        !(row < rows.len() && rows[row] == self.loaded(rows)[row])
    }

    /// Whether an original row is marked for deletion.
    pub open spec fn deletes(self, row: int) -> bool {
        0 <= row <= usize::MAX && self.deleted.contains(row as usize)
    }

    /// The original rows that were changed or deleted.
    pub open spec fn touched(self, rows: Seq<RowView>) -> Seq<int> {
        if self.original is None {
            Seq::empty()
        } else {
            selected(
                self.loaded(rows).len(),
                |row: int| self.deletes(row) || self.differs(rows, row),
            )
        }
    }

    /// The number of changed, deleted and new rows: rows rather than cells, as in batch validation.
    pub open spec fn count(self, rows: Seq<RowView>) -> nat {
        self.touched(rows).len() + self.new_defaults.len()
    }

    /// Whether the count can be represented: always for edits that fit their rows.
    pub open spec fn countable(self, rows: Seq<RowView>) -> bool {
        self.fits(rows) || self.count(rows) <= usize::MAX
    }

    /// Whether a cell of an original row differs from the one that was loaded.
    pub open spec fn changes_cell(self, rows: Seq<RowView>, row: int, column: int) -> bool {
        match self.original {
            Some(original) => 0 <= row < original.len() && cell(original, row, column) != cell(
                rows,
                row,
                column,
            ),
            None => false,
        }
    }

    /// The deletions, in row order.
    pub open spec fn deletions(self, rows: Seq<RowView>) -> Seq<RowChangeView> {
        selected(self.loaded(rows).len(), |row: int| self.deletes(row)).map_values(
            |row: int| RowChangeView::Delete { original: self.loaded(rows)[row] },
        )
    }

    /// The updates, in row order; deleted rows have none.
    pub open spec fn updates(self, rows: Seq<RowView>) -> Seq<RowChangeView> {
        selected(
            self.loaded(rows).len(),
            |row: int| !self.deletes(row) && self.differs(rows, row),
        ).map_values(
            |row: int|
                RowChangeView::Update { original: self.loaded(rows)[row], values: rows[row] },
        )
    }

    /// The insertions, in row order.
    pub open spec fn insertions(self, rows: Seq<RowView>) -> Seq<RowChangeView> {
        Seq::new(
            self.new_defaults.len(),
            |index: int|
                RowChangeView::Insert {
                    values: rows[self.loaded(rows).len() + index],
                    defaults: self.new_defaults[index],
                },
        )
    }

    /// The whole batch. Deletions come before insertions, which permits replacing a key.
    pub open spec fn batch(self, rows: Seq<RowView>) -> Seq<RowChangeView> {
        if self.original is None {
            Seq::empty()
        } else {
            self.deletions(rows) + self.updates(rows) + self.insertions(rows)
        }
    }

    /// The edits without any local change. An unknown save outcome stays unknown.
    pub open spec fn discarded(self) -> TableEditsView {
        TableEditsView {
            original: None,
            new_defaults: Seq::empty(),
            deleted: Set::empty(),
            uncertain: self.uncertain,
        }
    }

    /// The edits behind a further page of original rows.
    pub open spec fn paged(self, page: Seq<RowView>) -> TableEditsView {
        TableEditsView {
            original: match self.original {
                Some(original) => Some(original + page),
                None => None,
            },
            ..self
        }
    }

    /// Whether something is staged, or a save outcome is unknown.
    pub open spec fn pending(self, rows: Seq<RowView>) -> bool {
        self.count(rows) > 0 || self.uncertain
    }
}

/// A cell of some rows; none outside of them.
pub open spec fn cell(rows: Seq<RowView>, row: int, column: int) -> Option<Option<Seq<char>>> {
    if 0 <= row < rows.len() && 0 <= column < rows[row].len() {
        Some(rows[row][column])
    } else {
        None
    }
}

/// Rows with a further page between the original and the new ones.
pub open spec fn paged_rows(
    edits: TableEditsView,
    rows: Seq<RowView>,
    page: Seq<RowView>,
) -> Seq<RowView> {
    let boundary = edits.loaded(rows).len() as int;
    rows.take(boundary) + page + rows.skip(boundary)
}

/// The selected row behind a further page: a selected new row moves down with the new rows.
pub open spec fn paged_selection(edits: TableEditsView, selected: int, page: nat) -> int {
    if edits.original is Some && selected >= edits.original->Some_0.len()
        && edits.new_defaults.len() > 0 {
        selected + page
    } else {
        selected
    }
}

impl TableEdits {
    /// Puts a further page behind the original rows, so that row positions and discard remain correct.
    pub fn append_page(
        &mut self,
        result: &mut QueryResult,
        rows: Vec<Vec<Option<String>>>,
        selected: &mut usize,
    )
        requires
            old(self)@.fits(old(result)@.rows),
            *old(selected) <= old(result)@.rows.len(),
        ensures
            final(self)@ == old(self)@.paged(rows.deep_view()),
            final(result)@ == (QueryResultView {
                rows: paged_rows(old(self)@, old(result)@.rows, rows.deep_view()),
                ..old(result)@
            }),
            *final(selected) == paged_selection(
                old(self)@,
                *old(selected) as int,
                rows.deep_view().len(),
            ),
            final(self)@.fits(final(result)@.rows),
            *final(selected) <= final(result)@.rows.len(),
    {
        let ghost before = result@.rows;
        let ghost edits = self@;
        let ghost page = rows.deep_view();
        let count: usize = rows.len();
        let mut rows = rows;
        match &mut self.original {
            Some(original) => {
                let boundary: usize = original.len();
                let ghost loaded = original.deep_view();
                let mut copies = rows.duplicate();
                original.append(&mut copies);
                assert(original.deep_view() =~= loaded + page);
                let mut drafts = result.rows.split_off(boundary);
                let ghost front = result.rows.deep_view();
                let ghost tail = drafts.deep_view();
                assert(front =~= before.take(boundary as int));
                assert(tail =~= before.skip(boundary as int));
                result.rows.append(&mut rows);
                assert(result.rows.deep_view() =~= front + page);
                result.rows.append(&mut drafts);
                assert(result.rows.deep_view() =~= front + page + tail);
                let total: usize = result.rows.len();
                assert(total == before.len() + page.len());
                if *selected >= boundary && self.new_defaults.len() > 0 {
                    *selected = *selected + count;
                }
            },
            None => {
                result.rows.append(&mut rows);
                assert(result.rows.deep_view() =~= before + page);
                assert(paged_rows(edits, before, page) =~= before + page);
            },
        }
        assert(self@.deleted =~= edits.deleted);
    }

    /// Remembers the rows before the first local change.
    pub fn begin(&mut self, result: &QueryResult)
        ensures
            final(self)@ == old(self)@.begun(result@.rows),
    {
        if self.original.is_none() {
            self.original = Some(result.rows.duplicate());
        }
    }

    /// Which cells of a new row keep their default; none for an original row.
    pub fn defaults(&self, row: usize) -> (defaults: Option<&Vec<bool>>)
        ensures
            match defaults {
                Some(defaults) => self@.defaults(row as int) == Some(defaults@),
                None => self@.defaults(row as int) is None,
            },
    {
        match &self.original {
            Some(original) => {
                if row >= original.len() && row - original.len() < self.new_defaults.len() {
                    let defaults = &self.new_defaults[row - original.len()];
                    assert(defaults.deep_view() =~= defaults@);
                    Some(defaults)
                } else {
                    None
                }
            },
            None => None,
        }
    }

    fn row_differs(
        &self,
        original: &Vec<Vec<Option<String>>>,
        result: &QueryResult,
        row: usize,
    ) -> (differs: bool)
        requires
            row < original@.len(),
            self@.original == Some(original.deep_view()),
        ensures
            differs == self@.differs(result@.rows, row as int),
    {
        if row < result.rows.len() {
            assert(result@.rows[row as int] == result.rows@[row as int].deep_view());
            !result.rows[row].same(&original[row])
        } else {
            true
        }
    }

    /// The number of changed, deleted and new rows.
    pub fn count(&self, result: &QueryResult) -> (count: usize)
        requires
            self@.countable(result@.rows),
        ensures
            count == self@.count(result@.rows),
    {
        let ghost rows = result@.rows;
        let ghost is_touched = |row: int| self@.deletes(row) || self@.differs(rows, row);
        let total: usize = result.rows.len();
        assert(rows.len() == total);
        match &self.original {
            None => {
                assert(self@.new_defaults.len() == self.new_defaults@.len());
                self.new_defaults.len()
            },
            Some(original) => {
                let mut count: usize = 0;
                let mut row: usize = 0;
                while row < original.len()
                    invariant
                        row <= original@.len(),
                        count <= row,
                        rows == result@.rows,
                        self@.original == Some(original.deep_view()),
                        is_touched == (|row: int|
                            self@.deletes(row) || self@.differs(rows, row)),
                        count == selected(row as nat, is_touched).len(),
                    decreases original@.len() - row,
                {
                    if self.deleted.contains(&row) || self.row_differs(original, result, row) {
                        count += 1;
                    }
                    row += 1;
                }
                assert(original.deep_view().len() == original@.len());
                assert(self@.new_defaults.len() == self.new_defaults@.len());
                count + self.new_defaults.len()
            },
        }
    }

    /// Whether a cell of an original row differs from the one that was loaded. The marks of insertion and
    /// deletion take precedence over this one.
    pub fn cell_changed(&self, result: &QueryResult, row: usize, column: usize) -> (changed: bool)
        ensures
            changed == self@.changes_cell(result@.rows, row as int, column as int),
    {
        match &self.original {
            Some(original) => {
                if row >= original.len() {
                    return false;
                }
                let before = &original[row];
                let ghost loaded = original.deep_view();
                assert(loaded[row as int] == before.deep_view());
                if row >= result.rows.len() {
                    return column < before.len();
                }
                let after = &result.rows[row];
                assert(result@.rows[row as int] == after.deep_view());
                if column >= before.len() || column >= after.len() {
                    return (column < before.len()) != (column < after.len());
                }
                !before[column].same(&after[column])
            },
            None => false,
        }
    }

    fn push_deletions(
        &self,
        original: &Vec<Vec<Option<String>>>,
        changes: &mut Vec<RowChange>,
        Ghost(rows): Ghost<Seq<RowView>>,
    )
        requires
            self@.original == Some(original.deep_view()),
        ensures
            final(changes).deep_view() == old(changes).deep_view() + self@.deletions(rows),
    {
        let ghost before = changes.deep_view();
        let ghost loaded = original.deep_view();
        let ghost is_deleted = |row: int| self@.deletes(row);
        let ghost as_change = |row: int| RowChangeView::Delete { original: loaded[row] };
        let mut row: usize = 0;
        while row < original.len()
            invariant
                row <= original@.len(),
                loaded == original.deep_view(),
                self@.original == Some(loaded),
                is_deleted == (|row: int| self@.deletes(row)),
                as_change == (|row: int| RowChangeView::Delete { original: loaded[row] }),
                changes.deep_view() =~= before + selected(row as nat, is_deleted).map_values(
                    as_change,
                ),
            decreases original@.len() - row,
        {
            let ghost so_far = changes.deep_view();
            if self.deleted.contains(&row) {
                let change = RowChange::Delete { original: original[row].duplicate() };
                assert(change@ == as_change(row as int));
                changes.push(change);
                proof {
                    assert(changes.deep_view() =~= so_far.push(change@));
                    assert(is_deleted(row as int));
                    assert(selected((row + 1) as nat, is_deleted).map_values(as_change)
                        =~= selected(row as nat, is_deleted).map_values(as_change).push(change@));
                }
            }
            row += 1;
        }
        assert(self@.deletions(rows) =~= selected(loaded.len(), is_deleted).map_values(as_change));
    }

    fn push_updates(
        &self,
        original: &Vec<Vec<Option<String>>>,
        result: &QueryResult,
        changes: &mut Vec<RowChange>,
    )
        requires
            self@.original == Some(original.deep_view()),
            self@.fits(result@.rows),
        ensures
            final(changes).deep_view() == old(changes).deep_view() + self@.updates(result@.rows),
    {
        let ghost before = changes.deep_view();
        let ghost rows = result@.rows;
        let ghost loaded = original.deep_view();
        let ghost is_update = |row: int| !self@.deletes(row) && self@.differs(rows, row);
        let ghost as_change = |row: int|
            RowChangeView::Update { original: loaded[row], values: rows[row] };
        assert(rows.len() == result.rows@.len());
        assert(loaded.len() == original@.len());
        let mut row: usize = 0;
        while row < original.len()
            invariant
                row <= original@.len(),
                rows == result@.rows,
                original@.len() <= result.rows@.len(),
                loaded == original.deep_view(),
                self@.original == Some(loaded),
                is_update == (|row: int| !self@.deletes(row) && self@.differs(rows, row)),
                as_change == (|row: int|
                    RowChangeView::Update { original: loaded[row], values: rows[row] }),
                changes.deep_view() =~= before + selected(row as nat, is_update).map_values(
                    as_change,
                ),
            decreases original@.len() - row,
        {
            let ghost so_far = changes.deep_view();
            if !self.deleted.contains(&row) && self.row_differs(original, result, row) {
                let change = RowChange::Update {
                    original: original[row].duplicate(),
                    values: result.rows[row].duplicate(),
                };
                assert(change@ == as_change(row as int));
                changes.push(change);
                proof {
                    assert(changes.deep_view() =~= so_far.push(change@));
                    assert(is_update(row as int));
                    assert(selected((row + 1) as nat, is_update).map_values(as_change)
                        =~= selected(row as nat, is_update).map_values(as_change).push(change@));
                }
            }
            row += 1;
        }
        assert(self@.updates(rows) =~= selected(loaded.len(), is_update).map_values(as_change));
    }

    /// The whole batch.
    pub fn changes(&self, result: &QueryResult) -> (changes: Vec<RowChange>)
        requires
            self@.fits(result@.rows),
        ensures
            changes.deep_view() == self@.batch(result@.rows),
    {
        let ghost rows = result@.rows;
        let mut changes: Vec<RowChange> = Vec::new();
        assert(changes.deep_view() =~= Seq::empty());
        match &self.original {
            None => changes,
            Some(original) => {
                self.push_deletions(original, &mut changes, Ghost(rows));
                self.push_updates(original, result, &mut changes);
                let ghost existing = changes.deep_view();
                let count: usize = original.len();
                assert(rows.len() == result.rows@.len());
                assert(original.deep_view().len() == count);
                assert(self@.new_defaults.len() == self.new_defaults@.len());
                let total: usize = result.rows.len();
                let mut index: usize = 0;
                while index < self.new_defaults.len()
                    invariant
                        index <= self.new_defaults@.len(),
                        rows == result@.rows,
                        count + self.new_defaults@.len() == result.rows@.len(),
                        total == result.rows@.len(),
                        count == self@.loaded(rows).len(),
                        changes.deep_view() =~= existing + self@.insertions(rows).take(
                            index as int,
                        ),
                    decreases self.new_defaults@.len() - index,
                {
                    let ghost so_far = changes.deep_view();
                    let change = RowChange::Insert {
                        values: result.rows[count + index].duplicate(),
                        defaults: self.new_defaults[index].duplicate(),
                    };
                    assert(change@ == self@.insertions(rows)[index as int]);
                    changes.push(change);
                    assert(changes.deep_view() =~= so_far.push(change@));
                    index += 1;
                }
                assert(changes.deep_view() =~= self@.batch(rows));
                changes
            },
        }
    }

    /// Restores the loaded rows exactly. An unknown save outcome cannot be resolved this way.
    pub fn discard(&mut self, result: &mut QueryResult)
        ensures
            final(self)@ == old(self)@.discarded(),
            final(result)@ == (QueryResultView {
                rows: old(self)@.loaded(old(result)@.rows),
                ..old(result)@
            }),
    {
        let mut original: Option<Vec<Vec<Option<String>>>> = None;
        std::mem::swap(&mut original, &mut self.original);
        match original {
            Some(rows) => {
                result.rows = rows;
            },
            None => {},
        }
        self.new_defaults = Vec::new();
        self.deleted = BTreeSet::new();
        assert(self@.new_defaults =~= Seq::empty());
        assert(self@.deleted =~= Set::empty());
    }
}

/// Discarding behind any number of further pages keeps every loaded row: those from before the first edit
/// and those that came later.
pub proof fn discard_keeps_later_pages(
    edits: TableEditsView,
    rows: Seq<RowView>,
    page: Seq<RowView>,
)
    requires
        edits.fits(rows),
    ensures
        edits.paged(page).fits(paged_rows(edits, rows, page)),
        edits.paged(page).loaded(paged_rows(edits, rows, page)) == edits.loaded(rows) + page,
{
    if edits.original is None {
        assert(paged_rows(edits, rows, page) =~= rows + page);
    }
}

/// A further page moves no change to another row: original rows keep their positions, and new rows keep
/// their order behind them.
pub proof fn pages_keep_changes(edits: TableEditsView, rows: Seq<RowView>, page: Seq<RowView>)
    requires
        edits.fits(rows),
        edits.original is Some,
    ensures
        edits.paged(page).insertions(paged_rows(edits, rows, page)) == edits.insertions(rows),
        forall|row: int|
            0 <= row < edits.loaded(rows).len() ==> paged_rows(edits, rows, page)[row]
                == #[trigger] rows[row],
        forall|row: int|
            edits.loaded(rows).len() <= row < edits.loaded(rows).len() + page.len()
                ==> !#[trigger] edits.paged(page).differs(paged_rows(edits, rows, page), row),
{
    let after = paged_rows(edits, rows, page);
    assert(edits.paged(page).insertions(after) =~= edits.insertions(rows));
}

/// Remembering the rows and discarding at once changes nothing.
pub proof fn discarding_fresh_edits_is_harmless(rows: Seq<RowView>)
    ensures
        no_edits().begun(rows).loaded(rows) == rows,
        no_edits().begun(rows).discarded() == no_edits(),
        no_edits().begun(rows).fits(rows),
        no_edits().begun(rows).count(rows) == 0,
{
    let edits = no_edits().begun(rows);
    let touched = |row: int| edits.deletes(row) || edits.differs(rows, row);
    selected_ascends(rows.len(), touched);
    if edits.touched(rows).len() > 0 {
        assert(touched(edits.touched(rows)[0]));
    }
}

/// Nothing is counted exactly when the rows are as they were loaded and no row is new or deleted.
pub proof fn nothing_counted_means_nothing_changed(edits: TableEditsView, rows: Seq<RowView>)
    requires
        edits.fits(rows),
        rows.len() <= usize::MAX,
    ensures
        edits.count(rows) == 0 <==> edits.new_defaults.len() == 0 && edits.deleted == Set::<
            usize,
        >::empty() && rows == edits.loaded(rows),
{
    let loaded = edits.loaded(rows);
    let touched = |row: int| edits.deletes(row) || edits.differs(rows, row);
    selected_ascends(loaded.len(), touched);
    if edits.count(rows) == 0 {
        assert forall|row: int| 0 <= row < loaded.len() implies rows[row] == loaded[row] by {
            if edits.differs(rows, row) {
                assert(touched(row));
                assert(edits.touched(rows).contains(row));
            }
        }
        assert(rows =~= loaded);
        assert forall|row: usize| !edits.deleted.contains(row) by {
            if edits.deleted.contains(row) {
                assert(touched(row as int));
                assert(edits.touched(rows).contains(row as int));
            }
        }
        assert(edits.deleted =~= Set::<usize>::empty());
    } else if edits.new_defaults.len() == 0 {
        let row = edits.touched(rows)[0];
        assert(touched(row));
    }
}

proof fn lemma_selected_split(count: nat, first: spec_fn(int) -> bool, second: spec_fn(int) -> bool)
    ensures
        selected(count, |i: int| first(i) || second(i)).len() == selected(count, first).len()
            + selected(count, |i: int| !first(i) && second(i)).len(),
    decreases count,
{
    if count > 0 {
        lemma_selected_split((count - 1) as nat, first, second);
    }
}

/// The batch holds one change for each counted row.
pub proof fn batches_hold_one_change_per_row(edits: TableEditsView, rows: Seq<RowView>)
    requires
        edits.fits(rows),
        edits.original is Some,
    ensures
        edits.batch(rows).len() == edits.count(rows),
{
    let count = edits.loaded(rows).len();
    let deletes = |row: int| edits.deletes(row);
    let differs = |row: int| edits.differs(rows, row);
    lemma_selected_split(count, deletes, differs);
    crate::selection::lemma_selected_agree(
        count,
        |row: int| edits.deletes(row) || edits.differs(rows, row),
        |row: int| deletes(row) || differs(row),
    );
    crate::selection::lemma_selected_agree(
        count,
        |row: int| !edits.deletes(row) && edits.differs(rows, row),
        |row: int| !deletes(row) && differs(row),
    );
    crate::selection::lemma_selected_agree(
        count,
        |row: int| edits.deletes(row),
        deletes,
    );
}

/// In a batch every deletion comes first and every insertion last, which permits replacing a key.
pub proof fn batches_delete_first_and_insert_last(
    edits: TableEditsView,
    rows: Seq<RowView>,
    earlier: int,
    later: int,
)
    requires
        0 <= earlier < later < edits.batch(rows).len(),
    ensures
        edits.batch(rows)[earlier] is Insert ==> edits.batch(rows)[later] is Insert,
        edits.batch(rows)[later] is Delete ==> edits.batch(rows)[earlier] is Delete,
{
    let deletions = edits.deletions(rows);
    let updates = edits.updates(rows);
    let insertions = edits.insertions(rows);
    let batch = edits.batch(rows);
    assert forall|i: int| 0 <= i < batch.len() implies (batch[i] is Delete <==> i
        < deletions.len()) && (batch[i] is Insert <==> i >= deletions.len() + updates.len()) by {
        if i < deletions.len() {
            assert(batch[i] == deletions[i]);
        } else if i < deletions.len() + updates.len() {
            assert(batch[i] == updates[i - deletions.len()]);
        } else {
            assert(batch[i] == insertions[i - deletions.len() - updates.len()]);
        }
    }
}

} // verus!
