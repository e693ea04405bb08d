//! Row actions of the results pane: staging, saving, discarding and refreshing.
use vstd::prelude::*;
use vstd::string::*;

use crate::app::row_detail::{opened_row, RowDetail, RowDetailView};
use crate::app::table_edits::TableEditsView;
use crate::app::workspace::{Overlay, OverlayView, Workspace, WorkspaceView};
use crate::app::{App, AppView};
use crate::db::changes::RowView;
use crate::db::{
    any_primary_key, has_primary_key, QueryResultView, Request, RequestView, ResultColumn,
    ResultColumnView, TableResultSource, TableResultSourceView,
};
use crate::text::{concat3, decimal, decimal_text};
use crate::value::Value;

verus! {

broadcast use vstd::std_specs::btree::group_btree_axioms;

/// A row of nothing but defaults.
pub open spec fn blank_row(count: nat) -> RowView {
    Seq::new(count, |i: int| None)
}

/// The default marks of a new row.
pub open spec fn all_defaults(count: nat) -> Seq<bool> {
    Seq::new(count, |i: int| true)
}

/// The first column that a staged row may not set.
pub open spec fn forbidden_column(
    form: RowDetailView,
    columns: Seq<ResultColumnView>,
    is_new: bool,
    index: int,
) -> bool {
    &&& 0 <= index < columns.len()
    &&& sets_forbidden(form, columns, is_new, index)
    &&& forall|i: int| 0 <= i < index ==> !#[trigger] sets_forbidden(form, columns, is_new, i)
}

/// Whether a row sets a column that it may not set: a new row one that the server generates, and an
/// existing row one that is not editable.
pub open spec fn sets_forbidden(
    form: RowDetailView,
    columns: Seq<ResultColumnView>,
    is_new: bool,
    index: int,
) -> bool {
    if is_new {
        !columns[index].insertable && !form.defaults[index]
    } else {
        !columns[index].editable && (index >= form.original.len() || form.values[index]
            != form.original[index])
    }
}

/// Why a row that was opened earlier cannot be staged any more.
pub open spec fn outdated() -> Seq<char> {
    "The table preview is no longer current; reload the table before editing"@
}

impl WorkspaceView {
    /// The workspace with the loaded rows restored, and one of them selected.
    pub open spec fn restored(self) -> WorkspaceView {
        let rows = self.edits.loaded(self.result.rows);
        let last = if rows.len() > 0 { rows.len() - 1 } else { 0 };
        WorkspaceView {
            result: QueryResultView { rows, ..self.result },
            edits: self.edits.discarded(),
            result_row: if self.result_row <= last { self.result_row } else { last as usize },
            ..self
        }
    }
}

impl AppView {
    /// The source through which rows can be edited now, or why they cannot. Edits cannot race an
    /// operation, or be retried after an unknown save outcome.
    pub open spec fn edit_source(self) -> Result<TableResultSourceView, Seq<char>> {
        let workspace = self.workspace;
        if workspace.database_task is Some {
            Err("Wait for this workspace's operation to finish"@)
        } else if workspace.edits.uncertain {
            Err("Save outcome is unknown; refresh and verify the table first"@)
        } else if workspace.result.read_only_reason is Some {
            Err(workspace.result.read_only_reason->Some_0)
        } else {
            match workspace.result.source {
                None => Err(
                    "Select a table preview or a query with its full primary key to edit rows"@,
                ),
                Some(source) => if !source.table.writable() {
                    Err("This object is read-only"@)
                } else if source.query is Some && !workspace.session_state.allows_query_edits() {
                    Err(
                        "Reconnect or end the SQL transaction, then run the query again before editing"@,
                    )
                } else {
                    Ok(source)
                },
            }
        }
    }

    /// The selected row as the row editor opens it: with the defaults of a new row, and frozen while it
    /// cannot be edited.
    pub open spec fn opened_form(self) -> Option<RowDetailView> {
        let workspace = self.workspace;
        match opened_row(workspace.result, workspace.result_row as int) {
            None => None,
            Some(form) => {
                let defaults = workspace.edits.defaults(form.row_index as int);
                Some(
                    RowDetailView {
                        is_new: defaults is Some,
                        defaults: match defaults {
                            Some(defaults) => defaults,
                            None => form.defaults,
                        },
                        read_only: (form.source is Some && form.source->Some_0.query is Some
                            && !workspace.session_state.allows_query_edits())
                            || workspace.edits.uncertain || workspace.database_task is Some
                            || workspace.edits.deleted.contains(form.row_index),
                        ..form
                    },
                )
            },
        }
    }

    /// The state with the selected row opened.
    #[verifier::opaque]
    pub open spec fn row_opened(self) -> AppView {
        match self.opened_form() {
            Some(form) => self.with_overlay(OverlayView::RowDetail(form)),
            None => self.with_status("Select a result row to inspect it"@, true),
        }
    }

    /// The state with rows and edits in place of the present ones.
    pub open spec fn with_rows(self, rows: Seq<RowView>, edits: TableEditsView) -> AppView {
        self.with_workspace(
            WorkspaceView {
                result: QueryResultView { rows, ..self.workspace.result },
                edits,
                ..self.workspace
            },
        )
    }

    /// The state with a new row, which is opened. Its columns start at DEFAULT, which preserves identity,
    /// generated values and server defaults.
    #[verifier::opaque]
    pub open spec fn row_added(self) -> Result<AppView, Seq<char>> {
        match self.edit_source() {
            Err(problem) => Err(problem),
            Ok(source) => if source.query is Some {
                Err("Custom query results support updates only"@)
            } else {
                let rows = self.workspace.result.rows;
                let begun = self.workspace.edits.begun(rows);
                let next = self.with_rows(
                    rows.push(blank_row(source.columns.len())),
                    TableEditsView {
                        new_defaults: begun.new_defaults.push(all_defaults(source.columns.len())),
                        ..begun
                    },
                );
                Ok(
                    next.with_workspace(
                        WorkspaceView { result_row: rows.len() as usize, ..next.workspace },
                    ).row_opened().with_status(
                        "New row staged; Ctrl+S in the row editor stages values, Ctrl+S in Results saves all changes"@,
                        false,
                    ),
                )
            },
        }
    }

    /// The state with the selected row marked for deletion, or not any more. A new row simply disappears.
    #[verifier::opaque]
    pub open spec fn row_deleted(self) -> Result<AppView, Seq<char>> {
        let workspace = self.workspace;
        let rows = workspace.result.rows;
        let row = workspace.result_row as int;
        match self.edit_source() {
            Err(problem) => Err(problem),
            Ok(source) => if source.query is Some {
                Err("Custom query results support updates only"@)
            } else if row >= rows.len() {
                Err("Select a row to delete"@)
            } else if workspace.edits.defaults(row) is Some {
                let index = row - workspace.edits.loaded(rows).len();
                let next = self.with_rows(
                    rows.remove(row),
                    TableEditsView {
                        new_defaults: workspace.edits.new_defaults.remove(index),
                        ..workspace.edits
                    },
                );
                Ok(
                    next.with_workspace(
                        WorkspaceView {
                            result_row: if row < rows.len() - 1 {
                                row as usize
                            } else if rows.len() > 1 {
                                (rows.len() - 2) as usize
                            } else {
                                0
                            },
                            ..next.workspace
                        },
                    ).with_status("Deletion staged; Delete toggles an existing row's deletion"@, false),
                )
            } else if !has_primary_key(source.columns) {
                Err("Deletion requires a primary key"@)
            } else {
                let begun = workspace.edits.begun(rows);
                let mark = workspace.result_row;
                Ok(
                    self.with_rows(
                        rows,
                        TableEditsView {
                            deleted: if begun.deleted.contains(mark) {
                                begun.deleted.remove(mark)
                            } else {
                                begun.deleted.insert(mark)
                            },
                            ..begun
                        },
                    ).with_status("Deletion staged; Delete toggles an existing row's deletion"@, false),
                )
            },
        }
    }

    /// Why a row cannot be staged, given the source of the rows.
    pub open spec fn stage_problem(self, form: RowDetailView, source: TableResultSourceView) -> Option<
        Seq<char>,
    > {
        let workspace = self.workspace;
        let rows = workspace.result.rows;
        let is_new = workspace.edits.defaults(form.row_index as int) is Some;
        if form.source != Some(source) || !(form.row_index < rows.len()
            && rows[form.row_index as int] == form.original) {
            Some(outdated())
        } else if workspace.edits.deleted.contains(form.row_index) {
            Some("Undo this row's deletion before modifying it"@)
        } else if !is_new && !has_primary_key(source.columns) {
            Some("Modifying rows requires a primary key"@)
        } else if form.values.len() != source.columns.len() || form.defaults.len()
            != source.columns.len() {
            Some("Row does not match table metadata"@)
        } else if exists|i: int| forbidden_column(form, source.columns, is_new, i) {
            let name = source.columns[choose|i: int|
                forbidden_column(form, source.columns, is_new, i)].name;
            if is_new {
                Some("Column "@ + name + " requires its generated default"@)
            } else {
                Some("Column "@ + name + " is read-only"@)
            }
        } else {
            None
        }
    }

    /// The state with an edited row staged. Only the save command sends anything to the server.
    #[verifier::opaque]
    pub open spec fn row_staged(self, form: RowDetailView) -> Result<AppView, Seq<char>> {
        let workspace = self.workspace;
        let rows = workspace.result.rows;
        let row = form.row_index as int;
        if form.source != workspace.result.source {
            Err(outdated())
        } else if form.read_only {
            Err("Close and reopen this row before editing"@)
        } else {
            match self.edit_source() {
                Err(problem) => Err(problem),
                Ok(source) => match self.stage_problem(form, source) {
                    Some(problem) => Err(problem),
                    None => {
                        let begun = workspace.edits.begun(rows);
                        let index = row - begun.loaded(rows).len();
                        Ok(
                            self.with_rows(
                                rows.update(row, form.values),
                                TableEditsView {
                                    new_defaults: if workspace.edits.defaults(row) is Some {
                                        begun.new_defaults.update(index, form.defaults)
                                    } else {
                                        begun.new_defaults
                                    },
                                    ..begun
                                },
                            ).with_status("Row staged; Ctrl+S in Results saves all changes"@, false),
                        )
                    },
                },
            }
        }
    }

    /// The state with the whole batch on its way. It is a snapshot, so that later navigation cannot change
    /// its database or values.
    #[verifier::opaque]
    pub open spec fn changes_saved(self) -> Result<AppView, Seq<char>> {
        let workspace = self.workspace;
        match self.edit_source() {
            Err(problem) => Err(problem),
            Ok(source) => {
                let changes = workspace.edits.batch(workspace.result.rows);
                if changes.len() == 0 {
                    Err("No table changes to save"@)
                } else {
                    match self.profile(source.table.profile_id) {
                        None => Err("The source connection no longer exists"@),
                        Some(profile) => Ok(
                            self.with_workspace(
                                WorkspaceView {
                                    refresh_query: match source.query {
                                        Some(query) => Some((source.table, query.sql)),
                                        None => workspace.refresh_query,
                                    },
                                    refresh_table: match source.query {
                                        Some(_) => None,
                                        None => Some(source.table),
                                    },
                                    ..workspace
                                },
                            ).dispatch(
                                "Saving "@ + decimal(changes.len()) + " row change(s)"@,
                                RequestView::SaveChanges {
                                    password: profile.password,
                                    profile,
                                    source,
                                    changes,
                                },
                            ),
                        ),
                    }
                }
            },
        }
    }

    /// The state with the loaded rows restored. This never writes.
    #[verifier::opaque]
    pub open spec fn changes_discarded(self) -> AppView {
        let workspace = self.workspace;
        if workspace.database_task is Some {
            self.with_status("Wait for the running operation before discarding changes"@, true)
        } else {
            let shown = self.with_workspace(workspace.restored());
            if workspace.edits.uncertain {
                shown.with_status(
                    "Local changes discarded; save outcome is still unknown. Refresh and verify the table"@,
                    true,
                )
            } else {
                shown.with_status("Table changes discarded"@, false)
            }
        }
    }

    /// The state with the original query of the rows running again.
    pub open spec fn query_refreshed(
        self,
        table: crate::db::TableRefView,
        sql: Seq<char>,
        confirmed: bool,
    ) -> Result<AppView, Seq<char>> {
        if !confirmed && self.workspace.pending() {
            Ok(self.with_overlay(OverlayView::ConfirmRefresh))
        } else {
            match self.profile(table.profile_id) {
                None => Err("The source connection no longer exists"@),
                Some(profile) => Ok(
                    self.dispatch(
                        "Rerunning original query"@,
                        RequestView::Query { profile, database: table.database, sql },
                    ),
                ),
            }
        }
    }

    /// The state with the rows being loaded again. The staged rows are replaced only on success, so that a
    /// failed refresh loses nothing.
    #[verifier::opaque]
    pub open spec fn refreshed(self, confirmed: bool) -> Result<AppView, Seq<char>> {
        let workspace = self.workspace;
        if workspace.database_task is Some {
            Err("Wait for this workspace's operation to finish"@)
        } else if workspace.refresh_query is Some {
            self.query_refreshed(
                workspace.refresh_query->Some_0.0,
                workspace.refresh_query->Some_0.1,
                confirmed,
            )
        } else {
            let table = match workspace.result.source {
                Some(source) => Some(source.table),
                None => workspace.refresh_table,
            };
            match table {
                None => Err(
                    "Refresh is available for table previews; run custom SQL explicitly"@,
                ),
                Some(table) => if !confirmed && workspace.edits.count(workspace.result.rows) > 0 {
                    Ok(self.with_overlay(OverlayView::ConfirmRefresh))
                } else {
                    match self.profile(table.profile_id) {
                        None => Err("The source connection no longer exists"@),
                        Some(profile) => Ok(
                            self.dispatch(
                                "Refreshing "@ + table.schema + "."@ + table.name,
                                RequestView::Preview {
                                    password: profile.password,
                                    profile,
                                    table,
                                },
                            ),
                        ),
                    }
                },
            }
        }
    }
}

/// Whether an action of the state went as stated; a refused one leaves the state as it was.
pub open spec fn acted(
    before: AppView,
    outcome: Result<AppView, Seq<char>>,
    result: Result<(), String>,
    after: AppView,
) -> bool {
    match result {
        Ok(_) => outcome == Ok::<AppView, Seq<char>>(after),
        Err(problem) => outcome == Err::<AppView, Seq<char>>(problem@) && after == before,
    }
}

fn blanks(count: usize) -> (row: Vec<Option<String>>)
    ensures
        row.deep_view() == blank_row(count as nat),
{
    let mut row: Vec<Option<String>> = Vec::new();
    let mut i: usize = 0;
    while i < count
        invariant
            i <= count,
            row.deep_view() =~= blank_row(i as nat),
        decreases count - i,
    {
        let ghost before = row.deep_view();
        row.push(None);
        assert(row.deep_view() =~= before.push(None));
        i += 1;
    }
    row
}

fn trues(count: usize) -> (flags: Vec<bool>)
    ensures
        flags@ == all_defaults(count as nat),
{
    let mut flags: Vec<bool> = Vec::new();
    let mut i: usize = 0;
    while i < count
        invariant
            i <= count,
            flags@ =~= all_defaults(i as nat),
        decreases count - i,
    {
        flags.push(true);
        i += 1;
    }
    flags
}

fn find_forbidden(form: &RowDetail, columns: &Vec<ResultColumn>, is_new: bool) -> (index: Option<
    usize,
>)
    requires
        form@.values.len() == columns@.len(),
        form@.defaults.len() == columns@.len(),
    ensures
        match index {
            Some(index) => forbidden_column(form@, columns.deep_view(), is_new, index as int),
            None => forall|i: int| !forbidden_column(form@, columns.deep_view(), is_new, i),
        },
{
    let ghost all = columns.deep_view();
    let mut i: usize = 0;
    while i < columns.len()
        invariant
            i <= columns@.len(),
            all == columns.deep_view(),
            form@.values.len() == columns@.len(),
            form@.defaults.len() == columns@.len(),
            forall|k: int| 0 <= k < i ==> !#[trigger] sets_forbidden(form@, all, is_new, k),
        decreases columns@.len() - i,
    {
        let column = &columns[i];
        assert(all[i as int] == column@);
        assert(form@.values.len() == form.values@.len());
        assert(form@.original.len() == form.original@.len());
        let forbidden = if is_new {
            !column.insertable && !form.defaults[i]
        } else {
            !column.editable && (i >= form.original.len() || !form.values[i].same(
                &form.original[i],
            ))
        };
        assert(forbidden == sets_forbidden(form@, all, is_new, i as int));
        if forbidden {
            return Some(i);
        }
        i += 1;
    }
    None
}

fn restore_rows(workspace: &mut Workspace)
    requires
        old(workspace)@.valid(),
    ensures
        final(workspace)@ == old(workspace)@.restored(),
        final(workspace)@.valid(),
{
    workspace.edits.discard(&mut workspace.result);
    assert(workspace@.result.rows.len() == workspace.result.rows@.len());
    let count: usize = workspace.result.rows.len();
    let last: usize = if count > 0 {
        count - 1
    } else {
        0
    };
    if workspace.result_row > last {
        workspace.result_row = last;
    }
}

impl App {
    /// The source through which rows can be edited now, or why they cannot.
    pub fn editable_source(&self) -> (result: Result<TableResultSource, String>)
        ensures
            match result {
                Ok(source) => {
                    self@.edit_source() == Ok::<TableResultSourceView, Seq<char>>(source@)
                },
                Err(problem) => self@.edit_source() == Err::<TableResultSourceView, Seq<char>>(
                    problem@,
                ),
            },
    {
        if self.workspace.database_task.is_some() {
            return Err("Wait for this workspace's operation to finish".to_owned());
        }
        if self.workspace.edits.uncertain {
            return Err("Save outcome is unknown; refresh and verify the table first".to_owned());
        }
        if let Some(reason) = &self.workspace.result.read_only_reason {
            return Err(reason.clone());
        }
        match &self.workspace.result.source {
            None => Err(
                "Select a table preview or a query with its full primary key to edit rows".to_owned(),
            ),
            Some(source) => {
                if !source.table.is_writable() {
                    return Err("This object is read-only".to_owned());
                }
                if source.query.is_some() && !self.workspace.session_state.permits_query_edits() {
                    return Err(
                        "Reconnect or end the SQL transaction, then run the query again before editing".to_owned(),
                    );
                }
                Ok(source.duplicate())
            },
        }
    }

    /// Opens the selected row.
    pub fn open_row_detail(&mut self)
        ensures
            final(self)@ == old(self)@.row_opened(),
            old(self)@.valid() ==> final(self)@.valid(),
    {
        proof {
            reveal(AppView::row_opened);
        }
        match RowDetail::new(&self.workspace.result, self.workspace.result_row) {
            None => self.report("Select a result row to inspect it", true),
            Some(form) => {
                let mut form = form;
                match self.workspace.edits.defaults(form.row_index) {
                    Some(defaults) => {
                        assert(defaults.deep_view() =~= defaults@);
                        form.is_new = true;
                        form.defaults = defaults.duplicate();
                        assert(form.defaults.deep_view() =~= form.defaults@);
                    },
                    None => {},
                }
                let custom = match &form.source {
                    Some(source) => source.query.is_some(),
                    None => false,
                };
                form.read_only = (custom && !self.workspace.session_state.permits_query_edits())
                    || self.workspace.edits.uncertain || self.workspace.database_task.is_some()
                    || self.workspace.edits.deleted.contains(&form.row_index);
                self.open_overlay(Overlay::RowDetail(Box::new(form)));
            },
        }
    }

    /// Stages a new row and opens it.
    pub fn add_row(&mut self) -> (result: Result<(), String>)
        requires
            old(self)@.valid(),
        ensures
            acted(old(self)@, old(self)@.row_added(), result, final(self)@),
            final(self)@.valid(),
    {
        proof {
            reveal(AppView::row_added);
        }
        let source = match self.editable_source() {
            Ok(source) => source,
            Err(problem) => {
                return Err(problem);
            },
        };
        if source.query.is_some() {
            return Err("Custom query results support updates only".to_owned());
        }
        let ghost before = self@;
        let ghost rows = self@.workspace.result.rows;
        let count: usize = source.columns.len();
        assert(source@.columns.len() == count);
        self.workspace.edits.begin(&self.workspace.result);
        let ghost begun = self.workspace.edits@;
        let index: usize = self.workspace.result.rows.len();
        assert(rows.len() == index);
        self.workspace.result.rows.push(blanks(count));
        assert(self.workspace.result@.rows =~= rows.push(blank_row(count as nat)));
        let flags = trues(count);
        assert(flags.deep_view() =~= flags@);
        self.workspace.edits.new_defaults.push(flags);
        assert(self.workspace.edits@.new_defaults =~= begun.new_defaults.push(
            all_defaults(count as nat),
        ));
        self.workspace.result_row = index;
        proof {
            let edits = before.workspace.edits;
            assert(self.workspace.edits@.fits(self.workspace.result@.rows)) by {
                assert forall|row: usize| #[trigger]
                    self.workspace.edits@.deleted.contains(row) implies row
                    < self.workspace.edits@.original->Some_0.len() by {
                    assert(edits.deleted.contains(row));
                }
            }
            assert(self@.workspace.valid());
        }
        self.open_row_detail();
        self.report(
            "New row staged; Ctrl+S in the row editor stages values, Ctrl+S in Results saves all changes",
            false,
        );
        Ok(())
    }

    fn remove_new_row(&mut self, row: usize)
        requires
            old(self)@.valid(),
            old(self)@.workspace.edits.defaults(row as int) is Some,
            row == old(self)@.workspace.result_row,
        ensures
            final(self)@.valid(),
            ({
                let workspace = old(self)@.workspace;
                let rows = workspace.result.rows;
                let next = old(self)@.with_rows(
                    rows.remove(row as int),
                    TableEditsView {
                        new_defaults: workspace.edits.new_defaults.remove(
                            row - workspace.edits.loaded(rows).len(),
                        ),
                        ..workspace.edits
                    },
                );
                final(self)@ == next.with_workspace(
                    WorkspaceView {
                        result_row: if row < rows.len() - 1 {
                            row
                        } else if rows.len() > 1 {
                            (rows.len() - 2) as usize
                        } else {
                            0
                        },
                        ..next.workspace
                    },
                )
            }),
    {
        let ghost before = self@.workspace;
        let loaded: usize = match &self.workspace.edits.original {
            Some(original) => original.len(),
            None => 0,
        };
        assert(loaded == before.edits.loaded(before.result.rows).len());
        let ghost index = row - loaded;
        assert(before.edits.new_defaults.len() == self.workspace.edits.new_defaults@.len());
        assert(before.result.rows.len() == self.workspace.result.rows@.len());
        let _ = self.workspace.edits.new_defaults.remove(row - loaded);
        assert(self.workspace.edits@.new_defaults =~= before.edits.new_defaults.remove(index));
        let _ = self.workspace.result.rows.remove(row);
        assert(self.workspace.result@.rows =~= before.result.rows.remove(row as int));
        let count: usize = self.workspace.result.rows.len();
        self.workspace.result_row = if row < count {
            row
        } else if count > 0 {
            count - 1
        } else {
            0
        };
        proof {
            assert(self.workspace.edits@.fits(self.workspace.result@.rows)) by {
                assert forall|row: usize| #[trigger]
                    self.workspace.edits@.deleted.contains(row) implies row
                    < self.workspace.edits@.original->Some_0.len() by {
                    assert(before.edits.deleted.contains(row));
                }
            }
        }
    }

    fn toggle_deletion(&mut self, row: usize)
        requires
            old(self)@.valid(),
            row == old(self)@.workspace.result_row,
            row < old(self)@.workspace.result.rows.len(),
            old(self)@.workspace.edits.defaults(row as int) is None,
        ensures
            final(self)@.valid(),
            ({
                let rows = old(self)@.workspace.result.rows;
                let begun = old(self)@.workspace.edits.begun(rows);
                final(self)@ == old(self)@.with_rows(
                    rows,
                    TableEditsView {
                        deleted: if begun.deleted.contains(row) {
                            begun.deleted.remove(row)
                        } else {
                            begun.deleted.insert(row)
                        },
                        ..begun
                    },
                )
            }),
    {
        let ghost before = self@.workspace;
        self.workspace.edits.begin(&self.workspace.result);
        let ghost begun = self.workspace.edits@;
        if !self.workspace.edits.deleted.remove(&row) {
            let _ = self.workspace.edits.deleted.insert(row);
            assert(self.workspace.edits@.deleted =~= begun.deleted.insert(row));
        } else {
            assert(self.workspace.edits@.deleted =~= begun.deleted.remove(row));
        }
        proof {
            assert(self.workspace.edits@.fits(self.workspace.result@.rows)) by {
                assert forall|other: usize| #[trigger]
                    self.workspace.edits@.deleted.contains(other) implies other
                    < self.workspace.edits@.original->Some_0.len() by {
                    if other != row {
                        assert(before.edits.deleted.contains(other));
                    }
                }
            }
        }
    }

    /// Marks the selected row for deletion, or takes the mark back. A new row simply disappears.
    pub fn delete_row(&mut self) -> (result: Result<(), String>)
        requires
            old(self)@.valid(),
        ensures
            acted(old(self)@, old(self)@.row_deleted(), result, final(self)@),
            final(self)@.valid(),
    {
        proof {
            reveal(AppView::row_deleted);
        }
        let source = match self.editable_source() {
            Ok(source) => source,
            Err(problem) => {
                return Err(problem);
            },
        };
        if source.query.is_some() {
            return Err("Custom query results support updates only".to_owned());
        }
        let row = self.workspace.result_row;
        assert(self@.workspace.result.rows.len() == self.workspace.result.rows@.len());
        if row >= self.workspace.result.rows.len() {
            return Err("Select a row to delete".to_owned());
        }
        if self.workspace.edits.defaults(row).is_some() {
            self.remove_new_row(row);
        } else {
            if !any_primary_key(&source.columns) {
                return Err("Deletion requires a primary key".to_owned());
            }
            self.toggle_deletion(row);
        }
        self.report("Deletion staged; Delete toggles an existing row's deletion", false);
        Ok(())
    }

    fn find_stage_problem(&self, form: &RowDetail, source: &TableResultSource) -> (problem: Option<
        String,
    >)
        ensures
            problem.deep_view() == self@.stage_problem(form@, source@),
    {
        let same_source = match &form.source {
            Some(other) => other.same(source),
            None => false,
        };
        let rows = &self.workspace.result.rows;
        assert(self@.workspace.result.rows.len() == rows@.len());
        let current = form.row_index < rows.len() && rows[form.row_index].same(&form.original);
        assert(form.row_index < rows@.len() ==> self@.workspace.result.rows[form.row_index as int]
            == rows@[form.row_index as int].deep_view());
        if !same_source || !current {
            return Some(
                "The table preview is no longer current; reload the table before editing".to_owned(),
            );
        }
        if self.workspace.edits.deleted.contains(&form.row_index) {
            return Some("Undo this row's deletion before modifying it".to_owned());
        }
        let is_new = self.workspace.edits.defaults(form.row_index).is_some();
        if !is_new && !any_primary_key(&source.columns) {
            return Some("Modifying rows requires a primary key".to_owned());
        }
        assert(form@.values.len() == form.values@.len());
        assert(source@.columns.len() == source.columns@.len());
        if form.values.len() != source.columns.len() || form.defaults.len()
            != source.columns.len() {
            return Some("Row does not match table metadata".to_owned());
        }
        match find_forbidden(form, &source.columns, is_new) {
            Some(index) => {
                proof {
                    let columns = source@.columns;
                    let other = choose|i: int| forbidden_column(form@, columns, is_new, i);
                    assert(other == index) by {
                        if other < index {
                            assert(!sets_forbidden(form@, columns, is_new, other));
                        } else if index < other {
                            assert(!sets_forbidden(form@, columns, is_new, index as int));
                        }
                    }
                    assert(columns[index as int] == source.columns@[index as int]@);
                }
                let name = source.columns[index].name.as_str();
                Some(
                    concat3(
                        "Column ",
                        name,
                        if is_new {
                            " requires its generated default"
                        } else {
                            " is read-only"
                        },
                    ),
                )
            },
            None => None,
        }
    }

    /// Stages an edited row locally.
    pub fn stage_row(&mut self, form: &RowDetail) -> (result: Result<(), String>)
        requires
            old(self)@.valid(),
        ensures
            acted(old(self)@, old(self)@.row_staged(form@), result, final(self)@),
            final(self)@.valid(),
    {
        proof {
            reveal(AppView::row_staged);
        }
        if !form.source.same(&self.workspace.result.source) {
            return Err(
                "The table preview is no longer current; reload the table before editing".to_owned(),
            );
        }
        if form.read_only {
            return Err("Close and reopen this row before editing".to_owned());
        }
        let source = match self.editable_source() {
            Ok(source) => source,
            Err(problem) => {
                return Err(problem);
            },
        };
        match self.find_stage_problem(form, &source) {
            Some(problem) => {
                return Err(problem);
            },
            None => {},
        }
        let ghost before = self@.workspace;
        let row = form.row_index;
        let is_new = self.workspace.edits.defaults(row).is_some();
        self.workspace.edits.begin(&self.workspace.result);
        let ghost begun = self.workspace.edits@;
        self.workspace.result.rows[row] = form.values.duplicate();
        assert(self.workspace.result@.rows =~= before.result.rows.update(row as int, form@.values));
        if is_new {
            let loaded: usize = match &self.workspace.edits.original {
                Some(original) => original.len(),
                None => 0,
            };
            assert(loaded == begun.loaded(before.result.rows).len());
            let flags = form.defaults.duplicate();
            assert(flags.deep_view() =~= flags@);
            assert(form.defaults.deep_view() =~= form.defaults@);
            self.workspace.edits.new_defaults[row - loaded] = flags;
            assert(self.workspace.edits@.new_defaults =~= begun.new_defaults.update(
                row - loaded,
                form@.defaults,
            ));
        }
        proof {
            assert(self.workspace.edits@.fits(self.workspace.result@.rows)) by {
                assert forall|row: usize| #[trigger]
                    self.workspace.edits@.deleted.contains(row) implies row
                    < self.workspace.edits@.original->Some_0.len() by {
                    assert(before.edits.deleted.contains(row));
                }
            }
        }
        self.report("Row staged; Ctrl+S in Results saves all changes", false);
        Ok(())
    }

    /// Sends the whole batch.
    pub fn save_changes(&mut self) -> (result: Result<(), String>)
        requires
            old(self)@.valid(),
        ensures
            acted(old(self)@, old(self)@.changes_saved(), result, final(self)@),
            final(self)@.valid(),
    {
        proof {
            reveal(AppView::changes_saved);
        }
        let source = match self.editable_source() {
            Ok(source) => source,
            Err(problem) => {
                return Err(problem);
            },
        };
        let changes = self.workspace.edits.changes(&self.workspace.result);
        assert(changes.deep_view().len() == changes@.len());
        if changes.len() == 0 {
            return Err("No table changes to save".to_owned());
        }
        let profile = match self.profile(source.table.profile_id.as_str()) {
            Some(profile) => profile.duplicate(),
            None => {
                return Err("The source connection no longer exists".to_owned());
            },
        };
        match &source.query {
            Some(query) => {
                self.workspace.refresh_query = Some((source.table.duplicate(), query.sql.clone()));
                self.workspace.refresh_table = None;
            },
            None => {
                self.workspace.refresh_table = Some(source.table.duplicate());
            },
        }
        let description = concat3(
            "Saving ",
            decimal_text(changes.len() as u64).as_str(),
            " row change(s)",
        );
        let password = profile.password.duplicate();
        self.dispatch(description, Request::SaveChanges { profile, password, source, changes });
        Ok(())
    }

    /// Restores the loaded rows.
    pub fn discard_changes(&mut self)
        requires
            old(self)@.valid(),
        ensures
            final(self)@ == old(self)@.changes_discarded(),
            final(self)@.valid(),
    {
        proof {
            reveal(AppView::changes_discarded);
        }
        if self.workspace.database_task.is_some() {
            self.report("Wait for the running operation before discarding changes", true);
            return;
        }
        restore_rows(&mut self.workspace);
        if self.workspace.edits.uncertain {
            self.report(
                "Local changes discarded; save outcome is still unknown. Refresh and verify the table",
                true,
            );
        } else {
            self.report("Table changes discarded", false);
        }
    }

    /// Loads the rows again from their original source, after pending or uncertain edits are resolved.
    pub fn refresh_results(&mut self, confirmed: bool) -> (result: Result<(), String>)
        requires
            old(self)@.workspace.edits.countable(old(self)@.workspace.result.rows),
        ensures
            acted(old(self)@, old(self)@.refreshed(confirmed), result, final(self)@),
            old(self)@.valid() ==> final(self)@.valid(),
    {
        proof {
            reveal(AppView::refreshed);
        }
        if self.workspace.database_task.is_some() {
            return Err("Wait for this workspace's operation to finish".to_owned());
        }
        let query = self.workspace.refresh_query.duplicate();
        if let Some((table, sql)) = query {
            if !confirmed && self.workspace.is_pending() {
                self.open_overlay(Overlay::ConfirmRefresh);
                return Ok(());
            }
            let profile = match self.profile(table.profile_id.as_str()) {
                Some(profile) => profile.duplicate(),
                None => {
                    return Err("The source connection no longer exists".to_owned());
                },
            };
            self.dispatch(
                "Rerunning original query".to_owned(),
                Request::Query { profile, database: table.database, sql },
            );
            return Ok(());
        }
        let table = match &self.workspace.result.source {
            Some(source) => source.table.duplicate(),
            None => match &self.workspace.refresh_table {
                Some(table) => table.duplicate(),
                None => {
                    return Err(
                        "Refresh is available for table previews; run custom SQL explicitly".to_owned(),
                    );
                },
            },
        };
        if !confirmed && self.workspace.edits.count(&self.workspace.result) > 0 {
            self.open_overlay(Overlay::ConfirmRefresh);
            return Ok(());
        }
        let profile = match self.profile(table.profile_id.as_str()) {
            Some(profile) => profile.duplicate(),
            None => {
                return Err("The source connection no longer exists".to_owned());
            },
        };
        let mut description = concat3("Refreshing ", table.schema.as_str(), ".");
        description.append(table.name.as_str());
        let password = profile.password.duplicate();
        self.dispatch(description, Request::Preview { profile, password, table });
        Ok(())
    }
}

/// Discarding behind staged edits restores the rows that were loaded before the first of them.
pub proof fn discarding_restores_staged_rows(app: AppView, form: RowDetailView)
    requires
        app.workspace.edits == crate::app::table_edits::no_edits(),
        app.row_staged(form) is Ok,
    ensures
        app.row_staged(form)->Ok_0.changes_discarded().workspace.result == app.workspace.result,
        app.row_staged(form)->Ok_0.changes_discarded().workspace.edits == app.workspace.edits,
{
    reveal(AppView::row_staged);
    reveal(AppView::changes_discarded);
    assert(app.row_staged(form)->Ok_0.workspace.database_task is None);
}

/// Adding a row and discarding restores the result as it was.
pub proof fn discarding_removes_new_rows(app: AppView)
    requires
        app.workspace.edits == crate::app::table_edits::no_edits(),
        app.row_added() is Ok,
    ensures
        app.row_added()->Ok_0.changes_discarded().workspace.result == app.workspace.result,
        app.row_added()->Ok_0.changes_discarded().workspace.edits == app.workspace.edits,
{
    reveal(AppView::row_added);
    reveal(AppView::row_opened);
    reveal(AppView::changes_discarded);
    assert(app.row_added()->Ok_0.workspace.database_task is None);
}

/// Marking an existing row twice leaves it unmarked.
pub proof fn deleting_twice_unmarks(app: AppView)
    requires
        app.valid(),
        app.row_deleted() is Ok,
        app.workspace.edits.defaults(app.workspace.result_row as int) is None,
    ensures
        app.row_deleted()->Ok_0.row_deleted() is Ok,
        app.row_deleted()->Ok_0.row_deleted()->Ok_0.workspace.edits.deleted
            == app.workspace.edits.deleted,
        app.row_deleted()->Ok_0.row_deleted()->Ok_0.workspace.result == app.workspace.result,
{
    reveal(AppView::row_deleted);
    let once = app.row_deleted()->Ok_0;
    let mark = app.workspace.result_row;
    let rows = app.workspace.result.rows;
    let begun = app.workspace.edits.begun(rows);
    assert(once.edit_source() == app.edit_source());
    assert(once.workspace.edits.defaults(mark as int) is None);
    if begun.deleted.contains(mark) {
        assert(begun.deleted.remove(mark).insert(mark) =~= begun.deleted);
    } else {
        assert(begun.deleted.insert(mark).remove(mark) =~= begun.deleted);
    }
}

/// Nothing but the save command hands a write out: staging, deleting, adding and discarding stay local.
pub proof fn staging_stays_local(app: AppView, form: RowDetailView)
    ensures
        app.row_added() is Ok ==> app.row_added()->Ok_0.effects == app.effects,
        app.row_deleted() is Ok ==> app.row_deleted()->Ok_0.effects == app.effects,
        app.row_staged(form) is Ok ==> app.row_staged(form)->Ok_0.effects == app.effects,
        app.changes_discarded().effects == app.effects,
{
    reveal(AppView::row_added);
    reveal(AppView::row_opened);
    reveal(AppView::row_deleted);
    reveal(AppView::row_staged);
    reveal(AppView::changes_discarded);
}

/// While an operation runs, or a save outcome is unknown, no row can be added, deleted, staged or saved.
pub proof fn running_and_uncertain_saves_freeze_rows(app: AppView, form: RowDetailView)
    requires
        app.workspace.database_task is Some || app.workspace.edits.uncertain,
    ensures
        app.row_added() is Err,
        app.row_deleted() is Err,
        app.row_staged(form) is Err,
        app.changes_saved() is Err,
{
    reveal(AppView::row_added);
    reveal(AppView::row_deleted);
    reveal(AppView::row_staged);
    reveal(AppView::changes_saved);
}

/// A refresh asks before it replaces staged rows.
pub proof fn refreshing_asks_before_replacing_rows(app: AppView)
    requires
        app.workspace.edits.count(app.workspace.result.rows) > 0,
        app.refreshed(false) is Ok,
    ensures
        app.refreshed(false)->Ok_0.effects == app.effects,
        app.refreshed(false)->Ok_0.workspace.overlay == Some(OverlayView::ConfirmRefresh),
{
    reveal(AppView::refreshed);
}

} // verus!
