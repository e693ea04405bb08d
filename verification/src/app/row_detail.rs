//! The row viewer and editor. Field edits stay isolated until the row is staged.
use vstd::prelude::*;

use crate::db::changes::RowView;
use crate::db::{
    any_primary_key, has_primary_key, QueryResult, QueryResultView, TableResultSource,
    TableResultSourceView,
};
use crate::editor::{value_editor, EditorView, TextEditor};
use crate::text::{join, joined};
use crate::value::Value;

verus! {

/// One row, opened for inspection or editing.
pub struct RowDetail {
    pub row_index: usize,
    pub columns: Vec<String>,
    pub source: Option<TableResultSource>,
    pub original: Vec<Option<String>>,
    pub values: Vec<Option<String>>,
    /// Defaults are separate from NULL for new rows with server-generated values.
    pub defaults: Vec<bool>,
    pub is_new: bool,
    pub read_only: bool,
    /// The reason that a query gives for its rows being read-only.
    pub read_only_reason: Option<String>,
    pub selected: usize,
    pub editing: bool,
    pub editor: TextEditor,
}

/// What a `RowDetail` denotes.
pub ghost struct RowDetailView {
    pub row_index: usize,
    pub columns: Seq<Seq<char>>,
    pub source: Option<TableResultSourceView>,
    pub original: RowView,
    pub values: RowView,
    pub defaults: Seq<bool>,
    pub is_new: bool,
    pub read_only: bool,
    pub read_only_reason: Option<Seq<char>>,
    pub selected: usize,
    pub editing: bool,
    pub editor: EditorView,
}

impl DeepView for RowDetail {
    type V = RowDetailView;

    open spec fn deep_view(&self) -> RowDetailView {
        RowDetailView {
            row_index: self.row_index,
            columns: self.columns.deep_view(),
            source: self.source.deep_view(),
            original: self.original.deep_view(),
            values: self.values.deep_view(),
            defaults: self.defaults@,
            is_new: self.is_new,
            read_only: self.read_only,
            read_only_reason: self.read_only_reason.deep_view(),
            selected: self.selected,
            editing: self.editing,
            editor: self.editor@,
        }
    }
}

impl View for RowDetail {
    type V = RowDetailView;

    open spec fn view(&self) -> RowDetailView {
        self.deep_view()
    }
}

/// A row of a result, opened; none where there is no such row.
pub open spec fn opened_row(result: QueryResultView, row: int) -> Option<RowDetailView> {
    if 0 <= row < result.rows.len() {
        let values = result.rows[row];
        Some(
            RowDetailView {
                row_index: row as usize,
                columns: result.columns,
                source: result.source,
                original: values,
                values,
                defaults: Seq::new(values.len(), |i: int| false),
                is_new: false,
                read_only: false,
                read_only_reason: result.read_only_reason,
                selected: 0,
                editing: false,
                editor: value_editor(
                    if values.len() > 0 {
                        values[0]
                    } else {
                        None
                    },
                ),
            },
        )
    } else {
        None
    }
}

impl RowDetailView {
    /// The text of the selected field; none for NULL.
    pub open spec fn value(self) -> Option<Seq<char>> {
        if self.selected < self.values.len() {
            self.values[self.selected as int]
        } else {
            None
        }
    }

    /// Whether the row can be edited at all.
    pub open spec fn editable(self) -> bool {
        &&& !self.read_only
        &&& self.read_only_reason is None
        &&& self.source matches Some(source) && source.table.writable() && (self.is_new
            || has_primary_key(source.columns))
    }

    /// Whether the selected field can be edited.
    pub open spec fn field_editable(self) -> bool {
        &&& self.editable()
        &&& self.source matches Some(source) && self.selected < source.columns.len() && (
        if self.is_new {
            source.columns[self.selected as int].insertable
        } else {
            source.columns[self.selected as int].editable
        })
    }

    /// Whether the selected field exists in the row.
    pub open spec fn has_field(self) -> bool {
        self.selected < self.values.len() && self.selected < self.defaults.len()
    }

    /// The row with another value in the selected field, which no longer keeps its default.
    pub open spec fn with_value(self, value: Option<Seq<char>>) -> RowDetailView {
        RowDetailView {
            values: self.values.update(self.selected as int, value),
            defaults: self.defaults.update(self.selected as int, false),
            editor: value_editor(value),
            ..self
        }
    }

    /// The row with another field selected; a position behind the last field selects the last.
    pub open spec fn select(self, field: int) -> RowDetailView {
        let last = if self.columns.len() > 0 { self.columns.len() - 1 } else { 0 };
        let next = RowDetailView {
            selected: (if field <= last { field } else { last }) as usize,
            ..self
        };
        RowDetailView { editor: value_editor(next.value()), ..next }
    }

    /// The row with its selected field being edited. Entering a NULL field starts an intentional empty
    /// text.
    pub open spec fn edited(self) -> RowDetailView {
        if self.field_editable() && self.has_field() {
            let value = match self.value() {
                Some(text) => Some(text),
                None => Some(Seq::empty()),
            };
            RowDetailView { editing: true, ..self.with_value(value) }
        } else {
            self
        }
    }

    /// The row with the editor's text taken over, unless the field became NULL meanwhile.
    pub open spec fn finished(self) -> RowDetailView {
        RowDetailView {
            values: if self.editing && self.value() is Some {
                self.values.update(
                    self.selected as int,
                    Some(joined(self.editor.lines, "\n"@)),
                )
            } else {
                self.values
            },
            editing: false,
            ..self
        }
    }

    /// The row with the selected field switched between NULL and the empty text. DEFAULT is a third state:
    /// its first switch chooses NULL.
    pub open spec fn null_toggled(self) -> RowDetailView {
        if self.field_editable() && self.has_field() {
            self.with_value(
                if self.defaults[self.selected as int] || self.value() is Some {
                    None
                } else {
                    Some(Seq::empty())
                },
            )
        } else {
            self
        }
    }

    /// The row with the selected field at its default.
    pub open spec fn defaulted(self) -> RowDetailView {
        RowDetailView {
            defaults: self.defaults.update(self.selected as int, true),
            values: self.values.update(self.selected as int, None),
            editing: false,
            editor: value_editor(None),
            ..self
        }
    }

    /// Why the selected field cannot be edited. A frozen or deleted row is not described as a restriction
    /// of the column.
    pub open spec fn obstacle(self) -> Seq<char> {
        match self.read_only_reason {
            Some(reason) => reason,
            None => if self.read_only {
                "This row is read-only while deleted, busy, or awaiting save verification"@
            } else {
                match self.source {
                    None => "Custom SQL results are read-only"@,
                    Some(source) => if !source.table.writable() {
                        "This object is read-only"@
                    } else if !self.is_new && !has_primary_key(source.columns) {
                        "This table has no primary key; the row is read-only"@
                    } else {
                        "This generated or computed column is read-only"@
                    },
                }
            },
        }
    }
}

fn falses(count: usize) -> (flags: Vec<bool>)
    ensures
        flags@ == Seq::new(count as nat, |i: int| false),
{
    let mut flags: Vec<bool> = Vec::new();
    let mut i: usize = 0;
    while i < count
        invariant
            i <= count,
            flags@ =~= Seq::new(i as nat, |i: int| false),
        decreases count - i,
    {
        flags.push(false);
        i += 1;
    }
    flags
}

impl RowDetail {
    /// Opens a row of a result.
    pub fn new(result: &QueryResult, row_index: usize) -> (form: Option<RowDetail>)
        ensures
            form.deep_view() == opened_row(result@, row_index as int),
    {
        assert(result@.rows.len() == result.rows@.len());
        if row_index >= result.rows.len() {
            return None;
        }
        let values = result.rows[row_index].duplicate();
        assert(result@.rows[row_index as int] == values.deep_view());
        let count: usize = values.len();
        let first: Option<&str> = if count > 0 {
            match &values[0] {
                Some(text) => Some(text.as_str()),
                None => None,
            }
        } else {
            None
        };
        let editor = TextEditor::of_value(first);
        let form = RowDetail {
            row_index,
            columns: result.columns.duplicate(),
            source: result.source.duplicate(),
            original: values.duplicate(),
            editor,
            defaults: falses(count),
            is_new: false,
            read_only: false,
            read_only_reason: result.read_only_reason.duplicate(),
            values,
            selected: 0,
            editing: false,
        };
        Some(form)
    }

    /// The text of the selected field; none for NULL.
    pub fn selected_value(&self) -> (value: Option<&str>)
        ensures
            match value {
                Some(text) => self@.value() == Some(text@),
                None => self@.value() is None,
            },
    {
        if self.selected < self.values.len() {
            match &self.values[self.selected] {
                Some(text) => Some(text.as_str()),
                None => None,
            }
        } else {
            None
        }
    }

    /// Whether the selected field can be edited.
    pub fn selected_is_editable(&self) -> (editable: bool)
        ensures
            editable == self@.field_editable(),
    {
        if !self.row_is_editable() {
            return false;
        }
        match &self.source {
            Some(source) => {
                if self.selected < source.columns.len() {
                    let column = &source.columns[self.selected];
                    assert(source@.columns[self.selected as int] == column@);
                    if self.is_new {
                        column.insertable
                    } else {
                        column.editable
                    }
                } else {
                    false
                }
            },
            None => false,
        }
    }

    /// Whether the row can be edited at all.
    pub fn row_is_editable(&self) -> (editable: bool)
        ensures
            editable == self@.editable(),
    {
        if self.read_only || self.read_only_reason.is_some() {
            return false;
        }
        match &self.source {
            Some(source) => source.table.is_writable() && (self.is_new || any_primary_key(
                &source.columns,
            )),
            None => false,
        }
    }

    fn reset_editor(&mut self)
        ensures
            final(self)@ == (RowDetailView { editor: value_editor(old(self)@.value()), ..old(self)@ }),
    {
        let editor = TextEditor::of_value(self.selected_value());
        self.editor = editor;
    }

    /// Selects another field; a position behind the last field selects the last.
    pub fn select(&mut self, field: usize)
        ensures
            final(self)@ == old(self)@.select(field as int),
    {
        assert(self@.columns.len() == self.columns@.len());
        let last: usize = if self.columns.len() > 0 {
            self.columns.len() - 1
        } else {
            0
        };
        self.selected = if field <= last {
            field
        } else {
            last
        };
        self.reset_editor();
    }

    fn set_value(&mut self, value: Option<String>)
        requires
            old(self)@.has_field(),
        ensures
            final(self)@ == old(self)@.with_value(value.deep_view()),
    {
        let ghost before = self@;
        let index = self.selected;
        self.values[index] = value;
        self.defaults[index] = false;
        assert(self@.values =~= before.values.update(index as int, value.deep_view()));
        self.reset_editor();
    }

    /// Starts to edit the selected field.
    pub fn begin_edit(&mut self)
        ensures
            final(self)@ == old(self)@.edited(),
    {
        if self.selected_is_editable() && self.selected < self.values.len() && self.selected
            < self.defaults.len() {
            let value = match &self.values[self.selected] {
                Some(text) => Some(text.clone()),
                None => {
                    let empty = String::new();
                    assert(empty@ =~= Seq::empty());
                    Some(empty)
                },
            };
            self.set_value(value);
            self.editing = true;
        }
    }

    /// Takes the editor's text over.
    pub fn finish_edit(&mut self)
        ensures
            final(self)@ == old(self)@.finished(),
    {
        if self.editing && self.selected < self.values.len()
            && self.values[self.selected].is_some() {
            let ghost before = self@;
            let index = self.selected;
            let text = join(&self.editor.lines(), "\n");
            self.values[index] = Some(text);
            assert(self@.values =~= before.values.update(index as int, Some(text@)));
        }
        self.editing = false;
    }

    /// Switches the selected field between NULL and the empty text.
    pub fn toggle_null(&mut self)
        ensures
            final(self)@ == old(self)@.null_toggled(),
    {
        if self.selected_is_editable() && self.selected < self.values.len() && self.selected
            < self.defaults.len() {
            let value = if self.defaults[self.selected] || self.values[self.selected].is_some() {
                None
            } else {
                let empty = String::new();
                assert(empty@ =~= Seq::empty());
                Some(empty)
            };
            self.set_value(value);
        }
    }

    /// Puts the selected field at its default.
    pub fn set_default(&mut self)
        requires
            old(self)@.has_field(),
        ensures
            final(self)@ == old(self)@.defaulted(),
    {
        let ghost before = self@;
        let index = self.selected;
        self.defaults[index] = true;
        self.values[index] = None;
        assert(self@.values =~= before.values.update(index as int, None));
        self.editing = false;
        self.editor = TextEditor::of_value(None);
    }
}

/// Why the selected field cannot be edited.
pub fn row_read_only_reason(form: &RowDetail) -> (reason: String)
    ensures
        reason@ == form@.obstacle(),
{
    match &form.read_only_reason {
        Some(reason) => reason.clone(),
        None => {
            if form.read_only {
                return "This row is read-only while deleted, busy, or awaiting save verification".to_owned();
            }
            match &form.source {
                None => "Custom SQL results are read-only".to_owned(),
                Some(source) => {
                    if !source.table.is_writable() {
                        return "This object is read-only".to_owned();
                    }
                    if !form.is_new && !any_primary_key(&source.columns) {
                        return "This table has no primary key; the row is read-only".to_owned();
                    }
                    "This generated or computed column is read-only".to_owned()
                },
            }
        },
    }
}

/// Opening a field for editing and leaving it again without a key keeps its text; a NULL becomes the empty
/// text.
pub proof fn leaving_an_untouched_field_keeps_its_text(form: RowDetailView)
    requires
        form.field_editable(),
        form.has_field(),
    ensures
        form.edited().finished().value() == Some(
            match form.value() {
                Some(text) => text,
                None => Seq::empty(),
            },
        ),
        !form.edited().finished().editing,
{
    let text = match form.value() {
        Some(text) => text,
        None => Seq::empty(),
    };
    crate::text::lines_round_trip(text);
    reveal_strlit("\n");
    assert("\n"@ =~= seq!['\n']);
}

} // verus!
