//! What is shown is what is there: each cell, field and node under its own name.
use vstd::prelude::*;
use vstd::string::*;

use crate::app::explorer::{ExplorerNodeView, ExplorerRowView};
use crate::app::forms::{ConnectionField, ConnectionFormView};
use crate::app::overlays::switched_setting;
use crate::app::row_detail::RowDetailView;
use crate::app::scripts::without_name;
use crate::app::workspace::{OverlayView, WorkspaceView};
use crate::app::AppView;
use crate::db::QueryResultView;
use crate::storage::Settings;
use crate::text::{contains_text, occurs_at};
use crate::ui::{
    cell_span, dialog_question, explorer_spans, field_text, fitting_columns, flattened,
    measured_width, row_field, sql_pane_title,
};

verus! {

/// An unmarked cell shows its own value on one line, and a cell without a value shows NULL. A cell of a new row
/// that keeps its default shows DEFAULT.
pub proof fn cells_show_their_value(workspace: WorkspaceView, row: int, column: int)
    requires
        0 <= row < workspace.result.rows.len(),
        0 <= column < workspace.result.rows[row].len(),
    ensures
        ({
            let value = workspace.result.rows[row][column];
            let shown = cell_span(workspace, row, column).text;
            let defaults = workspace.edits.defaults(row);
            let kept = defaults is Some && column < defaults->Some_0.len()
                && defaults->Some_0[column];
            &&& !kept && value is Some ==> shown == flattened(value->Some_0)
            &&& !kept && value is None ==> shown == "NULL"@
            &&& kept && !workspace.edits.deletes(row) ==> shown == "DEFAULT"@
        }),
{
}

/// A field of an open row stands under the name of its own column, with its own value.
pub proof fn fields_show_their_column(form: RowDetailView, index: int)
    requires
        0 <= index < form.columns.len(),
        form.columns.len() == form.values.len(),
        form.values.len() == form.defaults.len(),
    ensures
        row_field(form, index).len() == 2,
        row_field(form, index)[0].text.len() >= form.columns[index].len() && row_field(
            form,
            index,
        )[0].text.skip(row_field(form, index)[0].text.len() - form.columns[index].len())
            == form.columns[index],
        form.defaults[index] ==> row_field(form, index)[1].text == "  "@ + "DEFAULT"@,
        !form.defaults[index] && form.values[index] is Some ==> row_field(form, index)[1].text
            == "  "@ + flattened(form.values[index]->Some_0),
        !form.defaults[index] && form.values[index] is None ==> row_field(form, index)[1].text
            == "  "@ + "NULL"@,
{
    let text = row_field(form, index)[0].text;
    assert(text.skip(text.len() - form.columns[index].len()) =~= form.columns[index]);
}

/// A node is shown by its own label behind its indentation, and a table by its own name and kind.
pub proof fn nodes_show_their_label(
    row: ExplorerRowView,
    indentation: Seq<char>,
    prefix: Seq<char>,
    connected: bool,
)
    ensures
        explorer_spans(row, indentation, prefix, connected)[0].text == indentation + prefix,
        row.node matches ExplorerNodeView::Table(table) ==> explorer_spans(
            row,
            indentation,
            prefix,
            connected,
        )[1].text == table.name && explorer_spans(row, indentation, prefix, connected)[2].text
            == "  ["@ + table.kind + "]"@,
        !(row.node is Table) ==> explorer_spans(row, indentation, prefix, connected).last().text
            == row.label,
{
}

/// The columns that show follow each other from the first on, each at most as wide as it measures and all of
/// them within the room there is.
pub proof fn shown_columns_follow_each_other(
    result: QueryResultView,
    start: nat,
    first: bool,
    used: int,
    available: int,
    k: int,
)
    requires
        result.columns.len() <= usize::MAX,
        1 <= available <= u16::MAX,
        0 <= used,
        0 <= k < fitting_columns(result, start, first, used, available).len(),
    ensures
        fitting_columns(result, start, first, used, available)[k].0 == start + k,
        start + k < result.columns.len(),
        fitting_columns(result, start, first, used, available)[k].1 <= measured_width(
            result,
            start + k,
        ),
        fitting_columns(result, start, first, used, available)[k].1 <= available,
    decreases result.columns.len() - start,
{
    let shown = fitting_columns(result, start, first, used, available);
    if k > 0 {
        let measured = measured_width(result, start as int);
        let width = if first && measured > available {
            available
        } else {
            measured
        };
        let next = used + (if first {
            0int
        } else {
            1
        }) + width;
        let rest = fitting_columns(result, (start + 1) as nat, false, next, available);
        assert(shown =~= seq![(start as usize, width as u16)] + rest);
        shown_columns_follow_each_other(
            result,
            (start + 1) as nat,
            false,
            next,
            available,
            k - 1,
        );
        assert(shown[k] == rest[k - 1]);
    }
}

/// The title of the SQL pane names the shown database and, where it exists, its profile by name.
pub proof fn titles_name_the_target(app: AppView, profile_id: Seq<char>, database: Seq<char>)
    requires
        app.active_target == Some((profile_id, database)),
    ensures
        contains_text(sql_pane_title(app), database),
        app.profile(profile_id) matches Some(profile) ==> contains_text(
            sql_pane_title(app),
            profile.name + "/"@ + database,
        ),
{
    let title = sql_pane_title(app);
    let name = match app.profile(profile_id) {
        Some(profile) => profile.name,
        None => profile_id,
    };
    let front = " SQL · "@;
    let target = front + name + "/"@ + database;
    let whole = name + "/"@ + database;
    let at = front.len() as int;
    let end = at + whole.len();
    assert(title.subrange(at, end) =~= whole);
    assert(occurs_at(title, whole, at));
    let from = end - database.len();
    assert(title.subrange(from, end) =~= database);
    assert(occurs_at(title, database, from));
}

/// Each field of the connection form shows its own text; only the password is masked, one mark per character.
pub proof fn form_fields_show_their_text(form: ConnectionFormView, field: ConnectionField)
    requires
        form.values.len() == 10,
    ensures
        field != ConnectionField::Password && form.text(field) is Some ==> field_text(form, field)
            == form.text(field)->Some_0,
        field == ConnectionField::Password ==> field_text(form, field).len() == form.text(
            field,
        )->Some_0.len() && forall|i: int|
            0 <= i < field_text(form, field).len() ==> #[trigger] field_text(form, field)[i] == '•',
        field == ConnectionField::RequireTls ==> (field_text(form, field) == "required"@)
            == form.require_tls,
{
    reveal_strlit("required");
    reveal_strlit("disabled");
    assert("required"@[0] == 'r' && "disabled"@[0] == 'd');
}

/// A question names what it is about: the connection, the script or the sessions.
pub proof fn questions_name_their_subject(name: Seq<char>, id: Seq<char>, selected: usize)
    ensures
        dialog_question(OverlayView::ConfirmDelete { profile_id: id, name }) == Some(
            "Delete connection “"@ + name + "”?"@,
        ),
        dialog_question(OverlayView::ConfirmDeleteScript { name, selected }) == Some(
            "Delete script “"@ + name + ".sql”?"@,
        ),
{
}

/// Each preference switches itself and no other, and switching twice changes nothing.
pub proof fn preferences_switch_themselves(draft: Settings, selected: usize)
    requires
        selected < 3,
    ensures
        ({
            let next = switched_setting(draft, selected);
            &&& (next.show_all_databases != draft.show_all_databases) == (selected == 0)
            &&& (next.show_system_schemas != draft.show_system_schemas) == (selected == 1)
            &&& (next.show_utility_schemas != draft.show_utility_schemas) == (selected == 2)
            &&& switched_setting(next, selected) == draft
        }),
{
}

/// Saved preferences are those of the dialog.
pub proof fn saved_preferences_take_effect(app: AppView, draft: Settings, selected: usize)
    requires
        app.workspace.overlay == Some(OverlayView::Settings { draft, selected }),
    ensures
        app.settings_saved(Ok(())).settings == draft,
        app.settings_saved(Ok(())).workspace.overlay is None,
{
}

/// A deleted script leaves the list, and every other script stays in it.
pub proof fn deleted_scripts_leave_the_list(names: Seq<Seq<char>>, name: Seq<char>, other: Seq<char>)
    ensures
        !without_name(names, name).contains(name),
        other != name ==> (without_name(names, name).contains(other) <==> names.contains(other)),
    decreases names.len(),
{
    if names.len() > 0 {
        let front = names.drop_last();
        deleted_scripts_leave_the_list(front, name, other);
        let kept = without_name(front, name);
        let all = without_name(names, name);
        if all.contains(name) {
            let k = choose|k: int| 0 <= k < all.len() && all[k] == name;
            assert(kept[k] == name);
        }
        if other != name {
            if names.contains(other) {
                let k = choose|k: int| 0 <= k < names.len() && names[k] == other;
                if k < front.len() {
                    assert(front[k] == other);
                    let m = choose|m: int| 0 <= m < kept.len() && kept[m] == other;
                    assert(all[m] == other);
                } else {
                    assert(all[kept.len() as int] == other);
                }
            }
            if all.contains(other) {
                let k = choose|k: int| 0 <= k < all.len() && all[k] == other;
                if k < kept.len() {
                    assert(kept[k] == other);
                    let m = choose|m: int| 0 <= m < front.len() && front[m] == other;
                    assert(names[m] == other);
                } else {
                    assert(names[names.len() - 1] == other);
                }
            }
        }
    }
}

} // verus!
