//! What the panes and dialogs show, as plain texts and styles.
use vstd::prelude::*;
use vstd::string::*;

use crate::app::explorer::{ExplorerNode, ExplorerNodeView, ExplorerRow, ExplorerRowView};
use crate::app::forms::{
    field_at, ConnectionField, ConnectionForm, ConnectionFormView, FIELD_COUNT,
};
use crate::app::input::{bounded, expansion_key};
use crate::app::row_detail::{RowDetail, RowDetailView};
use crate::app::table_edits::cell;
use crate::app::workspace::{Focus, Overlay, OverlayView, Workspace, WorkspaceView};
use crate::app::{App, AppView, NodeKey};
use crate::db::changes::RowView;
use crate::db::{QueryResult, QueryResultView};
use crate::highlight::{decimals_are_short, text_columns, text_width};
use crate::storage::Settings;
use crate::text::{
    chars_of, concat, concat3, contains, contains_text, decimal, decimal_text, lines_of, replace,
    replaced, same_text, split_lines, text_of, trim_end, trimmed_end,
};
use crate::theme::{colored_style, palette, plain_style, theme, Color, TextStyle};
use crate::value::Value;

verus! {

/// A piece of text and its style.
#[derive(Debug, PartialEq, Eq)]
pub struct Span {
    pub text: String,
    pub style: TextStyle,
}

/// What a `Span` denotes.
pub ghost struct SpanView {
    pub text: Seq<char>,
    pub style: TextStyle,
}

impl DeepView for Span {
    type V = SpanView;

    open spec fn deep_view(&self) -> SpanView {
        SpanView {
            text: self.text@,
            style: self.style,
        }
    }
}

impl Clone for Span {
    fn clone(&self) -> (copy: Span)
        ensures
            copy@ == self@,
    {
        self.duplicate()
    }
}

impl View for Span {
    type V = SpanView;

    open spec fn view(&self) -> SpanView {
        self.deep_view()
    }
}

impl Value for Span {
    fn duplicate(&self) -> (copy: Span) {
        Span {
            text: self.text.duplicate(),
            style: self.style.duplicate(),
        }
    }

    fn same(&self, other: &Span) -> (same: bool) {
        self.text.same(&other.text)
            && self.style.same(&other.style)
    }
}

/// A piece of text and its style.
pub open spec fn span(text: Seq<char>, style: TextStyle) -> SpanView {
    SpanView { text, style }
}

fn new_span(text: String, style: TextStyle) -> (span: Span)
    ensures
        span@ == (SpanView { text: text@, style }),
{
    Span { text, style }
}

/// Bold text in a colour.
pub open spec fn bold_style(color: Color) -> TextStyle {
    TextStyle { bold: true, ..colored_style(color) }
}

fn bold(color: Color) -> (style: TextStyle)
    ensures
        style == bold_style(color),
{
    TextStyle { bold: true, ..TextStyle::colored(color) }
}

/// A key and what it does.
pub type ShortcutView = (Seq<char>, Seq<char>);

fn push(list: &mut Vec<(String, String)>, key: &str, action: &str)
    ensures
        final(list).deep_view() == old(list).deep_view().push((key@, action@)),
{
    list.push((key.to_owned(), action.to_owned()));
    assert(list.deep_view() =~= old(list).deep_view().push((key@, action@)));
}

/// The keys in the preferences.
pub open spec fn settings_keys() -> Seq<ShortcutView> {
    seq![
        ("↑↓"@, "setting"@),
        ("Space"@, "toggle"@),
        ("^S"@, "save"@),
        ("Esc"@, "cancel"@),
    ]
}

fn list_settings_keys() -> (list: Vec<(String, String)>)
    ensures
        list.deep_view() == settings_keys(),
{
    let mut list: Vec<(String, String)> = Vec::new();
    push(&mut list, "↑↓", "setting");
    push(&mut list, "Space", "toggle");
    push(&mut list, "^S", "save");
    push(&mut list, "Esc", "cancel");
    assert(list.deep_view() =~= settings_keys());
    list
}

/// The keys on a toggle of the connection form.
pub open spec fn toggle_keys() -> Seq<ShortcutView> {
    seq![
        ("Space"@, "toggle"@),
        ("Tab"@, "field"@),
        ("^S"@, "save"@),
        ("Esc"@, "cancel"@),
    ]
}

fn list_toggle_keys() -> (list: Vec<(String, String)>)
    ensures
        list.deep_view() == toggle_keys(),
{
    let mut list: Vec<(String, String)> = Vec::new();
    push(&mut list, "Space", "toggle");
    push(&mut list, "Tab", "field");
    push(&mut list, "^S", "save");
    push(&mut list, "Esc", "cancel");
    assert(list.deep_view() =~= toggle_keys());
    list
}

/// The keys on a text of the connection form.
pub open spec fn field_keys() -> Seq<ShortcutView> {
    seq![
        ("Tab"@, "field"@),
        ("^S"@, "save"@),
        ("Esc"@, "cancel"@),
    ]
}

fn list_field_keys() -> (list: Vec<(String, String)>)
    ensures
        list.deep_view() == field_keys(),
{
    let mut list: Vec<(String, String)> = Vec::new();
    push(&mut list, "Tab", "field");
    push(&mut list, "^S", "save");
    push(&mut list, "Esc", "cancel");
    assert(list.deep_view() =~= field_keys());
    list
}

/// The keys for a script name.
pub open spec fn save_script_keys() -> Seq<ShortcutView> {
    seq![
        ("Enter"@, "save"@),
        ("Esc"@, "cancel"@),
    ]
}

fn list_save_script_keys() -> (list: Vec<(String, String)>)
    ensures
        list.deep_view() == save_script_keys(),
{
    let mut list: Vec<(String, String)> = Vec::new();
    push(&mut list, "Enter", "save");
    push(&mut list, "Esc", "cancel");
    assert(list.deep_view() =~= save_script_keys());
    list
}

/// The keys in the script picker.
pub open spec fn load_script_keys() -> Seq<ShortcutView> {
    seq![
        ("↑↓"@, "select"@),
        ("Enter"@, "load"@),
        ("d/Del"@, "delete"@),
        ("Esc"@, "cancel"@),
    ]
}

fn list_load_script_keys() -> (list: Vec<(String, String)>)
    ensures
        list.deep_view() == load_script_keys(),
{
    let mut list: Vec<(String, String)> = Vec::new();
    push(&mut list, "↑↓", "select");
    push(&mut list, "Enter", "load");
    push(&mut list, "d/Del", "delete");
    push(&mut list, "Esc", "cancel");
    assert(list.deep_view() =~= load_script_keys());
    list
}

/// The keys in a new row.
pub open spec fn new_row_keys() -> Seq<ShortcutView> {
    seq![
        ("Enter"@, "edit"@),
        ("^N"@, "NULL"@),
        ("^D"@, "DEFAULT"@),
        ("^S"@, "stage row"@),
        ("Esc"@, "done"@),
    ]
}

fn list_new_row_keys() -> (list: Vec<(String, String)>)
    ensures
        list.deep_view() == new_row_keys(),
{
    let mut list: Vec<(String, String)> = Vec::new();
    push(&mut list, "Enter", "edit");
    push(&mut list, "^N", "NULL");
    push(&mut list, "^D", "DEFAULT");
    push(&mut list, "^S", "stage row");
    push(&mut list, "Esc", "done");
    assert(list.deep_view() =~= new_row_keys());
    list
}

/// The keys while a field is edited.
pub open spec fn edited_row_keys() -> Seq<ShortcutView> {
    seq![
        ("Esc"@, "done"@),
        ("^N"@, "toggle NULL"@),
        ("^S"@, "stage row"@),
    ]
}

fn list_edited_row_keys() -> (list: Vec<(String, String)>)
    ensures
        list.deep_view() == edited_row_keys(),
{
    let mut list: Vec<(String, String)> = Vec::new();
    push(&mut list, "Esc", "done");
    push(&mut list, "^N", "toggle NULL");
    push(&mut list, "^S", "stage row");
    assert(list.deep_view() =~= edited_row_keys());
    list
}

/// The keys in a row that cannot be edited.
pub open spec fn frozen_row_keys() -> Seq<ShortcutView> {
    seq![
        ("↑↓"@, "field"@),
        ("Esc"@, "close"@),
    ]
}

fn list_frozen_row_keys() -> (list: Vec<(String, String)>)
    ensures
        list.deep_view() == frozen_row_keys(),
{
    let mut list: Vec<(String, String)> = Vec::new();
    push(&mut list, "↑↓", "field");
    push(&mut list, "Esc", "close");
    assert(list.deep_view() =~= frozen_row_keys());
    list
}

/// The keys in a row that can be edited.
pub open spec fn open_row_keys() -> Seq<ShortcutView> {
    seq![
        ("↑↓"@, "field"@),
        ("Enter"@, "edit"@),
        ("^N"@, "toggle NULL"@),
        ("^S"@, "stage row"@),
        ("Esc"@, "close"@),
    ]
}

fn list_open_row_keys() -> (list: Vec<(String, String)>)
    ensures
        list.deep_view() == open_row_keys(),
{
    let mut list: Vec<(String, String)> = Vec::new();
    push(&mut list, "↑↓", "field");
    push(&mut list, "Enter", "edit");
    push(&mut list, "^N", "toggle NULL");
    push(&mut list, "^S", "stage row");
    push(&mut list, "Esc", "close");
    assert(list.deep_view() =~= open_row_keys());
    list
}

/// The keys for a question about deleting.
pub open spec fn delete_keys() -> Seq<ShortcutView> {
    seq![
        ("Y/Enter"@, "delete"@),
        ("N/Esc"@, "cancel"@),
    ]
}

fn list_delete_keys() -> (list: Vec<(String, String)>)
    ensures
        list.deep_view() == delete_keys(),
{
    let mut list: Vec<(String, String)> = Vec::new();
    push(&mut list, "Y/Enter", "delete");
    push(&mut list, "N/Esc", "cancel");
    assert(list.deep_view() =~= delete_keys());
    list
}

/// The keys for the question before a refresh.
pub open spec fn refresh_keys() -> Seq<ShortcutView> {
    seq![
        ("Y"@, "discard and refresh"@),
        ("N/Esc"@, "cancel"@),
    ]
}

fn list_refresh_keys() -> (list: Vec<(String, String)>)
    ensures
        list.deep_view() == refresh_keys(),
{
    let mut list: Vec<(String, String)> = Vec::new();
    push(&mut list, "Y", "discard and refresh");
    push(&mut list, "N/Esc", "cancel");
    assert(list.deep_view() =~= refresh_keys());
    list
}

/// The keys for other questions.
pub open spec fn confirm_keys() -> Seq<ShortcutView> {
    seq![
        ("Y"@, "confirm"@),
        ("N/Esc"@, "cancel"@),
    ]
}

fn list_confirm_keys() -> (list: Vec<(String, String)>)
    ensures
        list.deep_view() == confirm_keys(),
{
    let mut list: Vec<(String, String)> = Vec::new();
    push(&mut list, "Y", "confirm");
    push(&mut list, "N/Esc", "cancel");
    assert(list.deep_view() =~= confirm_keys());
    list
}

/// The keys while an operation runs.
pub open spec fn busy_keys() -> Seq<ShortcutView> {
    seq![
        ("Esc"@, "cancel"@),
        ("^PgUp/Down"@, "session"@),
        ("Tab"@, "pane"@),
        ("^Q"@, "quit"@),
        ("F2"@, "settings"@),
    ]
}

fn list_busy_keys() -> (list: Vec<(String, String)>)
    ensures
        list.deep_view() == busy_keys(),
{
    let mut list: Vec<(String, String)> = Vec::new();
    push(&mut list, "Esc", "cancel");
    push(&mut list, "^PgUp/Down", "session");
    push(&mut list, "Tab", "pane");
    push(&mut list, "^Q", "quit");
    push(&mut list, "F2", "settings");
    assert(list.deep_view() =~= busy_keys());
    list
}

/// The keys in the SQL pane.
pub open spec fn sql_keys() -> Seq<ShortcutView> {
    seq![
        ("F5/^Enter"@, "run"@),
        ("F6"@, "connect"@),
        ("F7"@, "disconnect"@),
        ("F8"@, "reconnect"@),
        ("^PgUp/Down"@, "session"@),
        ("^S"@, "save"@),
        ("^L"@, "load"@),
        ("^↑/^↓"@, "height"@),
        ("F2"@, "settings"@),
        ("Tab"@, "pane"@),
        ("^Q"@, "quit"@),
    ]
}

fn list_sql_keys() -> (list: Vec<(String, String)>)
    ensures
        list.deep_view() == sql_keys(),
{
    let mut list: Vec<(String, String)> = Vec::new();
    push(&mut list, "F5/^Enter", "run");
    push(&mut list, "F6", "connect");
    push(&mut list, "F7", "disconnect");
    push(&mut list, "F8", "reconnect");
    push(&mut list, "^PgUp/Down", "session");
    push(&mut list, "^S", "save");
    push(&mut list, "^L", "load");
    push(&mut list, "^↑/^↓", "height");
    push(&mut list, "F2", "settings");
    push(&mut list, "Tab", "pane");
    push(&mut list, "^Q", "quit");
    assert(list.deep_view() =~= sql_keys());
    list
}

/// The keys in the results of a custom query.
pub open spec fn query_keys() -> Seq<ShortcutView> {
    seq![
        ("PgUp/Dn"@, "scroll"@),
        ("↑↓"@, "rows"@),
        ("←→"@, "columns"@),
        ("e"@, "edit"@),
        ("^S"@, "save all"@),
        ("^Z"@, "discard all"@),
        ("F5"@, "rerun query"@),
        ("F2"@, "settings"@),
        ("Tab"@, "pane"@),
        ("^Q"@, "quit"@),
    ]
}

fn list_query_keys() -> (list: Vec<(String, String)>)
    ensures
        list.deep_view() == query_keys(),
{
    let mut list: Vec<(String, String)> = Vec::new();
    push(&mut list, "PgUp/Dn", "scroll");
    push(&mut list, "↑↓", "rows");
    push(&mut list, "←→", "columns");
    push(&mut list, "e", "edit");
    push(&mut list, "^S", "save all");
    push(&mut list, "^Z", "discard all");
    push(&mut list, "F5", "rerun query");
    push(&mut list, "F2", "settings");
    push(&mut list, "Tab", "pane");
    push(&mut list, "^Q", "quit");
    assert(list.deep_view() =~= query_keys());
    list
}

/// The keys in other results.
pub open spec fn results_keys() -> Seq<ShortcutView> {
    seq![
        ("PgUp/Dn"@, "scroll"@),
        ("↑↓"@, "rows"@),
        ("←→"@, "columns"@),
        ("n"@, "add"@),
        ("d"@, "delete"@),
        ("e"@, "edit"@),
        ("^S"@, "save all"@),
        ("^Z"@, "discard all"@),
        ("F5"@, "refresh"@),
        ("F2"@, "settings"@),
        ("Tab"@, "pane"@),
        ("^Q"@, "quit"@),
    ]
}

fn list_results_keys() -> (list: Vec<(String, String)>)
    ensures
        list.deep_view() == results_keys(),
{
    let mut list: Vec<(String, String)> = Vec::new();
    push(&mut list, "PgUp/Dn", "scroll");
    push(&mut list, "↑↓", "rows");
    push(&mut list, "←→", "columns");
    push(&mut list, "n", "add");
    push(&mut list, "d", "delete");
    push(&mut list, "e", "edit");
    push(&mut list, "^S", "save all");
    push(&mut list, "^Z", "discard all");
    push(&mut list, "F5", "refresh");
    push(&mut list, "F2", "settings");
    push(&mut list, "Tab", "pane");
    push(&mut list, "^Q", "quit");
    assert(list.deep_view() =~= results_keys());
    list
}

/// The keys in the explorer. One of them connects or disconnects the selected node.
pub open spec fn explorer_keys(connected: bool) -> Seq<ShortcutView> {
    seq![
        ("↑↓"@, "move"@),
        ("Enter/→"@, "open"@),
        ("←"@, "close"@),
        ("n"@, "new"@),
        ("e"@, "edit"@),
        ("d"@, "delete"@),
        (
            "c"@,
            if connected {
                "disconnect"@
            } else {
                "connect"@
            },
        ),
        ("^←/^→"@, "width"@),
        ("F2"@, "settings"@),
        ("Tab"@, "pane"@),
        ("^Q"@, "quit"@),
    ]
}

fn list_explorer_keys(connected: bool) -> (list: Vec<(String, String)>)
    ensures
        list.deep_view() == explorer_keys(connected),
{
    let mut list: Vec<(String, String)> = Vec::new();
    push(&mut list, "↑↓", "move");
    push(&mut list, "Enter/→", "open");
    push(&mut list, "←", "close");
    push(&mut list, "n", "new");
    push(&mut list, "e", "edit");
    push(&mut list, "d", "delete");
    push(
        &mut list,
        "c",
        if connected {
            "disconnect"
        } else {
            "connect"
        },
    );
    push(&mut list, "^←/^→", "width");
    push(&mut list, "F2", "settings");
    push(&mut list, "Tab", "pane");
    push(&mut list, "^Q", "quit");
    assert(list.deep_view() =~= explorer_keys(connected));
    list
}

/// The keys of a dialog.
pub open spec fn dialog_keys(overlay: OverlayView) -> Seq<ShortcutView> {
    match overlay {
        OverlayView::Settings { .. } => settings_keys(),
        OverlayView::Connection(form) => if form.selected().position() is None {
            toggle_keys()
        } else {
            field_keys()
        },
        OverlayView::SaveScript { .. } => save_script_keys(),
        OverlayView::LoadScript { .. } => load_script_keys(),
        OverlayView::RowDetail(form) => if form.is_new && form.editable() {
            new_row_keys()
        } else if form.editing {
            edited_row_keys()
        } else if !form.editable() {
            frozen_row_keys()
        } else {
            open_row_keys()
        },
        OverlayView::ConfirmDelete { .. } => delete_keys(),
        OverlayView::ConfirmDeleteScript { .. } => delete_keys(),
        OverlayView::ConfirmRefresh => refresh_keys(),
        OverlayView::ConfirmSession(_) => confirm_keys(),
        OverlayView::ConfirmExplorerDisconnect { .. } => confirm_keys(),
    }
}

/// The keys that apply now: those of the dialog, of a running operation, or of the focused pane.
pub open spec fn active_keys(app: AppView) -> Seq<ShortcutView> {
    let workspace = app.workspace;
    if workspace.overlay is Some {
        dialog_keys(workspace.overlay->Some_0)
    } else if workspace.busy is Some {
        busy_keys()
    } else {
        match workspace.focus {
            Focus::Explorer => explorer_keys(app.scope_connected()),
            Focus::Sql => sql_keys(),
            Focus::Results => if workspace.refresh_query is Some || (workspace.result.source is Some
                && workspace.result.source->Some_0.query is Some) {
                query_keys()
            } else {
                results_keys()
            },
        }
    }
}

fn dialog_shortcuts(overlay: &Overlay) -> (list: Vec<(String, String)>)
    requires
        overlay@.valid(),
    ensures
        list.deep_view() == dialog_keys(overlay@),
{
    match overlay {
        Overlay::Settings { .. } => list_settings_keys(),
        Overlay::Connection(form) => {
            if form.selected_field().is_toggle() {
                list_toggle_keys()
            } else {
                list_field_keys()
            }
        },
        Overlay::SaveScript { .. } => list_save_script_keys(),
        Overlay::LoadScript { .. } => list_load_script_keys(),
        Overlay::RowDetail(form) => {
            if form.is_new && form.row_is_editable() {
                list_new_row_keys()
            } else if form.editing {
                list_edited_row_keys()
            } else if !form.row_is_editable() {
                list_frozen_row_keys()
            } else {
                list_open_row_keys()
            }
        },
        Overlay::ConfirmDelete { .. } => list_delete_keys(),
        Overlay::ConfirmDeleteScript { .. } => list_delete_keys(),
        Overlay::ConfirmRefresh => list_refresh_keys(),
        Overlay::ConfirmSession(_) => list_confirm_keys(),
        Overlay::ConfirmExplorerDisconnect { .. } => list_confirm_keys(),
    }
}

/// Shows only actions that apply to the active pane or dialog.
pub fn shortcuts(app: &App) -> (list: Vec<(String, String)>)
    requires
        app@.valid(),
    ensures
        list.deep_view() == active_keys(app@),
{
    if let Some(overlay) = &app.workspace.overlay {
        return dialog_shortcuts(overlay);
    }
    if app.workspace.busy.is_some() {
        return list_busy_keys();
    }
    match app.workspace.focus {
        Focus::Explorer => list_explorer_keys(app.selected_connection_is_connected()),
        Focus::Sql => list_sql_keys(),
        Focus::Results => {
            let custom = match &app.workspace.result.source {
                Some(source) => source.query.is_some(),
                None => false,
            };
            if app.workspace.refresh_query.is_some() || custom {
                list_query_keys()
            } else {
                list_results_keys()
            }
        },
    }
}

/// A list of keys as one line: accented keys and quiet actions.
pub open spec fn keys_line(keys: Seq<ShortcutView>) -> Seq<SpanView>
    decreases keys.len(),
{
    if keys.len() == 0 {
        Seq::empty()
    } else {
        let rest = keys_line(keys.drop_last());
        let entry = seq![
            span(keys.last().0, bold_style(palette().accent)),
            span(" "@, plain_style()),
            span(keys.last().1, colored_style(palette().muted)),
        ];
        if keys.len() == 1 {
            entry
        } else {
            rest + seq![span("  "@, plain_style())] + entry
        }
    }
}

fn push_span(line: &mut Vec<Span>, text: String, style: TextStyle)
    ensures
        final(line).deep_view() == old(line).deep_view().push(span(text@, style)),
{
    line.push(Span { text, style });
    assert(line.deep_view() =~= old(line).deep_view().push(span(text@, style)));
}

/// A list of keys as one line.
pub fn shortcut_line(shortcuts: &Vec<(String, String)>) -> (line: Vec<Span>)
    ensures
        line.deep_view() == keys_line(shortcuts.deep_view()),
{
    let ghost all = shortcuts.deep_view();
    let mut line: Vec<Span> = Vec::new();
    let mut i: usize = 0;
    assert(line.deep_view() =~= keys_line(all.take(0)));
    while i < shortcuts.len()
        invariant
            i <= shortcuts@.len(),
            all == shortcuts.deep_view(),
            line.deep_view() == keys_line(all.take(i as int)),
        decreases shortcuts@.len() - i,
    {
        let ghost before = line.deep_view();
        proof {
            let next = all.take(i + 1);
            assert(next.drop_last() =~= all.take(i as int));
            assert(next.last() == shortcuts@[i as int].deep_view());
        }
        if i > 0 {
            push_span(&mut line, "  ".to_owned(), TextStyle::plain());
        }
        push_span(&mut line, shortcuts[i].0.clone(), bold(theme().accent));
        push_span(&mut line, " ".to_owned(), TextStyle::plain());
        push_span(&mut line, shortcuts[i].1.clone(), TextStyle::colored(theme().muted));
        assert(line.deep_view() =~= keys_line(all.take(i + 1)));
        i += 1;
    }
    assert(all.take(i as int) =~= all);
    line
}

/// The number of lines that something takes in lines of a width, rounded up.
pub open spec fn line_count(columns: int, width: int) -> int {
    (columns + width - 1) / width
}

/// The usable width of a line with one column of padding on each side.
pub open spec fn padded_width(area_width: u16) -> int {
    if area_width > 3 {
        area_width - 2
    } else {
        1
    }
}

fn usable_width(area_width: u16) -> (width: usize)
    ensures
        width == padded_width(area_width),
        width >= 1,
{
    if area_width > 3 {
        area_width as usize - 2
    } else {
        1
    }
}

fn count_lines(columns: usize, width: usize) -> (count: usize)
    requires
        width >= 1,
    ensures
        count == line_count(columns as int, width as int),
{
    let whole = columns / width;
    let rest = columns % width;
    proof {
        let c = columns as int;
        let w = width as int;
        vstd::arithmetic::div_mod::lemma_fundamental_div_mod(c, w);
        let q = c / w;
        let r = c % w;
        if r == 0 {
            vstd::arithmetic::div_mod::lemma_fundamental_div_mod_converse(
                c + w - 1,
                w,
                q,
                w - 1,
            );
        } else {
            assert(w * (q + 1) == w * q + w) by (nonlinear_arith);
            vstd::arithmetic::div_mod::lemma_fundamental_div_mod_converse(
                c + w - 1,
                w,
                q + 1,
                r - 1,
            );
            assert(q < usize::MAX) by (nonlinear_arith)
                requires
                    c == w * q + r,
                    w >= 1,
                    r > 0,
                    q >= 0,
                    c <= usize::MAX,
            ;
        }
    }
    if rest == 0 {
        whole
    } else {
        whole + 1
    }
}

/// The height of the key bar: as many lines as the keys take, within bounds.
pub open spec fn key_bar_height(columns: usize, area_width: u16) -> int {
    bounded(line_count(columns as int, padded_width(area_width)), 1, 3)
}

/// The height of the key bar, for keys that take some columns in one line.
pub fn shortcut_height(columns: usize, area_width: u16) -> (height: u16)
    ensures
        height == key_bar_height(columns, area_width),
{
    let lines = count_lines(columns, usable_width(area_width));
    if lines < 1 {
        1
    } else if lines > 3 {
        3
    } else {
        lines as u16
    }
}

/// A line without a carriage return at its end.
pub open spec fn without_return(line: Seq<char>) -> Seq<char> {
    if line.len() > 0 && line.last() == '\r' {
        line.drop_last()
    } else {
        line
    }
}

/// The lines of a text for display: a final line feed ends the last line, and a carriage return before a
/// line feed does not count.
pub open spec fn shown_lines(text: Seq<char>) -> Seq<Seq<char>> {
    let lines = split_lines(text);
    let ended = lines.drop_last().map_values(|line: Seq<char>| without_return(line));
    if lines.last().len() == 0 {
        ended
    } else {
        ended.push(lines.last())
    }
}

/// The lines that texts of some columns take in a width; an empty one takes one line.
pub open spec fn wrapped_lines(columns: Seq<usize>, width: int) -> int
    decreases columns.len(),
{
    if columns.len() == 0 {
        0
    } else {
        wrapped_lines(columns.drop_last(), width) + line_count(
            if columns.last() > 0 {
                columns.last() as int
            } else {
                1
            },
            width,
        )
    }
}

/// The height of an error whose lines take some columns: it grows, within bounds that spare the workspace.
pub open spec fn wrapped_height(columns: Seq<usize>, area_width: u16) -> int {
    bounded(wrapped_lines(columns, padded_width(area_width)), 1, 4)
}

/// The height of the status bar. Errors take as many lines as they need, within bounds.
pub open spec fn status_bar_height(workspace: WorkspaceView, area_width: u16) -> int {
    if !workspace.status_is_error {
        1
    } else {
        wrapped_height(
            shown_lines(workspace.status).map_values(|line: Seq<char>| text_columns(line)),
            area_width,
        )
    }
}

fn drop_return(line: &str) -> (text: String)
    ensures
        text@ == without_return(line@),
{
    let chars = chars_of(line);
    let count: usize = chars.len();
    if count > 0 && chars[count - 1] == '\r' {
        let text = text_of(&chars, 0, count - 1);
        assert(text@ =~= line@.drop_last());
        text
    } else {
        line.to_owned()
    }
}

fn display_lines(text: &str) -> (shown: Vec<String>)
    ensures
        shown.deep_view() == shown_lines(text@),
{
    let lines = lines_of(text);
    let ghost all = lines.deep_view();
    proof {
        crate::text::lemma_split_lines_nonempty(text@);
    }
    assert(all.len() == lines@.len());
    let last: usize = lines.len() - 1;
    let ghost ended = all.drop_last().map_values(|line: Seq<char>| without_return(line));
    let mut shown: Vec<String> = Vec::new();
    let mut i: usize = 0;
    while i < last
        invariant
            i <= last,
            last + 1 == lines@.len(),
            all == lines.deep_view(),
            ended == all.drop_last().map_values(|line: Seq<char>| without_return(line)),
            shown.deep_view() =~= ended.take(i as int),
        decreases last - i,
    {
        let ghost before = shown.deep_view();
        shown.push(drop_return(lines[i].as_str()));
        assert(shown.deep_view() =~= before.push(ended[i as int]));
        i += 1;
    }
    assert(shown.deep_view() =~= ended);
    assert(all.last() == lines@[last as int]@);
    if lines[last].as_str().unicode_len() > 0 {
        shown.push(lines[last].clone());
        assert(shown.deep_view() =~= ended.push(all.last()));
    }
    shown
}

proof fn lemma_line_count_positive(columns: int, width: int)
    requires
        columns >= 1,
        width >= 1,
    ensures
        line_count(columns, width) >= 1,
{
    assert((columns + width - 1) / width >= 1) by (nonlinear_arith)
        requires
            columns >= 1,
            width >= 1,
    ;
}

proof fn lemma_wrapped_grows(columns: Seq<usize>, width: int, count: int)
    requires
        width >= 1,
        0 <= count <= columns.len(),
    ensures
        wrapped_lines(columns, width) >= wrapped_lines(columns.take(count), width) >= 0,
    decreases columns.len(),
{
    if columns.len() > 0 {
        let last = columns.last() as int;
        lemma_line_count_positive(if last > 0 { last } else { 1 }, width);
        if count == columns.len() {
            assert(columns.take(count) =~= columns);
            assert(columns.drop_last().take(0) =~= Seq::empty());
            lemma_wrapped_grows(columns.drop_last(), width, 0);
        } else {
            assert(columns.drop_last().take(count) =~= columns.take(count));
            lemma_wrapped_grows(columns.drop_last(), width, count);
        }
    }
}

/// The height of an error whose lines take some columns.
pub fn error_height(columns: &Vec<usize>, area_width: u16) -> (height: u16)
    ensures
        height == wrapped_height(columns@, area_width),
{
    let width = usable_width(area_width);
    let mut total: u16 = 0;
    let mut i: usize = 0;
    assert(columns@.take(0) =~= Seq::empty());
    while i < columns.len()
        invariant
            i <= columns@.len(),
            width >= 1,
            width == padded_width(area_width),
            total == wrapped_lines(columns@.take(i as int), width as int),
            total <= 4,
        decreases columns@.len() - i,
    {
        let taken = count_lines(
            if columns[i] > 0 {
                columns[i]
            } else {
                1
            },
            width,
        );
        proof {
            let next = columns@.take(i + 1);
            assert(next.drop_last() =~= columns@.take(i as int));
            lemma_wrapped_grows(columns@, width as int, i + 1);
        }
        if taken > 4 || total + taken as u16 > 4 {
            return 4;
        }
        total = total + taken as u16;
        i += 1;
    }
    assert(columns@.take(i as int) =~= columns@);
    if total < 1 {
        1
    } else {
        total
    }
}

/// The height of the status bar.
pub fn status_height(workspace: &Workspace, area_width: u16) -> (height: u16)
    ensures
        height == status_bar_height(workspace@, area_width),
{
    if !workspace.status_is_error {
        return 1;
    }
    let lines = display_lines(workspace.status.as_str());
    let ghost all = lines.deep_view();
    let mut columns: Vec<usize> = Vec::new();
    let mut i: usize = 0;
    while i < lines.len()
        invariant
            i <= lines@.len(),
            all == lines.deep_view(),
            columns@.len() == i,
            forall|k: int| 0 <= k < i ==> columns@[k] == text_columns(#[trigger] all[k]),
        decreases lines@.len() - i,
    {
        let line = &lines[i];
        assert(all[i as int] == line@);
        columns.push(text_width(line.as_str()));
        i += 1;
    }
    assert(columns@ =~= all.map_values(|line: Seq<char>| text_columns(line)));
    error_height(&columns, area_width)
}

/// The status line: a mark while an operation runs, and a colour that tells errors and work apart.
pub open spec fn status_span(workspace: WorkspaceView) -> SpanView {
    span(
        if workspace.busy is Some {
            "● "@ + workspace.status
        } else {
            workspace.status
        },
        colored_style(
            if workspace.status_is_error {
                palette().red
            } else if workspace.busy is Some {
                palette().yellow
            } else {
                palette().green
            },
        ),
    )
}

/// The status line.
pub fn status_line(workspace: &Workspace) -> (line: Span)
    ensures
        line@ == status_span(workspace@),
{
    let text = if workspace.busy.is_some() {
        concat("● ", workspace.status.as_str())
    } else {
        workspace.status.clone()
    };
    let color = if workspace.status_is_error {
        theme().red
    } else if workspace.busy.is_some() {
        theme().yellow
    } else {
        theme().green
    };
    new_span(text, TextStyle::colored(color))
}

/// The expansion mark of an explorer node.
pub open spec fn expansion_mark(app: AppView, node: ExplorerNodeView) -> Seq<char> {
    match expansion_key(node) {
        Some(key) => if app.expanded.contains(key) {
            "▾ "@
        } else {
            "▸ "@
        },
        None => "  "@,
    }
}

/// The key under which a node's expansion is remembered; tables cannot be expanded.
pub fn expandable_key(node: &ExplorerNode) -> (key: Option<NodeKey>)
    ensures
        key.deep_view() == expansion_key(node@),
{
    match node {
        ExplorerNode::Connection(id) => Some(NodeKey::Connection(id.clone())),
        ExplorerNode::Database { profile_id, database } => Some(
            NodeKey::Database(profile_id.clone(), database.clone()),
        ),
        ExplorerNode::Schema { profile_id, database, schema } => Some(
            NodeKey::Schema(profile_id.clone(), database.clone(), schema.clone()),
        ),
        ExplorerNode::Table(_) => None,
    }
}

/// The expansion mark of an explorer node.
pub fn explorer_prefix(app: &App, node: &ExplorerNode) -> (mark: &'static str)
    ensures
        mark@ == expansion_mark(app@, node@),
{
    match expandable_key(node) {
        Some(key) => {
            if app.expanded.contains(&key) {
                "▾ "
            } else {
                "▸ "
            }
        },
        None => "  ",
    }
}

/// The indentation of a depth.
pub open spec fn indentation(depth: nat) -> Seq<char>
    decreases depth,
{
    if depth == 0 {
        Seq::empty()
    } else {
        indentation((depth - 1) as nat) + "  "@
    }
}

/// The indentation of a depth.
pub fn indent(depth: usize) -> (text: String)
    ensures
        text@ == indentation(depth as nat),
{
    let mut text = String::new();
    let mut i: usize = 0;
    assert(text@ =~= Seq::empty());
    while i < depth
        invariant
            i <= depth,
            text@ == indentation(i as nat),
        decreases depth - i,
    {
        text.append("  ");
        i += 1;
    }
    text
}

/// The parts of an explorer row. Levels are coloured by meaning, and shape conveys the connection even
/// without colour or bold.
pub open spec fn explorer_spans(
    row: ExplorerRowView,
    indentation: Seq<char>,
    prefix: Seq<char>,
    connected: bool,
) -> Seq<SpanView> {
    let head = span(indentation + prefix, colored_style(palette().muted));
    match row.node {
        ExplorerNodeView::Connection(_) => named_spans(
            head,
            row.label,
            palette().cyan,
            connected,
        ),
        ExplorerNodeView::Database { .. } => named_spans(
            head,
            row.label,
            palette().accent,
            connected,
        ),
        ExplorerNodeView::Schema { .. } => seq![
            head,
            span(row.label, colored_style(palette().purple)),
        ],
        ExplorerNodeView::Table(table) => seq![
            head,
            span(
                table.name,
                if contains_text(table.kind, "view"@) {
                    colored_style(palette().green)
                } else if table.kind == "foreign table"@ {
                    colored_style(palette().yellow)
                } else {
                    plain_style()
                },
            ),
            span(
                "  ["@ + table.kind + "]"@,
                TextStyle { dim: true, ..colored_style(palette().muted) },
            ),
        ],
    }
}

/// The parts of a profile's or database's row.
pub open spec fn named_spans(
    head: SpanView,
    label: Seq<char>,
    color: Color,
    connected: bool,
) -> Seq<SpanView> {
    seq![
        head,
        if connected {
            span("● "@, colored_style(palette().green))
        } else {
            span("○ "@, colored_style(palette().muted))
        },
        span(
            label,
            if connected {
                bold_style(color)
            } else {
                colored_style(color)
            },
        ),
    ]
}

/// The parts of an explorer row.
pub fn explorer_item(row: &ExplorerRow, indentation: &str, prefix: &str, connected: bool) -> (spans: Vec<
    Span,
>)
    ensures
        spans.deep_view() == explorer_spans(row@, indentation@, prefix@, connected),
{
    let mut spans: Vec<Span> = Vec::new();
    push_span(&mut spans, concat(indentation, prefix), TextStyle::colored(theme().muted));
    match &row.node {
        ExplorerNode::Schema { .. } => {
            push_span(&mut spans, row.label.clone(), TextStyle::colored(theme().purple));
        },
        ExplorerNode::Table(table) => {
            let style = if contains(table.kind.as_str(), "view") {
                TextStyle::colored(theme().green)
            } else if same_text(table.kind.as_str(), "foreign table") {
                TextStyle::colored(theme().yellow)
            } else {
                TextStyle::plain()
            };
            push_span(&mut spans, table.name.clone(), style);
            let mut quiet = TextStyle::colored(theme().muted);
            quiet.dim = true;
            push_span(&mut spans, concat3("  [", table.kind.as_str(), "]"), quiet);
        },
        node => {
            let color = match node {
                ExplorerNode::Connection(_) => theme().cyan,
                _ => theme().accent,
            };
            if connected {
                push_span(&mut spans, "● ".to_owned(), TextStyle::colored(theme().green));
                push_span(&mut spans, row.label.clone(), bold(color));
            } else {
                push_span(&mut spans, "○ ".to_owned(), TextStyle::colored(theme().muted));
                push_span(&mut spans, row.label.clone(), TextStyle::colored(color));
            }
        },
    }
    assert(spans.deep_view() =~= explorer_spans(row@, indentation@, prefix@, connected));
    spans
}

/// A connected profile or database is marked by shape and by bold alike.
pub proof fn connection_marks_agree(
    row: ExplorerRowView,
    indentation: Seq<char>,
    prefix: Seq<char>,
    connected: bool,
)
    requires
        row.node is Connection || row.node is Database,
    ensures
        explorer_spans(row, indentation, prefix, connected).len() == 3,
        explorer_spans(row, indentation, prefix, connected)[1].text == (if connected {
            "● "@
        } else {
            "○ "@
        }),
        explorer_spans(row, indentation, prefix, connected)[2].style.bold == connected,
{
}

/// The title of the SQL pane: the target, and its session state unless that is routine.
pub open spec fn sql_pane_title(app: AppView) -> Seq<char> {
    match app.active_target {
        None => " SQL · select a database target "@,
        Some((profile_id, database)) => {
            let name = match app.profile(profile_id) {
                Some(profile) => profile.name,
                None => profile_id,
            };
            let target = " SQL · "@ + name + "/"@ + database;
            if app.workspace.session_state.allows_query_edits() {
                target + " "@
            } else {
                target + " · "@ + app.workspace.session_state.text() + " "@
            }
        },
    }
}

/// The title of the SQL pane.
pub fn sql_title(app: &App) -> (title: String)
    ensures
        title@ == sql_pane_title(app@),
{
    match &app.active_target {
        None => " SQL · select a database target ".to_owned(),
        Some((profile_id, database)) => {
            let name = match app.profile(profile_id.as_str()) {
                Some(profile) => profile.name.clone(),
                None => profile_id.clone(),
            };
            let mut title = concat3(" SQL · ", name.as_str(), "/");
            title.append(database.as_str());
            if !app.workspace.session_state.permits_query_edits() {
                title.append(" · ");
                title.append(app.workspace.session_state.label());
            }
            title.append(" ");
            title
        },
    }
}

/// The title of the results pane: the known object behind the rows, and what is pending.
pub open spec fn results_pane_title(workspace: WorkspaceView) -> Seq<char> {
    let base = match workspace.result.source {
        None => " SQL results "@,
        Some(source) => " "@ + (if source.query is Some {
            "SQL results"@
        } else {
            "Results"@
        }) + " · "@ + source.table.schema + "."@ + source.table.name + " "@,
    };
    let changes = workspace.edits.count(workspace.result.rows);
    let counted = if changes > 0 {
        trimmed_end(base) + " · "@ + decimal(changes) + " pending "@
    } else {
        base
    };
    let marked = if workspace.edits.uncertain {
        trimmed_end(counted) + " · save outcome unknown "@
    } else {
        counted
    };
    if workspace.result.page is Some {
        trimmed_end(marked) + " · "@ + decimal(
            (workspace.result.rows.len() - workspace.edits.new_defaults.len()) as nat,
        ) + "+ rows "@
    } else {
        marked
    }
}

/// The title of the results pane.
pub fn results_title(workspace: &Workspace) -> (title: String)
    requires
        workspace@.valid(),
    ensures
        title@ == results_pane_title(workspace@),
{
    let mut title = match &workspace.result.source {
        None => " SQL results ".to_owned(),
        Some(source) => {
            let mut title = concat3(
                " ",
                if source.query.is_some() {
                    "SQL results"
                } else {
                    "Results"
                },
                " · ",
            );
            title.append(source.table.schema.as_str());
            title.append(".");
            title.append(source.table.name.as_str());
            title.append(" ");
            title
        },
    };
    let changes = workspace.edits.count(&workspace.result);
    if changes > 0 {
        title = trim_end(title.as_str());
        title.append(" · ");
        title.append(decimal_text(changes as u64).as_str());
        title.append(" pending ");
    }
    if workspace.edits.uncertain {
        title = trim_end(title.as_str());
        title.append(" · save outcome unknown ");
    }
    if workspace.result.page.is_some() {
        assert(workspace@.result.rows.len() == workspace.result.rows@.len());
        assert(workspace@.edits.new_defaults.len() == workspace.edits.new_defaults@.len());
        let loaded: usize = workspace.result.rows.len() - workspace.edits.new_defaults.len();
        title = trim_end(title.as_str());
        title.append(" · ");
        title.append(decimal_text(loaded as u64).as_str());
        title.append("+ rows ");
    }
    title
}

/// What the results pane shows without columns.
pub fn results_placeholder(result: &QueryResult) -> (text: String)
    ensures
        text@ == (if result@.status.len() == 0 {
            "Run SQL or select a table to see rows."@
        } else {
            result@.status
        }),
{
    if result.status.as_str().unicode_len() == 0 {
        "Run SQL or select a table to see rows.".to_owned()
    } else {
        result.status.clone()
    }
}

/// A value on one line: database values may hold line breaks and tabs, but each row stays one line.
pub open spec fn flattened(value: Seq<char>) -> Seq<char> {
    replaced(replaced(replaced(value, '\n', "↵"@), '\r', ""@), '\t', "⇥"@)
}

/// A value on one line.
pub fn one_line(value: &str) -> (text: String)
    ensures
        text@ == flattened(value@),
{
    let breaks = replace(value, '\n', "↵");
    let bare = replace(breaks.as_str(), '\r', "");
    replace(bare.as_str(), '\t', "⇥")
}

proof fn lemma_replaced_lacks(text: Seq<char>, from: char, to: Seq<char>, c: char)
    requires
        c == from || !text.contains(c),
        !to.contains(c),
    ensures
        !replaced(text, from, to).contains(c),
    decreases text.len(),
{
    let result = replaced(text, from, to);
    if text.len() > 0 {
        let front = text.drop_last();
        if front.contains(c) {
            let i = choose|i: int| 0 <= i < front.len() && front[i] == c;
            assert(text[i] == c);
        }
        lemma_replaced_lacks(front, from, to, c);
        assert(text[text.len() - 1] == text.last());
        let tail = if text.last() == from { to } else { seq![text.last()] };
        let head = replaced(front, from, to);
        assert(result == head + tail);
        if result.contains(c) {
            let i = choose|i: int| 0 <= i < result.len() && result[i] == c;
            if i < head.len() {
                assert(head[i] == c);
            } else {
                assert(tail[i - head.len()] == c);
            }
        }
    }
}

/// A value on one line holds no line break, carriage return or tab.
pub proof fn flattened_values_stay_on_one_line(value: Seq<char>)
    ensures
        !flattened(value).contains('\n'),
        !flattened(value).contains('\r'),
        !flattened(value).contains('\t'),
{
    reveal_strlit("↵");
    reveal_strlit("");
    reveal_strlit("⇥");
    let first = replaced(value, '\n', "↵"@);
    let second = replaced(first, '\r', ""@);
    lemma_replaced_lacks(value, '\n', "↵"@, '\n');
    lemma_replaced_lacks(first, '\r', ""@, '\n');
    lemma_replaced_lacks(first, '\r', ""@, '\r');
    lemma_replaced_lacks(second, '\t', "⇥"@, '\n');
    lemma_replaced_lacks(second, '\t', "⇥"@, '\r');
    lemma_replaced_lacks(second, '\t', "⇥"@, '\t');
}

/// The bounds of a column's width.
pub const MIN_COLUMN_WIDTH: usize = 8;

/// The bounds of a column's width.
pub const MAX_COLUMN_WIDTH: usize = 48;

/// The columns that a cell takes.
pub open spec fn cell_columns(value: Option<Seq<char>>) -> int {
    match value {
        Some(text) => text_columns(flattened(text)) as int,
        None => text_columns("NULL"@) as int,
    }
}

/// The widest cell of a column; rows that lack it do not count.
pub open spec fn widest_cell(rows: Seq<RowView>, index: int) -> int
    decreases rows.len(),
{
    if rows.len() == 0 {
        0
    } else {
        let earlier = widest_cell(rows.drop_last(), index);
        let row = rows.last();
        if 0 <= index < row.len() && cell_columns(row[index]) > earlier {
            cell_columns(row[index])
        } else {
            earlier
        }
    }
}

/// The width of a column whose name and widest cell take some columns: the larger of the two, with one
/// column of room, within bounds.
pub open spec fn roomy_width(header: int, widest: int) -> int {
    bounded(
        (if header > widest {
            header
        } else {
            widest
        }) + 1,
        MIN_COLUMN_WIDTH as int,
        MAX_COLUMN_WIDTH as int,
    )
}

/// The width of a column.
pub open spec fn measured_width(result: QueryResultView, index: int) -> int {
    roomy_width(text_columns(result.columns[index]) as int, widest_cell(result.rows, index))
}

/// The width of a column whose name and widest cell take some columns.
pub fn bounded_width(header: usize, widest: usize) -> (width: usize)
    ensures
        width == roomy_width(header as int, widest as int),
        MIN_COLUMN_WIDTH <= width <= MAX_COLUMN_WIDTH,
{
    let content = if header > widest {
        header
    } else {
        widest
    };
    if content < MIN_COLUMN_WIDTH {
        MIN_COLUMN_WIDTH
    } else if content >= MAX_COLUMN_WIDTH {
        MAX_COLUMN_WIDTH
    } else {
        content + 1
    }
}

/// The width of a column, in terminal columns.
pub fn column_width(result: &QueryResult, index: usize) -> (width: usize)
    requires
        index < result@.columns.len(),
    ensures
        width == measured_width(result@, index as int),
        MIN_COLUMN_WIDTH <= width <= MAX_COLUMN_WIDTH,
{
    let ghost rows = result@.rows;
    assert(result@.columns.len() == result.columns@.len());
    let header = text_width(result.columns[index].as_str());
    let mut widest: usize = 0;
    let mut i: usize = 0;
    assert(rows.take(0) =~= Seq::empty());
    while i < result.rows.len()
        invariant
            i <= result.rows@.len(),
            rows == result@.rows,
            widest == widest_cell(rows.take(i as int), index as int),
        decreases result.rows@.len() - i,
    {
        let row = &result.rows[i];
        proof {
            let next = rows.take(i + 1);
            assert(next.drop_last() =~= rows.take(i as int));
            assert(next.last() == row.deep_view());
        }
        if index < row.len() {
            let columns = match &row[index] {
                Some(text) => text_width(one_line(text.as_str()).as_str()),
                None => text_width("NULL"),
            };
            assert(columns == cell_columns(row.deep_view()[index as int]));
            if columns > widest {
                widest = columns;
            }
        }
        i += 1;
    }
    assert(rows.take(i as int) =~= rows);
    bounded_width(header, widest)
}

/// The width that a column of some measure gets behind `used` columns; none where it does not fit. The first
/// column shrinks instead.
pub open spec fn fitting_width(measured: int, first: bool, used: int, available: int) -> Option<int> {
    if first {
        Some(if measured > available { available } else { measured })
    } else if used + 1 + measured > available {
        None
    } else {
        Some(measured)
    }
}

/// The width that a column of some measure gets behind `used` columns.
pub fn fit_width(measured: usize, first: bool, used: usize, available: usize) -> (width: Option<usize>)
    ensures
        match width {
            Some(width) => fitting_width(measured as int, first, used as int, available as int)
                == Some(width as int),
            None => fitting_width(measured as int, first, used as int, available as int) is None,
        },
{
    if first {
        if measured > available {
            Some(available)
        } else {
            Some(measured)
        }
    } else if used >= available || measured >= available - used {
        None
    } else {
        Some(measured)
    }
}

/// The columns that fit from a position on, with their widths, where `used` columns are taken already. The
/// first shrinks where even it does not fit, so that one always shows.
pub open spec fn fitting_columns(
    result: QueryResultView,
    index: nat,
    first: bool,
    used: int,
    available: int,
) -> Seq<(usize, u16)>
    decreases result.columns.len() - index,
{
    if index >= result.columns.len() {
        Seq::empty()
    } else {
        let spacing = if first { 0int } else { 1 };
        match fitting_width(measured_width(result, index as int), first, used, available) {
            None => Seq::empty(),
            Some(width) => seq![(index as usize, width as u16)] + fitting_columns(
                result,
                index + 1,
                false,
                used + spacing + width,
                available,
            ),
        }
    }
}

/// The columns that fit, from a position on.
pub fn visible_columns(result: &QueryResult, start: usize, available: u16) -> (visible: Vec<(usize, u16)>)
    ensures
        visible@ == fitting_columns(
            result@,
            start as nat,
            true,
            0,
            if available > 0 {
                available as int
            } else {
                1
            },
        ),
{
    let room: usize = if available > 0 {
        available as usize
    } else {
        1
    };
    let ghost goal = fitting_columns(result@, start as nat, true, 0, room as int);
    let mut visible: Vec<(usize, u16)> = Vec::new();
    let mut used: usize = 0;
    let count: usize = result.columns.len();
    assert(result@.columns.len() == count);
    let mut index: usize = start;
    assert(visible@ + goal =~= goal);
    while index < count
        invariant
            count == result@.columns.len(),
            1 <= room <= u16::MAX,
            room == (if available > 0 {
                available as int
            } else {
                1
            }),
            goal == fitting_columns(result@, start as nat, true, 0, room as int),
            used <= room,
            index == start ==> used == 0,
            start <= index,
            index <= count || index == start,
            (visible@.len() == 0) == (index == start),
            visible@ + fitting_columns(
                result@,
                index as nat,
                index == start,
                used as int,
                room as int,
            ) == goal,
        decreases count - index,
    {
        let ghost rest = fitting_columns(
            result@,
            index as nat,
            index == start,
            used as int,
            room as int,
        );
        let ghost before = visible@;
        let measured = column_width(result, index);
        let first = index == start;
        let spacing: usize = if first {
            0
        } else {
            1
        };
        let width = match fit_width(measured, first, used, room) {
            Some(width) => width,
            None => {
                assert(visible@ =~= goal);
                return visible;
            },
        };
        used = used + spacing + width;
        visible.push((index, width as u16));
        proof {
            let tail = fitting_columns(result@, (index + 1) as nat, false, used as int, room as int);
            assert(rest == seq![(index, width as u16)] + tail);
            assert(before + rest =~= visible@ + tail);
        }
        index += 1;
    }
    assert(visible@ =~= goal);
    visible
}

/// A column always shows where there is one.
pub proof fn one_column_always_shows(result: QueryResultView, start: nat, available: int)
    requires
        start < result.columns.len(),
    ensures
        fitting_columns(result, start, true, 0, available).len() > 0,
{
}

/// The width of the gutter with row numbers.
pub open spec fn gutter_width(rows: nat) -> nat {
    let digits = decimal(
        if rows > 0 {
            rows
        } else {
            1
        },
    ).len();
    if digits > 3 {
        digits
    } else {
        3
    }
}

/// The width of the gutter with row numbers.
pub fn number_width(rows: usize) -> (width: usize)
    ensures
        width == gutter_width(rows as nat),
        width <= 20,
{
    proof {
        decimals_are_short(
            if rows > 0 {
                rows as nat
            } else {
                1
            },
        );
    }
    let text = decimal_text(
        if rows > 0 {
            rows as u64
        } else {
            1
        },
    );
    let digits = text.as_str().unicode_len();
    if digits > 3 {
        digits
    } else {
        3
    }
}

/// The colour that marks a cell: deleted and new rows first, then changed cells.
pub open spec fn mark_color(workspace: WorkspaceView, row: int, column: int) -> Option<Color> {
    if workspace.edits.deletes(row) {
        Some(palette().red)
    } else if workspace.edits.defaults(row) is Some {
        Some(palette().green)
    } else if workspace.edits.changes_cell(workspace.result.rows, row, column) {
        Some(palette().yellow)
    } else {
        None
    }
}

/// A cell of the results. NULL does not look like the text that reads the same, and the server supplies a
/// default of a new row.
pub open spec fn cell_span(workspace: WorkspaceView, row: int, column: int) -> SpanView {
    let value = match cell(workspace.result.rows, row, column) {
        Some(value) => value,
        None => None,
    };
    let defaults = workspace.edits.defaults(row);
    match mark_color(workspace, row, column) {
        Some(color) => span(
            if defaults is Some && column < defaults->Some_0.len() && defaults->Some_0[column] {
                "DEFAULT"@
            } else {
                match value {
                    Some(text) => flattened(text),
                    None => "NULL"@,
                }
            },
            bold_style(color),
        ),
        None => match value {
            Some(text) => span(flattened(text), plain_style()),
            None => span("NULL"@, TextStyle { italic: true, ..colored_style(palette().yellow) }),
        },
    }
}

fn value_text(value: Option<&str>) -> (text: String)
    ensures
        text@ == (match value {
            Some(text) => flattened(text@),
            None => "NULL"@,
        }),
{
    match value {
        Some(text) => one_line(text),
        None => "NULL".to_owned(),
    }
}

/// A cell of the results.
pub fn result_cell(workspace: &Workspace, row: usize, column: usize) -> (shown: Span)
    ensures
        shown@ == cell_span(workspace@, row as int, column as int),
{
    broadcast use vstd::std_specs::btree::group_btree_axioms;

    let rows = &workspace.result.rows;
    assert(workspace@.result.rows.len() == rows@.len());
    let value: Option<&str> = if row < rows.len() && column < rows[row].len() {
        assert(workspace@.result.rows[row as int] == rows@[row as int].deep_view());
        match &rows[row][column] {
            Some(text) => Some(text.as_str()),
            None => None,
        }
    } else {
        None
    };
    let defaults = workspace.edits.defaults(row);
    let color = if workspace.edits.deleted.contains(&row) {
        Some(theme().red)
    } else if defaults.is_some() {
        Some(theme().green)
    } else if workspace.edits.cell_changed(&workspace.result, row, column) {
        Some(theme().yellow)
    } else {
        None
    };
    match color {
        Some(color) => {
            let defaulted = match defaults {
                Some(defaults) => column < defaults.len() && defaults[column],
                None => false,
            };
            let text = if defaulted {
                "DEFAULT".to_owned()
            } else {
                value_text(value)
            };
            new_span(text, bold(color))
        },
        None => match value {
            Some(text) => new_span(one_line(text), TextStyle::plain()),
            None => {
                let mut style = TextStyle::colored(theme().yellow);
                style.italic = true;
                new_span("NULL".to_owned(), style)
            },
        },
    }
}

/// The first row that shows, so that the selected one does.
pub open spec fn first_shown_row(selected: usize, viewport: usize) -> usize {
    if viewport > 0 && selected >= viewport {
        (selected - viewport + 1) as usize
    } else {
        0
    }
}

/// The first row that shows in a viewport of some rows.
pub fn row_offset(selected: usize, viewport: usize) -> (offset: usize)
    ensures
        offset == first_shown_row(selected, viewport),
        viewport > 0 ==> offset <= selected < offset + viewport,
{
    if viewport > 0 && selected >= viewport {
        selected - viewport + 1
    } else {
        0
    }
}

/// How the results fill their pane.
pub struct ResultsLayout {
    /// The width of the gutter with row numbers.
    pub number_width: u16,
    /// The columns that show, with their widths.
    pub columns: Vec<(usize, u16)>,
    /// The first row that shows.
    pub first_row: usize,
}

/// The columns that are left beside the gutter, the borders, the mark of the selected row and the space
/// between gutter and columns.
pub open spec fn room_for_columns(area_width: u16, rows: nat) -> int {
    let taken = 5 + gutter_width(rows);
    if area_width > taken {
        area_width - taken
    } else {
        0
    }
}

/// The first column that shows: the selected one, as far as there is one.
pub open spec fn first_column(selected: usize, columns: nat) -> int {
    if columns == 0 {
        0
    } else if selected < columns {
        selected as int
    } else {
        columns - 1
    }
}

/// The rows that fit between the borders, below the header and the space under it.
pub open spec fn rows_that_fit(area_height: u16) -> usize {
    if area_height > 4 {
        (area_height - 4) as usize
    } else {
        0
    }
}

/// How the results fill a pane of some width and height.
pub fn results_layout(workspace: &Workspace, area_width: u16, area_height: u16) -> (layout:
    ResultsLayout)
    ensures
        layout.number_width == gutter_width(workspace@.result.rows.len()),
        layout.columns@ == fitting_columns(
            workspace@.result,
            first_column(workspace@.result_column, workspace@.result.columns.len()) as nat,
            true,
            0,
            if room_for_columns(area_width, workspace@.result.rows.len()) > 0 {
                room_for_columns(area_width, workspace@.result.rows.len())
            } else {
                1
            },
        ),
        layout.first_row == first_shown_row(workspace@.result_row, rows_that_fit(area_height)),
{
    let result = &workspace.result;
    assert(workspace@.result.rows.len() == result.rows@.len());
    assert(workspace@.result.columns.len() == result.columns@.len());
    let number_width: u16 = number_width(result.rows.len()) as u16;
    let taken: u16 = 5 + number_width;
    let room: u16 = if area_width > taken {
        area_width - taken
    } else {
        0
    };
    let count: usize = result.columns.len();
    let start: usize = if count == 0 {
        0
    } else if workspace.result_column < count {
        workspace.result_column
    } else {
        count - 1
    };
    let columns = visible_columns(result, start, room);
    let viewport: usize = if area_height > 4 {
        (area_height - 4) as usize
    } else {
        0
    };
    ResultsLayout { number_width, columns, first_row: row_offset(workspace.result_row, viewport) }
}

/// A label padded to a width.
pub open spec fn padded(text: Seq<char>, width: nat) -> Seq<char> {
    text + Seq::new(
        if text.len() < width {
            (width - text.len()) as nat
        } else {
            0
        },
        |i: int| ' ',
    )
}

fn pad(text: &str, width: usize) -> (result: String)
    ensures
        result@ == padded(text@, width as nat),
{
    let mut result = text.to_owned();
    let count = text.unicode_len();
    let mut i: usize = count;
    assert(result@ =~= text@ + Seq::new(0, |i: int| ' '));
    while i < width
        invariant
            count <= i,
            i <= width || i == count,
            count == text@.len(),
            result@ =~= text@ + Seq::new((i - count) as nat, |i: int| ' '),
        decreases width - i,
    {
        result.push(' ');
        i += 1;
    }
    assert(result@ =~= padded(text@, width as nat));
    result
}

/// What a field of the connection form shows; the password is masked.
pub open spec fn field_text(form: ConnectionFormView, field: ConnectionField) -> Seq<char> {
    match field {
        ConnectionField::RequireTls => if form.require_tls {
            "required"@
        } else {
            "disabled"@
        },
        ConnectionField::SshTunnel => if form.ssh_enabled {
            "enabled"@
        } else {
            "disabled"@
        },
        ConnectionField::Password => Seq::new(form.values[5].len(), |i: int| '•'),
        _ => form.text(field)->Some_0,
    }
}

fn masked(count: usize) -> (text: String)
    ensures
        text@ == Seq::new(count as nat, |i: int| '•'),
{
    let mut text = String::new();
    let mut i: usize = 0;
    while i < count
        invariant
            i <= count,
            text@ =~= Seq::new(i as nat, |i: int| '•'),
        decreases count - i,
    {
        text.push('•');
        i += 1;
    }
    text
}

/// What a field of the connection form shows.
pub fn field_value(form: &ConnectionForm, field: ConnectionField) -> (text: String)
    ensures
        text@ == field_text(form@, field),
{
    match field {
        ConnectionField::RequireTls => if form.require_tls {
            "required".to_owned()
        } else {
            "disabled".to_owned()
        },
        ConnectionField::SshTunnel => if form.ssh_enabled {
            "enabled".to_owned()
        } else {
            "disabled".to_owned()
        },
        ConnectionField::Password => masked(form.values[5].as_str().unicode_len()),
        _ => match form.value(field) {
            Some(text) => text.to_owned(),
            None => String::new(),
        },
    }
}

/// What the form shows does not depend on the characters of the password.
pub proof fn passwords_are_masked(
    form: ConnectionFormView,
    other: ConnectionFormView,
    field: ConnectionField,
)
    requires
        form.values.len() == 10,
        other == (ConnectionFormView { values: other.values, ..form }),
        other.values == form.values.update(5, other.values[5]),
        form.values[5].len() == other.values[5].len(),
    ensures
        field_text(form, field) == field_text(other, field),
{
}

/// The label of a field of the connection form.
pub fn field_label(field: ConnectionField) -> (label: String)
    ensures
        label@ == padded(field.text() + ":"@, 24),
{
    pad(concat(field.label(), ":").as_str(), 24)
}

/// The field at a position of the connection form.
pub fn form_field(index: usize) -> (field: ConnectionField)
    requires
        index < FIELD_COUNT,
    ensures
        field == field_at(index as int),
{
    match index {
        0 => ConnectionField::Name,
        1 => ConnectionField::Host,
        2 => ConnectionField::Port,
        3 => ConnectionField::Database,
        4 => ConnectionField::User,
        5 => ConnectionField::Password,
        6 => ConnectionField::RequireTls,
        7 => ConnectionField::SshTunnel,
        8 => ConnectionField::SshHost,
        9 => ConnectionField::SshPort,
        10 => ConnectionField::SshUser,
        _ => ConnectionField::SshIdentityFile,
    }
}

/// An option of the preferences: a box, a label and its scope.
pub open spec fn option_lines(enabled: bool, label: Seq<char>, description: Seq<char>) -> (
    Seq<char>,
    Seq<char>,
) {
    (
        "["@ + (if enabled {
            "x"@
        } else {
            " "@
        }) + "] "@ + label,
        "    "@ + description,
    )
}

/// The options of the preferences.
pub open spec fn settings_options(draft: Settings) -> Seq<(Seq<char>, Seq<char>)> {
    seq![
        option_lines(
            draft.show_all_databases,
            "Show all databases"@,
            "Off: only the database saved in each connection."@,
        ),
        option_lines(
            draft.show_system_schemas,
            "Show system schemas"@,
            "pg_catalog, information_schema, other pg_* schemas."@,
        ),
        option_lines(
            draft.show_utility_schemas,
            "Show utility schemas"@,
            "pg_temp_* and pg_toast* schemas."@,
        ),
    ]
}

fn push_option(list: &mut Vec<(String, String)>, enabled: bool, label: &str, description: &str)
    ensures
        final(list).deep_view() == old(list).deep_view().push(
            option_lines(enabled, label@, description@),
        ),
{
    let mut line = concat3(
        "[",
        if enabled {
            "x"
        } else {
            " "
        },
        "] ",
    );
    line.append(label);
    list.push((line, concat("    ", description)));
    assert(list.deep_view() =~= old(list).deep_view().push(
        option_lines(enabled, label@, description@),
    ));
}

/// The options of the preferences, each with its label and its scope.
pub fn settings_lines(draft: &Settings) -> (lines: Vec<(String, String)>)
    ensures
        lines.deep_view() == settings_options(*draft),
{
    let mut lines: Vec<(String, String)> = Vec::new();
    push_option(
        &mut lines,
        draft.show_all_databases,
        "Show all databases",
        "Off: only the database saved in each connection.",
    );
    push_option(
        &mut lines,
        draft.show_system_schemas,
        "Show system schemas",
        "pg_catalog, information_schema, other pg_* schemas.",
    );
    push_option(
        &mut lines,
        draft.show_utility_schemas,
        "Show utility schemas",
        "pg_temp_* and pg_toast* schemas.",
    );
    assert(lines.deep_view() =~= settings_options(*draft));
    lines
}

/// The height of the script picker.
pub fn picker_height(scripts: usize) -> (height: u16)
    ensures
        height == bounded(scripts + 2, 5, 20),
{
    if scripts < 3 {
        5
    } else if scripts > 18 {
        20
    } else {
        scripts as u16 + 2
    }
}

/// The title of a dialog.
pub open spec fn dialog_title(overlay: OverlayView) -> Seq<char> {
    match overlay {
        OverlayView::Settings { .. } => " Settings · all connections "@,
        OverlayView::Connection(form) => if form.editing_id is Some {
            " Edit connection "@
        } else {
            " New connection "@
        },
        OverlayView::SaveScript { .. } => " Save script "@,
        OverlayView::LoadScript { .. } => " Load script "@,
        OverlayView::RowDetail(form) => row_title_text(form),
        OverlayView::ConfirmRefresh => " Refresh table? "@,
        OverlayView::ConfirmExplorerDisconnect { .. } => " Disconnect "@,
        OverlayView::ConfirmSession(_) => " Close SQL session? "@,
        OverlayView::ConfirmDelete { .. } => " Confirm delete "@,
        OverlayView::ConfirmDeleteScript { .. } => " Confirm delete "@,
    }
}

/// The question of a dialog; none for those that ask nothing.
pub open spec fn dialog_question(overlay: OverlayView) -> Option<Seq<char>> {
    match overlay {
        OverlayView::ConfirmRefresh => Some(
            "Discard pending changes and refresh the original results? If the last save outcome was unknown, verify the refreshed data before editing. Y: refresh · N/Esc: keep changes"@,
        ),
        OverlayView::ConfirmExplorerDisconnect { label, .. } => Some(
            "Disconnect "@ + label
                + "? Open transactions will be rolled back; temporary tables and session settings will be lost. Y: disconnect · N/Esc: cancel"@,
        ),
        OverlayView::ConfirmSession(action) => Some(action.question()),
        OverlayView::ConfirmDelete { name, .. } => Some("Delete connection “"@ + name + "”?"@),
        OverlayView::ConfirmDeleteScript { name, .. } => Some(
            "Delete script “"@ + name + ".sql”?"@,
        ),
        _ => None,
    }
}

/// The title of an open row: its number, where it comes from, and whether it can be edited.
pub open spec fn row_title_text(form: RowDetailView) -> Seq<char> {
    " Row "@ + decimal((form.row_index + 1) as nat) + " · "@ + (match form.source {
        None => "custom result"@,
        Some(source) => source.table.schema + "."@ + source.table.name,
    }) + " · "@ + (if form.editable() {
        "editable"@
    } else {
        "read-only"@
    }) + " "@
}

/// The title of an open row.
pub fn row_title(form: &RowDetail) -> (title: String)
    ensures
        title@ == row_title_text(form@),
{
    let number = crate::text::large_decimal_text(form.row_index as u128 + 1);
    let mut title = concat3(" Row ", number.as_str(), " · ");
    let name = match &form.source {
        None => "custom result".to_owned(),
        Some(source) => concat3(source.table.schema.as_str(), ".", source.table.name.as_str()),
    };
    title.append(name.as_str());
    title.append(" · ");
    title.append(
        if form.row_is_editable() {
            "editable"
        } else {
            "read-only"
        },
    );
    title.append(" ");
    title
}

/// The title of a dialog.
pub fn overlay_title(overlay: &Overlay) -> (title: String)
    ensures
        title@ == dialog_title(overlay@),
{
    match overlay {
        Overlay::Settings { .. } => " Settings · all connections ".to_owned(),
        Overlay::Connection(form) => {
            if form.editing_id.is_some() {
                " Edit connection ".to_owned()
            } else {
                " New connection ".to_owned()
            }
        },
        Overlay::SaveScript { .. } => " Save script ".to_owned(),
        Overlay::LoadScript { .. } => " Load script ".to_owned(),
        Overlay::RowDetail(form) => row_title(&**form),
        Overlay::ConfirmRefresh => " Refresh table? ".to_owned(),
        Overlay::ConfirmExplorerDisconnect { .. } => " Disconnect ".to_owned(),
        Overlay::ConfirmSession(_) => " Close SQL session? ".to_owned(),
        Overlay::ConfirmDelete { .. } => " Confirm delete ".to_owned(),
        Overlay::ConfirmDeleteScript { .. } => " Confirm delete ".to_owned(),
    }
}

/// The question of a dialog; it names the exact target.
pub fn overlay_question(overlay: &Overlay) -> (question: Option<String>)
    ensures
        question.deep_view() == dialog_question(overlay@),
{
    match overlay {
        Overlay::ConfirmRefresh => Some(
            "Discard pending changes and refresh the original results? If the last save outcome was unknown, verify the refreshed data before editing. Y: refresh · N/Esc: keep changes".to_owned(),
        ),
        Overlay::ConfirmExplorerDisconnect { targets: _, label } => Some(
            concat3(
                "Disconnect ",
                label.as_str(),
                "? Open transactions will be rolled back; temporary tables and session settings will be lost. Y: disconnect · N/Esc: cancel",
            ),
        ),
        Overlay::ConfirmSession(action) => Some(action.confirmation().to_owned()),
        Overlay::ConfirmDelete { profile_id: _, name } => Some(
            concat3("Delete connection “", name.as_str(), "”?"),
        ),
        Overlay::ConfirmDeleteScript { name, selected: _ } => Some(
            concat3("Delete script “", name.as_str(), ".sql”?"),
        ),
        _ => None,
    }
}

/// A field of an open row: a mark for keys and fixed columns, the name, and the value.
pub open spec fn row_field(form: RowDetailView, index: int) -> Seq<SpanView> {
    let known = form.source is Some && 0 <= index < form.source->Some_0.columns.len();
    let column = form.source->Some_0.columns[index];
    let key = known && column.primary_key;
    let mark = if key {
        "◆ "@
    } else if known && !column.editable {
        "· "@
    } else {
        "  "@
    };
    let value = if index < form.defaults.len() && form.defaults[index] {
        "DEFAULT"@
    } else if index < form.values.len() && form.values[index] is Some {
        flattened(form.values[index]->Some_0)
    } else {
        "NULL"@
    };
    seq![
        span(
            mark + form.columns[index],
            bold_style(
                if key {
                    palette().accent
                } else {
                    palette().cyan
                },
            ),
        ),
        span("  "@ + value, colored_style(palette().muted)),
    ]
}

/// A field of an open row.
pub fn row_item(form: &RowDetail, index: usize) -> (spans: Vec<Span>)
    requires
        index < form@.columns.len(),
    ensures
        spans.deep_view() == row_field(form@, index as int),
{
    assert(form@.columns.len() == form.columns@.len());
    assert(form@.values.len() == form.values@.len());
    let (key, fixed) = match &form.source {
        Some(source) => {
            if index < source.columns.len() {
                let column = &source.columns[index];
                assert(source@.columns[index as int] == column@);
                (column.primary_key, !column.editable)
            } else {
                (false, false)
            }
        },
        None => (false, false),
    };
    let mark = if key {
        "◆ "
    } else if fixed {
        "· "
    } else {
        "  "
    };
    let value = if index < form.defaults.len() && form.defaults[index] {
        "DEFAULT".to_owned()
    } else if index < form.values.len() {
        match &form.values[index] {
            Some(text) => one_line(text.as_str()),
            None => "NULL".to_owned(),
        }
    } else {
        "NULL".to_owned()
    };
    let mut spans: Vec<Span> = Vec::new();
    push_span(
        &mut spans,
        concat(mark, form.columns[index].as_str()),
        bold(
            if key {
                theme().accent
            } else {
                theme().cyan
            },
        ),
    );
    push_span(&mut spans, concat("  ", value.as_str()), TextStyle::colored(theme().muted));
    assert(spans.deep_view() =~= row_field(form@, index as int));
    spans
}

/// The value of an open row's selected field: its text, or what stands for DEFAULT and NULL. The editor shows
/// in its place while the field is edited.
pub open spec fn field_span(form: RowDetailView) -> SpanView {
    if form.selected < form.defaults.len() && form.defaults[form.selected as int] {
        span("DEFAULT"@, colored_style(palette().green))
    } else {
        match form.value() {
            Some(text) => span(text, plain_style()),
            None => span("NULL"@, TextStyle { italic: true, ..colored_style(palette().yellow) }),
        }
    }
}

/// The value of an open row's selected field.
pub fn selected_field_span(form: &RowDetail) -> (shown: Span)
    ensures
        shown@ == field_span(form@),
{
    if form.selected < form.defaults.len() && form.defaults[form.selected] {
        return new_span("DEFAULT".to_owned(), TextStyle::colored(theme().green));
    }
    match form.selected_value() {
        Some(text) => new_span(text.to_owned(), TextStyle::plain()),
        None => {
            let mut style = TextStyle::colored(theme().yellow);
            style.italic = true;
            new_span("NULL".to_owned(), style)
        },
    }
}

/// The title above the value of an open row's selected field.
pub fn selected_field_title(form: &RowDetail) -> (title: String)
    ensures
        title@ == " "@ + (if form@.selected < form@.columns.len() {
            form@.columns[form@.selected as int]
        } else {
            "Value"@
        }) + " "@,
{
    assert(form@.columns.len() == form.columns@.len());
    if form.selected < form.columns.len() {
        concat3(" ", form.columns[form.selected].as_str(), " ")
    } else {
        concat3(" ", "Value", " ")
    }
}

/// Cells of deleted rows are red, those of new rows green, and changed cells yellow.
pub proof fn pending_cells_are_coloured(workspace: WorkspaceView, row: int, column: int)
    ensures
        workspace.edits.deletes(row) ==> cell_span(workspace, row, column).style.foreground == Some(
            palette().red,
        ),
        !workspace.edits.deletes(row) && workspace.edits.defaults(row) is Some ==> cell_span(
            workspace,
            row,
            column,
        ).style.foreground == Some(palette().green),
        !workspace.edits.deletes(row) && workspace.edits.defaults(row) is None
            && workspace.edits.changes_cell(workspace.result.rows, row, column) ==> cell_span(
            workspace,
            row,
            column,
        ).style.foreground == Some(palette().yellow),
{
}

/// In rows without changes NULL never looks like text, not even like the text that reads the same.
pub proof fn null_is_not_text(workspace: WorkspaceView, row: int, column: int, other: int)
    requires
        mark_color(workspace, row, column) is None,
        mark_color(workspace, row, other) is None,
        cell(workspace.result.rows, row, column) == Some(None::<Seq<char>>),
        cell(workspace.result.rows, row, other) matches Some(value) && value is Some,
    ensures
        cell_span(workspace, row, column) != cell_span(workspace, row, other),
{
}

} // verus!
