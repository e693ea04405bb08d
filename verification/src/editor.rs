//! Multiline text editors.
use ratatui_textarea::{CursorMove, Input, Key, TextArea};
use vstd::prelude::*;

use crate::keys::{KeyCode, KeyEvent};
use crate::text::{lines_of, split_lines};

verus! {

/// A plain multiline editor: the text area of `ratatui_textarea`, with lines of text, a cursor, a
/// selection and an edit history. The area is public so that a front end can draw it.
#[verifier::external_body]
pub struct TextEditor {
    pub area: TextArea<'static>,
}

/// The lines that an editor holds.
pub uninterp spec fn editor_lines(editor: TextEditor) -> Seq<Seq<char>>;

/// The line and the character in it at which an editor's cursor stands.
pub uninterp spec fn editor_cursor(editor: TextEditor) -> (int, int);

/// Whether an editor has a selection.
pub uninterp spec fn editor_selecting(editor: TextEditor) -> bool;

/// What else an editor remembers, as one number: where its selection began, its edit history and the text
/// that was last cut or copied.
pub uninterp spec fn editor_memory(editor: TextEditor) -> int;

/// What an editor holds: its lines, its cursor as a line and a character, whether text is selected, and
/// what it remembers.
pub ghost struct EditorView {
    pub lines: Seq<Seq<char>>,
    pub cursor: (int, int),
    pub selecting: bool,
    pub memory: int,
}

/// What a key makes of an editor, and whether the key counts as a modification.
pub uninterp spec fn key_effect(
    before: EditorView,
    code: KeyCode,
    control: bool,
    alt: bool,
    shift: bool,
) -> (EditorView, bool);

impl View for TextEditor {
    type V = EditorView;

    open spec fn view(&self) -> EditorView {
        EditorView {
            lines: editor_lines(*self),
            cursor: editor_cursor(*self),
            selecting: editor_selecting(*self),
            memory: editor_memory(*self),
        }
    }
}

impl DeepView for TextEditor {
    type V = EditorView;

    open spec fn deep_view(&self) -> EditorView {
        self@
    }
}

impl EditorView {
    /// Whether the cursor stands in the text.
    pub open spec fn in_text(self) -> bool {
        0 <= self.cursor.0 < self.lines.len() && 0 <= self.cursor.1
            <= self.lines[self.cursor.0].len()
    }

    /// Whether two editors show the same, whatever they remember.
    pub open spec fn shows(self, other: EditorView) -> bool {
        self.lines == other.lines && self.cursor == other.cursor && self.selecting
            == other.selecting
    }

    /// The editor with a character typed at the cursor.
    pub open spec fn insert(self, c: char) -> EditorView {
        let (row, column) = self.cursor;
        EditorView {
            lines: self.lines.update(row, self.lines[row].insert(column, c)),
            cursor: (row, column + 1),
            selecting: false,
            ..self
        }
    }

    /// The editor with its line broken at the cursor.
    pub open spec fn break_line(self) -> EditorView {
        let (row, column) = self.cursor;
        let line = self.lines[row];
        EditorView {
            lines: self.lines.update(row, line.take(column)).insert(row + 1, line.skip(column)),
            cursor: (row + 1, 0),
            selecting: false,
            ..self
        }
    }

    /// The editor without the character before the cursor; at the start of a line the line joins the
    /// one before it.
    pub open spec fn erase(self) -> EditorView {
        let (row, column) = self.cursor;
        if column > 0 {
            EditorView {
                lines: self.lines.update(row, self.lines[row].remove(column - 1)),
                cursor: (row, column - 1),
                selecting: false,
                ..self
            }
        } else if row > 0 {
            let earlier = self.lines[row - 1];
            EditorView {
                lines: self.lines.update(row - 1, earlier + self.lines[row]).remove(row),
                cursor: (row - 1, earlier.len() as int),
                selecting: false,
                ..self
            }
        } else {
            self
        }
    }
}

/// The keys that only move the cursor, or do nothing.
pub open spec fn keeps_text(code: KeyCode) -> bool {
    match code {
        KeyCode::Up | KeyCode::Down | KeyCode::Left | KeyCode::Right | KeyCode::Home | KeyCode::End
        | KeyCode::PageUp | KeyCode::PageDown | KeyCode::Esc | KeyCode::Insert | KeyCode::Other
        | KeyCode::F(_) => true,
        _ => false,
    }
}

/// The keys that scroll. Where they leave the cursor depends on how the editor was last drawn.
pub open spec fn scrolls(code: KeyCode, control: bool, alt: bool) -> bool {
    code == KeyCode::PageUp || code == KeyCode::PageDown || (code == KeyCode::Char('v') && control
        != alt)
}

/// The keys that edit at the cursor in the plainest way.
pub open spec fn edits_plainly(code: KeyCode, before: EditorView, after: EditorView) -> bool {
    match code {
        KeyCode::Char(c) => c != '\n' && c != '\r' ==> after.shows(before.insert(c)),
        KeyCode::Enter => after.shows(before.break_line()),
        KeyCode::Backspace => after.shows(before.erase()),
        _ => true,
    }
}

/// What a key does to an editor. The effect is that of the text area; only a key that scrolls leaves the
/// cursor open. Movement keeps the text, and as long as nothing is selected characters, line breaks and
/// Backspace edit at the cursor.
pub open spec fn types(before: EditorView, key: KeyEvent, after: EditorView) -> bool {
    let control = key.modifiers.control;
    let alt = key.modifiers.alt;
    &&& !scrolls(key.code, control, alt) ==> after == key_effect(
        before,
        key.code,
        control,
        alt,
        key.shifts(),
    ).0
    &&& keeps_text(key.code) || scrolls(key.code, control, alt) ==> after.lines == before.lines
    &&& !control && !alt && !before.selecting && before.in_text() ==> edits_plainly(
        key.code,
        before,
        after,
    )
}

/// Whether a key counts as a modification.
pub open spec fn reports_change(before: EditorView, key: KeyEvent) -> bool {
    !scrolls(key.code, key.modifiers.control, key.modifiers.alt) && key_effect(
        before,
        key.code,
        key.modifiers.control,
        key.modifiers.alt,
        key.shifts(),
    ).1
}

/// `TextArea::new`: the area holds the lines, or one empty line where there is none. The cursor stands
/// at the start, nothing is selected, and nothing is remembered, which counts as zero.
#[verifier::external_body]
fn new_area(lines: Vec<String>) -> (editor: TextEditor)
    ensures
        editor_lines(editor) == (if lines@.len() == 0 {
            seq![Seq::<char>::empty()]
        } else {
            lines.deep_view()
        }),
        editor_cursor(editor) == (0int, 0int),
        !editor_selecting(editor),
        editor_memory(editor) == 0,
{
    TextEditor { area: TextArea::new(lines) }
}

/// `TextArea::lines`: the lines that the area holds.
#[verifier::external_body]
fn lines_in(editor: &TextEditor) -> (lines: Vec<String>)
    ensures
        lines.deep_view() == editor_lines(*editor),
{
    editor.area.lines().to_vec()
}

/// `TextArea::move_cursor` to the last line and then to its end, where nothing is selected. The text stays
/// as it is, and so does what the area remembers.
#[verifier::external_body]
fn move_to_end(editor: &mut TextEditor)
    requires
        editor_lines(*old(editor)).len() > 0,
        !editor_selecting(*old(editor)),
    ensures
        final(editor)@ == (EditorView {
            cursor: (
                editor_lines(*old(editor)).len() - 1,
                editor_lines(*old(editor)).last().len() as int,
            ),
            ..old(editor)@
        }),
{
    editor.area.move_cursor(CursorMove::Bottom);
    editor.area.move_cursor(CursorMove::End);
}

/// `TextArea::input`. Function keys, Escape and Insert are handed over as the null key, to which the area
/// does not react, as it does not react to them. Unless the key scrolls, the effect is a function of the
/// text, the cursor, what the area remembers and the key. Movement and scrolling keep the text.
/// Characters, line breaks and Backspace edit at the cursor as long as nothing is selected. A false result
/// says that the text stayed as it was, as far as nothing was selected.
#[verifier::external_body]
fn feed(editor: &mut TextEditor, code: KeyCode, ctrl: bool, alt: bool, shift: bool) -> (modified:
    bool)
    ensures
        !scrolls(code, ctrl, alt) ==> (final(editor)@, modified) == key_effect(
            old(editor)@,
            code,
            ctrl,
            alt,
            shift,
        ),
        scrolls(code, ctrl, alt) ==> !modified,
        keeps_text(code) || scrolls(code, ctrl, alt) ==> editor_lines(*final(editor))
            == editor_lines(*old(editor)),
        !ctrl && !alt && !old(editor)@.selecting && old(editor)@.in_text() ==> edits_plainly(
            code,
            old(editor)@,
            final(editor)@,
        ),
        !modified && !editor_selecting(*old(editor)) ==> editor_lines(*final(editor))
            == editor_lines(*old(editor)),
{
    let key = match code {
        KeyCode::Char(c) => Key::Char(c),
        KeyCode::Enter => Key::Enter, KeyCode::Backspace => Key::Backspace,
        KeyCode::Tab => Key::Tab, KeyCode::BackTab => Key::Tab,
        KeyCode::Delete => Key::Delete,
        KeyCode::Up => Key::Up, KeyCode::Down => Key::Down,
        KeyCode::Left => Key::Left, KeyCode::Right => Key::Right,
        KeyCode::Home => Key::Home, KeyCode::End => Key::End,
        KeyCode::PageUp => Key::PageUp, KeyCode::PageDown => Key::PageDown,
        _ => Key::Null,
    };
    editor.area.input(Input { key, ctrl, alt, shift })
}

/// An editor that holds lines, with its cursor at the start.
pub open spec fn editor_at_start(lines: Seq<Seq<char>>) -> EditorView {
    EditorView {
        lines: if lines.len() == 0 { seq![Seq::<char>::empty()] } else { lines },
        cursor: (0, 0),
        selecting: false,
        memory: 0,
    }
}

/// The editor of a row value: its cursor stands behind the last character, and NULL edits as the empty
/// text.
pub open spec fn value_editor(value: Option<Seq<char>>) -> EditorView {
    let lines = match value {
        Some(text) => split_lines(text),
        None => seq![Seq::<char>::empty()],
    };
    EditorView {
        lines,
        cursor: (lines.len() - 1, lines.last().len() as int),
        selecting: false,
        memory: 0,
    }
}

impl TextEditor {
    /// An editor that holds lines, with its cursor at the start.
    pub fn new(lines: Vec<String>) -> (editor: TextEditor)
        ensures
            editor@ == editor_at_start(lines.deep_view()),
    {
        assert(lines.deep_view().len() == lines@.len());
        new_area(lines)
    }

    /// The editor of a row value. Row values use a plain editor because their contents are not SQL.
    pub fn of_value(value: Option<&str>) -> (editor: TextEditor)
        ensures
            editor@ == value_editor(
                match value {
                    Some(text) => Some(text@),
                    None => None,
                },
            ),
    {
        let lines = match value {
            Some(text) => lines_of(text),
            None => {
                let mut lines: Vec<String> = Vec::new();
                lines.push(String::new());
                assert(lines.deep_view() =~= seq![Seq::<char>::empty()]);
                lines
            },
        };
        let mut editor = new_area(lines);
        move_to_end(&mut editor);
        editor
    }

    /// Takes a key press. BackTab is Tab with the shift key.
    pub fn input(&mut self, key: KeyEvent) -> (modified: bool)
        ensures
            types(old(self)@, key, final(self)@),
            modified == reports_change(old(self)@, key),
            !modified && !old(self)@.selecting ==> final(self)@.lines == old(self)@.lines,
    {
        let shift = key.modifiers.shift || key.code == KeyCode::BackTab;
        feed(self, key.code, key.modifiers.control, key.modifiers.alt, shift)
    }

    /// The lines of the text.
    pub fn lines(&self) -> (lines: Vec<String>)
        ensures
            lines.deep_view() == self@.lines,
    {
        lines_in(self)
    }
}

/// The SQL editor: a text editor whose text is highlighted as SQL.
pub struct SqlEditor {
    pub editor: TextEditor,
}

impl View for SqlEditor {
    type V = EditorView;

    open spec fn view(&self) -> EditorView {
        self.editor@
    }
}

impl SqlEditor {
    /// An editor that holds lines, with its cursor at the start.
    pub fn new(lines: Vec<String>) -> (editor: SqlEditor)
        ensures
            editor@ == editor_at_start(lines.deep_view()),
    {
        SqlEditor { editor: TextEditor::new(lines) }
    }

    /// Takes a key press.
    pub fn input(&mut self, key: KeyEvent) -> (modified: bool)
        ensures
            types(old(self)@, key, final(self)@),
            modified == reports_change(old(self)@, key),
            !modified && !old(self)@.selecting ==> final(self)@.lines == old(self)@.lines,
    {
        self.editor.input(key)
    }

    /// The canonical plain text used for execution and scripts, line by line.
    pub fn lines(&self) -> (lines: Vec<String>)
        ensures
            lines.deep_view() == self@.lines,
    {
        self.editor.lines()
    }
}

/// An editor on a whole text; the empty text has one empty line.
pub fn sql_editor(sql: &str) -> (editor: SqlEditor)
    ensures
        editor@ == editor_at_start(split_lines(sql@)),
{
    SqlEditor::new(lines_of(sql))
}

/// Typing a character and erasing it again leaves text and cursor as they were.
pub proof fn backspace_undoes_a_character(
    before: EditorView,
    character: KeyEvent,
    between: EditorView,
    backspace: KeyEvent,
    after: EditorView,
)
    requires
        before.in_text(),
        !before.selecting,
        character.code matches KeyCode::Char(c) && c != '\n' && c != '\r',
        !character.modifiers.control && !character.modifiers.alt,
        backspace.code == KeyCode::Backspace,
        !backspace.modifiers.control && !backspace.modifiers.alt,
        types(before, character, between),
        types(between, backspace, after),
    ensures
        after.shows(before),
{
    let (row, column) = before.cursor;
    let c = character.code->Char_0;
    assert(before.lines[row].insert(column, c).remove(column) =~= before.lines[row]);
    assert(between.in_text());
    assert(after.lines =~= before.lines);
}

} // verus!
