//! Key presses as the library reads them.
use vstd::prelude::*;

verus! {

/// The keys that mean something here; every other key is `Other`.
#[derive(Clone, Copy, Debug, PartialEq, Eq, Structural)]
pub enum KeyCode {
    Char(char),
    F(u8),
    Enter,
    Esc,
    Tab,
    BackTab,
    Backspace,
    Insert,
    Delete,
    Up,
    Down,
    Left,
    Right,
    Home,
    End,
    PageUp,
    PageDown,
    Other,
}

/// The keys that are held down with another.
#[derive(Clone, Copy, Debug, PartialEq, Eq, Structural)]
pub struct KeyModifiers {
    pub control: bool,
    pub alt: bool,
    pub shift: bool,
    /// Any of super, hyper and meta.
    pub other: bool,
}

impl KeyModifiers {
    /// No modifier at all.
    pub open spec fn empty(self) -> bool {
        !self.control && !self.alt && !self.shift && !self.other
    }

    /// Whether no modifier is held.
    pub fn is_empty(&self) -> (empty: bool)
        ensures
            empty == self.empty(),
    {
        !self.control && !self.alt && !self.shift && !self.other
    }
}

/// One key press.
#[derive(Clone, Copy, Debug, PartialEq, Eq, Structural)]
pub struct KeyEvent {
    pub code: KeyCode,
    pub modifiers: KeyModifiers,
}

impl KeyEvent {
    /// A key press with its modifiers.
    pub fn new(code: KeyCode, modifiers: KeyModifiers) -> (key: KeyEvent)
        ensures
            key == (KeyEvent { code, modifiers }),
    {
        KeyEvent { code, modifiers }
    }

    /// Whether this is a character with the control key.
    pub open spec fn is_control(self, c: char) -> bool {
        self.modifiers.control && self.code == KeyCode::Char(c)
    }

    /// Whether this is a character with the control key.
    pub fn control(&self, c: char) -> (result: bool)
        ensures
            result == self.is_control(c),
    {
        self.modifiers.control && self.code == KeyCode::Char(c)
    }

    /// Whether the shift key is held; BackTab is Tab with it.
    pub open spec fn shifts(self) -> bool {
        self.modifiers.shift || self.code == KeyCode::BackTab
    }

    /// F5 works on legacy terminals; Ctrl+Enter works with enhanced keyboard reporting.
    pub open spec fn runs_sql(self) -> bool {
        self.code == KeyCode::F(5) || (self.code == KeyCode::Enter && self.modifiers.control)
    }
}

/// Whether a key runs the SQL text.
pub fn is_run_key(key: KeyEvent) -> (result: bool)
    ensures
        result == key.runs_sql(),
{
    key.code == KeyCode::F(5) || (key.code == KeyCode::Enter && key.modifiers.control)
}

} // verus!
