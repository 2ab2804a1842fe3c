//! Keyboard input as the interactive components see it.
use vstd::prelude::*;

verus! {

/// A key on the keyboard.
#[derive(Debug, Clone, Copy, PartialEq, Eq, Structural)]
pub enum KeyCode {
    Char(char),
    Enter,
    Esc,
    Up,
    Down,
    Left,
    Right,
    Backspace,
    Delete,
    Tab,
    PageUp,
    PageDown,
    Home,
    End,
    /// Any key the components do not react to.
    Other,
}

/// Modifier keys held with a key.
#[derive(Debug, Clone, Copy, PartialEq, Eq, Structural)]
pub struct KeyModifiers {
    pub shift: bool,
    pub control: bool,
    pub alt: bool,
}

/// A key press with its modifiers.
#[derive(Debug, Clone, Copy, PartialEq, Eq, Structural)]
pub struct KeyInput {
    pub code: KeyCode,
    pub modifiers: KeyModifiers,
}

impl KeyModifiers {
    /// No modifier held.
    pub open spec fn is_none(self) -> bool {
        !self.shift && !self.control && !self.alt
    }

    /// Control alone.
    pub open spec fn is_control_only(self) -> bool {
        !self.shift && self.control && !self.alt
    }

    /// Shift alone.
    pub open spec fn is_shift_only(self) -> bool {
        self.shift && !self.control && !self.alt
    }

    /// No modifier held.
    pub fn none() -> (r: Self)
        ensures
            r.is_none(),
    {
        KeyModifiers { shift: false, control: false, alt: false }
    }

    /// Control alone.
    pub fn control() -> (r: Self)
        ensures
            r.is_control_only(),
    {
        KeyModifiers { shift: false, control: true, alt: false }
    }

    /// Shift alone.
    pub fn shift() -> (r: Self)
        ensures
            r.is_shift_only(),
    {
        KeyModifiers { shift: true, control: false, alt: false }
    }

    /// Whether no modifier is held.
    pub fn plain(&self) -> (r: bool)
        ensures
            r == self.is_none(),
    {
        !self.shift && !self.control && !self.alt
    }

    /// Whether control alone is held.
    pub fn control_only(&self) -> (r: bool)
        ensures
            r == self.is_control_only(),
    {
        !self.shift && self.control && !self.alt
    }

    /// Whether shift alone is held.
    pub fn shift_only(&self) -> (r: bool)
        ensures
            r == self.is_shift_only(),
    {
        self.shift && !self.control && !self.alt
    }
}

impl KeyInput {
    /// A key pressed without modifiers.
    pub fn plain(code: KeyCode) -> (r: Self)
        ensures
            r.code == code,
            r.modifiers.is_none(),
    {
        KeyInput { code, modifiers: KeyModifiers::none() }
    }

    /// A key pressed with control alone.
    pub fn with_control(code: KeyCode) -> (r: Self)
        ensures
            r.code == code,
            r.modifiers.is_control_only(),
    {
        KeyInput { code, modifiers: KeyModifiers::control() }
    }

    /// A key pressed with shift alone.
    pub fn with_shift(code: KeyCode) -> (r: Self)
        ensures
            r.code == code,
            r.modifiers.is_shift_only(),
    {
        KeyInput { code, modifiers: KeyModifiers::shift() }
    }
}

} // verus!
