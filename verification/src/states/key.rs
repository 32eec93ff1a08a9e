//! The keys of a keyboard that can be sent to an element.

use vstd::prelude::*;

verus! {

/// A key that is not a character of text.
#[derive(Debug, Clone, Copy, PartialEq, Eq, Structural)]
pub enum Key {
    Null,
    Cancel,
    Help,
    Backspace,
    Tab,
    Clear,
    Return,
    Enter,
    Shift,
    Control,
    Alt,
    Pause,
    Escape,
    Space,
    PageUp,
    PageDown,
    End,
    Home,
    Left,
    Up,
    Right,
    Down,
    Insert,
    Delete,
    Semicolon,
    Equals,
    NumPad0,
    NumPad1,
    NumPad2,
    NumPad3,
    NumPad4,
    NumPad5,
    NumPad6,
    NumPad7,
    NumPad8,
    NumPad9,
    Multiply,
    Add,
    Separator,
    Subtract,
    Decimal,
    Divide,
    F1,
    F2,
    F3,
    F4,
    F5,
    F6,
    F7,
    F8,
    F9,
    F10,
    F11,
    F12,
    Meta,
    Command,
}

impl Key {
    /// The name a key is written with in messages.
    pub open spec fn name_text(self) -> Seq<char> {
        match self {
            Key::Null => "Null"@,
            Key::Cancel => "Cancel"@,
            Key::Help => "Help"@,
            Key::Backspace => "Backspace"@,
            Key::Tab => "Tab"@,
            Key::Clear => "Clear"@,
            Key::Return => "Return"@,
            Key::Enter => "Enter"@,
            Key::Shift => "Shift"@,
            Key::Control => "Control"@,
            Key::Alt => "Alt"@,
            Key::Pause => "Pause"@,
            Key::Escape => "Escape"@,
            Key::Space => "Space"@,
            Key::PageUp => "PageUp"@,
            Key::PageDown => "PageDown"@,
            Key::End => "End"@,
            Key::Home => "Home"@,
            Key::Left => "Left"@,
            Key::Up => "Up"@,
            Key::Right => "Right"@,
            Key::Down => "Down"@,
            Key::Insert => "Insert"@,
            Key::Delete => "Delete"@,
            Key::Semicolon => "Semicolon"@,
            Key::Equals => "Equals"@,
            Key::NumPad0 => "NumPad0"@,
            Key::NumPad1 => "NumPad1"@,
            Key::NumPad2 => "NumPad2"@,
            Key::NumPad3 => "NumPad3"@,
            Key::NumPad4 => "NumPad4"@,
            Key::NumPad5 => "NumPad5"@,
            Key::NumPad6 => "NumPad6"@,
            Key::NumPad7 => "NumPad7"@,
            Key::NumPad8 => "NumPad8"@,
            Key::NumPad9 => "NumPad9"@,
            Key::Multiply => "Multiply"@,
            Key::Add => "Add"@,
            Key::Separator => "Separator"@,
            Key::Subtract => "Subtract"@,
            Key::Decimal => "Decimal"@,
            Key::Divide => "Divide"@,
            Key::F1 => "F1"@,
            Key::F2 => "F2"@,
            Key::F3 => "F3"@,
            Key::F4 => "F4"@,
            Key::F5 => "F5"@,
            Key::F6 => "F6"@,
            Key::F7 => "F7"@,
            Key::F8 => "F8"@,
            Key::F9 => "F9"@,
            Key::F10 => "F10"@,
            Key::F11 => "F11"@,
            Key::F12 => "F12"@,
            Key::Meta => "Meta"@,
            Key::Command => "Command"@,
        }
    }

    /// The name this key is written with in messages.
    pub fn name(&self) -> (name: &'static str)
        ensures
            name@ == self.name_text(),
    {
        match self {
            Key::Null => "Null",
            Key::Cancel => "Cancel",
            Key::Help => "Help",
            Key::Backspace => "Backspace",
            Key::Tab => "Tab",
            Key::Clear => "Clear",
            Key::Return => "Return",
            Key::Enter => "Enter",
            Key::Shift => "Shift",
            Key::Control => "Control",
            Key::Alt => "Alt",
            Key::Pause => "Pause",
            Key::Escape => "Escape",
            Key::Space => "Space",
            Key::PageUp => "PageUp",
            Key::PageDown => "PageDown",
            Key::End => "End",
            Key::Home => "Home",
            Key::Left => "Left",
            Key::Up => "Up",
            Key::Right => "Right",
            Key::Down => "Down",
            Key::Insert => "Insert",
            Key::Delete => "Delete",
            Key::Semicolon => "Semicolon",
            Key::Equals => "Equals",
            Key::NumPad0 => "NumPad0",
            Key::NumPad1 => "NumPad1",
            Key::NumPad2 => "NumPad2",
            Key::NumPad3 => "NumPad3",
            Key::NumPad4 => "NumPad4",
            Key::NumPad5 => "NumPad5",
            Key::NumPad6 => "NumPad6",
            Key::NumPad7 => "NumPad7",
            Key::NumPad8 => "NumPad8",
            Key::NumPad9 => "NumPad9",
            Key::Multiply => "Multiply",
            Key::Add => "Add",
            Key::Separator => "Separator",
            Key::Subtract => "Subtract",
            Key::Decimal => "Decimal",
            Key::Divide => "Divide",
            Key::F1 => "F1",
            Key::F2 => "F2",
            Key::F3 => "F3",
            Key::F4 => "F4",
            Key::F5 => "F5",
            Key::F6 => "F6",
            Key::F7 => "F7",
            Key::F8 => "F8",
            Key::F9 => "F9",
            Key::F10 => "F10",
            Key::F11 => "F11",
            Key::F12 => "F12",
            Key::Meta => "Meta",
            Key::Command => "Command",
        }
    }
}

} // verus!
