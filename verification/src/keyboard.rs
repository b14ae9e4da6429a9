//! Keys, their codes and the modifier state.

use vstd::prelude::*;

verus! {

/// A key code of the platform, kept where no portable code is known.
#[derive(Clone, Copy, Debug, PartialEq, Eq, Hash)]
pub enum NativeKeyCode {
    Unidentified,
    Ohos(u32),
}

/// The physical key.
#[derive(Clone, Copy, Debug, PartialEq, Eq, Hash)]
pub enum KeyCode {
    Unidentified(NativeKeyCode),
    Backspace,
    Enter,
}

/// What a key press means.
#[derive(Debug, PartialEq, Eq, Hash)]
pub enum Key {
    Backspace,
    Enter,
    /// Any other key, by its name or by the text that it enters.
    Other(String),
}

/// Which of several keys with one meaning.
#[derive(Clone, Copy, Debug, PartialEq, Eq, Hash)]
pub enum KeyLocation {
    Standard,
    Left,
    Right,
    Numpad,
}

/// The modifier keys that are held.
#[derive(Clone, Copy, Debug, PartialEq, Eq, Hash)]
pub struct ModifiersState {
    pub shift: bool,
    pub control: bool,
    pub alt: bool,
    pub super_key: bool,
}

impl ModifiersState {
    /// No modifier.
    pub open spec fn none() -> ModifiersState {
        ModifiersState { shift: false, control: false, alt: false, super_key: false }
    }

    /// The control key alone.
    pub open spec fn control_only() -> ModifiersState {
        ModifiersState { shift: false, control: true, alt: false, super_key: false }
    }

    /// No modifier.
    pub fn empty() -> (r: ModifiersState)
        ensures
            r == ModifiersState::none(),
    {
        ModifiersState { shift: false, control: false, alt: false, super_key: false }
    }

    /// The control key alone.
    pub fn control() -> (r: ModifiersState)
        ensures
            r == ModifiersState::control_only(),
    {
        ModifiersState { shift: false, control: true, alt: false, super_key: false }
    }
}

/// The scancode of a key. The platform has none.
pub fn keycode_to_scancode(_code: KeyCode) -> (r: Option<u32>)
    ensures
        r is None,
{
    None
}

/// The key of a scancode. The platform has no scancodes, so no key is known.
pub fn keycode_from_scancode(_scancode: u32) -> (r: KeyCode)
    ensures
        r == KeyCode::Unidentified(NativeKeyCode::Unidentified),
{
    KeyCode::Unidentified(NativeKeyCode::Unidentified)
}

} // verus!
