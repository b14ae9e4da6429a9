//! The state that all windows and the event loop share.

use crate::dpi::PhysicalPosition;
use crate::float::Float64;
use crate::input::KeyAction;
use std::collections::HashSet;
use vstd::prelude::*;

verus! {

/// The state that all windows and the event loop share.
#[derive(Debug)]
pub struct PlatformState {
    /// Whether the application has the focus.
    pub has_focus: bool,
    /// Where the cursor was last seen.
    pub cursor: PhysicalPosition<Float64>,
    /// The keys that are down, by their number.
    pub pressed_keys: HashSet<i32>,
    /// Whether the window of the ability exists.
    pub ui_ability_created: bool,
}

/// The shared state, its keys as a set.
#[verifier::ext_equal]
pub struct PlatformView {
    pub has_focus: bool,
    pub cursor: PhysicalPosition<Float64>,
    pub pressed_keys: Set<i32>,
    pub ui_ability_created: bool,
}

impl View for PlatformState {
    type V = PlatformView;

    open spec fn view(&self) -> PlatformView {
        PlatformView {
            has_focus: self.has_focus,
            cursor: self.cursor,
            pressed_keys: self.pressed_keys@,
            ui_ability_created: self.ui_ability_created,
        }
    }
}

/// The keys that are down after a key action.
pub open spec fn keys_after(pressed: Set<i32>, action: KeyAction, key: i32) -> Set<i32> {
    match action {
        KeyAction::Down => pressed.insert(key),
        KeyAction::Up => pressed.remove(key),
        KeyAction::Unknown => pressed,
    }
}

/// Whether a key action repeats one: the key goes down while it is down.
pub open spec fn is_repeat(pressed: Set<i32>, action: KeyAction, key: i32) -> bool {
    action is Down && pressed.contains(key)
}

/// Whether the application is seen to have the focus.
pub open spec fn seen_focused(state: PlatformView) -> bool {
    state.has_focus
}

/// Where the cursor is seen.
pub open spec fn seen_cursor(state: PlatformView) -> PhysicalPosition<Float64> {
    state.cursor
}

impl PlatformState {
    /// The state at the start: focused, the cursor at the origin, no key down
    /// and no window.
    pub fn new() -> (r: PlatformState)
        ensures
            r@ == (PlatformView {
                has_focus: true,
                cursor: PhysicalPosition { x: Float64 { bits: 0 }, y: Float64 { bits: 0 } },
                pressed_keys: Set::empty(),
                ui_ability_created: false,
            }),
    {
        PlatformState {
            has_focus: true,
            cursor: PhysicalPosition { x: Float64 { bits: 0 }, y: Float64 { bits: 0 } },
            pressed_keys: HashSet::new(),
            ui_ability_created: false,
        }
    }

    /// Notes a key action and says whether it repeats one.
    pub fn track_key(&mut self, action: KeyAction, key: i32) -> (repeat: bool)
        ensures
            repeat == is_repeat(old(self)@.pressed_keys, action, key),
            final(self)@ == (PlatformView {
                pressed_keys: keys_after(old(self)@.pressed_keys, action, key),
                ..old(self)@
            }),
    {
        broadcast use vstd::std_specs::hash::group_hash_axioms;

        match action {
            KeyAction::Down => !self.pressed_keys.insert(key),
            KeyAction::Up => {
                self.pressed_keys.remove(&key);
                false
            },
            KeyAction::Unknown => false,
        }
    }
}

} // verus!
