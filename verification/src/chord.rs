//! The key-chord recognizer at the heart of the low-level keyboard filter:
//! a key-down of Left-Arrow or Right-Arrow while both a super modifier and a
//! shift modifier (either physical side each) are held triggers a relocation
//! and consumes the event; every other event is forwarded unchanged to the
//! rest of the input pipeline.
//!
//! Modifier state comes from live queries, not from the event's own payload,
//! because the state can change between queueing and dispatch; the raw signed
//! query results are negative exactly when the key is currently held.

use vstd::prelude::*;

use crate::topology::Direction;

verus! {

/// Message identifier of a key-down transition.
pub const WM_KEYDOWN: u32 = 0x0100;

/// Virtual key code of the Left-Arrow key.
pub const VK_LEFT: u32 = 0x25;

/// Virtual key code of the Right-Arrow key.
pub const VK_RIGHT: u32 = 0x27;

/// Raw results of the live modifier-state queries for the four keys the
/// chord cares about; a negative value means the key is held right now.
#[derive(Clone, Copy, Debug)]
pub struct ModifierStates {
    pub left_super: i16,
    pub right_super: i16,
    pub left_shift: i16,
    pub right_shift: i16,
}

/// What the keyboard filter does with one event.
#[derive(Clone, Copy, Debug, PartialEq, Eq, Structural)]
pub enum HookDecision {
    /// Relocate the focused window in this direction and consume the event so
    /// the arrow key never reaches the focused application.
    Relocate(Direction),
    /// Hand the event unchanged to the next filter in the chain.
    Forward,
}

/// Either physical super key is held.
pub open spec fn spec_super_held(m: ModifierStates) -> bool {
    m.left_super < 0 || m.right_super < 0
}

/// Either physical shift key is held.
pub open spec fn spec_shift_held(m: ModifierStates) -> bool {
    m.left_shift < 0 || m.right_shift < 0
}

/// The chord fires for `vk` exactly when the filter is asked to act
/// (`code >= 0`), the event is a key-down, and both modifiers are held.
pub open spec fn spec_chord_fires(code: i32, message: u32, vk: u32, m: ModifierStates) -> bool {
    &&& code >= 0
    &&& message == WM_KEYDOWN
    &&& spec_super_held(m)
    &&& spec_shift_held(m)
}

/// Decides one keyboard event: relocate left or right on the matching chord,
/// forward everything else. The decision is total -- whatever the event, the
/// filter returns a definite answer and never interrupts the input pipeline.
pub fn decide_key_event(code: i32, message: u32, vk: u32, modifiers: &ModifierStates) -> (d: HookDecision)
    ensures
        d == HookDecision::Relocate(Direction::Left) <==> (spec_chord_fires(code, message, vk, *modifiers) && vk == VK_LEFT),
        d == HookDecision::Relocate(Direction::Right) <==> (spec_chord_fires(code, message, vk, *modifiers) && vk == VK_RIGHT),
        d == HookDecision::Forward <==> !(spec_chord_fires(code, message, vk, *modifiers) && (vk == VK_LEFT || vk == VK_RIGHT)),
{
    if code >= 0 && message == WM_KEYDOWN {
        let super_held = modifiers.left_super < 0 || modifiers.right_super < 0;
        let shift_held = modifiers.left_shift < 0 || modifiers.right_shift < 0;
        if super_held && shift_held {
            if vk == VK_LEFT {
                return HookDecision::Relocate(Direction::Left);
            }
            if vk == VK_RIGHT {
                return HookDecision::Relocate(Direction::Right);
            }
        }
    }
    HookDecision::Forward
}

} // verus!
