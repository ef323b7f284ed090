//! The keys pressed in one frame, as the keyboard handlers read them.
use vstd::prelude::*;

verus! {

/// A key on the keyboard.
#[derive(Debug, Clone, Copy, PartialEq, Eq, Structural)]
pub enum Key {
    A, B, C, D, E, F, G, H, I, J, K, L, M, N, O, P, Q, R, S, T, U, V, W, X, Y, Z,
    Num0, Num1, Num2, Num3, Num4, Num5, Num6, Num7, Num8, Num9,
    ArrowLeft, ArrowRight, ArrowUp, ArrowDown,
    Home, End, PageUp, PageDown,
    Enter, Escape, Backspace, Delete, Space, Tab, Semicolon, Slash, F5,
}

/// The modifier keys held.
#[derive(Debug, Clone, Copy, PartialEq, Eq, Structural)]
pub struct Modifiers {
    pub alt: bool,
    pub ctrl: bool,
    pub shift: bool,
    pub mac_cmd: bool,
    /// The platform's command key (Ctrl, or ⌘ on a Mac).
    pub command: bool,
}

impl Modifiers {
    /// No modifier held.
    pub open spec fn none_held(self) -> bool {
        !self.alt && !self.ctrl && !self.shift && !self.mac_cmd && !self.command
    }

    /// Whether no modifier is held.
    pub fn is_none(&self) -> (r: bool)
        ensures
            r == self.none_held(),
    {
        !self.alt && !self.ctrl && !self.shift && !self.mac_cmd && !self.command
    }
}

/// The keys pressed in one frame and the modifiers held.
#[derive(Debug, Clone)]
pub struct KeyInput {
    pub pressed: Vec<Key>,
    pub modifiers: Modifiers,
}

impl KeyInput {
    /// Whether `k` was pressed in this frame.
    pub open spec fn has(self, k: Key) -> bool {
        self.pressed@.contains(k)
    }

    /// Whether `k` was pressed in this frame.
    pub fn key_pressed(&self, k: Key) -> (r: bool)
        ensures
            r == self.has(k),
    {
        let mut i: usize = 0;
        while i < self.pressed.len()
            invariant
                i <= self.pressed@.len(),
                forall|j: int| 0 <= j < i ==> self.pressed@[j] != k,
            decreases self.pressed@.len() - i,
        {
            if self.pressed[i] == k {
                assert(self.pressed@[i as int] == k);
                return true;
            }
            i = i + 1;
        }
        false
    }
}

} // verus!
