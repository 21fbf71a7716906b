//! What the user did at the terminal, as far as the panels care.

use vstd::prelude::*;

verus! {

/// A key that was pressed.
#[derive(Clone, Copy, Debug, PartialEq, Eq, Structural)]
pub enum Key {
    Char(char),
    Backspace,
    Enter,
    Up,
    Down,
    Left,
    Right,
    Tab,
    BackTab,
    Esc,
    /// Any other key.
    Other,
}

/// An event of the terminal.
#[derive(Clone, Copy, Debug, PartialEq, Eq, Structural)]
pub enum Input {
    Key(Key),
    ScrollUp,
    ScrollDown,
    /// Anything else: a click, a resize.
    Other,
}

/// The place after `index` in a ring of `len` places: the first one after
/// the last.
pub open spec fn ring_next(index: nat, len: nat) -> nat {
    if index + 1 >= len {
        0
    } else {
        index + 1
    }
}

/// The place before `index` in a ring of `len` places: the last one before
/// the first. In a ring without places it is the place 0.
pub open spec fn ring_prev(index: nat, len: nat) -> nat {
    if index == 0 {
        if len == 0 {
            0
        } else {
            (len - 1) as nat
        }
    } else {
        (index - 1) as nat
    }
}

/// The place after `index` in a ring of `len` places.
pub fn step_forward(index: usize, len: usize) -> (r: usize)
    ensures
        r == ring_next(index as nat, len as nat),
{
    if index >= len || index + 1 >= len {
        0
    } else {
        index + 1
    }
}

/// The place before `index` in a ring of `len` places.
pub fn step_back(index: usize, len: usize) -> (r: usize)
    ensures
        r == ring_prev(index as nat, len as nat),
{
    if index == 0 {
        if len == 0 {
            0
        } else {
            len - 1
        }
    } else {
        index - 1
    }
}

/// Going forward and then back in a ring, from one of its places, leads
/// to where one was; so does going back and then forward.
pub proof fn lemma_ring_steps_undo_each_other(index: nat, len: nat)
    requires
        index < len,
    ensures
        ring_prev(ring_next(index, len), len) == index,
        ring_next(ring_prev(index, len), len) == index,
        ring_next(index, len) < len,
        ring_prev(index, len) < len,
{
}

} // verus!
