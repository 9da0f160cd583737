//! The emulated console's buttons, as the rest of the application names
//! them when it maps host keys and gamepad buttons onto them.
use vstd::prelude::*;

verus! {

/// A button of the emulated console; `NoButton` stands for none.
#[derive(Clone, Copy, Debug, PartialEq, Eq, Structural)]
pub enum GBButton {
    Up,
    Down,
    Left,
    Right,
    A,
    B,
    Select,
    Start,
    NoButton,
}

} // verus!
