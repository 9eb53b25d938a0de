use vstd::prelude::*;

verus! {

/// A debounced step of the rotary knob, handed from the encoder task to the menu.
#[derive(Debug, Clone, Copy, PartialEq, Eq, Structural)]
pub enum RotaryEvent {
    NoTurn,
    Clockwise,
    CounterClockwise,
}

} // verus!
