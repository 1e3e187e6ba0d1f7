//! Value-type events crossing the device/host boundary, and the outcome of
//! one execution step.

use vstd::prelude::*;

verus! {

/// The outcome of one successful `step`: a cooperative scheduling signal
/// from the engine to the host.
#[derive(Debug, Copy, Clone, PartialEq, Eq, Structural)]
pub enum MachineStepAction {
    /// Terminal; further steps keep returning `Halt`.
    Halt,
    /// The engine should be invoked again immediately.
    Continue,
    /// Work for the current display refresh cycle is complete; the host
    /// should not step again until the next frame boundary.
    WaitForFrame,
}

/// A device-to-host signal. Duplicates are meaningful: the queue is a
/// stream of signals, not a log.
#[derive(Debug, Copy, Clone, PartialEq, Eq, Structural)]
pub enum OutputAction {
    StartBeep,
    StopBeep,
    DrawFrame,
}

/// A host-to-device key event, latched by the engine into a key-state
/// table: a key counts as held from `Pressed` until the matching
/// `Released`.
#[derive(Debug, Copy, Clone, PartialEq, Eq, Structural)]
pub enum InputAction {
    Pressed { code: KeyCode },
    Released { code: KeyCode },
}

/// The closed set of physical keys the device knows about.
#[derive(Debug, Copy, Clone, PartialEq, Eq, Structural)]
pub enum KeyCode {
    Num1,
    Num2,
    Num3,
    Num4,
    Q,
    W,
    E,
    R,
    A,
    S,
    D,
    F,
    Z,
    X,
    C,
    V,
}

/// The number of keys in `KeyCode`, and so the length of the engine's
/// key-state table.
pub const KEY_COUNT: usize = 16;

/// The slot of a key in the key-state table.
pub open spec fn spec_key_index(code: KeyCode) -> int {
    match code {
        KeyCode::Num1 => 0,
        KeyCode::Num2 => 1,
        KeyCode::Num3 => 2,
        KeyCode::Num4 => 3,
        KeyCode::Q => 4,
        KeyCode::W => 5,
        KeyCode::E => 6,
        KeyCode::R => 7,
        KeyCode::A => 8,
        KeyCode::S => 9,
        KeyCode::D => 10,
        KeyCode::F => 11,
        KeyCode::Z => 12,
        KeyCode::X => 13,
        KeyCode::C => 14,
        KeyCode::V => 15,
    }
}

/// The slot of a key in the key-state table.
pub fn key_index(code: KeyCode) -> (i: usize)
    ensures
        i == spec_key_index(code),
        i < KEY_COUNT,
{
    match code {
        KeyCode::Num1 => 0,
        KeyCode::Num2 => 1,
        KeyCode::Num3 => 2,
        KeyCode::Num4 => 3,
        KeyCode::Q => 4,
        KeyCode::W => 5,
        KeyCode::E => 6,
        KeyCode::R => 7,
        KeyCode::A => 8,
        KeyCode::S => 9,
        KeyCode::D => 10,
        KeyCode::F => 11,
        KeyCode::Z => 12,
        KeyCode::X => 13,
        KeyCode::C => 14,
        KeyCode::V => 15,
    }
}

} // verus!
