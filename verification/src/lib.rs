//! Execution core of a software-emulated retro computing device: a small
//! register/stack machine with bounds-checked memory, a monochrome frame
//! buffer, and queues of actions crossing the device/host boundary.
//!
//! The host drives a machine by loading a ROM, calling `step` repeatedly,
//! draining output actions, reading the frame buffer, and pushing input
//! actions. Every component enforces its bounds and reports violations
//! through `MachineError`; nothing panics and nothing wraps silently.

mod actions;
mod display;
mod errors;
mod machine;
mod memory;
mod registers;
mod stack;

pub use actions::{key_index, InputAction, KeyCode, MachineStepAction, OutputAction, KEY_COUNT};
pub use display::{DisplayInfo, FrameBufferFormat, MachineInfo};
pub use errors::{hex_u16_string, ErrorModel, MachineError};
pub use machine::{
    apply_input, apply_inputs, lemma_second_drain_empty, lemma_step_preserves_wf, op_kk, op_low,
    op_nnn, op_top, op_x, op_y, released_keys, spec_bit_mask, spec_drain, spec_drain_matches,
    spec_execute, spec_initial_model, spec_key_held, spec_loaded_memory, spec_opcode,
    spec_outcome_matches, spec_skip, spec_step, spec_toggle_pixel, spec_wf, zeroed_bytes, Machine,
    MachineModel, SimpleMachine, StepOutcome, LOAD_OFFSET, MAX_DISPLAY_DIM, MEMORY_SIZE,
    REGISTER_COUNT, STACK_CAPACITY,
};
pub use memory::{lemma_memory_round_trip, Memory};
pub use registers::{lemma_register_round_trip, RegisterFile};
pub use stack::{lemma_stack_lifo, CallStack};
