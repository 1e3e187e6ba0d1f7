//! The execution engine: a concrete machine built from the components, and
//! the `Machine` capability surface a conforming device exposes to its host.
//!
//! `SimpleMachine` is a small interpreted-bytecode device. Instructions are
//! two bytes, big-endian, fetched at the program cursor, which advances by
//! two unless an instruction jumps, calls, returns or skips. The set, by
//! opcode (`nnn` the low twelve bits, `x` and `y` the second and third
//! nibbles, `kk` the low byte):
//!
//! - `0000` halt; further steps keep returning `Halt`.
//! - `00E0` clear the frame buffer.
//! - `00EE` return: pop the call stack into the program cursor.
//! - `00F0` enqueue `StopBeep`; `00F1` enqueue `StartBeep`.
//! - `00FF` enqueue `DrawFrame` and yield `WaitForFrame`.
//! - `1nnn` jump to `nnn`; `2nnn` call `nnn` (pushes the return address).
//! - `3xkk` / `4xkk` skip the next instruction if register `x` equals /
//!   differs from `kk`.
//! - `6xkk` load `kk` into register `x`; `7xkk` add `kk` to register `x`,
//!   wrapping at the 8-bit register width.
//! - `Annn` store register 1 at address `nnn` plus register 0; `Bnnn` load
//!   register 1 from that address.
//! - `Dxy0` toggle the pixel at column register `x` modulo the width, row
//!   register `y` modulo the height.
//! - `Ex9E` / `ExA1` skip the next instruction if the key whose number is
//!   in register `x` is held / not held. A value at or beyond the key
//!   count never counts as held.
//!
//! Every other opcode fails with `UnknownInstruction`. A failing step
//! mutates nothing: every operand is validated before any state moves.

use vstd::prelude::*;

use crate::actions::{
    spec_key_index, key_index, InputAction, MachineStepAction, OutputAction, KEY_COUNT,
};
use crate::display::{spec_frame_buffer_len, DisplayInfo, FrameBufferFormat, MachineInfo};
use crate::errors::{spec_hex_u16, hex_u16_string, ErrorModel, MachineError};
use crate::memory::Memory;
use crate::registers::RegisterFile;
use crate::stack::CallStack;

verus! {

/// Bytes of addressable memory.
pub const MEMORY_SIZE: usize = 4096;

/// Number of general-purpose 8-bit registers.
pub const REGISTER_COUNT: usize = 16;

/// Maximum depth of the call stack.
pub const STACK_CAPACITY: usize = 16;

/// Address at which a ROM is copied into memory, and the initial program
/// cursor.
pub const LOAD_OFFSET: u16 = 0x200;

/// Upper bound on each display dimension.
pub const MAX_DISPLAY_DIM: u32 = 0x1000;

/// The mathematical model of a machine: every piece of its state as plain
/// sequences and scalars.
#[verifier::ext_equal]
pub struct MachineModel {
    pub name: Seq<char>,
    pub width: u32,
    pub height: u32,
    pub mem: Seq<u8>,
    pub regs: Seq<u8>,
    pub stack: Seq<u16>,
    pub fb: Seq<u8>,
    pub pc: u16,
    pub halted: bool,
    pub out: Seq<OutputAction>,
    pub keys: Seq<bool>,
}

/// What one step produces: a scheduling action, or one of the fatal
/// errors.
pub enum StepOutcome {
    Completed(MachineStepAction),
    Failed(ErrorModel),
}

/// A sequence of `n` zero bytes.
pub open spec fn zeroed_bytes(n: int) -> Seq<u8> {
    Seq::new(n as nat, |i: int| 0u8)
}

/// The key-state table with every key released.
pub open spec fn released_keys() -> Seq<bool> {
    Seq::new(KEY_COUNT as nat, |i: int| false)
}

/// The well-formedness invariant of a machine model: component sizes match
/// the machine's fixed geometry and the stack respects its capacity.
pub open spec fn spec_wf(m: MachineModel) -> bool {
    &&& m.mem.len() == MEMORY_SIZE
    &&& m.regs.len() == REGISTER_COUNT
    &&& m.stack.len() <= STACK_CAPACITY
    &&& m.fb.len() == spec_frame_buffer_len(m.width, m.height)
    &&& m.keys.len() == KEY_COUNT
    &&& 0 < m.width <= MAX_DISPLAY_DIM
    &&& 0 < m.height <= MAX_DISPLAY_DIM
}

/// The state of a machine immediately after construction or after a ROM
/// load: everything zeroed, the cursor at the load offset.
pub open spec fn spec_initial_model(name: Seq<char>, width: u32, height: u32) -> MachineModel {
    MachineModel {
        name,
        width,
        height,
        mem: zeroed_bytes(MEMORY_SIZE as int),
        regs: zeroed_bytes(REGISTER_COUNT as int),
        stack: Seq::<u16>::empty(),
        fb: zeroed_bytes(spec_frame_buffer_len(width, height)),
        pc: LOAD_OFFSET,
        halted: false,
        out: Seq::<OutputAction>::empty(),
        keys: released_keys(),
    }
}

/// Memory after a successful ROM load: the ROM bytes starting at the load
/// offset, zero everywhere else.
pub open spec fn spec_loaded_memory(rom: Seq<u8>) -> Seq<u8> {
    Seq::new(
        MEMORY_SIZE as nat,
        |i: int|
            if LOAD_OFFSET <= i < LOAD_OFFSET + rom.len() {
                rom[i - LOAD_OFFSET]
            } else {
                0u8
            },
    )
}

/// The two instruction bytes at the cursor, big-endian.
pub open spec fn spec_opcode(mem: Seq<u8>, pc: u16) -> u16 {
    (mem[pc as int] * 256 + mem[pc as int + 1]) as u16
}

/// The top nibble of an opcode.
pub open spec fn op_top(op: u16) -> int {
    op as int / 0x1000
}

/// The low twelve bits of an opcode: an address operand.
pub open spec fn op_nnn(op: u16) -> u16 {
    (op as int % 0x1000) as u16
}

/// The second nibble of an opcode: a register operand.
pub open spec fn op_x(op: u16) -> int {
    (op as int / 0x100) % 16
}

/// The third nibble of an opcode: a register operand.
pub open spec fn op_y(op: u16) -> int {
    (op as int / 16) % 16
}

/// The low byte of an opcode: an immediate operand.
pub open spec fn op_kk(op: u16) -> u8 {
    (op as int % 0x100) as u8
}

/// The low nibble of an opcode.
pub open spec fn op_low(op: u16) -> int {
    op as int % 16
}

/// The machine after a conditional skip: the cursor moves past the next
/// instruction when `cond` holds, onto it otherwise.
pub open spec fn spec_skip(m: MachineModel, cond: bool) -> MachineModel {
    if cond {
        MachineModel { pc: (m.pc + 4) as u16, ..m }
    } else {
        MachineModel { pc: (m.pc + 2) as u16, ..m }
    }
}

/// Whether the key numbered `value` is currently held. Values at or beyond
/// the key count never count as held.
pub open spec fn spec_key_held(keys: Seq<bool>, value: u8) -> bool {
    value < KEY_COUNT && keys[value as int]
}

/// The mask selecting one pixel within a packed byte, most significant bit
/// first.
pub open spec fn spec_bit_mask(bit: int) -> u8 {
    if bit == 0 {
        0x80u8
    } else if bit == 1 {
        0x40u8
    } else if bit == 2 {
        0x20u8
    } else if bit == 3 {
        0x10u8
    } else if bit == 4 {
        0x08u8
    } else if bit == 5 {
        0x04u8
    } else if bit == 6 {
        0x02u8
    } else {
        0x01u8
    }
}

/// The frame buffer with the pixel at (`vx` mod width, `vy` mod height)
/// toggled.
pub open spec fn spec_toggle_pixel(fb: Seq<u8>, width: u32, height: u32, vx: u8, vy: u8) -> Seq<
    u8,
> {
    let px = vx as int % width as int;
    let py = vy as int % height as int;
    let bit = py * width + px;
    fb.update(bit / 8, fb[bit / 8] ^ spec_bit_mask(bit % 8))
}

/// One key event applied to the latched key-state table.
pub open spec fn apply_input(keys: Seq<bool>, action: InputAction) -> Seq<bool> {
    match action {
        InputAction::Pressed { code } => keys.update(spec_key_index(code), true),
        InputAction::Released { code } => keys.update(spec_key_index(code), false),
    }
}

/// A sequence of key events applied in order to the latched key-state
/// table.
pub open spec fn apply_inputs(keys: Seq<bool>, actions: Seq<InputAction>) -> Seq<bool>
    decreases actions.len(),
{
    if actions.len() == 0 {
        keys
    } else {
        apply_inputs(apply_input(keys, actions[0]), actions.drop_first())
    }
}

/// Draining the output queue: the machine with an empty queue, and the
/// drained actions in enqueue order (`None` when nothing was pending).
pub open spec fn spec_drain(m: MachineModel) -> (MachineModel, Option<Seq<OutputAction>>) {
    if m.out.len() == 0 {
        (m, None)
    } else {
        ((MachineModel { out: Seq::<OutputAction>::empty(), ..m }), Some(m.out))
    }
}

/// The decoded instruction `op` applied to machine `m`. A failed
/// instruction leaves the machine exactly as it was.
pub open spec fn spec_execute(m: MachineModel, op: u16) -> (MachineModel, StepOutcome) {
    let stepped = MachineModel { pc: (m.pc + 2) as u16, ..m };
    if op == 0x0000 {
        (
            MachineModel { halted: true, ..stepped },
            StepOutcome::Completed(MachineStepAction::Halt),
        )
    } else if op == 0x00E0 {
        (
            MachineModel { fb: zeroed_bytes(m.fb.len() as int), ..stepped },
            StepOutcome::Completed(MachineStepAction::Continue),
        )
    } else if op == 0x00EE {
        if m.stack.len() == 0 {
            (m, StepOutcome::Failed(ErrorModel::StackUnderflow))
        } else {
            (
                MachineModel { pc: m.stack.last(), stack: m.stack.drop_last(), ..m },
                StepOutcome::Completed(MachineStepAction::Continue),
            )
        }
    } else if op == 0x00F0 {
        (
            MachineModel { out: m.out.push(OutputAction::StopBeep), ..stepped },
            StepOutcome::Completed(MachineStepAction::Continue),
        )
    } else if op == 0x00F1 {
        (
            MachineModel { out: m.out.push(OutputAction::StartBeep), ..stepped },
            StepOutcome::Completed(MachineStepAction::Continue),
        )
    } else if op == 0x00FF {
        (
            MachineModel { out: m.out.push(OutputAction::DrawFrame), ..stepped },
            StepOutcome::Completed(MachineStepAction::WaitForFrame),
        )
    } else if op_top(op) == 0x1 {
        (
            MachineModel { pc: op_nnn(op), ..m },
            StepOutcome::Completed(MachineStepAction::Continue),
        )
    } else if op_top(op) == 0x2 {
        if m.stack.len() >= STACK_CAPACITY {
            (m, StepOutcome::Failed(ErrorModel::StackOverflow))
        } else {
            (
                MachineModel { pc: op_nnn(op), stack: m.stack.push((m.pc + 2) as u16), ..m },
                StepOutcome::Completed(MachineStepAction::Continue),
            )
        }
    } else if op_top(op) == 0x3 {
        (
            spec_skip(m, m.regs[op_x(op)] == op_kk(op)),
            StepOutcome::Completed(MachineStepAction::Continue),
        )
    } else if op_top(op) == 0x4 {
        (
            spec_skip(m, m.regs[op_x(op)] != op_kk(op)),
            StepOutcome::Completed(MachineStepAction::Continue),
        )
    } else if op_top(op) == 0x6 {
        (
            MachineModel { regs: m.regs.update(op_x(op), op_kk(op)), ..stepped },
            StepOutcome::Completed(MachineStepAction::Continue),
        )
    } else if op_top(op) == 0x7 {
        (
            MachineModel {
                regs: m.regs.update(op_x(op), ((m.regs[op_x(op)] + op_kk(op)) % 256) as u8),
                ..stepped
            },
            StepOutcome::Completed(MachineStepAction::Continue),
        )
    } else if op_top(op) == 0xA {
        let addr = op_nnn(op) + m.regs[0];
        if addr < m.mem.len() {
            (
                MachineModel { mem: m.mem.update(addr, m.regs[1]), ..stepped },
                StepOutcome::Completed(MachineStepAction::Continue),
            )
        } else {
            (m, StepOutcome::Failed(ErrorModel::MemoryOutOfBounds(addr as u16)))
        }
    } else if op_top(op) == 0xB {
        let addr = op_nnn(op) + m.regs[0];
        if addr < m.mem.len() {
            (
                MachineModel { regs: m.regs.update(1, m.mem[addr]), ..stepped },
                StepOutcome::Completed(MachineStepAction::Continue),
            )
        } else {
            (m, StepOutcome::Failed(ErrorModel::MemoryOutOfBounds(addr as u16)))
        }
    } else if op_top(op) == 0xD && op_low(op) == 0 {
        (
            MachineModel {
                fb: spec_toggle_pixel(m.fb, m.width, m.height, m.regs[op_x(op)], m.regs[op_y(op)]),
                ..stepped
            },
            StepOutcome::Completed(MachineStepAction::Continue),
        )
    } else if op_top(op) == 0xE && op_kk(op) == 0x9E {
        (
            spec_skip(m, spec_key_held(m.keys, m.regs[op_x(op)])),
            StepOutcome::Completed(MachineStepAction::Continue),
        )
    } else if op_top(op) == 0xE && op_kk(op) == 0xA1 {
        (
            spec_skip(m, !spec_key_held(m.keys, m.regs[op_x(op)])),
            StepOutcome::Completed(MachineStepAction::Continue),
        )
    } else {
        (m, StepOutcome::Failed(ErrorModel::UnknownInstruction(spec_hex_u16(op))))
    }
}

/// One whole step: fetch at the cursor, then execute. A halted machine
/// stays put and keeps reporting `Halt`; a cursor whose instruction does
/// not fit in memory faults at the first out-of-range byte.
pub open spec fn spec_step(m: MachineModel) -> (MachineModel, StepOutcome) {
    if m.halted {
        (m, StepOutcome::Completed(MachineStepAction::Halt))
    } else if m.pc as int + 1 < m.mem.len() {
        spec_execute(m, spec_opcode(m.mem, m.pc))
    } else if (m.pc as int) < m.mem.len() {
        (m, StepOutcome::Failed(ErrorModel::MemoryOutOfBounds((m.pc + 1) as u16)))
    } else {
        (m, StepOutcome::Failed(ErrorModel::MemoryOutOfBounds(m.pc)))
    }
}

/// Whether the executable result of a step agrees with the modelled
/// outcome.
pub open spec fn spec_outcome_matches(
    r: Result<MachineStepAction, MachineError>,
    outcome: StepOutcome,
) -> bool {
    match outcome {
        StepOutcome::Completed(action) => r == Ok::<MachineStepAction, MachineError>(action),
        StepOutcome::Failed(e) => r matches Err(err) && err@ == e,
    }
}

/// Whether the executable result of a drain agrees with the modelled
/// drained sequence.
pub open spec fn spec_drain_matches(
    r: Option<Vec<OutputAction>>,
    drained: Option<Seq<OutputAction>>,
) -> bool {
    match drained {
        Some(s) => r matches Some(v) && v@ == s,
        None => r is None,
    }
}

fn zero_u8_vec(n: usize) -> (v: Vec<u8>)
    ensures
        v@ == Seq::new(n as nat, |i: int| 0u8),
{
    let mut v: Vec<u8> = Vec::new();
    while v.len() < n
        invariant
            v@.len() <= n,
            v@ =~= Seq::new(v@.len(), |i: int| 0u8),
        decreases n - v@.len(),
    {
        v.push(0u8);
    }
    proof {
        assert(v@ =~= Seq::new(n as nat, |i: int| 0u8));
    }
    v
}

fn false_vec(n: usize) -> (v: Vec<bool>)
    ensures
        v@ == Seq::new(n as nat, |i: int| false),
{
    let mut v: Vec<bool> = Vec::new();
    while v.len() < n
        invariant
            v@.len() <= n,
            v@ =~= Seq::new(v@.len(), |i: int| false),
        decreases n - v@.len(),
    {
        v.push(false);
    }
    proof {
        assert(v@ =~= Seq::new(n as nat, |i: int| false));
    }
    v
}

/// A machine of the concrete device family described at the top of this
/// module: fixed memory, register, stack and key-table sizes, a monochrome
/// display whose geometry is chosen at construction.
pub struct SimpleMachine {
    name: String,
    width: u32,
    height: u32,
    memory: Memory,
    registers: RegisterFile,
    stack: CallStack,
    frame_buffer: Vec<u8>,
    pc: u16,
    halted: bool,
    output_actions: Vec<OutputAction>,
    keys: Vec<bool>,
}

impl View for SimpleMachine {
    type V = MachineModel;

    closed spec fn view(&self) -> MachineModel {
        MachineModel {
            name: self.name@,
            width: self.width,
            height: self.height,
            mem: self.memory@,
            regs: self.registers@,
            stack: self.stack@,
            fb: self.frame_buffer@,
            pc: self.pc,
            halted: self.halted,
            out: self.output_actions@,
            keys: self.keys@,
        }
    }
}

impl SimpleMachine {
    /// The machine is well formed: its model is, and its call stack was
    /// built with the fixed capacity.
    pub closed spec fn wf(&self) -> bool {
        &&& spec_wf(self@)
        &&& self.stack.cap() == STACK_CAPACITY
    }

    /// A well-formed machine has a well-formed model.
    pub proof fn lemma_wf_model(&self)
        requires
            self.wf(),
        ensures
            spec_wf(self@),
    {
    }

    /// A fresh machine: all state zeroed, the cursor at the load offset,
    /// nothing queued, every key released.
    pub fn new(name: String, display: DisplayInfo) -> (m: SimpleMachine)
        requires
            0 < display.width <= MAX_DISPLAY_DIM,
            0 < display.height <= MAX_DISPLAY_DIM,
        ensures
            m.wf(),
            m@ == spec_initial_model(name@, display.width, display.height),
    {
        proof {
            assert(display.width as int * display.height as int <= 0x1000000) by (nonlinear_arith)
                requires
                    0 < display.width <= 0x1000,
                    0 < display.height <= 0x1000,
            ;
        }
        let bits: u64 = (display.width as u64) * (display.height as u64);
        let fb_bytes: usize = ((bits + 7) / 8) as usize;
        let m = SimpleMachine {
            name,
            width: display.width,
            height: display.height,
            memory: Memory::new(MEMORY_SIZE),
            registers: RegisterFile::new(REGISTER_COUNT),
            stack: CallStack::new(STACK_CAPACITY),
            frame_buffer: zero_u8_vec(fb_bytes),
            pc: LOAD_OFFSET,
            halted: false,
            output_actions: Vec::new(),
            keys: false_vec(KEY_COUNT),
        };
        proof {
            assert(m@ =~= spec_initial_model(m.name@, m.width, m.height));
        }
        m
    }

    /// The static description of this machine: its label and display
    /// geometry. Side-effect-free.
    pub fn get_info(&self) -> (r: MachineInfo)
        requires
            self.wf(),
        ensures
            r.name@ == self@.name,
            r.display.width == self@.width,
            r.display.height == self@.height,
            r.display.format == FrameBufferFormat::Monochrome,
    {
        MachineInfo {
            name: self.name.clone(),
            display: DisplayInfo {
                width: self.width,
                height: self.height,
                format: FrameBufferFormat::Monochrome,
            },
        }
    }

    /// The current frame buffer, as a read-only borrowed view. Always
    /// succeeds; its length is fixed by the display geometry.
    pub fn get_frame_buffer(&self) -> (r: &[u8])
        requires
            self.wf(),
        ensures
            r@ == self@.fb,
            r@.len() == spec_frame_buffer_len(self@.width, self@.height),
    {
        self.frame_buffer.as_slice()
    }

    /// Drains the pending output actions: exactly those enqueued since the
    /// previous drain, in enqueue order, or `None` when nothing is
    /// pending. Draining is destructive — no action is ever returned
    /// twice.
    pub fn get_output_actions(&mut self) -> (r: Option<Vec<OutputAction>>)
        requires
            old(self).wf(),
        ensures
            final(self).wf(),
            final(self)@ == spec_drain(old(self)@).0,
            spec_drain_matches(r, spec_drain(old(self)@).1),
    {
        if self.output_actions.len() == 0 {
            None
        } else {
            let mut drained: Vec<OutputAction> = Vec::new();
            core::mem::swap(&mut drained, &mut self.output_actions);
            proof {
                assert(final(self)@ =~= spec_drain(old(self)@).0);
            }
            Some(drained)
        }
    }
}

/// Draining leaves the queue empty, so an immediate second drain, with no
/// activity in between, returns nothing.
pub proof fn lemma_second_drain_empty(m: MachineModel)
    ensures
        spec_drain(spec_drain(m).0).1 is None,
{
}

/// One step preserves every machine invariant: the component sizes, the
/// frame-buffer geometry, and the stack capacity bound. The display
/// geometry itself never moves.
pub proof fn lemma_step_preserves_wf(m: MachineModel)
    requires
        spec_wf(m),
    ensures
        spec_wf(spec_step(m).0),
        spec_step(m).0.width == m.width,
        spec_step(m).0.height == m.height,
{
    if !m.halted && m.pc as int + 1 < m.mem.len() {
        let op = spec_opcode(m.mem, m.pc);
        if op_top(op) == 0xD && op_low(op) == 0 {
            let vx = m.regs[op_x(op)];
            let vy = m.regs[op_y(op)];
            vstd::arithmetic::div_mod::lemma_mod_bound(vx as int, m.width as int);
            vstd::arithmetic::div_mod::lemma_mod_bound(vy as int, m.height as int);
            lemma_pixel_in_bounds(
                m.width as int,
                m.height as int,
                vx as int % m.width as int,
                vy as int % m.height as int,
            );
        }
    }
}

/// Applying one more key event extends the fold over the prefix by that
/// event.
proof fn lemma_apply_inputs_take_succ(keys: Seq<bool>, actions: Seq<InputAction>, i: int)
    requires
        0 <= i < actions.len(),
    ensures
        apply_inputs(keys, actions.take(i + 1)) == apply_input(
            apply_inputs(keys, actions.take(i)),
            actions[i],
        ),
    decreases i,
{
    let t1 = actions.take(i + 1);
    let t0 = actions.take(i);
    let first = apply_input(keys, actions[0]);
    if i == 0 {
        assert(t0 =~= Seq::<InputAction>::empty());
        assert(apply_inputs(keys, t0) == keys);
        assert(t1.len() == 1 && t1[0] == actions[0]);
        assert(t1.drop_first() =~= Seq::<InputAction>::empty());
        assert(apply_inputs(keys, t1) == apply_inputs(first, t1.drop_first()));
        assert(apply_inputs(first, t1.drop_first()) == first);
    } else {
        let rest = actions.drop_first();
        lemma_apply_inputs_take_succ(first, rest, i - 1);
        assert(t1[0] == actions[0] && t0[0] == actions[0]);
        assert(t1.drop_first() =~= rest.take(i));
        assert(t0.drop_first() =~= rest.take(i - 1));
        assert(rest[i - 1] == actions[i]);
        assert(apply_inputs(keys, t1) == apply_inputs(first, t1.drop_first()));
        assert(apply_inputs(keys, t0) == apply_inputs(first, t0.drop_first()));
    }
}

impl SimpleMachine {
    /// Appends host key events to the latched key-state table, in order: a
    /// key counts as held from its `Pressed` event until the matching
    /// `Released` event.
    pub fn push_input_actions(&mut self, input_actions: &[InputAction])
        requires
            old(self).wf(),
        ensures
            final(self).wf(),
            final(self)@ == (MachineModel {
                keys: apply_inputs(old(self)@.keys, input_actions@),
                ..old(self)@
            }),
    {
        let mut keys: Vec<bool> = Vec::new();
        core::mem::swap(&mut keys, &mut self.keys);
        let mut i: usize = 0;
        while i < input_actions.len()
            invariant
                i <= input_actions@.len(),
                keys@.len() == KEY_COUNT,
                keys@ == apply_inputs(old(self)@.keys, input_actions@.take(i as int)),
            decreases input_actions@.len() - i,
        {
            proof {
                lemma_apply_inputs_take_succ(old(self)@.keys, input_actions@, i as int);
            }
            match input_actions[i] {
                InputAction::Pressed { code } => {
                    let k = key_index(code);
                    keys[k] = true;
                },
                InputAction::Released { code } => {
                    let k = key_index(code);
                    keys[k] = false;
                },
            }
            i += 1;
        }
        proof {
            assert(input_actions@.take(input_actions@.len() as int) =~= input_actions@);
        }
        self.keys = keys;
        proof {
            assert(final(self)@ =~= (MachineModel {
                keys: apply_inputs(old(self)@.keys, input_actions@),
                ..old(self)@
            }));
        }
    }

    /// Loads a ROM. When the bytes fit between the load offset and the end
    /// of memory, the whole device state is reset and the bytes are copied
    /// to the load offset, leaving the machine ready to step; otherwise
    /// fails with `MemoryOutOfBounds` at the first address past the end of
    /// memory and changes nothing, so a retry with a smaller ROM is safe.
    pub fn load_rom(&mut self, rom: &[u8]) -> (r: Result<(), MachineError>)
        requires
            old(self).wf(),
        ensures
            final(self).wf(),
            rom@.len() > MEMORY_SIZE - LOAD_OFFSET ==> r == Err::<(), MachineError>(
                MachineError::MemoryOutOfBounds(MEMORY_SIZE as u16),
            ) && final(self)@ == old(self)@,
            rom@.len() <= MEMORY_SIZE - LOAD_OFFSET ==> r == Ok::<(), MachineError>(())
                && final(self)@ == (MachineModel {
                mem: spec_loaded_memory(rom@),
                ..spec_initial_model(old(self)@.name, old(self)@.width, old(self)@.height)
            }),
    {
        if rom.len() > MEMORY_SIZE - (LOAD_OFFSET as usize) {
            return Err(MachineError::MemoryOutOfBounds(MEMORY_SIZE as u16));
        }
        let mut mem = Memory::new(MEMORY_SIZE);
        let mut i: usize = 0;
        while i < rom.len()
            invariant
                i <= rom@.len(),
                rom@.len() <= MEMORY_SIZE - LOAD_OFFSET,
                mem@.len() == MEMORY_SIZE,
                forall|j: int|
                    0 <= j < MEMORY_SIZE ==> mem@[j] == (if LOAD_OFFSET <= j < LOAD_OFFSET + i {
                        rom@[j - LOAD_OFFSET]
                    } else {
                        0u8
                    }),
            decreases rom@.len() - i,
        {
            mem.set_byte((LOAD_OFFSET as usize + i) as u16, rom[i]);
            i += 1;
        }
        proof {
            assert(mem@ =~= spec_loaded_memory(rom@));
        }
        let fb_len: usize = self.frame_buffer.len();
        self.memory = mem;
        self.registers = RegisterFile::new(REGISTER_COUNT);
        self.stack = CallStack::new(STACK_CAPACITY);
        self.frame_buffer = zero_u8_vec(fb_len);
        self.output_actions = Vec::new();
        self.keys = false_vec(KEY_COUNT);
        self.pc = LOAD_OFFSET;
        self.halted = false;
        proof {
            assert(final(self)@ =~= (MachineModel {
                mem: spec_loaded_memory(rom@),
                ..spec_initial_model(old(self)@.name, old(self)@.width, old(self)@.height)
            }));
        }
        Ok(())
    }
}

fn bit_mask(bit: u8) -> (mask: u8)
    requires
        bit < 8,
    ensures
        mask == spec_bit_mask(bit as int),
{
    match bit {
        0 => 0x80,
        1 => 0x40,
        2 => 0x20,
        3 => 0x10,
        4 => 0x08,
        5 => 0x04,
        6 => 0x02,
        _ => 0x01,
    }
}

/// A pixel inside the display maps to a byte inside the frame buffer.
proof fn lemma_pixel_in_bounds(width: int, height: int, px: int, py: int)
    requires
        0 < width <= 0x1000,
        0 < height <= 0x1000,
        0 <= px < width,
        0 <= py < height,
    ensures
        0 <= py * width + px,
        py * width + px < width * height,
        width * height <= 0x1000000,
        (py * width + px) / 8 < (width * height + 7) / 8,
{
    assert(0 <= py * width + px && py * width + px < width * height && width * height
        <= 0x1000000) by (nonlinear_arith)
        requires
            0 < width <= 0x1000,
            0 < height <= 0x1000,
            0 <= px < width,
            0 <= py < height,
    ;
    let bit = py * width + px;
    let wh = width * height;
    vstd::arithmetic::div_mod::lemma_div_is_ordered(bit, wh - 1, 8);
    vstd::arithmetic::div_mod::lemma_fundamental_div_mod(wh - 1, 8);
    vstd::arithmetic::div_mod::lemma_mod_bound(wh - 1, 8);
    vstd::arithmetic::div_mod::lemma_fundamental_div_mod_converse_div(
        wh + 7,
        8,
        (wh - 1) / 8 + 1,
        (wh - 1) % 8,
    );
}

impl SimpleMachine {
    /// Decodes and executes exactly one instruction at the program cursor,
    /// as `spec_step` states it: the machine moves to the stepped model,
    /// and the result is the stepped outcome — a scheduling action on
    /// success, and on failure the error of the one component contract the
    /// instruction violated, with the machine left exactly as it was.
    pub fn step(&mut self) -> (r: Result<MachineStepAction, MachineError>)
        requires
            old(self).wf(),
        ensures
            final(self).wf(),
            final(self)@ == spec_step(old(self)@).0,
            spec_outcome_matches(r, spec_step(old(self)@).1),
    {
        if self.halted {
            return Ok(MachineStepAction::Halt);
        }
        let pc: u16 = self.pc;
        if (pc as usize) >= MEMORY_SIZE {
            return Err(MachineError::MemoryOutOfBounds(pc));
        }
        if (pc as usize) + 1 >= MEMORY_SIZE {
            return Err(MachineError::MemoryOutOfBounds(pc + 1));
        }
        let hi: u8 = self.memory.byte_at(pc);
        let lo: u8 = self.memory.byte_at(pc + 1);
        let op: u16 = (hi as u16) * 256 + (lo as u16);
        proof {
            assert(op == spec_opcode(old(self)@.mem, pc));
        }
        let next_pc: u16 = pc + 2;
        if op == 0x0000 {
            self.pc = next_pc;
            self.halted = true;
            Ok(MachineStepAction::Halt)
        } else if op == 0x00E0 {
            let fb_len: usize = self.frame_buffer.len();
            self.frame_buffer = zero_u8_vec(fb_len);
            self.pc = next_pc;
            proof {
                assert(final(self)@.fb =~= zeroed_bytes(old(self)@.fb.len() as int));
            }
            Ok(MachineStepAction::Continue)
        } else if op == 0x00EE {
            match self.stack.pop() {
                Ok(target) => {
                    self.pc = target;
                    Ok(MachineStepAction::Continue)
                },
                Err(e) => Err(e),
            }
        } else if op == 0x00F0 {
            self.output_actions.push(OutputAction::StopBeep);
            self.pc = next_pc;
            Ok(MachineStepAction::Continue)
        } else if op == 0x00F1 {
            self.output_actions.push(OutputAction::StartBeep);
            self.pc = next_pc;
            Ok(MachineStepAction::Continue)
        } else if op == 0x00FF {
            self.output_actions.push(OutputAction::DrawFrame);
            self.pc = next_pc;
            Ok(MachineStepAction::WaitForFrame)
        } else {
            let top: u16 = op / 0x1000;
            let nnn: u16 = op % 0x1000;
            let x: u8 = ((op / 0x100) % 16) as u8;
            let y: u8 = ((op / 16) % 16) as u8;
            let kk: u8 = (op % 0x100) as u8;
            if top == 0x1 {
                self.pc = nnn;
                Ok(MachineStepAction::Continue)
            } else if top == 0x2 {
                match self.stack.push(next_pc) {
                    Ok(_) => {
                        self.pc = nnn;
                        Ok(MachineStepAction::Continue)
                    },
                    Err(e) => Err(e),
                }
            } else if top == 0x3 {
                let vx: u8 = self.registers.read_reg(x);
                self.pc = if vx == kk {
                    pc + 4
                } else {
                    pc + 2
                };
                Ok(MachineStepAction::Continue)
            } else if top == 0x4 {
                let vx: u8 = self.registers.read_reg(x);
                self.pc = if vx != kk {
                    pc + 4
                } else {
                    pc + 2
                };
                Ok(MachineStepAction::Continue)
            } else if top == 0x6 {
                self.registers.write_reg(x, kk);
                self.pc = next_pc;
                Ok(MachineStepAction::Continue)
            } else if top == 0x7 {
                let cur: u8 = self.registers.read_reg(x);
                let sum: u16 = (cur as u16) + (kk as u16);
                self.registers.write_reg(x, (sum % 256) as u8);
                self.pc = next_pc;
                Ok(MachineStepAction::Continue)
            } else if top == 0xA {
                let v0: u8 = self.registers.read_reg(0);
                let addr: u16 = nnn + (v0 as u16);
                if (addr as usize) < MEMORY_SIZE {
                    let v1: u8 = self.registers.read_reg(1);
                    self.memory.set_byte(addr, v1);
                    self.pc = next_pc;
                    Ok(MachineStepAction::Continue)
                } else {
                    Err(MachineError::MemoryOutOfBounds(addr))
                }
            } else if top == 0xB {
                let v0: u8 = self.registers.read_reg(0);
                let addr: u16 = nnn + (v0 as u16);
                if (addr as usize) < MEMORY_SIZE {
                    let value: u8 = self.memory.byte_at(addr);
                    self.registers.write_reg(1, value);
                    self.pc = next_pc;
                    Ok(MachineStepAction::Continue)
                } else {
                    Err(MachineError::MemoryOutOfBounds(addr))
                }
            } else if top == 0xD && op % 16 == 0 {
                let vx: u8 = self.registers.read_reg(x);
                let vy: u8 = self.registers.read_reg(y);
                let px: u32 = (vx as u32) % self.width;
                let py: u32 = (vy as u32) % self.height;
                proof {
                    lemma_pixel_in_bounds(
                        self.width as int,
                        self.height as int,
                        px as int,
                        py as int,
                    );
                }
                let bit: u64 = (py as u64) * (self.width as u64) + (px as u64);
                let byte_idx: usize = (bit / 8) as usize;
                let mask: u8 = bit_mask((bit % 8) as u8);
                let cur: u8 = self.frame_buffer[byte_idx];
                self.frame_buffer[byte_idx] = cur ^ mask;
                self.pc = next_pc;
                Ok(MachineStepAction::Continue)
            } else if top == 0xE && kk == 0x9E {
                let vx: u8 = self.registers.read_reg(x);
                let held: bool = if (vx as usize) < KEY_COUNT {
                    self.keys[vx as usize]
                } else {
                    false
                };
                self.pc = if held {
                    pc + 4
                } else {
                    pc + 2
                };
                Ok(MachineStepAction::Continue)
            } else if top == 0xE && kk == 0xA1 {
                let vx: u8 = self.registers.read_reg(x);
                let held: bool = if (vx as usize) < KEY_COUNT {
                    self.keys[vx as usize]
                } else {
                    false
                };
                self.pc = if !held {
                    pc + 4
                } else {
                    pc + 2
                };
                Ok(MachineStepAction::Continue)
            } else {
                Err(MachineError::UnknownInstruction(hex_u16_string(op)))
            }
        }
    }
}

/// The polymorphic capability surface a conforming device exposes to its
/// host driver. Each device family supplies its own invariant `inv`,
/// established by its constructor and preserved by every operation, and
/// its display geometry `spec_display`, which no operation ever changes
/// and which fixes the length of the frame buffer.
pub trait Machine {
    /// The device's own well-formedness invariant.
    spec fn inv(&self) -> bool;

    /// The device's display geometry, fixed for its lifetime.
    spec fn spec_display(&self) -> DisplayInfo;

    /// The static description of the device. Side-effect-free.
    fn get_info(&self) -> (r: MachineInfo)
        requires
            self.inv(),
        ensures
            r.display == self.spec_display(),
    ;

    /// Loads a ROM, or reports why the bytes do not fit.
    fn load_rom(&mut self, rom: &[u8]) -> (r: Result<(), MachineError>)
        requires
            old(self).inv(),
        ensures
            final(self).inv(),
            final(self).spec_display() == old(self).spec_display(),
    ;

    /// Executes exactly one instruction.
    fn step(&mut self) -> (r: Result<MachineStepAction, MachineError>)
        requires
            old(self).inv(),
        ensures
            final(self).inv(),
            final(self).spec_display() == old(self).spec_display(),
    ;

    /// The current frame buffer, as a read-only borrowed view: one bit per
    /// pixel of the display, packed into whole bytes.
    fn get_frame_buffer(&self) -> (r: &[u8])
        requires
            self.inv(),
        ensures
            r@.len() == spec_frame_buffer_len(
                self.spec_display().width,
                self.spec_display().height,
            ),
    ;

    /// Drains and returns the pending output actions, oldest first.
    fn get_output_actions(&mut self) -> (r: Option<Vec<OutputAction>>)
        requires
            old(self).inv(),
        ensures
            final(self).inv(),
            final(self).spec_display() == old(self).spec_display(),
    ;

    /// Appends host key events to the device's input state, in order.
    fn push_input_actions(&mut self, input_actions: &[InputAction])
        requires
            old(self).inv(),
        ensures
            final(self).inv(),
            final(self).spec_display() == old(self).spec_display(),
    ;
}

impl Machine for SimpleMachine {
    open spec fn inv(&self) -> bool {
        self.wf()
    }

    open spec fn spec_display(&self) -> DisplayInfo {
        DisplayInfo {
            width: self@.width,
            height: self@.height,
            format: FrameBufferFormat::Monochrome,
        }
    }

    fn get_info(&self) -> MachineInfo {
        SimpleMachine::get_info(self)
    }

    fn load_rom(&mut self, rom: &[u8]) -> Result<(), MachineError> {
        SimpleMachine::load_rom(self, rom)
    }

    fn step(&mut self) -> Result<MachineStepAction, MachineError> {
        proof {
            lemma_step_preserves_wf(self@);
        }
        SimpleMachine::step(self)
    }

    fn get_frame_buffer(&self) -> &[u8] {
        SimpleMachine::get_frame_buffer(self)
    }

    fn get_output_actions(&mut self) -> Option<Vec<OutputAction>> {
        SimpleMachine::get_output_actions(self)
    }

    fn push_input_actions(&mut self, input_actions: &[InputAction]) {
        SimpleMachine::push_input_actions(self, input_actions)
    }
}

} // verus!
