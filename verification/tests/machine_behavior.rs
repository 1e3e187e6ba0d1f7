use retro_core::{
    key_index, DisplayInfo, FrameBufferFormat, InputAction, KeyCode, Machine, MachineError,
    MachineStepAction, OutputAction, SimpleMachine,
};

fn new_machine() -> SimpleMachine {
    SimpleMachine::new(
        String::from("demo"),
        DisplayInfo { width: 64, height: 32, format: FrameBufferFormat::Monochrome },
    )
}

fn rom_of(ops: &[u16]) -> Vec<u8> {
    let mut bytes = Vec::new();
    for &op in ops {
        bytes.push((op >> 8) as u8);
        bytes.push((op & 0xFF) as u8);
    }
    bytes
}

#[test]
fn info_reports_the_construction_geometry() {
    let machine = new_machine();
    let info = machine.get_info();
    assert_eq!(info.name, "demo");
    assert_eq!(info.display.width, 64);
    assert_eq!(info.display.height, 32);
    assert_eq!(info.display.format, FrameBufferFormat::Monochrome);
}

#[test]
fn frame_buffer_length_is_packed_pixel_count() {
    let machine = new_machine();
    // 64 x 32 monochrome pixels pack into 256 bytes
    assert_eq!(machine.get_frame_buffer().len(), 256);
    let odd = SimpleMachine::new(
        String::from("odd"),
        DisplayInfo { width: 10, height: 7, format: FrameBufferFormat::Monochrome },
    );
    // 70 bits round up to 9 bytes
    assert_eq!(odd.get_frame_buffer().len(), 9);
}

#[test]
fn unknown_opcode_fails_and_leaves_frame_buffer_zero() {
    let mut machine = new_machine();
    machine.load_rom(&[0x5A, 0xBC]).unwrap();
    match machine.step() {
        Err(MachineError::UnknownInstruction(text)) => assert_eq!(text, "5ABC"),
        other => panic!("expected an unknown-instruction error, got {:?}", other),
    }
    assert!(machine.get_frame_buffer().iter().all(|&b| b == 0));
}

#[test]
fn seventeenth_nested_call_overflows_the_stack() {
    let mut machine = new_machine();
    // each instruction calls the next one; nothing ever returns
    let mut ops = Vec::new();
    for i in 0..17u16 {
        ops.push(0x2000 | (0x202 + 2 * i));
    }
    machine.load_rom(&rom_of(&ops)).unwrap();
    for _ in 0..16 {
        assert_eq!(machine.step().unwrap(), MachineStepAction::Continue);
    }
    assert!(matches!(machine.step(), Err(MachineError::StackOverflow)));
    // the failing step moved nothing: it re-surfaces on the next step
    assert!(matches!(machine.step(), Err(MachineError::StackOverflow)));
}

#[test]
fn pressed_key_is_latched_until_released() {
    // V0 = key number of Q; skip the StartBeep when Q is held; jump back
    let ops = [0x6004, 0xE09E, 0x00F1, 0x1202];
    let mut machine = new_machine();
    machine.load_rom(&rom_of(&ops)).unwrap();
    machine.push_input_actions(&[InputAction::Pressed { code: KeyCode::Q }]);
    // LD, then several rounds of SKP / JP: the skip keeps firing
    for _ in 0..9 {
        assert_eq!(machine.step().unwrap(), MachineStepAction::Continue);
    }
    assert!(machine.get_output_actions().is_none());
    // after Released the same check falls through to the StartBeep
    machine.push_input_actions(&[InputAction::Released { code: KeyCode::Q }]);
    assert_eq!(machine.step().unwrap(), MachineStepAction::Continue);
    assert_eq!(machine.step().unwrap(), MachineStepAction::Continue);
    assert_eq!(machine.get_output_actions(), Some(vec![OutputAction::StartBeep]));
}

#[test]
fn key_without_press_is_not_held() {
    let ops = [0x6004, 0xE09E, 0x00F1, 0x0000];
    let mut machine = new_machine();
    machine.load_rom(&rom_of(&ops)).unwrap();
    assert_eq!(machine.step().unwrap(), MachineStepAction::Continue);
    assert_eq!(machine.step().unwrap(), MachineStepAction::Continue);
    assert_eq!(machine.step().unwrap(), MachineStepAction::Continue);
    assert_eq!(machine.get_output_actions(), Some(vec![OutputAction::StartBeep]));
}

#[test]
fn press_then_release_before_stepping_counts_as_released() {
    let ops = [0x6004, 0xE09E, 0x00F1, 0x0000];
    let mut machine = new_machine();
    machine.load_rom(&rom_of(&ops)).unwrap();
    machine.push_input_actions(&[
        InputAction::Pressed { code: KeyCode::Q },
        InputAction::Released { code: KeyCode::Q },
    ]);
    assert_eq!(machine.step().unwrap(), MachineStepAction::Continue);
    assert_eq!(machine.step().unwrap(), MachineStepAction::Continue);
    assert_eq!(machine.step().unwrap(), MachineStepAction::Continue);
    assert_eq!(machine.get_output_actions(), Some(vec![OutputAction::StartBeep]));
}

#[test]
fn oversized_rom_is_rejected_and_retry_is_safe() {
    let mut machine = new_machine();
    let too_big = vec![0u8; 4096 - 0x200 + 1];
    assert!(matches!(
        machine.load_rom(&too_big),
        Err(MachineError::MemoryOutOfBounds(4096))
    ));
    // the machine is untouched: a smaller ROM loads and runs
    let largest = vec![0u8; 4096 - 0x200];
    machine.load_rom(&largest).unwrap();
    assert_eq!(machine.step().unwrap(), MachineStepAction::Halt);
}

#[test]
fn output_actions_drain_in_order_and_only_once() {
    let ops = [0x00F1, 0x00F0, 0x00FF];
    let mut machine = new_machine();
    machine.load_rom(&rom_of(&ops)).unwrap();
    assert_eq!(machine.step().unwrap(), MachineStepAction::Continue);
    assert_eq!(machine.step().unwrap(), MachineStepAction::Continue);
    assert_eq!(machine.step().unwrap(), MachineStepAction::WaitForFrame);
    assert_eq!(
        machine.get_output_actions(),
        Some(vec![OutputAction::StartBeep, OutputAction::StopBeep, OutputAction::DrawFrame])
    );
    assert!(machine.get_output_actions().is_none());
}

#[test]
fn drain_on_fresh_machine_returns_none() {
    let mut machine = new_machine();
    assert!(machine.get_output_actions().is_none());
}

#[test]
fn reload_clears_pending_output() {
    let ops = [0x00F1, 0x0000];
    let mut machine = new_machine();
    machine.load_rom(&rom_of(&ops)).unwrap();
    assert_eq!(machine.step().unwrap(), MachineStepAction::Continue);
    machine.load_rom(&rom_of(&ops)).unwrap();
    assert!(machine.get_output_actions().is_none());
}

#[test]
fn halt_is_terminal_and_repeats() {
    let mut machine = new_machine();
    machine.load_rom(&rom_of(&[0x0000])).unwrap();
    assert_eq!(machine.step().unwrap(), MachineStepAction::Halt);
    assert_eq!(machine.step().unwrap(), MachineStepAction::Halt);
    assert_eq!(machine.step().unwrap(), MachineStepAction::Halt);
}

#[test]
fn register_add_wraps_at_eight_bits() {
    // V0 = 0xFF; V0 += 2; skip the StartBeep when V0 == 1; halt
    let ops = [0x60FF, 0x7002, 0x3001, 0x00F1, 0x0000];
    let mut machine = new_machine();
    machine.load_rom(&rom_of(&ops)).unwrap();
    assert_eq!(machine.step().unwrap(), MachineStepAction::Continue);
    assert_eq!(machine.step().unwrap(), MachineStepAction::Continue);
    assert_eq!(machine.step().unwrap(), MachineStepAction::Continue);
    assert_eq!(machine.step().unwrap(), MachineStepAction::Halt);
    assert!(machine.get_output_actions().is_none());
}

#[test]
fn skip_not_equal_takes_the_other_branch() {
    // V0 = 1; skip when V0 != 1 never fires, so the StartBeep runs
    let ops = [0x6001, 0x4001, 0x00F1, 0x0000];
    let mut machine = new_machine();
    machine.load_rom(&rom_of(&ops)).unwrap();
    assert_eq!(machine.step().unwrap(), MachineStepAction::Continue);
    assert_eq!(machine.step().unwrap(), MachineStepAction::Continue);
    assert_eq!(machine.step().unwrap(), MachineStepAction::Continue);
    assert_eq!(machine.get_output_actions(), Some(vec![OutputAction::StartBeep]));
}

#[test]
fn store_and_load_round_trip_through_memory() {
    // store V1 = 0x42 at 0x300, clear V1, load it back, verify via skip
    let ops = [0x6000, 0x6142, 0xA300, 0x6100, 0xB300, 0x3142, 0x00F1, 0x0000];
    let mut machine = new_machine();
    machine.load_rom(&rom_of(&ops)).unwrap();
    for _ in 0..5 {
        assert_eq!(machine.step().unwrap(), MachineStepAction::Continue);
    }
    assert_eq!(machine.step().unwrap(), MachineStepAction::Continue);
    assert_eq!(machine.step().unwrap(), MachineStepAction::Halt);
    assert!(machine.get_output_actions().is_none());
}

#[test]
fn store_past_memory_end_fails_with_the_address() {
    // V0 = 0xFF, then store at 0xF10 + 0xFF = 0x100F, past the end
    let ops = [0x60FF, 0xAF10];
    let mut machine = new_machine();
    machine.load_rom(&rom_of(&ops)).unwrap();
    assert_eq!(machine.step().unwrap(), MachineStepAction::Continue);
    match machine.step() {
        Err(MachineError::MemoryOutOfBounds(addr)) => {
            assert_eq!(addr, 0x100F);
            assert_eq!(
                MachineError::MemoryOutOfBounds(addr).message(),
                "Memory out of bounds: 100F"
            );
        },
        other => panic!("expected a memory error, got {:?}", other),
    }
}

#[test]
fn return_on_empty_stack_underflows() {
    let mut machine = new_machine();
    machine.load_rom(&rom_of(&[0x00EE])).unwrap();
    assert!(matches!(machine.step(), Err(MachineError::StackUnderflow)));
}

#[test]
fn call_and_return_resume_after_the_call() {
    // call a routine at 0x206 that beeps and returns; then halt at 0x204
    let ops = [0x2206, 0x00F0, 0x0000, 0x00F1, 0x00EE];
    let mut machine = new_machine();
    machine.load_rom(&rom_of(&ops)).unwrap();
    assert_eq!(machine.step().unwrap(), MachineStepAction::Continue); // call
    assert_eq!(machine.step().unwrap(), MachineStepAction::Continue); // beep on
    assert_eq!(machine.step().unwrap(), MachineStepAction::Continue); // return
    assert_eq!(machine.step().unwrap(), MachineStepAction::Continue); // beep off
    assert_eq!(machine.step().unwrap(), MachineStepAction::Halt);
    assert_eq!(
        machine.get_output_actions(),
        Some(vec![OutputAction::StartBeep, OutputAction::StopBeep])
    );
}

#[test]
fn pixel_toggles_on_and_off() {
    // toggle the pixel at (5, 3) twice with a frame wait in between
    let ops = [0x6005, 0x6103, 0xD010, 0x00FF, 0xD010, 0x0000];
    let mut machine = new_machine();
    machine.load_rom(&rom_of(&ops)).unwrap();
    assert_eq!(machine.step().unwrap(), MachineStepAction::Continue);
    assert_eq!(machine.step().unwrap(), MachineStepAction::Continue);
    assert_eq!(machine.step().unwrap(), MachineStepAction::Continue);
    // bit 3 * 64 + 5 = 197: byte 24, mask 0x80 >> 5
    let fb = machine.get_frame_buffer();
    assert_eq!(fb[24], 0x04);
    assert!(fb.iter().enumerate().all(|(i, &b)| i == 24 || b == 0));
    assert_eq!(machine.step().unwrap(), MachineStepAction::WaitForFrame);
    assert_eq!(machine.get_output_actions(), Some(vec![OutputAction::DrawFrame]));
    assert_eq!(machine.step().unwrap(), MachineStepAction::Continue);
    assert!(machine.get_frame_buffer().iter().all(|&b| b == 0));
}

#[test]
fn clear_screen_zeroes_the_frame_buffer() {
    let ops = [0x6005, 0x6103, 0xD010, 0x00E0, 0x0000];
    let mut machine = new_machine();
    machine.load_rom(&rom_of(&ops)).unwrap();
    for _ in 0..3 {
        assert_eq!(machine.step().unwrap(), MachineStepAction::Continue);
    }
    assert!(machine.get_frame_buffer().iter().any(|&b| b != 0));
    assert_eq!(machine.step().unwrap(), MachineStepAction::Continue);
    assert!(machine.get_frame_buffer().iter().all(|&b| b == 0));
}

#[test]
fn runaway_cursor_faults_at_the_first_missing_byte() {
    // jump to the last byte of memory: the second instruction byte is
    // out of range
    let mut machine = new_machine();
    machine.load_rom(&rom_of(&[0x1FFF])).unwrap();
    assert_eq!(machine.step().unwrap(), MachineStepAction::Continue);
    assert!(matches!(machine.step(), Err(MachineError::MemoryOutOfBounds(0x1000))));
}

fn run_until_halt<M: Machine>(device: &mut M, rom: &[u8], budget: usize) -> Vec<OutputAction> {
    device.load_rom(rom).unwrap();
    for _ in 0..budget {
        match device.step().unwrap() {
            MachineStepAction::Halt => break,
            MachineStepAction::Continue | MachineStepAction::WaitForFrame => {},
        }
    }
    device.get_output_actions().unwrap_or_default()
}

#[test]
fn trait_interface_drives_a_device() {
    let mut machine = new_machine();
    let info = Machine::get_info(&machine);
    assert_eq!(info.display.width, 64);
    assert_eq!(Machine::get_frame_buffer(&machine).len(), 256);
    let actions = run_until_halt(&mut machine, &rom_of(&[0x00F1, 0x00FF, 0x00F0, 0x0000]), 16);
    assert_eq!(
        actions,
        vec![OutputAction::StartBeep, OutputAction::DrawFrame, OutputAction::StopBeep]
    );
}

#[test]
fn key_codes_map_to_distinct_slots() {
    let codes = [
        KeyCode::Num1,
        KeyCode::Num2,
        KeyCode::Num3,
        KeyCode::Num4,
        KeyCode::Q,
        KeyCode::W,
        KeyCode::E,
        KeyCode::R,
        KeyCode::A,
        KeyCode::S,
        KeyCode::D,
        KeyCode::F,
        KeyCode::Z,
        KeyCode::X,
        KeyCode::C,
        KeyCode::V,
    ];
    for (i, code) in codes.iter().enumerate() {
        assert_eq!(key_index(*code), i);
    }
}
