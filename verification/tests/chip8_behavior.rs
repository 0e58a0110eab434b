use chip8::{Chip8Error, DrawAction, Instruction, System};

fn loaded(rom: Vec<u8>) -> System {
    let mut sys = System::new();
    assert!(rom.len() + 0x200 <= 4096);
    sys.load_rom(rom);
    sys
}

#[test]
fn new_system_is_zeroed() {
    let sys = System::new();
    assert_eq!(sys.pc(), 0);
    assert_eq!(sys.index_register(), 0);
    assert_eq!(sys.stack_depth(), 0);
    for i in 0..16u8 {
        assert_eq!(sys.register(i), 0);
    }
}

#[test]
fn draw_action_new_is_blank() {
    let d = DrawAction::new();
    assert_eq!(d.x, 0);
    assert_eq!(d.y, 0);
    assert_eq!(d.pixels.len(), 1);
    assert_eq!(d.pixels[0], [false; 8]);
}

#[test]
fn load_rom_sets_pc_to_program_start() {
    let sys = loaded(vec![0x60, 0x05]);
    assert_eq!(sys.pc(), 0x200);
}

#[test]
fn decode_opcode_covers_the_dispatch_table() {
    assert_eq!(
        chip8::decode_opcode(0x00E0),
        Ok(Instruction::ClearScreen)
    );
    assert_eq!(
        chip8::decode_opcode(0x1234),
        Ok(Instruction::Jump { address: 0x234 })
    );
    assert_eq!(
        chip8::decode_opcode(0x2ABC),
        Ok(Instruction::CallSubroutine { address: 0xABC })
    );
    assert_eq!(
        chip8::decode_opcode(0x6305),
        Ok(Instruction::SetRegisterImmediate { register: 3, value: 5 })
    );
    assert_eq!(
        chip8::decode_opcode(0x74FF),
        Ok(Instruction::AddImmediateToRegister { register: 4, value: 0xFF })
    );
    assert_eq!(
        chip8::decode_opcode(0xA210),
        Ok(Instruction::SetIndexImmediate { value: 0x210 })
    );
    assert_eq!(
        chip8::decode_opcode(0xD121),
        Ok(Instruction::DrawSprite { x: 1, y: 2, n: 1 })
    );
    assert_eq!(
        chip8::decode_opcode(0x8000),
        Err(Chip8Error::UnknownOpcode { opcode: 0x8000 })
    );
    assert_eq!(
        chip8::decode_opcode(0x0000),
        Err(Chip8Error::UnknownOpcode { opcode: 0x0000 })
    );
    // 0x00E0 is an exact match: a nearby word in page zero does not decode.
    assert_eq!(
        chip8::decode_opcode(0x00E1),
        Err(Chip8Error::UnknownOpcode { opcode: 0x00E1 })
    );
}

#[test]
fn set_then_add_is_sum_mod_256() {
    let mut sys = loaded(vec![0x60, 0x05, 0x70, 0x03]);
    assert!(matches!(sys.step(), Ok(None)));
    assert_eq!(sys.register(0), 5);
    assert!(matches!(sys.step(), Ok(None)));
    assert_eq!(sys.register(0), 8);
}

#[test]
fn set_then_add_wraps_around() {
    let mut sys = loaded(vec![0x61, 0xFF, 0x71, 0x03]);
    assert!(matches!(sys.step(), Ok(None)));
    assert!(matches!(sys.step(), Ok(None)));
    assert_eq!(sys.register(1), 2);
}

#[test]
fn draw_reads_sprite_bytes_at_the_index_address() {
    // index := 0x210, then draw two rows; 0xFF and 0x01 sit at 0x210, 0x211.
    let mut rom = vec![0xA2, 0x10, 0xD0, 0x02];
    rom.resize(0x10, 0);
    rom.push(0xFF);
    rom.push(0x01);
    let mut sys = loaded(rom);
    assert!(matches!(sys.step(), Ok(None)));
    assert_eq!(sys.index_register(), 0x210);
    match sys.step() {
        Ok(Some(action)) => {
            assert_eq!(action.pixels.len(), 2);
            assert_eq!(action.pixels[0], [true; 8]);
            assert_eq!(
                action.pixels[1],
                [false, false, false, false, false, false, false, true]
            );
        }
        _ => panic!("expected a draw action"),
    }
}

#[test]
fn jump_fetches_from_the_target_not_the_next_word() {
    // 0x200: jump 0x206; 0x202: v0 := 10 (skipped); 0x206: v0 := 7.
    let mut sys = loaded(vec![0x12, 0x06, 0x60, 0x0A, 0x00, 0x00, 0x60, 0x07]);
    assert!(matches!(sys.step(), Ok(None)));
    assert_eq!(sys.pc(), 0x206);
    assert!(matches!(sys.step(), Ok(None)));
    assert_eq!(sys.register(0), 7);
}

#[test]
fn call_pushes_and_return_restores_the_pushed_address() {
    let mut sys = loaded(vec![0x22, 0x08]);
    assert!(matches!(sys.step(), Ok(None)));
    assert_eq!(sys.pc(), 0x208);
    assert_eq!(sys.stack_depth(), 1);
    // The pushed address is the post-fetch pc plus 2: 0x202 + 2. The decoder
    // never yields ReturnFromSubroutine, so the executor runs it directly.
    assert!(matches!(
        sys.execute(Instruction::ReturnFromSubroutine),
        Ok(None)
    ));
    assert_eq!(sys.pc(), 0x204);
    assert_eq!(sys.stack_depth(), 0);
}

#[test]
fn return_with_empty_stack_is_a_recoverable_error() {
    let mut sys = System::new();
    match sys.execute(Instruction::ReturnFromSubroutine) {
        Err(Chip8Error::StackUnderflow) => {}
        _ => panic!("expected a stack underflow"),
    }
    assert_eq!(sys.pc(), 0);
}

#[test]
fn draw_expands_one_byte_msb_first() {
    // index := 0x206, draw one row; 0b1011_0000 sits at 0x206.
    let mut sys = loaded(vec![0xA2, 0x06, 0xD0, 0x01, 0x00, 0x00, 0xB0]);
    assert!(matches!(sys.step(), Ok(None)));
    match sys.step() {
        Ok(Some(action)) => {
            assert_eq!(action.pixels.len(), 1);
            assert_eq!(
                action.pixels[0],
                [true, false, true, true, false, false, false, false]
            );
        }
        _ => panic!("expected a draw action"),
    }
}

#[test]
fn draw_with_zero_rows_is_an_empty_action() {
    let mut sys = loaded(vec![0xD0, 0x00]);
    match sys.step() {
        Ok(Some(action)) => {
            assert_eq!(action.x, 0);
            assert_eq!(action.y, 0);
            assert_eq!(action.pixels.len(), 0);
        }
        _ => panic!("expected a draw action"),
    }
}

#[test]
fn draw_past_the_end_of_memory_is_reported() {
    let mut sys = loaded(vec![0xAF, 0xFF, 0xD0, 0x02]);
    assert!(matches!(sys.step(), Ok(None)));
    match sys.step() {
        Err(Chip8Error::OutOfRangeAccess { address }) => assert_eq!(address, 0xFFF),
        _ => panic!("expected an out-of-range error"),
    }
    // The failure was per-cycle: the machine keeps going afterwards.
    assert_eq!(sys.pc(), 0x204);
    assert!(matches!(
        sys.step(),
        Err(Chip8Error::UnknownOpcode { opcode: 0 })
    ));
}

#[test]
fn clear_screen_changes_nothing_observable() {
    let mut sys = loaded(vec![0x00, 0xE0]);
    assert!(matches!(sys.step(), Ok(None)));
    assert_eq!(sys.pc(), 0x202);
}

#[test]
fn stepping_past_the_end_reports_and_continues() {
    let mut sys = loaded(vec![0x60, 0x05]);
    assert!(matches!(sys.step(), Ok(None)));
    // Stale memory past the program is zero-filled: every cycle reports an
    // unknown opcode, moves on by two, and never crashes.
    while sys.pc() <= 4094 {
        match sys.step() {
            Ok(_) => panic!("zero words do not decode"),
            Err(Chip8Error::UnknownOpcode { opcode }) => assert_eq!(opcode, 0),
            Err(e) => panic!("unexpected error: {:?}", e),
        }
    }
    // From here a fetch would run off the end: reported, and the pc still
    // moves past it, so calling step again stays safe.
    assert_eq!(sys.pc(), 4096);
    match sys.step() {
        Err(Chip8Error::OutOfRangeAccess { address }) => assert_eq!(address, 4096),
        _ => panic!("expected an out-of-range fetch"),
    }
    assert_eq!(sys.pc(), 4098);
    assert!(sys.step().is_err());
}

#[test]
fn fetch_at_the_last_byte_is_out_of_range() {
    let mut sys = loaded(vec![0x1F, 0xFF]);
    assert!(matches!(sys.step(), Ok(None)));
    assert_eq!(sys.pc(), 0xFFF);
    match sys.step() {
        Err(Chip8Error::OutOfRangeAccess { address }) => assert_eq!(address, 0xFFF),
        _ => panic!("expected an out-of-range fetch"),
    }
    assert_eq!(sys.pc(), 0x1001);
}

#[test]
fn logo_program_draws_at_origin_five_zero() {
    // v0 := 5; index := 0x210; draw one row of the sprite byte 0x80.
    let mut rom = vec![0x60, 0x05, 0xA2, 0x10, 0xD0, 0x01];
    rom.resize(0x10, 0);
    rom.push(0x80);
    let mut sys = loaded(rom);
    assert!(matches!(sys.step(), Ok(None)));
    assert_eq!(sys.register(0), 5);
    assert!(matches!(sys.step(), Ok(None)));
    assert_eq!(sys.index_register(), 0x210);
    match sys.step() {
        Ok(Some(action)) => {
            // 0xD001 takes both coordinates from v0, which holds 5.
            assert_eq!(action.x, 5);
            assert_eq!(action.y, 5);
            assert_eq!(action.pixels.len(), 1);
            assert_eq!(
                action.pixels[0],
                [true, false, false, false, false, false, false, false]
            );
        }
        _ => panic!("expected a draw action"),
    }
}
