use vstd::prelude::*;

use crate::instruction::{spec_decode, Chip8Error, Instruction};

verus! {

/// The whole machine state as mathematics: the CPU registers together with
/// the memory contents. Every executable operation of [`crate::System`] is
/// specified as a function over this type.
#[verifier::ext_equal]
pub ghost struct MachineState {
    /// Address of the next instruction to fetch.
    pub pc: u16,
    /// Base address for sprite reads.
    pub index: u16,
    /// Return addresses, the most recently pushed one last.
    pub stack: Seq<u16>,
    /// The sixteen general-purpose registers.
    pub regs: Seq<u8>,
    /// The 4096 addressable bytes.
    pub mem: Seq<u8>,
}

/// A draw request as mathematics: an origin in screen pixels and one row of
/// eight pixels per sprite byte, the most significant bit leftmost.
#[verifier::ext_equal]
pub ghost struct DrawRequest {
    pub x: u8,
    pub y: u8,
    pub rows: Seq<Seq<bool>>,
}

/// Well-formedness: sixteen registers and 4096 bytes of memory.
pub open spec fn wf_state(s: MachineState) -> bool {
    s.regs.len() == 16 && s.mem.len() == 4096
}

/// 16-bit wraparound addition, as the hardware's program counter does it.
pub open spec fn wrap_add16(a: u16, b: u16) -> u16 {
    ((a + b) % 0x10000) as u16
}

/// The big-endian 16-bit word formed by two adjacent bytes: the first byte
/// is the high-order one.
pub open spec fn word_at(mem: Seq<u8>, addr: int) -> u16
    recommends
        0 <= addr,
        addr + 2 <= mem.len(),
{
    (mem[addr] * 256 + mem[addr + 1]) as u16
}

/// The eight pixels of one sprite byte: bit 7, the most significant, is the
/// leftmost pixel.
pub open spec fn sprite_row(b: u8) -> Seq<bool> {
    seq![
        b & 0x80 != 0,
        b & 0x40 != 0,
        b & 0x20 != 0,
        b & 0x10 != 0,
        b & 0x08 != 0,
        b & 0x04 != 0,
        b & 0x02 != 0,
        b & 0x01 != 0,
    ]
}

/// The `n` rows of sprite data read from memory starting at `base`.
pub open spec fn sprite_rows(mem: Seq<u8>, base: u16, n: u8) -> Seq<Seq<bool>> {
    Seq::new(n as nat, |i: int| sprite_row(mem[base + i]))
}

/// The effect of one decoded instruction on the post-fetch state `s` (the
/// program counter has already moved past the instruction): the next state,
/// and either a draw request, or nothing, or a recoverable error.
///
/// `CallSubroutine` pushes `s.pc + 2`, two bytes past the instruction that
/// follows the call; the matching return therefore skips that instruction.
/// This offset is part of the machine's defined behavior, quirk included.
pub open spec fn exec_instr(s: MachineState, instr: Instruction) -> (MachineState, Result<
    Option<DrawRequest>,
    Chip8Error,
>) {
    match instr {
        Instruction::ClearScreen => (s, Ok(None)),
        Instruction::SetRegisterImmediate { register, value } => (
            MachineState { regs: s.regs.update(register as int, value), ..s },
            Ok(None),
        ),
        Instruction::SetIndexImmediate { value } => (MachineState { index: value, ..s }, Ok(None)),
        Instruction::DrawSprite { x, y, n } => {
            if n == 0 || s.index + n <= 4096 {
                (
                    s,
                    Ok(
                        Some(
                            DrawRequest {
                                x: s.regs[x as int],
                                y: s.regs[y as int],
                                rows: sprite_rows(s.mem, s.index, n),
                            },
                        ),
                    ),
                )
            } else {
                (s, Err(Chip8Error::OutOfRangeAccess { address: s.index }))
            }
        },
        Instruction::Jump { address } => (MachineState { pc: address, ..s }, Ok(None)),
        Instruction::AddImmediateToRegister { register, value } => (
            MachineState {
                regs: s.regs.update(
                    register as int,
                    ((s.regs[register as int] + value) % 256) as u8,
                ),
                ..s
            },
            Ok(None),
        ),
        Instruction::CallSubroutine { address } => (
            MachineState { pc: address, stack: s.stack.push(wrap_add16(s.pc, 2)), ..s },
            Ok(None),
        ),
        Instruction::ReturnFromSubroutine => {
            if s.stack.len() == 0 {
                (s, Err(Chip8Error::StackUnderflow))
            } else {
                (
                    MachineState { pc: s.stack.last(), stack: s.stack.drop_last(), ..s },
                    Ok(None),
                )
            }
        },
    }
}

/// The word the next cycle will fetch, where the program counter and its
/// successor are both in range; `None` where the fetch runs off the end.
pub open spec fn fetch_word(s: MachineState) -> Option<u16> {
    if s.pc + 2 <= 4096 {
        Some(word_at(s.mem, s.pc as int))
    } else {
        None
    }
}

/// One full fetch-decode-execute cycle. The program counter advances by two
/// unconditionally, before any instruction-specific logic; a failed fetch or
/// an unknown opcode is a recoverable error on a state that has already moved
/// past the bad word, so the next cycle simply continues.
pub open spec fn step_spec(s: MachineState) -> (MachineState, Result<
    Option<DrawRequest>,
    Chip8Error,
>) {
    let fetched = MachineState { pc: wrap_add16(s.pc, 2), ..s };
    match fetch_word(s) {
        None => (fetched, Err(Chip8Error::OutOfRangeAccess { address: s.pc })),
        Some(op) => match spec_decode(op) {
            Err(e) => (fetched, Err(e)),
            Ok(instr) => exec_instr(fetched, instr),
        },
    }
}

/// The machine as constructed: everything zero, the call stack empty.
pub open spec fn init_state() -> MachineState {
    MachineState {
        pc: 0,
        index: 0,
        stack: Seq::empty(),
        regs: Seq::new(16, |i: int| 0u8),
        mem: Seq::new(4096, |i: int| 0u8),
    }
}

/// The state after a program is copied in verbatim at `0x200`: the program
/// counter moves to `0x200` and every byte outside the copied range keeps
/// its old value.
pub open spec fn load_spec(s: MachineState, rom: Seq<u8>) -> MachineState
    recommends
        wf_state(s),
        rom.len() + 0x200 <= 4096,
{
    MachineState {
        pc: 0x200,
        mem: Seq::new(
            4096,
            |i: int|
                if 0x200 <= i < 0x200 + rom.len() {
                    rom[i - 0x200]
                } else {
                    s.mem[i]
                },
        ),
        ..s
    }
}

} // verus!
