use vstd::prelude::*;

verus! {

/// One decoded instruction of the eight-opcode subset this machine implements.
#[derive(Clone, Copy, Debug, PartialEq, Eq, Structural)]
pub enum Instruction {
    /// `0x00E0`: clear the display. The screen itself is not modeled here, so
    /// executing this changes no state.
    ClearScreen,
    /// `0x6XNN`: set register `X` to `NN`.
    SetRegisterImmediate { register: u8, value: u8 },
    /// `0xANNN`: set the index register to `NNN`.
    SetIndexImmediate { value: u16 },
    /// `0xDXYN`: draw an `N`-row sprite at origin `(v[X], v[Y])`, reading the
    /// sprite bytes from memory starting at the index register.
    DrawSprite { x: u8, y: u8, n: u8 },
    /// `0x1NNN`: jump to address `NNN`.
    Jump { address: u16 },
    /// `0x7XNN`: add `NN` to register `X`, wrapping modulo 256.
    AddImmediateToRegister { register: u8, value: u8 },
    /// `0x2NNN`: push a return address onto the call stack, then jump to `NNN`.
    CallSubroutine { address: u16 },
    /// Pop the most recent return address and jump to it. The decoder never
    /// produces this variant, but the executor still defines its behavior.
    ReturnFromSubroutine,
}

/// A recoverable failure of one execution cycle. Every failure leaves the
/// machine able to continue: the caller may simply call `step` again.
#[derive(Clone, Copy, Debug, PartialEq, Eq, Structural)]
pub enum Chip8Error {
    /// The fetched word matches no opcode pattern; carries the word itself
    /// for diagnostics. The program counter has already moved past it.
    UnknownOpcode { opcode: u16 },
    /// A fetch or sprite read would touch memory at or past the 4096-byte
    /// end; carries the base address of the failed access.
    OutOfRangeAccess { address: u16 },
    /// `ReturnFromSubroutine` with no return address on the call stack.
    StackUnderflow,
}

/// Which instruction, if any, a fetched 16-bit word decodes to: the exact
/// word `0x00E0`, or else a dispatch on the high nibble, with the operands
/// cut from the lower twelve bits.
pub open spec fn spec_decode(op: u16) -> Result<Instruction, Chip8Error> {
    if op == 0x00E0 {
        Ok(Instruction::ClearScreen)
    } else {
        let nnn = (op % 0x1000) as u16;
        let x = ((op / 0x100) % 0x10) as u8;
        let y = ((op / 0x10) % 0x10) as u8;
        let n = (op % 0x10) as u8;
        let nn = (op % 0x100) as u8;
        if op / 0x1000 == 0x1 {
            Ok(Instruction::Jump { address: nnn })
        } else if op / 0x1000 == 0x2 {
            Ok(Instruction::CallSubroutine { address: nnn })
        } else if op / 0x1000 == 0x6 {
            Ok(Instruction::SetRegisterImmediate { register: x, value: nn })
        } else if op / 0x1000 == 0x7 {
            Ok(Instruction::AddImmediateToRegister { register: x, value: nn })
        } else if op / 0x1000 == 0xA {
            Ok(Instruction::SetIndexImmediate { value: nnn })
        } else if op / 0x1000 == 0xD {
            Ok(Instruction::DrawSprite { x, y, n })
        } else {
            Err(Chip8Error::UnknownOpcode { opcode: op })
        }
    }
}

/// Operand ranges that every decoded instruction satisfies: register indices
/// and sprite heights are nibbles, addresses are twelve bits.
pub open spec fn instr_wf(instr: Instruction) -> bool {
    match instr {
        Instruction::ClearScreen => true,
        Instruction::SetRegisterImmediate { register, .. } => register < 16,
        Instruction::SetIndexImmediate { value } => value < 0x1000,
        Instruction::DrawSprite { x, y, n } => x < 16 && y < 16 && n < 16,
        Instruction::Jump { address } => address < 0x1000,
        Instruction::AddImmediateToRegister { register, .. } => register < 16,
        Instruction::CallSubroutine { address } => address < 0x1000,
        Instruction::ReturnFromSubroutine => true,
    }
}

/// Everything the decoder yields has in-range operands.
pub proof fn lemma_decode_wf(op: u16)
    ensures
        spec_decode(op) matches Ok(instr) ==> instr_wf(instr),
{
}

/// Decodes one fetched word. Exactly the dispatch table of [`spec_decode`]:
/// an unrecognized word is a recoverable [`Chip8Error::UnknownOpcode`].
pub fn decode_opcode(op: u16) -> (r: Result<Instruction, Chip8Error>)
    ensures
        r == spec_decode(op),
        r matches Ok(instr) ==> instr_wf(instr),
{
    if op == 0x00E0 {
        return Ok(Instruction::ClearScreen);
    }
    let nnn: u16 = op % 0x1000;
    let x: u8 = ((op / 0x100) % 0x10) as u8;
    let y: u8 = ((op / 0x10) % 0x10) as u8;
    let n: u8 = (op % 0x10) as u8;
    let nn: u8 = (op % 0x100) as u8;
    match op / 0x1000 {
        0x1 => Ok(Instruction::Jump { address: nnn }),
        0x2 => Ok(Instruction::CallSubroutine { address: nnn }),
        0x6 => Ok(Instruction::SetRegisterImmediate { register: x, value: nn }),
        0x7 => Ok(Instruction::AddImmediateToRegister { register: x, value: nn }),
        0xA => Ok(Instruction::SetIndexImmediate { value: nnn }),
        0xD => Ok(Instruction::DrawSprite { x, y, n }),
        _ => Err(Chip8Error::UnknownOpcode { opcode: op }),
    }
}

} // verus!
