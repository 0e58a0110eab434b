use vstd::prelude::*;

use crate::cpu::Cpu;
use crate::instruction::{instr_wf, Chip8Error, Instruction};
use crate::machine::{
    exec_instr, fetch_word, init_state, load_spec, sprite_row, sprite_rows, step_spec, wf_state,
    wrap_add16, DrawRequest, MachineState,
};
use crate::memory::{Memory, MEMORY_SIZE, PROGRAM_START};

verus! {

/// The result of executing a `DrawSprite` instruction, handed to the caller
/// of [`System::step`] for an external renderer to consume: an origin in
/// screen pixel coordinates, taken directly from two registers, and one row
/// of eight pixels per sprite byte, the most significant bit leftmost.
pub struct DrawAction {
    pub x: u8,
    pub y: u8,
    pub pixels: Vec<[bool; 8]>,
}

impl View for DrawAction {
    type V = DrawRequest;

    open spec fn view(&self) -> DrawRequest {
        DrawRequest {
            x: self.x,
            y: self.y,
            rows: self.pixels@.map_values(|row: [bool; 8]| row@),
        }
    }
}

impl DrawAction {
    /// A blank request: origin `(0, 0)` and a single all-dark row.
    pub fn new() -> (d: DrawAction)
        ensures
            d.x == 0,
            d.y == 0,
            d.pixels@.len() == 1,
            forall|j: int| 0 <= j < 8 ==> d.pixels@[0]@[j] == false,
    {
        let row: [bool; 8] = [false, false, false, false, false, false, false, false];
        let mut pixels: Vec<[bool; 8]> = Vec::new();
        pixels.push(row);
        DrawAction { x: 0, y: 0, pixels }
    }
}

/// The composed machine: a [`Cpu`] and a [`Memory`], with the decoder and
/// the per-cycle executor. An external driver calls [`System::load_rom`]
/// once and then [`System::step`] repeatedly.
pub struct System {
    pub cpu: Cpu,
    pub memory: Memory,
}

impl View for System {
    type V = MachineState;

    open spec fn view(&self) -> MachineState {
        MachineState {
            pc: self.cpu.pc,
            index: self.cpu.index,
            stack: self.cpu.stack@,
            regs: self.cpu.v@,
            mem: self.memory@,
        }
    }
}

/// The mathematical form of what one cycle hands back.
pub open spec fn step_result_view(r: Result<Option<DrawAction>, Chip8Error>) -> Result<
    Option<DrawRequest>,
    Chip8Error,
> {
    match r {
        Ok(None) => Ok(None),
        Ok(Some(d)) => Ok(Some(d@)),
        Err(e) => Err(e),
    }
}

impl System {
    /// Both components well-formed: sixteen registers, 4096 bytes.
    pub open spec fn wf(&self) -> bool {
        wf_state(self@)
    }

    /// A fresh machine: zeroed registers and memory, empty call stack.
    pub fn new() -> (s: System)
        ensures
            s.wf(),
            s@ == init_state(),
    {
        let s = System { cpu: Cpu::new(), memory: Memory::new() };
        proof {
            assert(s@ =~= init_state());
        }
        s
    }

    /// Copies the program verbatim into memory starting at `0x200` and sets
    /// the program counter there. The caller must keep the program within
    /// the `4096 - 0x200` bytes available; nothing else changes.
    pub fn load_rom(&mut self, rom: Vec<u8>)
        requires
            old(self).wf(),
            rom@.len() + 0x200 <= 4096,
        ensures
            final(self).wf(),
            final(self)@ == load_spec(old(self)@, rom@),
    {
        let mut i: usize = 0;
        while i < rom.len()
            invariant
                old(self).wf(),
                i <= rom@.len(),
                rom@.len() + 0x200 <= 4096,
                self.cpu == old(self).cpu,
                self.memory.wf(),
                forall|k: int|
                    0x200 <= k < 0x200 + i ==> self.memory@[k] == rom@[k - 0x200],
                forall|k: int|
                    0 <= k < 4096 && !(0x200 <= k < 0x200 + i) ==> self.memory@[k] == old(
                        self,
                    ).memory@[k],
            decreases rom@.len() - i,
        {
            self.memory.write((0x200 + i) as u16, rom[i]);
            i = i + 1;
        }
        self.cpu.pc = PROGRAM_START;
        proof {
            assert(self@ =~= load_spec(old(self)@, rom@));
        }
    }

    /// Fetches the big-endian word at the program counter and decodes it.
    /// The program counter advances by two unconditionally, before any
    /// instruction-specific logic; a fetch that would run past the end of
    /// memory is a recoverable error carrying the fetch address.
    pub fn decode(&mut self) -> (r: Result<Instruction, Chip8Error>)
        requires
            old(self).wf(),
        ensures
            final(self).wf(),
            final(self)@ == (MachineState { pc: wrap_add16(old(self)@.pc, 2), ..old(self)@ }),
            match fetch_word(old(self)@) {
                Some(op) => r == crate::instruction::spec_decode(op),
                None => r == Err::<Instruction, Chip8Error>(
                    Chip8Error::OutOfRangeAccess { address: old(self)@.pc },
                ),
            },
            r matches Ok(instr) ==> instr_wf(instr),
    {
        let pc: u16 = self.cpu.pc;
        self.cpu.pc = pc.wrapping_add(2);
        proof {
            assert(self@ =~= (MachineState { pc: wrap_add16(old(self)@.pc, 2), ..old(self)@ }));
        }
        let b0: u8 = match self.memory.read(pc) {
            Some(b) => b,
            None => {
                return Err(Chip8Error::OutOfRangeAccess { address: pc });
            },
        };
        if pc >= (MEMORY_SIZE - 1) as u16 {
            return Err(Chip8Error::OutOfRangeAccess { address: pc });
        }
        let b1: u8 = self.memory.at(pc + 1);
        let op: u16 = (b0 as u16) * 256 + (b1 as u16);
        crate::instruction::decode_opcode(op)
    }

    /// Executes one decoded instruction against the current (post-fetch)
    /// state, exactly as [`exec_instr`] describes: only `DrawSprite` hands
    /// back a value, and the two failure cases — a sprite read past the end
    /// of memory, a return with an empty call stack — are recoverable errors
    /// that leave the state unchanged.
    pub fn execute(&mut self, instr: Instruction) -> (r: Result<Option<DrawAction>, Chip8Error>)
        requires
            old(self).wf(),
            instr_wf(instr),
        ensures
            final(self).wf(),
            final(self)@ == exec_instr(old(self)@, instr).0,
            step_result_view(r) == exec_instr(old(self)@, instr).1,
    {
        match instr {
            Instruction::ClearScreen => Ok(None),
            Instruction::SetRegisterImmediate { register, value } => {
                self.cpu.v.set(register as usize, value);
                proof {
                    assert(self@ =~= exec_instr(old(self)@, instr).0);
                }
                Ok(None)
            },
            Instruction::SetIndexImmediate { value } => {
                self.cpu.index = value;
                Ok(None)
            },
            Instruction::AddImmediateToRegister { register, value } => {
                let cur: u8 = self.cpu.v[register as usize];
                self.cpu.v.set(register as usize, cur.wrapping_add(value));
                proof {
                    assert(self@ =~= exec_instr(old(self)@, instr).0);
                }
                Ok(None)
            },
            Instruction::Jump { address } => {
                self.cpu.pc = address;
                Ok(None)
            },
            Instruction::CallSubroutine { address } => {
                let ret: u16 = self.cpu.pc.wrapping_add(2);
                self.cpu.stack.push(ret);
                self.cpu.pc = address;
                proof {
                    assert(self@ =~= exec_instr(old(self)@, instr).0);
                }
                Ok(None)
            },
            Instruction::ReturnFromSubroutine => {
                match self.cpu.stack.pop() {
                    None => Err(Chip8Error::StackUnderflow),
                    Some(addr) => {
                        self.cpu.pc = addr;
                        proof {
                            assert(old(self)@.stack.len() > 0);
                            assert(self@ =~= exec_instr(old(self)@, instr).0);
                        }
                        Ok(None)
                    },
                }
            },
            Instruction::DrawSprite { x, y, n } => {
                if n > 0 && (self.cpu.index as usize) + (n as usize) > MEMORY_SIZE {
                    return Err(Chip8Error::OutOfRangeAccess { address: self.cpu.index });
                }
                let mut action = DrawAction::new();
                action.x = self.cpu.v[x as usize];
                action.y = self.cpu.v[y as usize];
                let mut rows: Vec<[bool; 8]> = Vec::new();
                let mut row: u8 = 0;
                while row < n
                    invariant
                        old(self).wf(),
                        self == old(self),
                        row <= n,
                        n == 0 || old(self)@.index + n <= 4096,
                        rows@.len() == row as int,
                        forall|j: int|
                            0 <= j < row as int ==> rows@[j]@ == sprite_row(
                                old(self)@.mem[old(self)@.index + j],
                            ),
                    decreases n - row,
                {
                    let addr: u16 = self.cpu.index + (row as u16);
                    let b: u8 = self.memory.at(addr);
                    let pixel_row: [bool; 8] = [
                        b & 0x80 != 0,
                        b & 0x40 != 0,
                        b & 0x20 != 0,
                        b & 0x10 != 0,
                        b & 0x08 != 0,
                        b & 0x04 != 0,
                        b & 0x02 != 0,
                        b & 0x01 != 0,
                    ];
                    proof {
                        assert(pixel_row@ =~= sprite_row(b));
                    }
                    rows.push(pixel_row);
                    row = row + 1;
                }
                action.pixels = rows;
                proof {
                    assert(action@.rows =~= sprite_rows(old(self)@.mem, old(self)@.index, n));
                    assert(action@ =~~= exec_instr(old(self)@, instr).1->Ok_0->Some_0);
                }
                Ok(Some(action))
            },
        }
    }

    /// Runs exactly one fetch-decode-execute cycle, as [`step_spec`]
    /// describes. Hands back a [`DrawAction`] for a sprite draw, nothing for
    /// the other instructions, and a recoverable [`Chip8Error`] for an
    /// unknown opcode, an out-of-range fetch or sprite read, or a return
    /// with an empty call stack; after an error the machine has already
    /// moved past the failing instruction and the next call simply goes on.
    pub fn step(&mut self) -> (r: Result<Option<DrawAction>, Chip8Error>)
        requires
            old(self).wf(),
        ensures
            final(self).wf(),
            final(self)@ == step_spec(old(self)@).0,
            step_result_view(r) == step_spec(old(self)@).1,
    {
        let instr: Instruction = match self.decode() {
            Ok(instr) => instr,
            Err(e) => {
                return Err(e);
            },
        };
        self.execute(instr)
    }

    /// The current program counter.
    pub fn pc(&self) -> (r: u16)
        ensures
            r == self@.pc,
    {
        self.cpu.pc
    }

    /// The current index register.
    pub fn index_register(&self) -> (r: u16)
        ensures
            r == self@.index,
    {
        self.cpu.index
    }

    /// The current value of general-purpose register `i`.
    pub fn register(&self, i: u8) -> (r: u8)
        requires
            self.wf(),
            i < 16,
        ensures
            r == self@.regs[i as int],
    {
        self.cpu.v[i as usize]
    }

    /// How many return addresses the call stack holds.
    pub fn stack_depth(&self) -> (r: usize)
        ensures
            r == self@.stack.len(),
    {
        self.cpu.stack.len()
    }
}

} // verus!
