use vstd::prelude::*;

use crate::instruction::{spec_decode, Instruction};
use crate::machine::{
    exec_instr, fetch_word, sprite_row, step_spec, wf_state, word_at, wrap_add16, MachineState,
};

verus! {

/// Setting a register and then adding an immediate to it leaves the register
/// holding the modulo-256 sum: for every machine state, executing
/// `SetRegisterImmediate(r, v)` and then `AddImmediateToRegister(r, v2)`
/// ends with register `r` equal to `(v + v2) % 256`.
pub proof fn lemma_set_then_add(s: MachineState, r: u8, v: u8, v2: u8)
    requires
        wf_state(s),
        r < 16,
    ensures
        ({
            let s1 = exec_instr(s, Instruction::SetRegisterImmediate { register: r, value: v }).0;
            let s2 = exec_instr(
                s1,
                Instruction::AddImmediateToRegister { register: r, value: v2 },
            ).0;
            s2.regs[r as int] == (v + v2) % 256
        }),
{
}

/// A sprite draw reads its bytes exactly where the index register points:
/// for every machine state, executing `SetIndexImmediate(v)` and then
/// `DrawSprite(x, y, n)` succeeds (the rows staying within memory) and hands
/// back one row per sprite byte, row `i` decoded from the byte at `v + i`.
pub proof fn lemma_set_index_then_draw(s: MachineState, v: u16, x: u8, y: u8, n: u8)
    requires
        wf_state(s),
        x < 16,
        y < 16,
        n == 0 || v + n <= 4096,
    ensures
        ({
            let s1 = exec_instr(s, Instruction::SetIndexImmediate { value: v }).0;
            let out = exec_instr(s1, Instruction::DrawSprite { x, y, n }).1;
            out matches Ok(Some(d)) && d.rows.len() == n && (forall|i: int|
                0 <= i < n ==> d.rows[i] == sprite_row(s.mem[v + i]))
        }),
{
}

/// A jump redirects the very next fetch: where the word at the program
/// counter decodes to `Jump(addr)`, one step leaves the program counter at
/// `addr` and leaves memory untouched, so the following cycle fetches its
/// word from `addr` — not from the instruction after the jump.
pub proof fn lemma_jump_redirects_next_fetch(s: MachineState, addr: u16)
    requires
        wf_state(s),
        s.pc + 2 <= 4096,
        spec_decode(word_at(s.mem, s.pc as int)) == Ok::<Instruction, crate::Chip8Error>(
            Instruction::Jump { address: addr },
        ),
    ensures
        step_spec(s).0.pc == addr,
        step_spec(s).0.mem == s.mem,
        addr + 2 <= 4096 ==> fetch_word(step_spec(s).0) == Some(word_at(s.mem, addr as int)),
{
}

/// A subroutine call pushes the address two bytes past the instruction that
/// follows it — the machine's defined `+2` offset — and a later return, from
/// any state whose call stack has wound back to the same frames, pops
/// exactly that address into the program counter. Here `s` is the post-fetch
/// state at the call, so the pushed address is `s.pc + 2`.
pub proof fn lemma_call_then_return_restores_pc(s: MachineState, addr: u16, t: MachineState)
    requires
        wf_state(s),
        wf_state(t),
        t.stack == exec_instr(s, Instruction::CallSubroutine { address: addr }).0.stack,
    ensures
        ({
            let s1 = exec_instr(s, Instruction::CallSubroutine { address: addr }).0;
            let ret = exec_instr(t, Instruction::ReturnFromSubroutine);
            s1.pc == addr && s1.stack == s.stack.push(wrap_add16(s.pc, 2)) && ret.1 == Ok::<
                Option<crate::DrawRequest>,
                crate::Chip8Error,
            >(None) && ret.0.pc == wrap_add16(s.pc, 2) && ret.0.stack == s.stack
        }),
{
    assert(t.stack.len() > 0);
    assert(t.stack.last() == wrap_add16(s.pc, 2));
    assert(t.stack.drop_last() =~= s.stack);
}

} // verus!
