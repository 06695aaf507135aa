//! What holds of every step of the machine.

use vstd::prelude::*;
use crate::chip8::state::draw_spec;
use crate::chip8::state::drawn_display;
use crate::chip8::state::execute_spec;
use crate::chip8::state::first_key_down;
use crate::chip8::state::opcode_at;
use crate::chip8::state::rows_on_screen;
use crate::chip8::state::sprite_collides;
use crate::chip8::state::sprite_hits;
use crate::chip8::state::sprite_pixel;
use crate::chip8::state::step_spec;
use crate::chip8::state::Fault;
use crate::chip8::state::MachineState;
use crate::chip8::state::STACK_DEPTH;
use crate::isa::decode_spec;
use crate::isa::lemma_encode_decode;
use crate::isa::Instruction;
use crate::isa::LAST_ADDRESS;

verus! {

/// The lowest key that is down, if any, is one of the sixteen keys.
pub proof fn lemma_first_key_down(keys: Seq<bool>, from: int)
    requires
        0 <= from <= 16,
    ensures
        from <= first_key_down(keys, from) <= 16,
        first_key_down(keys, from) < 16 ==> keys[first_key_down(keys, from)],
        forall|k: int| from <= k < first_key_down(keys, from) ==> !keys[k],
    decreases 16 - from,
{
    if from < 16 && !keys[from] {
        lemma_first_key_down(keys, from + 1);
    }
}

/// Executing a well-formed instruction keeps the state well formed: the
/// stack holds at most 32 addresses, the index register stays within
/// `0x000..=0xFFF`, and there are sixteen registers of one byte each.
pub proof fn lemma_execute_keeps_well_formed(s: MachineState, ins: Instruction, random: u8)
    requires
        s.wf(),
        ins.wf(),
        execute_spec(s, ins, random) is Ok,
    ensures
        execute_spec(s, ins, random)->Ok_0.wf(),
        execute_spec(s, ins, random)->Ok_0.stack.len() <= STACK_DEPTH,
        execute_spec(s, ins, random)->Ok_0.i <= LAST_ADDRESS,
        execute_spec(s, ins, random)->Ok_0.v.len() == 16,
{
    lemma_first_key_down(s.keys, 0);
}

/// A step keeps the state well formed: after any step the stack holds at
/// most 32 addresses and the index register lies within `0x000..=0xFFF`.
pub proof fn lemma_step_keeps_well_formed(s: MachineState, random: u8)
    requires
        s.wf(),
        step_spec(s, random) is Ok,
    ensures
        step_spec(s, random)->Ok_0.wf(),
        step_spec(s, random)->Ok_0.stack.len() <= STACK_DEPTH,
        step_spec(s, random)->Ok_0.i <= LAST_ADDRESS,
{
    let opcode = opcode_at(s.memory, s.pc as int);
    lemma_encode_decode(opcode);
    lemma_execute_keeps_well_formed(s.with_pc(s.pc + 2), decode_spec(opcode), random);
}

/// The address that the program counter holds after a skip instruction at
/// `pc` whose condition is `taken`.
pub open spec fn after_skip(pc: u16, taken: bool) -> int {
    if taken {
        pc + 4
    } else {
        pc + 2
    }
}

/// The step from state `s` carries the program counter beyond the last
/// address of memory: the instruction at the counter falls through, or
/// skips, from the very end of memory, jumps with an offset that reaches
/// beyond it, or returns to an address beyond it.
pub open spec fn leaves_memory(s: MachineState) -> bool {
    match decode_spec(opcode_at(s.memory, s.pc as int)) {
        Instruction::Jmp { .. } | Instruction::Call { .. } => false,
        Instruction::Ret => s.stack.last() > LAST_ADDRESS,
        Instruction::JmpV0 { addr } => addr + s.v[0] > LAST_ADDRESS,
        Instruction::SeByte { x, byte } => after_skip(s.pc, s.v[x as int] == byte) > LAST_ADDRESS,
        Instruction::SneByte { x, byte } => after_skip(s.pc, s.v[x as int] != byte) > LAST_ADDRESS,
        Instruction::SeReg { x, y } => after_skip(s.pc, s.v[x as int] == s.v[y as int])
            > LAST_ADDRESS,
        Instruction::SneReg { x, y } => after_skip(s.pc, s.v[x as int] != s.v[y as int])
            > LAST_ADDRESS,
        Instruction::Skp { x } => after_skip(s.pc, s.keys[(s.v[x as int] % 16) as int])
            > LAST_ADDRESS,
        Instruction::Sknp { x } => after_skip(s.pc, !s.keys[(s.v[x as int] % 16) as int])
            > LAST_ADDRESS,
        Instruction::Wkp { .. } => first_key_down(s.keys, 0) != 16 && s.pc + 2 > LAST_ADDRESS,
        _ => s.pc + 2 > LAST_ADDRESS,
    }
}

/// After a step the program counter lies within `0x000..=0xFFF`, except
/// after the steps that leave memory, and after those it does not.
pub proof fn lemma_step_keeps_pc_in_memory(s: MachineState, random: u8)
    requires
        s.wf(),
        step_spec(s, random) is Ok,
    ensures
        !leaves_memory(s) ==> step_spec(s, random)->Ok_0.pc <= LAST_ADDRESS,
        leaves_memory(s) ==> step_spec(s, random)->Ok_0.pc > LAST_ADDRESS,
{
    let opcode = opcode_at(s.memory, s.pc as int);
    lemma_encode_decode(opcode);
    lemma_first_key_down(s.keys, 0);
}

/// No bit is set in a sprite row that is zero.
pub proof fn lemma_zero_row_is_blank(col: u8)
    ensures
        !sprite_pixel(0, col),
{
    let shift = (7 - col) as u8;
    assert((0u8 >> shift) & 1 == 0) by (bit_vector);
}

/// Drawing a sprite with no bit set changes nothing but the flag, which
/// becomes 0: the screen, the other registers, the index register and
/// everything else stay as they are.
pub proof fn lemma_blank_sprite_draws_nothing(s: MachineState, x: u8, y: u8, n: u8)
    requires
        s.wf(),
        x < 16,
        y < 16,
        n < 16,
        draw_spec(s, x, y, n) is Ok,
        forall|row: int|
            0 <= row < rows_on_screen((s.v[y as int] % 32) as int, n as int)
                ==> #[trigger] s.memory[s.i + row] == 0,
    ensures
        draw_spec(s, x, y, n) == Ok::<MachineState, Fault>(s.with_flag(false)),
        execute_spec(s, Instruction::Drw { x, y, n }, 0) == Ok::<MachineState, Fault>(
            s.with_flag(false),
        ),
{
    let x0 = (s.v[x as int] % 64) as int;
    let y0 = (s.v[y as int] % 32) as int;
    assert forall|p: int| !sprite_hits(s, x0, y0, n as int, p) by {
        if 0 <= p < 2048 && x0 <= p % 64 < x0 + 8 && y0 <= p / 64 < y0 + n {
            let row = p / 64 - y0;
            assert(0 <= row < rows_on_screen(y0, n as int));
            assert(s.memory[s.i + row] == 0);
            lemma_zero_row_is_blank((p % 64 - x0) as u8);
        }
    }
    assert(drawn_display(s, x0, y0, n as int) =~= s.display);
    assert(!sprite_collides(s, x0, y0, n as int));
}

} // verus!
