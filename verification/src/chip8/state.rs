//! The mathematical model of the machine: its state and what each
//! instruction makes of it.

use vstd::prelude::*;
use crate::isa::decode_spec;
use crate::isa::Instruction;
use crate::isa::LAST_ADDRESS;

verus! {

/// The number of bytes of memory.
pub const MEMORY_SIZE: usize = 4096;

/// The number of pixels in a row of the screen.
pub const SCREEN_WIDTH: usize = 64;

/// The number of rows of the screen.
pub const SCREEN_HEIGHT: usize = 32;

/// The number of pixels of the screen.
pub const SCREEN_SIZE: usize = 2048;

/// The number of keys of the keypad.
pub const KEY_COUNT: usize = 16;

/// The number of return addresses that the stack can hold.
pub const STACK_DEPTH: usize = 32;

/// The address at which programs are loaded and start.
pub const PROGRAM_BASE: u16 = 0x200;

/// The address of the first byte of the built-in font.
pub const FONT_BASE: u16 = 0x50;

/// Why the machine cannot go on.
#[derive(Clone, Copy, PartialEq, Eq, Debug)]
pub enum Fault {
    /// A call with a full stack.
    StackOverflow,
    /// A return with an empty stack.
    StackUnderflow,
    /// An opcode would be fetched from beyond the end of memory.
    FetchOutOfMemory,
    /// An instruction would read or write beyond the end of memory.
    AccessOutOfMemory,
}

/// The state of the machine.
pub struct MachineState {
    /// The 4096 bytes of memory.
    pub memory: Seq<u8>,
    /// The 64 x 32 pixels of the screen, row by row.
    pub display: Seq<bool>,
    /// The sixteen keys; `true` for a key that is down.
    pub keys: Seq<bool>,
    /// The program counter.
    pub pc: u16,
    /// The return addresses, the most recent one last.
    pub stack: Seq<u16>,
    /// The index register.
    pub i: u16,
    /// The registers `V0` to `VF`.
    pub v: Seq<u8>,
    /// The delay timer.
    pub delay_timer: u8,
    /// The sound timer.
    pub sound_timer: u8,
    /// Whether a shift copies `V[y]` to `V[x]` first.
    pub shift_quirk: bool,
}

impl MachineState {
    /// The parts have their sizes, the stack holds at most 32 addresses and
    /// the index register holds an address of memory.
    pub open spec fn wf(self) -> bool {
        &&& self.memory.len() == MEMORY_SIZE
        &&& self.display.len() == SCREEN_SIZE
        &&& self.keys.len() == KEY_COUNT
        &&& self.v.len() == 16
        &&& self.stack.len() <= STACK_DEPTH
        &&& self.i <= LAST_ADDRESS
    }

    /// The state with `value` in the register `V[x]`.
    pub open spec fn with_register(self, x: u8, value: u8) -> MachineState {
        MachineState { v: self.v.update(x as int, value), ..self }
    }

    /// The state with 1 or 0 in the flag register `VF`.
    pub open spec fn with_flag(self, flag: bool) -> MachineState {
        self.with_register(
            0xF,
            if flag {
                1u8
            } else {
                0u8
            },
        )
    }

    /// The state with the program counter at `pc`.
    pub open spec fn with_pc(self, pc: int) -> MachineState {
        MachineState { pc: pc as u16, ..self }
    }

    /// The state in which the next instruction is skipped if `condition`
    /// holds.
    pub open spec fn skip_if(self, condition: bool) -> MachineState {
        if condition {
            self.with_pc(self.pc + 2)
        } else {
            self
        }
    }
}

/// The opcode that memory holds at `pc`, high byte first.
pub open spec fn opcode_at(memory: Seq<u8>, pc: int) -> u16 {
    (memory[pc] * 256 + memory[pc + 1]) as u16
}

/// The screen with every pixel off.
pub open spec fn blank_display() -> Seq<bool> {
    Seq::new(SCREEN_SIZE as nat, |p: int| false)
}

/// The lowest key at or above `from` that is down, or 16 if there is none.
pub open spec fn first_key_down(keys: Seq<bool>, from: int) -> int
    decreases 16 - from,
{
    if from >= 16 {
        16
    } else if from >= 0 && keys[from] {
        from
    } else {
        first_key_down(keys, from + 1)
    }
}

// ---------------------------------------------------------------------------
// Sprites
// ---------------------------------------------------------------------------

/// Bit `col` of a sprite row, counted from the left.
pub open spec fn sprite_pixel(row: u8, col: u8) -> bool
    recommends
        col < 8,
{
    (row >> ((7 - col) as u8)) & 1 == 1
}

/// The number of rows of an `n`-row sprite at row `y0` that fall on the
/// screen; the rest is clipped.
pub open spec fn rows_on_screen(y0: int, n: int) -> int {
    if y0 + n <= SCREEN_HEIGHT {
        n
    } else {
        SCREEN_HEIGHT - y0
    }
}

/// The sprite of `n` rows at `(x0, y0)` sets the bit of pixel `p`: the
/// pixel lies under the sprite, which is clipped at the right and lower
/// edges, and its bit in the sprite data at `I` is 1.
pub open spec fn sprite_hits(s: MachineState, x0: int, y0: int, n: int, p: int) -> bool {
    let px = p % 64;
    let py = p / 64;
    &&& 0 <= p < SCREEN_SIZE
    &&& x0 <= px < x0 + 8
    &&& y0 <= py < y0 + n
    &&& sprite_pixel(s.memory[s.i + (py - y0)], (px - x0) as u8)
}

/// The screen after the sprite has been drawn: every pixel that the sprite
/// hits is flipped.
pub open spec fn drawn_display(s: MachineState, x0: int, y0: int, n: int) -> Seq<bool> {
    Seq::new(SCREEN_SIZE as nat, |p: int| s.display[p] != sprite_hits(s, x0, y0, n, p))
}

/// Drawing the sprite turns some pixel off.
pub open spec fn sprite_collides(s: MachineState, x0: int, y0: int, n: int) -> bool {
    exists|p: int| s.display[p] && #[trigger] sprite_hits(s, x0, y0, n, p)
}

/// `DXYN`: the sprite of `n` rows that memory holds at `I` is drawn at
/// column `V[x] mod 64` and row `V[y] mod 32`; the flag tells whether a pixel
/// went off. Rows that fall on the screen must lie in memory.
pub open spec fn draw_spec(s: MachineState, x: u8, y: u8, n: u8) -> Result<MachineState, Fault> {
    let x0 = s.v[x as int] % 64;
    let y0 = s.v[y as int] % 32;
    if s.i + rows_on_screen(y0 as int, n as int) > MEMORY_SIZE {
        Err(Fault::AccessOutOfMemory)
    } else {
        Ok(
            MachineState {
                display: drawn_display(s, x0 as int, y0 as int, n as int),
                ..s
            }.with_flag(sprite_collides(s, x0 as int, y0 as int, n as int)),
        )
    }
}

// ---------------------------------------------------------------------------
// Memory transfers
// ---------------------------------------------------------------------------

/// Memory after `V[0]..=V[x]` have been stored from address `I` on.
pub open spec fn stored_memory(s: MachineState, x: u8) -> Seq<u8> {
    Seq::new(
        MEMORY_SIZE as nat,
        |a: int|
            if s.i <= a <= s.i + x {
                s.v[a - s.i]
            } else {
                s.memory[a]
            },
    )
}

/// The registers after `V[0]..=V[x]` have been loaded from address `I` on.
pub open spec fn loaded_registers(s: MachineState, x: u8) -> Seq<u8> {
    Seq::new(
        16,
        |k: int|
            if k <= x {
                s.memory[s.i + k]
            } else {
                s.v[k]
            },
    )
}

/// Memory after the three decimal digits of `value` have been stored from
/// address `I` on, hundreds first.
pub open spec fn bcd_memory(s: MachineState, value: u8) -> Seq<u8> {
    s.memory.update(s.i as int, value / 100).update(s.i + 1, (value / 10) % 10).update(
        s.i + 2,
        value % 10,
    )
}

// ---------------------------------------------------------------------------
// Execution
// ---------------------------------------------------------------------------

/// The value that a shift works on: `V[y]` under the quirk, `V[x]` without.
pub open spec fn shift_source(s: MachineState, x: u8, y: u8) -> u8 {
    if s.shift_quirk {
        s.v[y as int]
    } else {
        s.v[x as int]
    }
}

/// The state after `ins` has been executed in state `s`, whose program
/// counter already points behind the instruction. `random` is the byte that
/// `CXNN` draws.
pub open spec fn execute_spec(s: MachineState, ins: Instruction, random: u8) -> Result<
    MachineState,
    Fault,
> {
    match ins {
        Instruction::Cls => Ok(MachineState { display: blank_display(), ..s }),
        Instruction::Ret => if s.stack.len() == 0 {
            Err(Fault::StackUnderflow)
        } else {
            Ok(MachineState { pc: s.stack.last(), stack: s.stack.drop_last(), ..s })
        },
        Instruction::Jmp { addr } => Ok(s.with_pc(addr as int)),
        Instruction::Call { addr } => if s.stack.len() >= STACK_DEPTH {
            Err(Fault::StackOverflow)
        } else {
            Ok(MachineState { pc: addr, stack: s.stack.push(s.pc), ..s })
        },
        Instruction::SeByte { x, byte } => Ok(s.skip_if(s.v[x as int] == byte)),
        Instruction::SneByte { x, byte } => Ok(s.skip_if(s.v[x as int] != byte)),
        Instruction::SeReg { x, y } => Ok(s.skip_if(s.v[x as int] == s.v[y as int])),
        Instruction::SneReg { x, y } => Ok(s.skip_if(s.v[x as int] != s.v[y as int])),
        Instruction::LdByte { x, byte } => Ok(s.with_register(x, byte)),
        Instruction::AddByte { x, byte } => Ok(
            s.with_register(x, ((s.v[x as int] + byte) % 256) as u8),
        ),
        Instruction::LdReg { x, y } => Ok(s.with_register(x, s.v[y as int])),
        Instruction::Or { x, y } => Ok(s.with_register(x, s.v[x as int] | s.v[y as int])),
        Instruction::And { x, y } => Ok(s.with_register(x, s.v[x as int] & s.v[y as int])),
        Instruction::Xor { x, y } => Ok(s.with_register(x, s.v[x as int] ^ s.v[y as int])),
        Instruction::AddReg { x, y } => Ok(
            s.with_register(x, ((s.v[x as int] + s.v[y as int]) % 256) as u8).with_flag(
                s.v[x as int] + s.v[y as int] > 255,
            ),
        ),
        Instruction::Sub { x, y } => Ok(
            s.with_register(x, ((s.v[x as int] - s.v[y as int]) % 256) as u8).with_flag(
                s.v[x as int] >= s.v[y as int],
            ),
        ),
        Instruction::Subn { x, y } => Ok(
            s.with_register(x, ((s.v[y as int] - s.v[x as int]) % 256) as u8).with_flag(
                s.v[y as int] >= s.v[x as int],
            ),
        ),
        Instruction::Shr { x, y } => Ok(
            s.with_register(x, shift_source(s, x, y) / 2).with_flag(
                shift_source(s, x, y) % 2 == 1,
            ),
        ),
        Instruction::Shl { x, y } => Ok(
            s.with_register(x, ((shift_source(s, x, y) * 2) % 256) as u8).with_flag(
                shift_source(s, x, y) >= 128,
            ),
        ),
        Instruction::LdIndex { addr } => Ok(MachineState { i: addr, ..s }),
        Instruction::JmpV0 { addr } => Ok(s.with_pc(addr + s.v[0])),
        Instruction::Rnd { x, byte } => Ok(s.with_register(x, random & byte)),
        Instruction::Drw { x, y, n } => draw_spec(s, x, y, n),
        Instruction::Skp { x } => Ok(s.skip_if(s.keys[(s.v[x as int] % 16) as int])),
        Instruction::Sknp { x } => Ok(s.skip_if(!s.keys[(s.v[x as int] % 16) as int])),
        Instruction::LdFromDelay { x } => Ok(s.with_register(x, s.delay_timer)),
        Instruction::Wkp { x } => if first_key_down(s.keys, 0) == 16 {
            Ok(s.with_pc(s.pc - 2))
        } else {
            Ok(s.with_register(x, first_key_down(s.keys, 0) as u8))
        },
        Instruction::LdDelay { x } => Ok(MachineState { delay_timer: s.v[x as int], ..s }),
        Instruction::LdSound { x } => Ok(MachineState { sound_timer: s.v[x as int], ..s }),
        Instruction::AddIndex { x } => Ok(
            MachineState { i: ((s.i + s.v[x as int]) % 4096) as u16, ..s }.with_flag(
                s.i + s.v[x as int] > LAST_ADDRESS,
            ),
        ),
        Instruction::LdFont { x } => Ok(
            MachineState { i: (FONT_BASE + (s.v[x as int] % 16) * 5) as u16, ..s },
        ),
        Instruction::LdBcd { x } => if s.i + 2 >= MEMORY_SIZE {
            Err(Fault::AccessOutOfMemory)
        } else {
            Ok(MachineState { memory: bcd_memory(s, s.v[x as int]), ..s })
        },
        Instruction::Store { x } => if s.i + x >= MEMORY_SIZE {
            Err(Fault::AccessOutOfMemory)
        } else {
            Ok(MachineState { memory: stored_memory(s, x), ..s })
        },
        Instruction::Load { x } => if s.i + x >= MEMORY_SIZE {
            Err(Fault::AccessOutOfMemory)
        } else {
            Ok(MachineState { v: loaded_registers(s, x), ..s })
        },
        Instruction::Unknown { .. } => Ok(s),
    }
}

/// The opcode is fetched from the last address at which two bytes fit, or
/// from below.
pub open spec fn can_fetch(s: MachineState) -> bool {
    s.pc + 1 < MEMORY_SIZE
}

/// One step of the machine: the opcode at the program counter is fetched,
/// the counter moves behind it, and the instruction is executed.
pub open spec fn step_spec(s: MachineState, random: u8) -> Result<MachineState, Fault> {
    if !can_fetch(s) {
        Err(Fault::FetchOutOfMemory)
    } else {
        execute_spec(s.with_pc(s.pc + 2), decode_spec(opcode_at(s.memory, s.pc as int)), random)
    }
}

/// The state after one tick of the 60 Hz clock: each timer that is not zero
/// goes down by one.
pub open spec fn tick_spec(s: MachineState) -> MachineState {
    MachineState {
        delay_timer: if s.delay_timer > 0 {
            (s.delay_timer - 1) as u8
        } else {
            0
        },
        sound_timer: if s.sound_timer > 0 {
            (s.sound_timer - 1) as u8
        } else {
            0
        },
        ..s
    }
}

/// What a call that executes `ins` has to do: on success the machine is in
/// the state that `ins` leads to; on a fault it reports the fault and leaves
/// the machine as it was.
pub open spec fn executes(
    pre: MachineState,
    ins: Instruction,
    random: u8,
    post: MachineState,
    r: Result<(), Fault>,
) -> bool {
    match execute_spec(pre, ins, random) {
        Ok(next) => r is Ok && post == next,
        Err(fault) => r == Err::<(), Fault>(fault) && post == pre,
    }
}

/// What a call that makes one step has to do: on success the machine is in
/// the next state; on a fault it reports the fault and leaves the machine as
/// it was.
pub open spec fn steps(
    pre: MachineState,
    random: u8,
    post: MachineState,
    r: Result<(), Fault>,
) -> bool {
    match step_spec(pre, random) {
        Ok(next) => r is Ok && post == next,
        Err(fault) => r == Err::<(), Fault>(fault) && post == pre,
    }
}

/// The program counter stands behind an opcode that lies in memory.
pub open spec fn fetched(s: MachineState) -> bool {
    2 <= s.pc <= MEMORY_SIZE
}

/// The part of a sprite that has been drawn when the rows above `row` are
/// done and, of row `row`, the columns left of `col`.
pub open spec fn sprite_hits_before(
    s: MachineState,
    x0: int,
    y0: int,
    n: int,
    row: int,
    col: int,
    p: int,
) -> bool {
    sprite_hits(s, x0, y0, n, p) && (p / 64 - y0 < row || (p / 64 - y0 == row && p % 64 - x0
        < col))
}

/// Drawing that part of the sprite turns some pixel off.
pub open spec fn sprite_collides_before(
    s: MachineState,
    x0: int,
    y0: int,
    n: int,
    row: int,
    col: int,
) -> bool {
    exists|p: int| s.display[p] && #[trigger] sprite_hits_before(s, x0, y0, n, row, col, p)
}

} // verus!
