//! The machine itself: memory, registers, stack, timers, screen and keypad,
//! and the instructions that change them.

use vstd::prelude::*;
use vstd::string::StringExecFns;
use crate::chip8::keys::Keys;
use crate::chip8::stack::Stack;
use crate::chip8::state::blank_display;
use crate::chip8::state::can_fetch;
use crate::chip8::keys::key_down;
use crate::chip8::keys::with_key;
use crate::chip8::state::drawn_display;
use crate::chip8::state::execute_spec;
use crate::chip8::state::rows_on_screen;
use crate::chip8::state::sprite_collides;
use crate::chip8::state::sprite_collides_before;
use crate::chip8::state::sprite_hits;
use crate::chip8::state::sprite_hits_before;
use crate::chip8::state::steps;
use crate::chip8::state::SCREEN_HEIGHT;
use crate::chip8::state::SCREEN_WIDTH;
use crate::chip8::state::executes;
use crate::chip8::state::fetched;
use crate::chip8::state::first_key_down;
use crate::chip8::state::loaded_registers;
use crate::chip8::state::opcode_at;
use crate::chip8::state::stored_memory;
use crate::chip8::state::tick_spec;
use crate::chip8::state::Fault;
use crate::chip8::state::MachineState;
use crate::chip8::state::FONT_BASE;
use crate::chip8::state::KEY_COUNT;
use crate::chip8::state::MEMORY_SIZE;
use crate::chip8::state::PROGRAM_BASE;
use crate::chip8::state::SCREEN_SIZE;
use crate::chip8::state::STACK_DEPTH;
use crate::isa::decode;
use crate::isa::decode_spec;
use crate::isa::Instruction;
use crate::isa::LAST_ADDRESS;
use crate::text::decimal;
use crate::text::decimal_text;

verus! {

/// The number of bytes of the built-in font: sixteen glyphs of five rows.
pub const FONT_SIZE: usize = 80;

/// The glyphs of the hexadecimal digits `0` to `F`, five rows each, the
/// leftmost pixel in the highest bit.
pub open spec fn font() -> Seq<u8> {
    seq![
        0xF0u8, 0x90, 0x90, 0x90, 0xF0,
        0x20, 0x60, 0x20, 0x20, 0x70,
        0xF0, 0x10, 0xF0, 0x80, 0xF0,
        0xF0, 0x10, 0xF0, 0x10, 0xF0,
        0x90, 0x90, 0xF0, 0x10, 0x10,
        0xF0, 0x80, 0xF0, 0x10, 0xF0,
        0xF0, 0x80, 0xF0, 0x90, 0xF0,
        0xF0, 0x10, 0x20, 0x40, 0x40,
        0xF0, 0x90, 0xF0, 0x90, 0xF0,
        0xF0, 0x90, 0xF0, 0x10, 0xF0,
        0xF0, 0x90, 0xF0, 0x90, 0x90,
        0xE0, 0x90, 0xE0, 0x90, 0xE0,
        0xF0, 0x80, 0x80, 0x80, 0xF0,
        0xE0, 0x90, 0x90, 0x90, 0xE0,
        0xF0, 0x80, 0xF0, 0x80, 0xF0,
        0xF0, 0x80, 0xF0, 0x80, 0x80,
    ]
}

/// The glyphs of the built-in font.
pub fn font_bytes() -> (bytes: [u8; FONT_SIZE])
    ensures
        bytes@ == font(),
{
    let bytes: [u8; FONT_SIZE] = [
        0xF0, 0x90, 0x90, 0x90, 0xF0,
        0x20, 0x60, 0x20, 0x20, 0x70,
        0xF0, 0x10, 0xF0, 0x80, 0xF0,
        0xF0, 0x10, 0xF0, 0x10, 0xF0,
        0x90, 0x90, 0xF0, 0x10, 0x10,
        0xF0, 0x80, 0xF0, 0x10, 0xF0,
        0xF0, 0x80, 0xF0, 0x90, 0xF0,
        0xF0, 0x10, 0x20, 0x40, 0x40,
        0xF0, 0x90, 0xF0, 0x90, 0xF0,
        0xF0, 0x90, 0xF0, 0x10, 0xF0,
        0xF0, 0x90, 0xF0, 0x90, 0x90,
        0xE0, 0x90, 0xE0, 0x90, 0xE0,
        0xF0, 0x80, 0x80, 0x80, 0xF0,
        0xE0, 0x90, 0x90, 0x90, 0xE0,
        0xF0, 0x80, 0xF0, 0x80, 0xF0,
        0xF0, 0x80, 0xF0, 0x80, 0x80,
    ];
    assert(bytes@ =~= font());
    bytes
}

/// Memory with the font at its place, `0x050` to `0x09F`.
pub open spec fn with_font(memory: Seq<u8>) -> Seq<u8> {
    Seq::new(
        MEMORY_SIZE as nat,
        |a: int|
            if FONT_BASE <= a < FONT_BASE + FONT_SIZE {
                font()[a - FONT_BASE]
            } else {
                memory[a]
            },
    )
}

/// Memory with `program` from address `0x200` on.
pub open spec fn with_program(memory: Seq<u8>, program: Seq<u8>) -> Seq<u8> {
    Seq::new(
        MEMORY_SIZE as nat,
        |a: int|
            if PROGRAM_BASE <= a < PROGRAM_BASE + program.len() {
                program[a - PROGRAM_BASE]
            } else {
                memory[a]
            },
    )
}

/// The machine as it is switched on: memory holds the font and nothing
/// else, the program counter stands at `0x200`, everything else is zero,
/// off or empty.
pub open spec fn initial_state(shift_quirk: bool) -> MachineState {
    MachineState {
        memory: with_font(Seq::new(MEMORY_SIZE as nat, |a: int| 0u8)),
        display: blank_display(),
        keys: Seq::new(KEY_COUNT as nat, |k: int| false),
        pc: PROGRAM_BASE,
        stack: Seq::empty(),
        i: 0,
        v: Seq::new(16, |k: int| 0u8),
        delay_timer: 0,
        sound_timer: 0,
        shift_quirk,
    }
}

/// How a machine is set up.
pub struct Chip8Config {
    /// The number of host pixels per pixel of the screen.
    pub display_scale: u32,
    /// The path of the program to run.
    pub program: String,
    /// Whether a shift copies `V[y]` to `V[x]` first.
    pub set_vx_from_vy: bool,
}

impl Chip8Config {
    /// The usual setup: ten host pixels per pixel, shifts in place.
    pub fn new() -> (config: Chip8Config)
        ensures
            config.display_scale == 10,
            config.program@ == "roms/test_opcode.ch8"@,
            !config.set_vx_from_vy,
    {
        Chip8Config {
            display_scale: 10,
            program: String::from_str("roms/test_opcode.ch8"),
            set_vx_from_vy: false,
        }
    }

    /// The lines that describe the setup.
    pub fn log(&self) -> (lines: Vec<String>)
        ensures
            lines.deep_view() == seq![
                "Chip8Config"@,
                "  display_scale: "@ + decimal_text(self.display_scale as nat),
            ],
    {
        let mut lines: Vec<String> = Vec::new();
        lines.push(String::from_str("Chip8Config"));
        let scale = decimal(self.display_scale as u64);
        lines.push(String::from_str("  display_scale: ").concat(scale.as_str()));
        assert(lines.deep_view() =~= seq![
            "Chip8Config"@,
            "  display_scale: "@ + decimal_text(self.display_scale as nat),
        ]);
        lines
    }
}

/// The machine.
pub struct Chip8 {
    memory: [u8; MEMORY_SIZE],
    display: [bool; SCREEN_SIZE],
    keys: Keys,
    display_scale: u32,
    pc: u16,
    stack: Stack,
    i: u16,
    v: [u8; 16],
    delay_timer: u8,
    sound_timer: u8,
    program: String,
    set_vx_from_vy: bool,
}

impl View for Chip8 {
    type V = MachineState;

    closed spec fn view(&self) -> MachineState {
        MachineState {
            memory: self.memory@,
            display: self.display@,
            keys: self.keys@,
            pc: self.pc,
            stack: self.stack@,
            i: self.i,
            v: self.v@,
            delay_timer: self.delay_timer,
            sound_timer: self.sound_timer,
            shift_quirk: self.set_vx_from_vy,
        }
    }
}

/// Shifts and masks of a byte, and the mask of an address, as arithmetic.
proof fn lemma_bits(a: u8, s: u16)
    ensures
        a >> 1 == a / 2,
        a & 1 == a % 2,
        a >> 7 == a / 128,
        a << 1 == ((a * 2) % 256) as u8,
        a & 0x0F == a % 16,
        s & 0x0FFF == s % 4096,
{
    assert(a >> 1 == a / 2) by (bit_vector);
    assert(a & 1 == a % 2) by (bit_vector);
    assert(a >> 7 == a / 128) by (bit_vector);
    assert(a << 1 == ((a * 2) % 256) as u8) by (bit_vector);
    assert(a & 0x0F == a % 16) by (bit_vector);
    assert(s & 0x0FFF == s % 4096) by (bit_vector);
}

impl Chip8 {
    /// The stack is well formed and the state is.
    pub closed spec fn wf(&self) -> bool {
        self.stack.wf() && self@.wf()
    }

    /// The state of a well-formed machine is well formed.
    pub proof fn lemma_wf(&self)
        requires
            self.wf(),
        ensures
            self@.wf(),
    {
    }

    /// What of the setup is no part of the machine state: the scale of the
    /// display and the path of the program.
    pub closed spec fn setup(&self) -> (u32, Seq<char>) {
        (self.display_scale, self.program@)
    }

    /// Switches a machine on. Without a setup the usual one is taken.
    pub fn new(config: Option<Chip8Config>) -> (chip8: Chip8)
        ensures
            chip8.wf(),
            chip8@ == initial_state(
                match config {
                    Some(c) => c.set_vx_from_vy,
                    None => false,
                },
            ),
            config matches Some(c) ==> chip8.setup() == (c.display_scale, c.program@),
            config is None ==> chip8.setup() == (10u32, "roms/test_opcode.ch8"@),
    {
        let config = match config {
            Some(config) => config,
            None => Chip8Config::new(),
        };
        let mut chip8 = Chip8 {
            memory: [0; MEMORY_SIZE],
            program: config.program,
            keys: Keys::new(),
            stack: Stack::new(),
            display: [false; SCREEN_SIZE],
            display_scale: config.display_scale,
            pc: PROGRAM_BASE,
            i: 0,
            v: [0; 16],
            delay_timer: 0,
            sound_timer: 0,
            set_vx_from_vy: config.set_vx_from_vy,
        };
        proof {
            chip8.keys.lemma_len();
        }
        chip8.set_fonts();
        assert(chip8@.memory =~= with_font(Seq::new(MEMORY_SIZE as nat, |a: int| 0u8)));
        assert(chip8@.display =~= blank_display());
        assert(chip8@.v =~= Seq::new(16, |k: int| 0u8));
        chip8
    }

    /// Puts the built-in font at its place in memory.
    fn set_fonts(&mut self)
        requires
            old(self).wf(),
        ensures
            final(self).wf(),
            final(self)@ == (MachineState { memory: with_font(old(self)@.memory), ..old(self)@ }),
            final(self).setup() == old(self).setup(),
    {
        let fonts = font_bytes();
        let mut k: usize = 0;
        while k < FONT_SIZE
            invariant
                k <= FONT_SIZE,
                fonts@ == font(),
                self.wf(),
                self.setup() == old(self).setup(),
                self@ == (MachineState { memory: self@.memory, ..old(self)@ }),
                forall|a: int|
                    0 <= a < MEMORY_SIZE ==> #[trigger] self@.memory[a] == (if FONT_BASE <= a
                        < FONT_BASE + k {
                        font()[a - FONT_BASE]
                    } else {
                        old(self)@.memory[a]
                    }),
            decreases FONT_SIZE - k,
        {
            self.memory[FONT_BASE as usize + k] = fonts[k];
            k += 1;
        }
        assert(self@.memory =~= with_font(old(self)@.memory));
    }

    /// Loads a program at address `0x200`, if it fits in memory.
    pub fn load_program(&mut self, program: &Vec<u8>) -> (r: Result<(), &'static str>)
        requires
            old(self).wf(),
        ensures
            final(self).wf(),
            final(self).setup() == old(self).setup(),
            PROGRAM_BASE + program.len() <= MEMORY_SIZE ==> r is Ok && final(self)@ == (
            MachineState { memory: with_program(old(self)@.memory, program@), ..old(self)@ }),
            PROGRAM_BASE + program.len() > MEMORY_SIZE ==> r is Err && r->Err_0@
                == "Program is too large to fit in memory"@ && final(self)@ == old(self)@,
    {
        if program.len() > MEMORY_SIZE - PROGRAM_BASE as usize {
            return Err("Program is too large to fit in memory");
        }
        let mut k: usize = 0;
        while k < program.len()
            invariant
                k <= program.len(),
                PROGRAM_BASE + program.len() <= MEMORY_SIZE,
                self.wf(),
                self.setup() == old(self).setup(),
                self@ == (MachineState { memory: self@.memory, ..old(self)@ }),
                forall|a: int|
                    0 <= a < MEMORY_SIZE ==> #[trigger] self@.memory[a] == (if PROGRAM_BASE <= a
                        < PROGRAM_BASE + k {
                        program@[a - PROGRAM_BASE]
                    } else {
                        old(self)@.memory[a]
                    }),
            decreases program.len() - k,
        {
            self.memory[PROGRAM_BASE as usize + k] = program[k];
            k += 1;
        }
        assert(self@.memory =~= with_program(old(self)@.memory, program@));
        Ok(())
    }

    // -----------------------------------------------------------------------
    // Fetch
    // -----------------------------------------------------------------------

    /// Reads the opcode at the program counter and moves the counter behind
    /// it. Nothing changes if the opcode does not lie in memory.
    pub fn fetch_opcode(&mut self) -> (r: Result<u16, Fault>)
        requires
            old(self).wf(),
        ensures
            final(self).wf(),
            final(self).setup() == old(self).setup(),
            can_fetch(old(self)@) ==> r == Ok::<u16, Fault>(
                opcode_at(old(self)@.memory, old(self)@.pc as int),
            ) && final(self)@ == old(self)@.with_pc(old(self)@.pc + 2),
            !can_fetch(old(self)@) ==> r == Err::<u16, Fault>(Fault::FetchOutOfMemory)
                && final(self)@ == old(self)@,
    {
        let pc = self.pc as usize;
        if pc >= MEMORY_SIZE - 1 {
            return Err(Fault::FetchOutOfMemory);
        }
        let byte1 = self.memory[pc] as u16;
        let byte2 = self.memory[pc + 1] as u16;
        self.pc += 2;
        Ok(byte1 * 256 + byte2)
    }
}

impl Chip8 {
    // -----------------------------------------------------------------------
    // Instructions
    // -----------------------------------------------------------------------

    /// `00E0`: turns every pixel off.
    fn clear_screen(&mut self)
        requires
            old(self).wf(),
        ensures
            final(self).wf(),
            final(self).setup() == old(self).setup(),
            execute_spec(old(self)@, Instruction::Cls, 0) == Ok::<MachineState, Fault>(
                final(self)@,
            ),
    {
        self.display = [false; SCREEN_SIZE];
        assert(self@.display =~= blank_display());
    }

    /// `00EE`: returns to the address on top of the stack.
    fn return_from_subroutine(&mut self) -> (r: Result<(), Fault>)
        requires
            old(self).wf(),
        ensures
            final(self).wf(),
            final(self).setup() == old(self).setup(),
            executes(old(self)@, Instruction::Ret, 0, final(self)@, r),
    {
        match self.stack.pop() {
            Ok(address) => {
                self.pc = address;
                Ok(())
            },
            Err(_) => Err(Fault::StackUnderflow),
        }
    }

    /// `1NNN`: jumps to `addr`.
    fn jump(&mut self, addr: u16)
        requires
            old(self).wf(),
        ensures
            final(self).wf(),
            final(self).setup() == old(self).setup(),
            execute_spec(old(self)@, Instruction::Jmp { addr }, 0) == Ok::<MachineState, Fault>(
                final(self)@,
            ),
    {
        self.pc = addr;
    }

    /// `2NNN`: pushes the program counter and jumps to `addr`.
    fn subroutine(&mut self, addr: u16) -> (r: Result<(), Fault>)
        requires
            old(self).wf(),
        ensures
            final(self).wf(),
            final(self).setup() == old(self).setup(),
            executes(old(self)@, Instruction::Call { addr }, 0, final(self)@, r),
    {
        proof {
            self.stack.lemma_depth();
        }
        match self.stack.push(self.pc) {
            Ok(_) => {
                proof {
                    self.stack.lemma_depth();
                }
                self.pc = addr;
                Ok(())
            },
            Err(_) => Err(Fault::StackOverflow),
        }
    }

    /// Skips the next instruction if `condition` holds.
    fn skip_if(&mut self, condition: bool)
        requires
            old(self).wf(),
            fetched(old(self)@),
        ensures
            final(self).wf(),
            final(self).setup() == old(self).setup(),
            final(self)@ == old(self)@.skip_if(condition),
    {
        if condition {
            self.pc += 2;
        }
    }

    /// `3XNN`: skips if `V[x]` equals `byte`.
    fn skip_if_nn_is_equal(&mut self, x: u8, byte: u8)
        requires
            old(self).wf(),
            fetched(old(self)@),
            x < 16,
        ensures
            final(self).wf(),
            final(self).setup() == old(self).setup(),
            execute_spec(old(self)@, Instruction::SeByte { x, byte }, 0) == Ok::<
                MachineState,
                Fault,
            >(final(self)@),
    {
        let equal = self.v[x as usize] == byte;
        self.skip_if(equal);
    }

    /// `4XNN`: skips if `V[x]` differs from `byte`.
    fn skip_if_nn_is_not_equal(&mut self, x: u8, byte: u8)
        requires
            old(self).wf(),
            fetched(old(self)@),
            x < 16,
        ensures
            final(self).wf(),
            final(self).setup() == old(self).setup(),
            execute_spec(old(self)@, Instruction::SneByte { x, byte }, 0) == Ok::<
                MachineState,
                Fault,
            >(final(self)@),
    {
        let differ = self.v[x as usize] != byte;
        self.skip_if(differ);
    }

    /// `5XY0`: skips if `V[x]` equals `V[y]`.
    fn skip_if_vx_and_vy_are_equal(&mut self, x: u8, y: u8)
        requires
            old(self).wf(),
            fetched(old(self)@),
            x < 16,
            y < 16,
        ensures
            final(self).wf(),
            final(self).setup() == old(self).setup(),
            execute_spec(old(self)@, Instruction::SeReg { x, y }, 0) == Ok::<MachineState, Fault>(
                final(self)@,
            ),
    {
        let equal = self.v[x as usize] == self.v[y as usize];
        self.skip_if(equal);
    }

    /// `9XY0`: skips if `V[x]` differs from `V[y]`.
    fn skip_if_vx_and_vy_are_not_equal(&mut self, x: u8, y: u8)
        requires
            old(self).wf(),
            fetched(old(self)@),
            x < 16,
            y < 16,
        ensures
            final(self).wf(),
            final(self).setup() == old(self).setup(),
            execute_spec(old(self)@, Instruction::SneReg { x, y }, 0) == Ok::<MachineState, Fault>(
                final(self)@,
            ),
    {
        let differ = self.v[x as usize] != self.v[y as usize];
        self.skip_if(differ);
    }

    /// `6XNN`: puts `byte` in `V[x]`.
    fn set(&mut self, x: u8, byte: u8)
        requires
            old(self).wf(),
            x < 16,
        ensures
            final(self).wf(),
            final(self).setup() == old(self).setup(),
            execute_spec(old(self)@, Instruction::LdByte { x, byte }, 0) == Ok::<
                MachineState,
                Fault,
            >(final(self)@),
    {
        self.v[x as usize] = byte;
    }

    /// `7XNN`: adds `byte` to `V[x]`; the flag stays as it is.
    fn add(&mut self, x: u8, byte: u8)
        requires
            old(self).wf(),
            x < 16,
        ensures
            final(self).wf(),
            final(self).setup() == old(self).setup(),
            execute_spec(old(self)@, Instruction::AddByte { x, byte }, 0) == Ok::<
                MachineState,
                Fault,
            >(final(self)@),
    {
        self.v[x as usize] = self.v[x as usize].wrapping_add(byte);
    }

    /// `8XY0`: copies `V[y]` to `V[x]`.
    fn set_vx_from_vy(&mut self, x: u8, y: u8)
        requires
            old(self).wf(),
            x < 16,
            y < 16,
        ensures
            final(self).wf(),
            final(self).setup() == old(self).setup(),
            execute_spec(old(self)@, Instruction::LdReg { x, y }, 0) == Ok::<MachineState, Fault>(
                final(self)@,
            ),
    {
        self.v[x as usize] = self.v[y as usize];
    }

    /// `8XY1`: `V[x] <- V[x] | V[y]`.
    fn vx_binary_or_vy(&mut self, x: u8, y: u8)
        requires
            old(self).wf(),
            x < 16,
            y < 16,
        ensures
            final(self).wf(),
            final(self).setup() == old(self).setup(),
            execute_spec(old(self)@, Instruction::Or { x, y }, 0) == Ok::<MachineState, Fault>(
                final(self)@,
            ),
    {
        self.v[x as usize] = self.v[x as usize] | self.v[y as usize];
    }

    /// `8XY2`: `V[x] <- V[x] & V[y]`.
    fn vx_binary_and_vy(&mut self, x: u8, y: u8)
        requires
            old(self).wf(),
            x < 16,
            y < 16,
        ensures
            final(self).wf(),
            final(self).setup() == old(self).setup(),
            execute_spec(old(self)@, Instruction::And { x, y }, 0) == Ok::<MachineState, Fault>(
                final(self)@,
            ),
    {
        self.v[x as usize] = self.v[x as usize] & self.v[y as usize];
    }

    /// `8XY3`: `V[x] <- V[x] ^ V[y]`.
    fn vx_binary_xor_vy(&mut self, x: u8, y: u8)
        requires
            old(self).wf(),
            x < 16,
            y < 16,
        ensures
            final(self).wf(),
            final(self).setup() == old(self).setup(),
            execute_spec(old(self)@, Instruction::Xor { x, y }, 0) == Ok::<MachineState, Fault>(
                final(self)@,
            ),
    {
        self.v[x as usize] = self.v[x as usize] ^ self.v[y as usize];
    }

    /// `8XY4`: adds `V[y]` to `V[x]`; the flag takes the carry.
    fn vx_add_vy(&mut self, x: u8, y: u8)
        requires
            old(self).wf(),
            x < 16,
            y < 16,
        ensures
            final(self).wf(),
            final(self).setup() == old(self).setup(),
            execute_spec(old(self)@, Instruction::AddReg { x, y }, 0) == Ok::<MachineState, Fault>(
                final(self)@,
            ),
    {
        let sum: u16 = self.v[x as usize] as u16 + self.v[y as usize] as u16;
        self.v[x as usize] = (sum % 256) as u8;
        self.v[0xF] = if sum > 255 {
            1
        } else {
            0
        };
    }

    /// `8XY5`: subtracts `V[y]` from `V[x]`; the flag is set unless a borrow
    /// occurs.
    fn vx_subtract_vy(&mut self, x: u8, y: u8)
        requires
            old(self).wf(),
            x < 16,
            y < 16,
        ensures
            final(self).wf(),
            final(self).setup() == old(self).setup(),
            execute_spec(old(self)@, Instruction::Sub { x, y }, 0) == Ok::<MachineState, Fault>(
                final(self)@,
            ),
    {
        let flag: u8 = if self.v[x as usize] >= self.v[y as usize] {
            1
        } else {
            0
        };
        self.v[x as usize] = self.v[x as usize].wrapping_sub(self.v[y as usize]);
        self.v[0xF] = flag;
    }

    /// `8XY7`: puts `V[y] - V[x]` in `V[x]`; the flag is set unless a borrow
    /// occurs.
    fn vx_subtract_from_vy(&mut self, x: u8, y: u8)
        requires
            old(self).wf(),
            x < 16,
            y < 16,
        ensures
            final(self).wf(),
            final(self).setup() == old(self).setup(),
            execute_spec(old(self)@, Instruction::Subn { x, y }, 0) == Ok::<MachineState, Fault>(
                final(self)@,
            ),
    {
        let flag: u8 = if self.v[y as usize] >= self.v[x as usize] {
            1
        } else {
            0
        };
        self.v[x as usize] = self.v[y as usize].wrapping_sub(self.v[x as usize]);
        self.v[0xF] = flag;
    }

    /// `8XY6`: shifts right by one; the flag takes the bit shifted out.
    fn vx_shift_right(&mut self, x: u8, y: u8)
        requires
            old(self).wf(),
            x < 16,
            y < 16,
        ensures
            final(self).wf(),
            final(self).setup() == old(self).setup(),
            execute_spec(old(self)@, Instruction::Shr { x, y }, 0) == Ok::<MachineState, Fault>(
                final(self)@,
            ),
    {
        if self.set_vx_from_vy {
            self.v[x as usize] = self.v[y as usize];
        }
        let source = self.v[x as usize];
        proof {
            lemma_bits(source, 0);
        }
        let flag = source & 1;
        self.v[x as usize] = source >> 1;
        self.v[0xF] = flag;
        assert(self@.v =~= old(self)@.with_register(x, source / 2).with_flag(source % 2 == 1).v);
    }

    /// `8XYE`: shifts left by one; the flag takes the bit shifted out.
    fn vx_shift_left(&mut self, x: u8, y: u8)
        requires
            old(self).wf(),
            x < 16,
            y < 16,
        ensures
            final(self).wf(),
            final(self).setup() == old(self).setup(),
            execute_spec(old(self)@, Instruction::Shl { x, y }, 0) == Ok::<MachineState, Fault>(
                final(self)@,
            ),
    {
        if self.set_vx_from_vy {
            self.v[x as usize] = self.v[y as usize];
        }
        let source = self.v[x as usize];
        proof {
            lemma_bits(source, 0);
        }
        let flag = source >> 7;
        self.v[x as usize] = source << 1;
        self.v[0xF] = flag;
        assert(self@.v =~= old(self)@.with_register(x, ((source * 2) % 256) as u8).with_flag(
            source >= 128,
        ).v);
    }

    /// `ANNN`: puts `addr` in the index register.
    fn set_index_register(&mut self, addr: u16)
        requires
            old(self).wf(),
            addr <= LAST_ADDRESS,
        ensures
            final(self).wf(),
            final(self).setup() == old(self).setup(),
            execute_spec(old(self)@, Instruction::LdIndex { addr }, 0) == Ok::<
                MachineState,
                Fault,
            >(final(self)@),
    {
        self.i = addr;
    }

    /// `BNNN`: jumps to `addr + V[0]`.
    fn jump_with_offset(&mut self, addr: u16)
        requires
            old(self).wf(),
            addr <= LAST_ADDRESS,
        ensures
            final(self).wf(),
            final(self).setup() == old(self).setup(),
            execute_spec(old(self)@, Instruction::JmpV0 { addr }, 0) == Ok::<MachineState, Fault>(
                final(self)@,
            ),
    {
        self.pc = self.v[0] as u16 + addr;
    }

    /// `CXNN`: puts `random & byte` in `V[x]`, where `random` is a byte
    /// drawn at random.
    fn random(&mut self, x: u8, byte: u8, random: u8)
        requires
            old(self).wf(),
            x < 16,
        ensures
            final(self).wf(),
            final(self).setup() == old(self).setup(),
            execute_spec(old(self)@, Instruction::Rnd { x, byte }, random) == Ok::<
                MachineState,
                Fault,
            >(final(self)@),
    {
        self.v[x as usize] = random & byte;
    }

    /// `EX9E`: skips if the key that `V[x]` names is down.
    fn skip_if_key_is_pressed(&mut self, x: u8)
        requires
            old(self).wf(),
            fetched(old(self)@),
            x < 16,
        ensures
            final(self).wf(),
            final(self).setup() == old(self).setup(),
            execute_spec(old(self)@, Instruction::Skp { x }, 0) == Ok::<MachineState, Fault>(
                final(self)@,
            ),
    {
        proof {
            lemma_bits(self.v@[x as int], 0);
        }
        let key = (self.v[x as usize] & 0x0F) as usize;
        let pressed = self.keys.is_key_pressed(key);
        self.skip_if(pressed);
    }

    /// `EXA1`: skips if the key that `V[x]` names is up.
    fn skip_if_key_is_not_pressed(&mut self, x: u8)
        requires
            old(self).wf(),
            fetched(old(self)@),
            x < 16,
        ensures
            final(self).wf(),
            final(self).setup() == old(self).setup(),
            execute_spec(old(self)@, Instruction::Sknp { x }, 0) == Ok::<MachineState, Fault>(
                final(self)@,
            ),
    {
        proof {
            lemma_bits(self.v@[x as int], 0);
        }
        let key = (self.v[x as usize] & 0x0F) as usize;
        let pressed = self.keys.is_key_pressed(key);
        self.skip_if(!pressed);
    }

    /// `FX07`: copies the delay timer to `V[x]`.
    fn set_vx_to_delay_timer(&mut self, x: u8)
        requires
            old(self).wf(),
            x < 16,
        ensures
            final(self).wf(),
            final(self).setup() == old(self).setup(),
            execute_spec(old(self)@, Instruction::LdFromDelay { x }, 0) == Ok::<
                MachineState,
                Fault,
            >(final(self)@),
    {
        self.v[x as usize] = self.delay_timer;
    }

    /// `FX0A`: waits for a key. With no key down the program counter goes
    /// back to this instruction; otherwise `V[x]` takes the lowest key that
    /// is down.
    fn wait_for_keypress(&mut self, x: u8)
        requires
            old(self).wf(),
            fetched(old(self)@),
            x < 16,
        ensures
            final(self).wf(),
            final(self).setup() == old(self).setup(),
            execute_spec(old(self)@, Instruction::Wkp { x }, 0) == Ok::<MachineState, Fault>(
                final(self)@,
            ),
    {
        let mut key: usize = 0;
        while key < KEY_COUNT && !self.keys.is_key_pressed(key)
            invariant
                key <= KEY_COUNT,
                *self == *old(self),
                first_key_down(self@.keys, 0) == first_key_down(self@.keys, key as int),
            decreases KEY_COUNT - key,
        {
            key += 1;
        }
        if key == KEY_COUNT {
            self.pc -= 2;
        } else {
            self.v[x as usize] = key as u8;
        }
    }

    /// `FX15`: copies `V[x]` to the delay timer.
    fn set_delay_timer(&mut self, x: u8)
        requires
            old(self).wf(),
            x < 16,
        ensures
            final(self).wf(),
            final(self).setup() == old(self).setup(),
            execute_spec(old(self)@, Instruction::LdDelay { x }, 0) == Ok::<MachineState, Fault>(
                final(self)@,
            ),
    {
        self.delay_timer = self.v[x as usize];
    }

    /// `FX18`: copies `V[x]` to the sound timer.
    fn set_sound_timer(&mut self, x: u8)
        requires
            old(self).wf(),
            x < 16,
        ensures
            final(self).wf(),
            final(self).setup() == old(self).setup(),
            execute_spec(old(self)@, Instruction::LdSound { x }, 0) == Ok::<MachineState, Fault>(
                final(self)@,
            ),
    {
        self.sound_timer = self.v[x as usize];
    }

    /// `FX1E`: adds `V[x]` to the index register, which wraps at the end of
    /// memory; the flag tells whether it did.
    fn add_vx_to_index_register(&mut self, x: u8)
        requires
            old(self).wf(),
            x < 16,
        ensures
            final(self).wf(),
            final(self).setup() == old(self).setup(),
            execute_spec(old(self)@, Instruction::AddIndex { x }, 0) == Ok::<MachineState, Fault>(
                final(self)@,
            ),
    {
        let sum: u16 = self.i + self.v[x as usize] as u16;
        proof {
            lemma_bits(0, sum);
        }
        self.v[0xF] = if sum > LAST_ADDRESS {
            1
        } else {
            0
        };
        self.i = sum & 0x0FFF;
    }

    /// `FX29`: points the index register at the glyph of the digit in the
    /// low nibble of `V[x]`.
    fn set_index_to_font(&mut self, x: u8)
        requires
            old(self).wf(),
            x < 16,
        ensures
            final(self).wf(),
            final(self).setup() == old(self).setup(),
            execute_spec(old(self)@, Instruction::LdFont { x }, 0) == Ok::<MachineState, Fault>(
                final(self)@,
            ),
    {
        proof {
            lemma_bits(self.v@[x as int], 0);
        }
        let digit = (self.v[x as usize] & 0x0F) as u16;
        self.i = FONT_BASE + digit * 5;
    }

    /// `FX33`: stores the three decimal digits of `V[x]` at `I`, `I + 1` and
    /// `I + 2`.
    fn store_bcd(&mut self, x: u8) -> (r: Result<(), Fault>)
        requires
            old(self).wf(),
            x < 16,
        ensures
            final(self).wf(),
            final(self).setup() == old(self).setup(),
            executes(old(self)@, Instruction::LdBcd { x }, 0, final(self)@, r),
    {
        let at = self.i as usize;
        if at + 2 >= MEMORY_SIZE {
            return Err(Fault::AccessOutOfMemory);
        }
        let value = self.v[x as usize];
        self.memory[at] = value / 100;
        self.memory[at + 1] = (value / 10) % 10;
        self.memory[at + 2] = value % 10;
        Ok(())
    }

    /// `FX55`: stores `V[0]..=V[x]` from address `I` on.
    fn store_registers(&mut self, x: u8) -> (r: Result<(), Fault>)
        requires
            old(self).wf(),
            x < 16,
        ensures
            final(self).wf(),
            final(self).setup() == old(self).setup(),
            executes(old(self)@, Instruction::Store { x }, 0, final(self)@, r),
    {
        let at = self.i as usize;
        let last = x as usize;
        if at + last >= MEMORY_SIZE {
            return Err(Fault::AccessOutOfMemory);
        }
        let mut k: usize = 0;
        while k <= last
            invariant
                k <= last + 1,
                last < 16,
                at == old(self)@.i,
                at + last < MEMORY_SIZE,
                self.wf(),
                self.setup() == old(self).setup(),
                self@ == (MachineState { memory: self@.memory, ..old(self)@ }),
                forall|a: int|
                    0 <= a < MEMORY_SIZE ==> #[trigger] self@.memory[a] == (if at <= a < at + k {
                        old(self)@.v[a - at]
                    } else {
                        old(self)@.memory[a]
                    }),
            decreases last + 1 - k,
        {
            self.memory[at + k] = self.v[k];
            k += 1;
        }
        assert(self@.memory =~= stored_memory(old(self)@, x));
        Ok(())
    }

    /// `FX65`: loads `V[0]..=V[x]` from address `I` on.
    fn load_registers(&mut self, x: u8) -> (r: Result<(), Fault>)
        requires
            old(self).wf(),
            x < 16,
        ensures
            final(self).wf(),
            final(self).setup() == old(self).setup(),
            executes(old(self)@, Instruction::Load { x }, 0, final(self)@, r),
    {
        let at = self.i as usize;
        let last = x as usize;
        if at + last >= MEMORY_SIZE {
            return Err(Fault::AccessOutOfMemory);
        }
        let mut k: usize = 0;
        while k <= last
            invariant
                k <= last + 1,
                last < 16,
                at == old(self)@.i,
                at + last < MEMORY_SIZE,
                self.wf(),
                self.setup() == old(self).setup(),
                self@ == (MachineState { v: self@.v, ..old(self)@ }),
                forall|j: int|
                    0 <= j < 16 ==> #[trigger] self@.v[j] == (if j < k {
                        old(self)@.memory[at + j]
                    } else {
                        old(self)@.v[j]
                    }),
            decreases last + 1 - k,
        {
            self.v[k] = self.memory[at + k];
            k += 1;
        }
        assert(self@.v =~= loaded_registers(old(self)@, x));
        Ok(())
    }
}

/// `rand::random`: a byte from the thread-local generator. Nothing is known
/// of its value.
#[verifier::external_body]
fn random_byte() -> u8 {
    rand::random::<u8>()
}

/// The number of milliseconds between two ticks of the 60 Hz clock.
pub const FRAME_MILLIS: u64 = 16;

/// Whether a frame is due when `elapsed_millis` have passed since the last
/// one.
pub fn frame_due(elapsed_millis: u64) -> (due: bool)
    ensures
        due == (elapsed_millis >= FRAME_MILLIS),
{
    elapsed_millis >= FRAME_MILLIS
}

impl Chip8 {
    /// `DXYN`: draws the sprite of `n` rows that memory holds at `I` at
    /// column `V[x] mod 64` and row `V[y] mod 32`. A pixel under a set bit of
    /// the sprite is flipped; what would lie beyond the right or the lower
    /// edge is left out. The flag tells whether a pixel went off.
    fn draw_sprite(&mut self, x: u8, y: u8, n: u8) -> (r: Result<(), Fault>)
        requires
            old(self).wf(),
            x < 16,
            y < 16,
            n < 16,
        ensures
            final(self).wf(),
            final(self).setup() == old(self).setup(),
            executes(old(self)@, Instruction::Drw { x, y, n }, 0, final(self)@, r),
    {
        let x0 = (self.v[x as usize] % 64) as usize;
        let y0 = (self.v[y as usize] % 32) as usize;
        let height = n as usize;
        let rows = if y0 + height <= SCREEN_HEIGHT {
            height
        } else {
            SCREEN_HEIGHT - y0
        };
        let at = self.i as usize;
        if at + rows > MEMORY_SIZE {
            return Err(Fault::AccessOutOfMemory);
        }
        let ghost pre = self@;
        let mut collision = false;
        let mut row: usize = 0;
        while row < rows
            invariant
                row <= rows,
                rows == rows_on_screen(y0 as int, height as int),
                x0 < 64,
                y0 < 32,
                height < 16,
                at == pre.i,
                at + rows <= MEMORY_SIZE,
                pre == old(self)@,
                pre.wf(),
                self.wf(),
                self.setup() == old(self).setup(),
                self@ == (MachineState { display: self@.display, ..pre }),
                forall|p: int|
                    0 <= p < SCREEN_SIZE ==> #[trigger] self@.display[p] == (pre.display[p]
                        != sprite_hits_before(
                        pre,
                        x0 as int,
                        y0 as int,
                        height as int,
                        row as int,
                        0,
                        p,
                    )),
                collision == sprite_collides_before(
                    pre,
                    x0 as int,
                    y0 as int,
                    height as int,
                    row as int,
                    0,
                ),
            decreases rows - row,
        {
            let sprite_byte = self.memory[at + row];
            let mut col: usize = 0;
            while col < 8 && x0 + col < SCREEN_WIDTH
                invariant
                    col <= 8,
                    x0 + col <= 64,
                    row < rows,
                    rows == rows_on_screen(y0 as int, height as int),
                    x0 < 64,
                    y0 < 32,
                    height < 16,
                    at == pre.i,
                    at + rows <= MEMORY_SIZE,
                    pre == old(self)@,
                    pre.wf(),
                    self.wf(),
                    self.setup() == old(self).setup(),
                    sprite_byte == pre.memory[at + row],
                    self@ == (MachineState { display: self@.display, ..pre }),
                    forall|p: int|
                        0 <= p < SCREEN_SIZE ==> #[trigger] self@.display[p] == (pre.display[p]
                            != sprite_hits_before(
                            pre,
                            x0 as int,
                            y0 as int,
                            height as int,
                            row as int,
                            col as int,
                            p,
                        )),
                    collision == sprite_collides_before(
                        pre,
                        x0 as int,
                        y0 as int,
                        height as int,
                        row as int,
                        col as int,
                    ),
                decreases 8 - col,
            {
                let p = (y0 + row) * SCREEN_WIDTH + x0 + col;
                let shift: u8 = 7 - col as u8;
                let bit = (sprite_byte >> shift) & 1 == 1;
                let ghost before = collision;
                proof {
                    assert(p / 64 == y0 + row && p % 64 == x0 + col);
                    assert(bit == sprite_hits(pre, x0 as int, y0 as int, height as int, p as int));
                    assert(!sprite_hits_before(
                        pre,
                        x0 as int,
                        y0 as int,
                        height as int,
                        row as int,
                        col as int,
                        p as int,
                    ));
                    assert forall|q: int|
                        sprite_hits_before(
                            pre,
                            x0 as int,
                            y0 as int,
                            height as int,
                            row as int,
                            col + 1,
                            q,
                        ) == (sprite_hits_before(
                            pre,
                            x0 as int,
                            y0 as int,
                            height as int,
                            row as int,
                            col as int,
                            q,
                        ) || (q == p && bit)) by {
                        if q != p && 0 <= q < SCREEN_SIZE && q / 64 == y0 + row {
                            assert(q % 64 != x0 + col);
                        }
                    }
                }
                if bit {
                    if self.display[p] {
                        self.display[p] = false;
                        collision = true;
                    } else {
                        self.display[p] = true;
                    }
                }
                proof {
                    let after = sprite_collides_before(
                        pre,
                        x0 as int,
                        y0 as int,
                        height as int,
                        row as int,
                        col + 1,
                    );
                    if before {
                        let q = choose|q: int|
                            pre.display[q] && #[trigger] sprite_hits_before(
                                pre,
                                x0 as int,
                                y0 as int,
                                height as int,
                                row as int,
                                col as int,
                                q,
                            );
                        assert(sprite_hits_before(
                            pre,
                            x0 as int,
                            y0 as int,
                            height as int,
                            row as int,
                            col + 1,
                            q,
                        ));
                    }
                    if bit && pre.display[p as int] {
                        assert(sprite_hits_before(
                            pre,
                            x0 as int,
                            y0 as int,
                            height as int,
                            row as int,
                            col + 1,
                            p as int,
                        ));
                    }
                    if after {
                        let q = choose|q: int|
                            pre.display[q] && #[trigger] sprite_hits_before(
                                pre,
                                x0 as int,
                                y0 as int,
                                height as int,
                                row as int,
                                col + 1,
                                q,
                            );
                        if q != p {
                            assert(sprite_hits_before(
                                pre,
                                x0 as int,
                                y0 as int,
                                height as int,
                                row as int,
                                col as int,
                                q,
                            ));
                        }
                    }
                    assert(collision == after);
                }
                col += 1;
            }
            proof {
                assert forall|q: int|
                    sprite_hits_before(
                        pre,
                        x0 as int,
                        y0 as int,
                        height as int,
                        row as int,
                        col as int,
                        q,
                    ) == sprite_hits_before(
                        pre,
                        x0 as int,
                        y0 as int,
                        height as int,
                        row + 1,
                        0,
                        q,
                    ) by {}
                let done = sprite_collides_before(
                    pre,
                    x0 as int,
                    y0 as int,
                    height as int,
                    row as int,
                    col as int,
                );
                let next = sprite_collides_before(
                    pre,
                    x0 as int,
                    y0 as int,
                    height as int,
                    row + 1,
                    0,
                );
                if done {
                    let q = choose|q: int|
                        pre.display[q] && #[trigger] sprite_hits_before(
                            pre,
                            x0 as int,
                            y0 as int,
                            height as int,
                            row as int,
                            col as int,
                            q,
                        );
                    assert(sprite_hits_before(
                        pre,
                        x0 as int,
                        y0 as int,
                        height as int,
                        row + 1,
                        0,
                        q,
                    ));
                }
                if next {
                    let q = choose|q: int|
                        pre.display[q] && #[trigger] sprite_hits_before(
                            pre,
                            x0 as int,
                            y0 as int,
                            height as int,
                            row + 1,
                            0,
                            q,
                        );
                    assert(sprite_hits_before(
                        pre,
                        x0 as int,
                        y0 as int,
                        height as int,
                        row as int,
                        col as int,
                        q,
                    ));
                }
            }
            row += 1;
        }
        proof {
            assert forall|q: int|
                sprite_hits_before(pre, x0 as int, y0 as int, height as int, rows as int, 0, q)
                    == sprite_hits(pre, x0 as int, y0 as int, height as int, q) by {}
            assert(self@.display =~= drawn_display(pre, x0 as int, y0 as int, height as int));
            let whole = sprite_collides(pre, x0 as int, y0 as int, height as int);
            if collision {
                let q = choose|q: int|
                    pre.display[q] && #[trigger] sprite_hits_before(
                        pre,
                        x0 as int,
                        y0 as int,
                        height as int,
                        rows as int,
                        0,
                        q,
                    );
                assert(sprite_hits(pre, x0 as int, y0 as int, height as int, q));
            }
            if whole {
                let q = choose|q: int|
                    pre.display[q] && #[trigger] sprite_hits(
                        pre,
                        x0 as int,
                        y0 as int,
                        height as int,
                        q,
                    );
                assert(sprite_hits_before(
                    pre,
                    x0 as int,
                    y0 as int,
                    height as int,
                    rows as int,
                    0,
                    q,
                ));
            }
            assert(collision == whole);
        }
        self.v[0xF] = if collision {
            1
        } else {
            0
        };
        Ok(())
    }

    // -----------------------------------------------------------------------
    // Decode and execute
    // -----------------------------------------------------------------------

    /// Executes the instruction that `opcode` stands for. The program
    /// counter points behind the instruction already; `random` is the byte
    /// that `CXNN` draws. An opcode that stands for nothing changes nothing.
    pub fn decode_and_execute(&mut self, opcode: u16, random: u8) -> (r: Result<(), Fault>)
        requires
            old(self).wf(),
            fetched(old(self)@),
        ensures
            final(self).wf(),
            final(self).setup() == old(self).setup(),
            executes(old(self)@, decode_spec(opcode), random, final(self)@, r),
    {
        match decode(opcode) {
            Instruction::Cls => {
                self.clear_screen();
                Ok(())
            },
            Instruction::Ret => self.return_from_subroutine(),
            Instruction::Jmp { addr } => {
                self.jump(addr);
                Ok(())
            },
            Instruction::Call { addr } => self.subroutine(addr),
            Instruction::SeByte { x, byte } => {
                self.skip_if_nn_is_equal(x, byte);
                Ok(())
            },
            Instruction::SneByte { x, byte } => {
                self.skip_if_nn_is_not_equal(x, byte);
                Ok(())
            },
            Instruction::SeReg { x, y } => {
                self.skip_if_vx_and_vy_are_equal(x, y);
                Ok(())
            },
            Instruction::LdByte { x, byte } => {
                self.set(x, byte);
                Ok(())
            },
            Instruction::AddByte { x, byte } => {
                self.add(x, byte);
                Ok(())
            },
            Instruction::LdReg { x, y } => {
                self.set_vx_from_vy(x, y);
                Ok(())
            },
            Instruction::Or { x, y } => {
                self.vx_binary_or_vy(x, y);
                Ok(())
            },
            Instruction::And { x, y } => {
                self.vx_binary_and_vy(x, y);
                Ok(())
            },
            Instruction::Xor { x, y } => {
                self.vx_binary_xor_vy(x, y);
                Ok(())
            },
            Instruction::AddReg { x, y } => {
                self.vx_add_vy(x, y);
                Ok(())
            },
            Instruction::Sub { x, y } => {
                self.vx_subtract_vy(x, y);
                Ok(())
            },
            Instruction::Shr { x, y } => {
                self.vx_shift_right(x, y);
                Ok(())
            },
            Instruction::Subn { x, y } => {
                self.vx_subtract_from_vy(x, y);
                Ok(())
            },
            Instruction::Shl { x, y } => {
                self.vx_shift_left(x, y);
                Ok(())
            },
            Instruction::SneReg { x, y } => {
                self.skip_if_vx_and_vy_are_not_equal(x, y);
                Ok(())
            },
            Instruction::LdIndex { addr } => {
                self.set_index_register(addr);
                Ok(())
            },
            Instruction::JmpV0 { addr } => {
                self.jump_with_offset(addr);
                Ok(())
            },
            Instruction::Rnd { x, byte } => {
                self.random(x, byte, random);
                Ok(())
            },
            Instruction::Drw { x, y, n } => self.draw_sprite(x, y, n),
            Instruction::Skp { x } => {
                self.skip_if_key_is_pressed(x);
                Ok(())
            },
            Instruction::Sknp { x } => {
                self.skip_if_key_is_not_pressed(x);
                Ok(())
            },
            Instruction::LdFromDelay { x } => {
                self.set_vx_to_delay_timer(x);
                Ok(())
            },
            Instruction::Wkp { x } => {
                self.wait_for_keypress(x);
                Ok(())
            },
            Instruction::LdDelay { x } => {
                self.set_delay_timer(x);
                Ok(())
            },
            Instruction::LdSound { x } => {
                self.set_sound_timer(x);
                Ok(())
            },
            Instruction::AddIndex { x } => {
                self.add_vx_to_index_register(x);
                Ok(())
            },
            Instruction::LdFont { x } => {
                self.set_index_to_font(x);
                Ok(())
            },
            Instruction::LdBcd { x } => self.store_bcd(x),
            Instruction::Store { x } => self.store_registers(x),
            Instruction::Load { x } => self.load_registers(x),
            Instruction::Unknown { .. } => Ok(()),
        }
    }

    // -----------------------------------------------------------------------
    // Steps and ticks
    // -----------------------------------------------------------------------

    /// Makes one step: fetches the opcode at the program counter and
    /// executes it, with `random` as the byte that `CXNN` draws. On a fault
    /// the machine stays as it was.
    pub fn step_with(&mut self, random: u8) -> (r: Result<(), Fault>)
        requires
            old(self).wf(),
        ensures
            final(self).wf(),
            final(self).setup() == old(self).setup(),
            steps(old(self)@, random, final(self)@, r),
    {
        let pc = self.pc;
        let opcode = match self.fetch_opcode() {
            Ok(opcode) => opcode,
            Err(fault) => return Err(fault),
        };
        match self.decode_and_execute(opcode, random) {
            Ok(_) => Ok(()),
            Err(fault) => {
                self.pc = pc;
                Err(fault)
            },
        }
    }

    /// Makes one step, drawing the byte for `CXNN` at random. Whatever that
    /// byte is, the step is the one that `step_with` makes with it.
    pub fn step(&mut self) -> (r: Result<(), Fault>)
        requires
            old(self).wf(),
        ensures
            final(self).wf(),
            final(self).setup() == old(self).setup(),
            exists|random: u8| #[trigger] steps(old(self)@, random, final(self)@, r),
    {
        let random = random_byte();
        self.step_with(random)
    }

    /// One tick of the 60 Hz clock: each timer that is not zero goes down by
    /// one. The result tells whether sound is to play, which is while the
    /// sound timer is not zero.
    pub fn update_timers(&mut self) -> (sound: bool)
        requires
            old(self).wf(),
        ensures
            final(self).wf(),
            final(self).setup() == old(self).setup(),
            final(self)@ == tick_spec(old(self)@),
            sound == (final(self)@.sound_timer > 0),
    {
        if self.delay_timer > 0 {
            self.delay_timer -= 1;
        }
        if self.sound_timer > 0 {
            self.sound_timer -= 1;
        }
        self.sound_timer > 0
    }

    /// What the scheduling loop does before a step when `elapsed_millis`
    /// have passed since the last frame. If a frame is due the clock ticks,
    /// and the result is `Some(sound)`: the screen is to be refreshed and
    /// sound is to play or to pause. Otherwise nothing changes.
    pub fn tick(&mut self, elapsed_millis: u64) -> (frame: Option<bool>)
        requires
            old(self).wf(),
        ensures
            final(self).wf(),
            final(self).setup() == old(self).setup(),
            elapsed_millis >= FRAME_MILLIS ==> final(self)@ == tick_spec(old(self)@) && frame
                == Some(final(self)@.sound_timer > 0),
            elapsed_millis < FRAME_MILLIS ==> final(self)@ == old(self)@ && frame is None,
    {
        if frame_due(elapsed_millis) {
            Some(self.update_timers())
        } else {
            None
        }
    }

    /// Records that key `key` of the keypad went down or up. A key beyond
    /// the sixteenth does not exist, and nothing changes.
    pub fn set_key(&mut self, key: usize, pressed: bool)
        requires
            old(self).wf(),
        ensures
            final(self).wf(),
            final(self).setup() == old(self).setup(),
            final(self)@ == (MachineState {
                keys: with_key(old(self)@.keys, key as int, pressed),
                ..old(self)@
            }),
    {
        self.keys.set_key(key, pressed);
    }

    // -----------------------------------------------------------------------
    // Reading the state
    // -----------------------------------------------------------------------

    /// The program counter.
    pub fn pc(&self) -> (r: u16)
        ensures
            r == self@.pc,
    {
        self.pc
    }

    /// The index register.
    pub fn index(&self) -> (r: u16)
        ensures
            r == self@.i,
    {
        self.i
    }

    /// The register `V[x]`.
    pub fn register(&self, x: usize) -> (r: u8)
        requires
            x < 16,
        ensures
            r == self@.v[x as int],
    {
        self.v[x]
    }

    /// The byte of memory at `address`.
    pub fn memory_at(&self, address: usize) -> (r: u8)
        requires
            address < MEMORY_SIZE,
        ensures
            r == self@.memory[address as int],
    {
        self.memory[address]
    }

    /// Whether the pixel in column `x` of row `y` is on.
    pub fn pixel(&self, x: usize, y: usize) -> (r: bool)
        requires
            x < SCREEN_WIDTH,
            y < SCREEN_HEIGHT,
        ensures
            r == self@.display[y * 64 + x],
    {
        self.display[y * SCREEN_WIDTH + x]
    }

    /// The screen, row by row.
    pub fn display(&self) -> (r: &[bool; SCREEN_SIZE])
        ensures
            r@ == self@.display,
    {
        &self.display
    }

    /// The delay timer.
    pub fn delay_timer(&self) -> (r: u8)
        ensures
            r == self@.delay_timer,
    {
        self.delay_timer
    }

    /// The sound timer.
    pub fn sound_timer(&self) -> (r: u8)
        ensures
            r == self@.sound_timer,
    {
        self.sound_timer
    }

    /// The number of return addresses on the stack.
    pub fn stack_depth(&self) -> (r: usize)
        requires
            self.wf(),
        ensures
            r == self@.stack.len(),
            r <= STACK_DEPTH,
    {
        self.stack.len()
    }

    /// The most recent return address, if there is one.
    pub fn stack_top(&self) -> (r: Option<u16>)
        requires
            self.wf(),
        ensures
            r == (if self@.stack.len() > 0 {
                Some(self@.stack.last())
            } else {
                None
            }),
    {
        self.stack.peek()
    }

    /// Whether key `key` of the keypad is down.
    pub fn is_key_pressed(&self, key: usize) -> (r: bool)
        ensures
            r == key_down(self@.keys, key as int),
    {
        self.keys.is_key_pressed(key)
    }

    /// The number of host pixels per pixel of the screen.
    pub fn display_scale(&self) -> (r: u32)
        ensures
            r == self.setup().0,
    {
        self.display_scale
    }

    /// The path of the program, as the setup gave it.
    pub fn program(&self) -> (r: &str)
        ensures
            r@ == self.setup().1,
    {
        self.program.as_str()
    }
}

} // verus!
