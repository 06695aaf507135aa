//! The CHIP-8 instruction set: the instructions, their 16-bit encoding and
//! the decoder that the interpreter runs on every fetched opcode.
//!
//! An opcode is written `FXYN` by its four nibbles; `NN` is its low byte and
//! `NNN` its low twelve bits.

use vstd::prelude::*;

verus! {

/// The last address of memory; an address takes twelve bits.
pub const LAST_ADDRESS: u16 = 0x0FFF;

/// The nibble `X` of an opcode: `(op >> 8) & 0x0F`.
pub open spec fn x_of(op: u16) -> u8 {
    ((op >> 8) & 0x0F) as u8
}

/// The nibble `Y` of an opcode: `(op >> 4) & 0x0F`.
pub open spec fn y_of(op: u16) -> u8 {
    ((op >> 4) & 0x0F) as u8
}

/// The nibble `N` of an opcode: `op & 0x0F`.
pub open spec fn n_of(op: u16) -> u8 {
    (op & 0x0F) as u8
}

/// The byte `NN` of an opcode: `op & 0x00FF`.
pub open spec fn nn_of(op: u16) -> u8 {
    (op & 0x00FF) as u8
}

/// The address `NNN` of an opcode: `op & 0x0FFF`.
pub open spec fn nnn_of(op: u16) -> u16 {
    op & 0x0FFF
}

/// The leading nibble of an opcode, which selects the instruction family.
pub open spec fn family_of(op: u16) -> u8 {
    (op >> 12) as u8
}

/// The fields of an opcode are the hexadecimal digits of its value.
pub proof fn lemma_fields_are_digits(op: u16)
    ensures
        family_of(op) == op / 4096,
        x_of(op) == (op / 256) % 16,
        y_of(op) == (op / 16) % 16,
        n_of(op) == op % 16,
        nn_of(op) == op % 256,
        nnn_of(op) == op % 4096,
{
    assert((op >> 12) as u8 == op / 4096) by (bit_vector);
    assert(((op >> 8) & 0x0F) as u8 == (op / 256) % 16) by (bit_vector);
    assert(((op >> 4) & 0x0F) as u8 == (op / 16) % 16) by (bit_vector);
    assert((op & 0x0F) as u8 == op % 16) by (bit_vector);
    assert((op & 0x00FF) as u8 == op % 256) by (bit_vector);
    assert(op & 0x0FFF == op % 4096) by (bit_vector);
}

/// A CHIP-8 instruction. `x` and `y` name registers, `byte` is an immediate
/// value, `addr` a memory address and `n` a sprite height.
#[derive(Clone, Copy, PartialEq, Eq, Debug)]
pub enum Instruction {
    /// `00E0`: clear the screen.
    Cls,
    /// `00EE`: return from a subroutine.
    Ret,
    /// `1NNN`: jump to `addr`.
    Jmp { addr: u16 },
    /// `2NNN`: call the subroutine at `addr`.
    Call { addr: u16 },
    /// `3XNN`: skip the next instruction if `V[x] == byte`.
    SeByte { x: u8, byte: u8 },
    /// `4XNN`: skip the next instruction if `V[x] != byte`.
    SneByte { x: u8, byte: u8 },
    /// `5XY0`: skip the next instruction if `V[x] == V[y]`.
    SeReg { x: u8, y: u8 },
    /// `6XNN`: `V[x] <- byte`.
    LdByte { x: u8, byte: u8 },
    /// `7XNN`: `V[x] <- V[x] + byte`, without touching the flag.
    AddByte { x: u8, byte: u8 },
    /// `8XY0`: `V[x] <- V[y]`.
    LdReg { x: u8, y: u8 },
    /// `8XY1`: `V[x] <- V[x] | V[y]`.
    Or { x: u8, y: u8 },
    /// `8XY2`: `V[x] <- V[x] & V[y]`.
    And { x: u8, y: u8 },
    /// `8XY3`: `V[x] <- V[x] ^ V[y]`.
    Xor { x: u8, y: u8 },
    /// `8XY4`: `V[x] <- V[x] + V[y]`, the flag takes the carry.
    AddReg { x: u8, y: u8 },
    /// `8XY5`: `V[x] <- V[x] - V[y]`, the flag is set unless a borrow occurs.
    Sub { x: u8, y: u8 },
    /// `8XY6`: shift `V[x]` right by one, the flag takes the bit shifted out.
    Shr { x: u8, y: u8 },
    /// `8XY7`: `V[x] <- V[y] - V[x]`, the flag is set unless a borrow occurs.
    Subn { x: u8, y: u8 },
    /// `8XYE`: shift `V[x]` left by one, the flag takes the bit shifted out.
    Shl { x: u8, y: u8 },
    /// `9XY0`: skip the next instruction if `V[x] != V[y]`.
    SneReg { x: u8, y: u8 },
    /// `ANNN`: `I <- addr`.
    LdIndex { addr: u16 },
    /// `BNNN`: jump to `addr + V[0]`.
    JmpV0 { addr: u16 },
    /// `CXNN`: `V[x] <- random byte & byte`.
    Rnd { x: u8, byte: u8 },
    /// `DXYN`: draw the `n`-row sprite at `I` at `(V[x], V[y])`.
    Drw { x: u8, y: u8, n: u8 },
    /// `EX9E`: skip the next instruction if the key in `V[x]` is down.
    Skp { x: u8 },
    /// `EXA1`: skip the next instruction if the key in `V[x]` is up.
    Sknp { x: u8 },
    /// `FX07`: `V[x] <- delay timer`.
    LdFromDelay { x: u8 },
    /// `FX0A`: wait for a key and store it in `V[x]`.
    Wkp { x: u8 },
    /// `FX15`: `delay timer <- V[x]`.
    LdDelay { x: u8 },
    /// `FX18`: `sound timer <- V[x]`.
    LdSound { x: u8 },
    /// `FX1E`: `I <- I + V[x]`.
    AddIndex { x: u8 },
    /// `FX29`: `I <-` address of the glyph of the digit in `V[x]`.
    LdFont { x: u8 },
    /// `FX33`: store the decimal digits of `V[x]` at `I`, `I + 1`, `I + 2`.
    LdBcd { x: u8 },
    /// `FX55`: store `V[0]..=V[x]` from address `I` on.
    Store { x: u8 },
    /// `FX65`: load `V[0]..=V[x]` from address `I` on.
    Load { x: u8 },
    /// Any opcode that stands for no instruction; it executes as a no-op.
    Unknown { opcode: u16 },
}

/// The opcode `F X NN`.
pub open spec fn word_x_byte(family: u16, x: u8, byte: u8) -> u16 {
    (family * 4096 + x * 256 + byte) as u16
}

/// The opcode `F X Y N`.
pub open spec fn word_x_y_n(family: u16, x: u8, y: u8, n: u8) -> u16 {
    (family * 4096 + x * 256 + y * 16 + n) as u16
}

/// The opcode `F NNN`.
pub open spec fn word_addr(family: u16, addr: u16) -> u16 {
    (family * 4096 + addr) as u16
}

/// The instruction that an opcode stands for.
pub open spec fn decode_spec(op: u16) -> Instruction {
    let x = x_of(op);
    let y = y_of(op);
    let n = n_of(op);
    let byte = nn_of(op);
    let addr = nnn_of(op);
    let unknown = Instruction::Unknown { opcode: op };
    match family_of(op) {
        0x0 => if op == 0x00E0 {
            Instruction::Cls
        } else if op == 0x00EE {
            Instruction::Ret
        } else {
            unknown
        },
        0x1 => Instruction::Jmp { addr },
        0x2 => Instruction::Call { addr },
        0x3 => Instruction::SeByte { x, byte },
        0x4 => Instruction::SneByte { x, byte },
        0x5 => if n == 0 {
            Instruction::SeReg { x, y }
        } else {
            unknown
        },
        0x6 => Instruction::LdByte { x, byte },
        0x7 => Instruction::AddByte { x, byte },
        0x8 => match n {
            0x0 => Instruction::LdReg { x, y },
            0x1 => Instruction::Or { x, y },
            0x2 => Instruction::And { x, y },
            0x3 => Instruction::Xor { x, y },
            0x4 => Instruction::AddReg { x, y },
            0x5 => Instruction::Sub { x, y },
            0x6 => Instruction::Shr { x, y },
            0x7 => Instruction::Subn { x, y },
            0xE => Instruction::Shl { x, y },
            _ => unknown,
        },
        0x9 => if n == 0 {
            Instruction::SneReg { x, y }
        } else {
            unknown
        },
        0xA => Instruction::LdIndex { addr },
        0xB => Instruction::JmpV0 { addr },
        0xC => Instruction::Rnd { x, byte },
        0xD => Instruction::Drw { x, y, n },
        0xE => match byte {
            0x9E => Instruction::Skp { x },
            0xA1 => Instruction::Sknp { x },
            _ => unknown,
        },
        _ => match byte {
            0x07 => Instruction::LdFromDelay { x },
            0x0A => Instruction::Wkp { x },
            0x15 => Instruction::LdDelay { x },
            0x18 => Instruction::LdSound { x },
            0x1E => Instruction::AddIndex { x },
            0x29 => Instruction::LdFont { x },
            0x33 => Instruction::LdBcd { x },
            0x55 => Instruction::Store { x },
            0x65 => Instruction::Load { x },
            _ => unknown,
        },
    }
}

impl Instruction {
    /// The operands fit their fields: registers and sprite heights in a
    /// nibble, addresses in twelve bits. An unknown instruction carries an
    /// opcode that indeed decodes to nothing.
    pub open spec fn wf(self) -> bool {
        match self {
            Instruction::Cls | Instruction::Ret => true,
            Instruction::Jmp { addr }
            | Instruction::Call { addr }
            | Instruction::LdIndex { addr }
            | Instruction::JmpV0 { addr } => addr <= 0x0FFF,
            Instruction::SeByte { x, .. }
            | Instruction::SneByte { x, .. }
            | Instruction::LdByte { x, .. }
            | Instruction::AddByte { x, .. }
            | Instruction::Rnd { x, .. } => x < 16,
            Instruction::SeReg { x, y }
            | Instruction::LdReg { x, y }
            | Instruction::Or { x, y }
            | Instruction::And { x, y }
            | Instruction::Xor { x, y }
            | Instruction::AddReg { x, y }
            | Instruction::Sub { x, y }
            | Instruction::Shr { x, y }
            | Instruction::Subn { x, y }
            | Instruction::Shl { x, y }
            | Instruction::SneReg { x, y } => x < 16 && y < 16,
            Instruction::Drw { x, y, n } => x < 16 && y < 16 && n < 16,
            Instruction::Skp { x }
            | Instruction::Sknp { x }
            | Instruction::LdFromDelay { x }
            | Instruction::Wkp { x }
            | Instruction::LdDelay { x }
            | Instruction::LdSound { x }
            | Instruction::AddIndex { x }
            | Instruction::LdFont { x }
            | Instruction::LdBcd { x }
            | Instruction::Store { x }
            | Instruction::Load { x } => x < 16,
            Instruction::Unknown { opcode } => decode_spec(opcode) == self,
        }
    }

    /// The canonical opcode of the instruction.
    pub open spec fn encode_spec(self) -> u16 {
        match self {
            Instruction::Cls => 0x00E0,
            Instruction::Ret => 0x00EE,
            Instruction::Jmp { addr } => word_addr(0x1, addr),
            Instruction::Call { addr } => word_addr(0x2, addr),
            Instruction::SeByte { x, byte } => word_x_byte(0x3, x, byte),
            Instruction::SneByte { x, byte } => word_x_byte(0x4, x, byte),
            Instruction::SeReg { x, y } => word_x_y_n(0x5, x, y, 0x0),
            Instruction::LdByte { x, byte } => word_x_byte(0x6, x, byte),
            Instruction::AddByte { x, byte } => word_x_byte(0x7, x, byte),
            Instruction::LdReg { x, y } => word_x_y_n(0x8, x, y, 0x0),
            Instruction::Or { x, y } => word_x_y_n(0x8, x, y, 0x1),
            Instruction::And { x, y } => word_x_y_n(0x8, x, y, 0x2),
            Instruction::Xor { x, y } => word_x_y_n(0x8, x, y, 0x3),
            Instruction::AddReg { x, y } => word_x_y_n(0x8, x, y, 0x4),
            Instruction::Sub { x, y } => word_x_y_n(0x8, x, y, 0x5),
            Instruction::Shr { x, y } => word_x_y_n(0x8, x, y, 0x6),
            Instruction::Subn { x, y } => word_x_y_n(0x8, x, y, 0x7),
            Instruction::Shl { x, y } => word_x_y_n(0x8, x, y, 0xE),
            Instruction::SneReg { x, y } => word_x_y_n(0x9, x, y, 0x0),
            Instruction::LdIndex { addr } => word_addr(0xA, addr),
            Instruction::JmpV0 { addr } => word_addr(0xB, addr),
            Instruction::Rnd { x, byte } => word_x_byte(0xC, x, byte),
            Instruction::Drw { x, y, n } => word_x_y_n(0xD, x, y, n),
            Instruction::Skp { x } => word_x_byte(0xE, x, 0x9E),
            Instruction::Sknp { x } => word_x_byte(0xE, x, 0xA1),
            Instruction::LdFromDelay { x } => word_x_byte(0xF, x, 0x07),
            Instruction::Wkp { x } => word_x_byte(0xF, x, 0x0A),
            Instruction::LdDelay { x } => word_x_byte(0xF, x, 0x15),
            Instruction::LdSound { x } => word_x_byte(0xF, x, 0x18),
            Instruction::AddIndex { x } => word_x_byte(0xF, x, 0x1E),
            Instruction::LdFont { x } => word_x_byte(0xF, x, 0x29),
            Instruction::LdBcd { x } => word_x_byte(0xF, x, 0x33),
            Instruction::Store { x } => word_x_byte(0xF, x, 0x55),
            Instruction::Load { x } => word_x_byte(0xF, x, 0x65),
            Instruction::Unknown { opcode } => opcode,
        }
    }

    /// Encodes the instruction as its canonical opcode.
    pub fn encode(&self) -> (op: u16)
        requires
            self.wf(),
        ensures
            op == self.encode_spec(),
    {
        match *self {
            Instruction::Cls => 0x00E0,
            Instruction::Ret => 0x00EE,
            Instruction::Jmp { addr } => pack_addr(0x1, addr),
            Instruction::Call { addr } => pack_addr(0x2, addr),
            Instruction::SeByte { x, byte } => pack_x_byte(0x3, x, byte),
            Instruction::SneByte { x, byte } => pack_x_byte(0x4, x, byte),
            Instruction::SeReg { x, y } => pack_x_y_n(0x5, x, y, 0x0),
            Instruction::LdByte { x, byte } => pack_x_byte(0x6, x, byte),
            Instruction::AddByte { x, byte } => pack_x_byte(0x7, x, byte),
            Instruction::LdReg { x, y } => pack_x_y_n(0x8, x, y, 0x0),
            Instruction::Or { x, y } => pack_x_y_n(0x8, x, y, 0x1),
            Instruction::And { x, y } => pack_x_y_n(0x8, x, y, 0x2),
            Instruction::Xor { x, y } => pack_x_y_n(0x8, x, y, 0x3),
            Instruction::AddReg { x, y } => pack_x_y_n(0x8, x, y, 0x4),
            Instruction::Sub { x, y } => pack_x_y_n(0x8, x, y, 0x5),
            Instruction::Shr { x, y } => pack_x_y_n(0x8, x, y, 0x6),
            Instruction::Subn { x, y } => pack_x_y_n(0x8, x, y, 0x7),
            Instruction::Shl { x, y } => pack_x_y_n(0x8, x, y, 0xE),
            Instruction::SneReg { x, y } => pack_x_y_n(0x9, x, y, 0x0),
            Instruction::LdIndex { addr } => pack_addr(0xA, addr),
            Instruction::JmpV0 { addr } => pack_addr(0xB, addr),
            Instruction::Rnd { x, byte } => pack_x_byte(0xC, x, byte),
            Instruction::Drw { x, y, n } => pack_x_y_n(0xD, x, y, n),
            Instruction::Skp { x } => pack_x_byte(0xE, x, 0x9E),
            Instruction::Sknp { x } => pack_x_byte(0xE, x, 0xA1),
            Instruction::LdFromDelay { x } => pack_x_byte(0xF, x, 0x07),
            Instruction::Wkp { x } => pack_x_byte(0xF, x, 0x0A),
            Instruction::LdDelay { x } => pack_x_byte(0xF, x, 0x15),
            Instruction::LdSound { x } => pack_x_byte(0xF, x, 0x18),
            Instruction::AddIndex { x } => pack_x_byte(0xF, x, 0x1E),
            Instruction::LdFont { x } => pack_x_byte(0xF, x, 0x29),
            Instruction::LdBcd { x } => pack_x_byte(0xF, x, 0x33),
            Instruction::Store { x } => pack_x_byte(0xF, x, 0x55),
            Instruction::Load { x } => pack_x_byte(0xF, x, 0x65),
            Instruction::Unknown { opcode } => opcode,
        }
    }
}

fn pack_x_byte(family: u16, x: u8, byte: u8) -> (op: u16)
    requires
        family < 16,
        x < 16,
    ensures
        op == word_x_byte(family, x, byte),
{
    let x16: u16 = x as u16;
    let b16: u16 = byte as u16;
    family * 4096 + x16 * 256 + b16
}

fn pack_x_y_n(family: u16, x: u8, y: u8, n: u8) -> (op: u16)
    requires
        family < 16,
        x < 16,
        y < 16,
        n < 16,
    ensures
        op == word_x_y_n(family, x, y, n),
{
    let x16: u16 = x as u16;
    let y16: u16 = y as u16;
    let n16: u16 = n as u16;
    family * 4096 + x16 * 256 + y16 * 16 + n16
}

fn pack_addr(family: u16, addr: u16) -> (op: u16)
    requires
        family < 16,
        addr <= 0x0FFF,
    ensures
        op == word_addr(family, addr),
{
    family * 4096 + addr
}

/// Decodes an opcode.
pub fn decode(op: u16) -> (ins: Instruction)
    ensures
        ins == decode_spec(op),
        ins.wf(),
{
    proof {
        lemma_fields_are_digits(op);
    }
    let x: u8 = ((op >> 8) & 0x0F) as u8;
    let y: u8 = ((op >> 4) & 0x0F) as u8;
    let n: u8 = (op & 0x0F) as u8;
    let byte: u8 = (op & 0x00FF) as u8;
    let addr: u16 = op & 0x0FFF;
    let family: u8 = (op >> 12) as u8;
    let unknown = Instruction::Unknown { opcode: op };
    match family {
        0x0 => if op == 0x00E0 {
            Instruction::Cls
        } else if op == 0x00EE {
            Instruction::Ret
        } else {
            unknown
        },
        0x1 => Instruction::Jmp { addr },
        0x2 => Instruction::Call { addr },
        0x3 => Instruction::SeByte { x, byte },
        0x4 => Instruction::SneByte { x, byte },
        0x5 => if n == 0 {
            Instruction::SeReg { x, y }
        } else {
            unknown
        },
        0x6 => Instruction::LdByte { x, byte },
        0x7 => Instruction::AddByte { x, byte },
        0x8 => match n {
            0x0 => Instruction::LdReg { x, y },
            0x1 => Instruction::Or { x, y },
            0x2 => Instruction::And { x, y },
            0x3 => Instruction::Xor { x, y },
            0x4 => Instruction::AddReg { x, y },
            0x5 => Instruction::Sub { x, y },
            0x6 => Instruction::Shr { x, y },
            0x7 => Instruction::Subn { x, y },
            0xE => Instruction::Shl { x, y },
            _ => unknown,
        },
        0x9 => if n == 0 {
            Instruction::SneReg { x, y }
        } else {
            unknown
        },
        0xA => Instruction::LdIndex { addr },
        0xB => Instruction::JmpV0 { addr },
        0xC => Instruction::Rnd { x, byte },
        0xD => Instruction::Drw { x, y, n },
        0xE => match byte {
            0x9E => Instruction::Skp { x },
            0xA1 => Instruction::Sknp { x },
            _ => unknown,
        },
        _ => match byte {
            0x07 => Instruction::LdFromDelay { x },
            0x0A => Instruction::Wkp { x },
            0x15 => Instruction::LdDelay { x },
            0x18 => Instruction::LdSound { x },
            0x1E => Instruction::AddIndex { x },
            0x29 => Instruction::LdFont { x },
            0x33 => Instruction::LdBcd { x },
            0x55 => Instruction::Store { x },
            0x65 => Instruction::Load { x },
            _ => unknown,
        },
    }
}

/// The fields of a word put together from a family, a register and a byte.
pub proof fn lemma_word_x_byte(family: u16, x: u8, byte: u8)
    by (bit_vector)
    requires
        family < 16,
        x < 16,
    ensures
        family_of(word_x_byte(family, x, byte)) == family,
        x_of(word_x_byte(family, x, byte)) == x,
        nn_of(word_x_byte(family, x, byte)) == byte,
        y_of(word_x_byte(family, x, byte)) == byte / 16,
        n_of(word_x_byte(family, x, byte)) == byte % 16,
        nnn_of(word_x_byte(family, x, byte)) == x * 256 + byte,
{
}

/// The fields of a word put together from a family and three nibbles.
pub proof fn lemma_word_x_y_n(family: u16, x: u8, y: u8, n: u8)
    by (bit_vector)
    requires
        family < 16,
        x < 16,
        y < 16,
        n < 16,
    ensures
        family_of(word_x_y_n(family, x, y, n)) == family,
        x_of(word_x_y_n(family, x, y, n)) == x,
        y_of(word_x_y_n(family, x, y, n)) == y,
        n_of(word_x_y_n(family, x, y, n)) == n,
        nn_of(word_x_y_n(family, x, y, n)) == y * 16 + n,
        nnn_of(word_x_y_n(family, x, y, n)) == x * 256 + y * 16 + n,
{
}

/// The fields of a word put together from a family and an address.
pub proof fn lemma_word_addr(family: u16, addr: u16)
    by (bit_vector)
    requires
        family < 16,
        addr <= 0x0FFF,
    ensures
        family_of(word_addr(family, addr)) == family,
        nnn_of(word_addr(family, addr)) == addr,
{
}

/// An opcode is put together from its own fields.
pub proof fn lemma_word_of_fields(op: u16)
    by (bit_vector)
    ensures
        family_of(op) < 16,
        x_of(op) < 16,
        y_of(op) < 16,
        n_of(op) < 16,
        nnn_of(op) <= 0x0FFF,
        op == word_x_y_n(family_of(op) as u16, x_of(op), y_of(op), n_of(op)),
        op == word_x_byte(family_of(op) as u16, x_of(op), nn_of(op)),
        op == word_addr(family_of(op) as u16, nnn_of(op)),
{
}

/// Decoding the canonical opcode of a well-formed instruction gives the
/// instruction back.
pub proof fn lemma_decode_encode(ins: Instruction)
    requires
        ins.wf(),
    ensures
        decode_spec(ins.encode_spec()) == ins,
{
    match ins {
        Instruction::Cls => {
            lemma_fields_are_digits(0x00E0);
        },
        Instruction::Ret => {
            lemma_fields_are_digits(0x00EE);
        },
        Instruction::Jmp { addr } => lemma_word_addr(0x1, addr),
        Instruction::Call { addr } => lemma_word_addr(0x2, addr),
        Instruction::SeByte { x, byte } => lemma_word_x_byte(0x3, x, byte),
        Instruction::SneByte { x, byte } => lemma_word_x_byte(0x4, x, byte),
        Instruction::SeReg { x, y } => lemma_word_x_y_n(0x5, x, y, 0x0),
        Instruction::LdByte { x, byte } => lemma_word_x_byte(0x6, x, byte),
        Instruction::AddByte { x, byte } => lemma_word_x_byte(0x7, x, byte),
        Instruction::LdReg { x, y } => lemma_word_x_y_n(0x8, x, y, 0x0),
        Instruction::Or { x, y } => lemma_word_x_y_n(0x8, x, y, 0x1),
        Instruction::And { x, y } => lemma_word_x_y_n(0x8, x, y, 0x2),
        Instruction::Xor { x, y } => lemma_word_x_y_n(0x8, x, y, 0x3),
        Instruction::AddReg { x, y } => lemma_word_x_y_n(0x8, x, y, 0x4),
        Instruction::Sub { x, y } => lemma_word_x_y_n(0x8, x, y, 0x5),
        Instruction::Shr { x, y } => lemma_word_x_y_n(0x8, x, y, 0x6),
        Instruction::Subn { x, y } => lemma_word_x_y_n(0x8, x, y, 0x7),
        Instruction::Shl { x, y } => lemma_word_x_y_n(0x8, x, y, 0xE),
        Instruction::SneReg { x, y } => lemma_word_x_y_n(0x9, x, y, 0x0),
        Instruction::LdIndex { addr } => lemma_word_addr(0xA, addr),
        Instruction::JmpV0 { addr } => lemma_word_addr(0xB, addr),
        Instruction::Rnd { x, byte } => lemma_word_x_byte(0xC, x, byte),
        Instruction::Drw { x, y, n } => lemma_word_x_y_n(0xD, x, y, n),
        Instruction::Skp { x } => lemma_word_x_byte(0xE, x, 0x9E),
        Instruction::Sknp { x } => lemma_word_x_byte(0xE, x, 0xA1),
        Instruction::LdFromDelay { x } => lemma_word_x_byte(0xF, x, 0x07),
        Instruction::Wkp { x } => lemma_word_x_byte(0xF, x, 0x0A),
        Instruction::LdDelay { x } => lemma_word_x_byte(0xF, x, 0x15),
        Instruction::LdSound { x } => lemma_word_x_byte(0xF, x, 0x18),
        Instruction::AddIndex { x } => lemma_word_x_byte(0xF, x, 0x1E),
        Instruction::LdFont { x } => lemma_word_x_byte(0xF, x, 0x29),
        Instruction::LdBcd { x } => lemma_word_x_byte(0xF, x, 0x33),
        Instruction::Store { x } => lemma_word_x_byte(0xF, x, 0x55),
        Instruction::Load { x } => lemma_word_x_byte(0xF, x, 0x65),
        Instruction::Unknown { opcode } => {},
    }
}

/// Every opcode decodes to a well-formed instruction, and encoding that
/// instruction gives the opcode back.
pub proof fn lemma_encode_decode(op: u16)
    ensures
        decode_spec(op).wf(),
        decode_spec(op).encode_spec() == op,
{
    lemma_word_of_fields(op);
    let ins = decode_spec(op);
    if ins is Unknown {
    } else if family_of(op) == 0 {
    } else if family_of(op) == 0x5 || family_of(op) == 0x8 || family_of(op) == 0x9 || family_of(op)
        == 0xD {
        assert(op == word_x_y_n(family_of(op) as u16, x_of(op), y_of(op), n_of(op)));
    } else if family_of(op) == 0x1 || family_of(op) == 0x2 || family_of(op) == 0xA || family_of(op)
        == 0xB {
        assert(op == word_addr(family_of(op) as u16, nnn_of(op)));
    } else {
        assert(op == word_x_byte(family_of(op) as u16, x_of(op), nn_of(op)));
    }
}

/// The mnemonic under which the assembler knows an instruction; the empty
/// text for an opcode that stands for nothing.
pub open spec fn mnemonic_of(ins: Instruction) -> Seq<char> {
    match ins {
        Instruction::Cls => "cls"@,
        Instruction::Ret => "ret"@,
        Instruction::Jmp { .. } | Instruction::JmpV0 { .. } => "jmp"@,
        Instruction::Call { .. } => "call"@,
        Instruction::SeByte { .. } | Instruction::SeReg { .. } => "se"@,
        Instruction::SneByte { .. } | Instruction::SneReg { .. } => "sne"@,
        Instruction::LdByte { .. }
        | Instruction::LdReg { .. }
        | Instruction::LdIndex { .. }
        | Instruction::LdFromDelay { .. }
        | Instruction::LdDelay { .. }
        | Instruction::LdSound { .. }
        | Instruction::LdFont { .. }
        | Instruction::LdBcd { .. }
        | Instruction::Store { .. }
        | Instruction::Load { .. } => "ld"@,
        Instruction::AddByte { .. }
        | Instruction::AddReg { .. }
        | Instruction::AddIndex { .. } => "add"@,
        Instruction::Or { .. } => "or"@,
        Instruction::And { .. } => "and"@,
        Instruction::Xor { .. } => "xor"@,
        Instruction::Sub { .. } => "sub"@,
        Instruction::Shr { .. } => "shr"@,
        Instruction::Subn { .. } => "subn"@,
        Instruction::Shl { .. } => "shl"@,
        Instruction::Rnd { .. } => "rnd"@,
        Instruction::Drw { .. } => "drw"@,
        Instruction::Skp { .. } => "skp"@,
        Instruction::Sknp { .. } => "sknp"@,
        Instruction::Wkp { .. } => "wkp"@,
        Instruction::Unknown { .. } => Seq::empty(),
    }
}

} // verus!
