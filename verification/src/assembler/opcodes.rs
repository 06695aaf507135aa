//! The emitters: one per mnemonic, from the operands of an instruction to
//! its opcode.
//!
//! Every emitter is specified by the instruction that its operands denote;
//! the opcode it returns is the canonical encoding of that instruction.
//! Operands are read without regard to the case of their letters.

use vstd::prelude::*;
use vstd::string::StringExecFns;
use crate::assembler::arg::classify;
use crate::assembler::arg::ArgType;
use crate::assembler::labels::LabelTable;
use crate::assembler::registers::register_outcome;
use crate::assembler::registers::Register;
use crate::assembler::utils::get_address;
use crate::assembler::utils::resolve_outcome;
use crate::isa::Instruction;
use crate::text::decimal;
use crate::text::decimal_text;
use crate::text::hex_value;
use crate::text::is_hex_u16;
use crate::text::lowercase;
use crate::text::numeral_digits;
use crate::text::outcome;
use crate::text::parse_hex_u16;
use crate::text::strip_hex_prefix;
use crate::text::to_lowercase;
use crate::text::trim_hex_prefix;

verus! {

/// The operands of an instruction, each by its characters.
pub type Operands = Seq<Seq<char>>;

/// What an emitter amounts to: an instruction, or a message.
pub type Assembled = Result<Instruction, Seq<char>>;

/// The opcode of an assembled instruction; a message stays as it is.
pub open spec fn encoded(assembled: Assembled) -> Result<u16, Seq<char>> {
    match assembled {
        Ok(instruction) => Ok(instruction.encode_spec()),
        Err(e) => Err(e),
    }
}

// ---------------------------------------------------------------------------
// Shapes of operand lists
// ---------------------------------------------------------------------------

/// The message for a wrong number of operands.
pub open spec fn wrong_count(mnemonic: Seq<char>, expected: Seq<char>, got: nat) -> Seq<char> {
    "Invalid number of arguments for "@ + mnemonic + ": expected "@ + expected + ", got "@
        + decimal_text(got)
}

/// The register that an operand names.
pub open spec fn register_operand(arg: Seq<char>) -> Result<Register, Seq<char>> {
    register_outcome(lowercase(arg))
}

/// Exactly one operand, which names a register.
pub open spec fn one_register_outcome(mnemonic: Seq<char>, args: Operands) -> Result<
    Register,
    Seq<char>,
> {
    if args.len() != 1 {
        Err(wrong_count(mnemonic, "1"@, args.len()))
    } else {
        register_operand(args[0])
    }
}

/// Exactly two operands, which both name registers.
pub open spec fn two_registers_outcome(mnemonic: Seq<char>, args: Operands) -> Result<
    (Register, Register),
    Seq<char>,
> {
    if args.len() != 2 {
        Err(wrong_count(mnemonic, "2"@, args.len()))
    } else {
        match register_operand(args[0]) {
            Err(e) => Err(e),
            Ok(x) => match register_operand(args[1]) {
                Err(e) => Err(e),
                Ok(y) => Ok((x, y)),
            },
        }
    }
}

/// Exactly two operands, both classified.
pub open spec fn two_operands_outcome(mnemonic: Seq<char>, args: Operands) -> Result<
    (ArgType, ArgType),
    Seq<char>,
> {
    if args.len() != 2 {
        Err(wrong_count(mnemonic, "2"@, args.len()))
    } else {
        match classify(lowercase(args[0])) {
            Err(e) => Err(e),
            Ok(first) => match classify(lowercase(args[1])) {
                Err(e) => Err(e),
                Ok(second) => Ok((first, second)),
            },
        }
    }
}

/// Exactly two operands, of which the first names a register.
pub open spec fn register_and_operand_outcome(mnemonic: Seq<char>, args: Operands) -> Result<
    (Register, ArgType),
    Seq<char>,
> {
    match two_operands_outcome(mnemonic, args) {
        Err(e) => Err(e),
        Ok((first, second)) => match first {
            ArgType::Register(x) => Ok((x, second)),
            _ => Err("Invalid first argument for "@ + mnemonic + ": expected register"@),
        },
    }
}

/// Describes a wrong number of operands.
fn wrong_count_message(mnemonic: &str, expected: &str, got: usize) -> (r: String)
    ensures
        r@ == wrong_count(mnemonic@, expected@, got as nat),
{
    let shown = decimal(got as u64);
    String::from_str("Invalid number of arguments for ").concat(mnemonic).concat(
        ": expected ",
    ).concat(expected).concat(", got ").concat(shown.as_str())
}

/// Reads an operand that names a register.
pub fn register_of(arg: &str) -> (r: Result<Register, String>)
    ensures
        outcome(r) == register_operand(arg@),
{
    let lower = to_lowercase(arg);
    Register::get_register(lower.as_str())
}

/// Reads the one register of an instruction.
fn one_register(mnemonic: &str, args: &Vec<String>) -> (r: Result<Register, String>)
    ensures
        outcome(r) == one_register_outcome(mnemonic@, args.deep_view()),
{
    if args.len() != 1 {
        return Err(wrong_count_message(mnemonic, "1", args.len()));
    }
    assert(args.deep_view()[0] == args@[0]@);
    register_of(args[0].as_str())
}

/// Reads the two registers of an instruction.
fn two_registers(mnemonic: &str, args: &Vec<String>) -> (r: Result<(Register, Register), String>)
    ensures
        outcome(r) == two_registers_outcome(mnemonic@, args.deep_view()),
{
    if args.len() != 2 {
        return Err(wrong_count_message(mnemonic, "2", args.len()));
    }
    assert(args.deep_view()[0] == args@[0]@);
    assert(args.deep_view()[1] == args@[1]@);
    let x = match register_of(args[0].as_str()) {
        Ok(x) => x,
        Err(e) => return Err(e),
    };
    let y = match register_of(args[1].as_str()) {
        Ok(y) => y,
        Err(e) => return Err(e),
    };
    Ok((x, y))
}

/// Classifies the two operands of an instruction.
fn two_operands(mnemonic: &str, args: &Vec<String>) -> (r: Result<(ArgType, ArgType), String>)
    ensures
        outcome(r) == two_operands_outcome(mnemonic@, args.deep_view()),
{
    if args.len() != 2 {
        return Err(wrong_count_message(mnemonic, "2", args.len()));
    }
    assert(args.deep_view()[0] == args@[0]@);
    assert(args.deep_view()[1] == args@[1]@);
    let first = match ArgType::new(args[0].as_str()) {
        Ok(first) => first,
        Err(e) => return Err(e),
    };
    let second = match ArgType::new(args[1].as_str()) {
        Ok(second) => second,
        Err(e) => return Err(e),
    };
    Ok((first, second))
}

/// Classifies the two operands of an instruction whose first operand is a
/// register.
fn register_and_operand(mnemonic: &str, args: &Vec<String>) -> (r: Result<
    (Register, ArgType),
    String,
>)
    ensures
        outcome(r) == register_and_operand_outcome(mnemonic@, args.deep_view()),
{
    match two_operands(mnemonic, args) {
        Err(e) => Err(e),
        Ok((first, second)) => match first {
            ArgType::Register(x) => Ok((x, second)),
            _ => Err(
                String::from_str("Invalid first argument for ").concat(mnemonic).concat(
                    ": expected register",
                ),
            ),
        },
    }
}

// ---------------------------------------------------------------------------
// add
// ---------------------------------------------------------------------------

/// `add Vx, Vy` is `8XY4`; `add Vx, nn` is `7Xnn` with `nn` of one byte.
pub open spec fn add_vy_or_address_instruction(reg_x: Register, arg: ArgType) -> Assembled {
    match arg {
        ArgType::Register(reg_y) => Ok(
            Instruction::AddReg { x: reg_x.index_spec(), y: reg_y.index_spec() },
        ),
        ArgType::Number(byte) => if byte > 0xFF {
            Err("Invalid address for add: expected 0xFF or less"@)
        } else {
            Ok(Instruction::AddByte { x: reg_x.index_spec(), byte: byte as u8 })
        },
        _ => Err("Invalid argument for add: expected register in second argument"@),
    }
}

/// `add I, Vx` is `FX1E`.
pub open spec fn add_to_index_instruction(arg: ArgType) -> Assembled {
    match arg {
        ArgType::Register(reg) => Ok(Instruction::AddIndex { x: reg.index_spec() }),
        _ => Err("Invalid argument for add: expected register in second argument"@),
    }
}

/// The instruction of `add` with the operands `args`.
pub open spec fn add_instruction(args: Operands) -> Assembled {
    match two_operands_outcome("add"@, args) {
        Err(e) => Err(e),
        Ok((first, second)) => match first {
            ArgType::IndexRegister(_) => add_to_index_instruction(second),
            ArgType::Register(reg_x) => add_vy_or_address_instruction(reg_x, second),
            _ => Err("Invalid argument for add: expected register in first argument"@),
        },
    }
}

/// Emits `add`: to the index register, of two registers, or of a byte to a
/// register.
pub fn add(args: &Vec<String>) -> (r: Result<u16, String>)
    ensures
        outcome(r) == encoded(add_instruction(args.deep_view())),
{
    match two_operands("add", args) {
        Err(e) => Err(e),
        Ok((first, second)) => match first {
            ArgType::IndexRegister(_) => add_to_index(second),
            ArgType::Register(reg_x) => add_vy_or_address(reg_x, second),
            _ => Err(
                String::from_str("Invalid argument for add: expected register in first argument"),
            ),
        },
    }
}

/// Emits `add` of a register or a byte to the register `reg_x`.
pub fn add_vy_or_address(reg_x: Register, arg: ArgType) -> (r: Result<u16, String>)
    ensures
        outcome(r) == encoded(add_vy_or_address_instruction(reg_x, arg)),
{
    match arg {
        ArgType::Register(reg_y) => Ok(
            Instruction::AddReg { x: reg_x.index(), y: reg_y.index() }.encode(),
        ),
        ArgType::Number(byte) => {
            if byte > 0xFF {
                return Err(String::from_str("Invalid address for add: expected 0xFF or less"));
            }
            Ok(Instruction::AddByte { x: reg_x.index(), byte: byte as u8 }.encode())
        },
        _ => Err(
            String::from_str("Invalid argument for add: expected register in second argument"),
        ),
    }
}

/// Emits `add` of a register to the index register.
pub fn add_to_index(arg: ArgType) -> (r: Result<u16, String>)
    ensures
        outcome(r) == encoded(add_to_index_instruction(arg)),
{
    match arg {
        ArgType::Register(reg) => Ok(Instruction::AddIndex { x: reg.index() }.encode()),
        _ => Err(
            String::from_str("Invalid argument for add: expected register in second argument"),
        ),
    }
}

// ---------------------------------------------------------------------------
// Instructions on two registers
// ---------------------------------------------------------------------------

/// `and Vx, Vy` is `8XY2`.
pub open spec fn and_instruction(args: Operands) -> Assembled {
    match two_registers_outcome("and"@, args) {
        Ok((x, y)) => Ok(Instruction::And { x: x.index_spec(), y: y.index_spec() }),
        Err(e) => Err(e),
    }
}

/// Emits `and`.
pub fn and(args: &Vec<String>) -> (r: Result<u16, String>)
    ensures
        outcome(r) == encoded(and_instruction(args.deep_view())),
{
    match two_registers("and", args) {
        Ok((x, y)) => Ok(Instruction::And { x: x.index(), y: y.index() }.encode()),
        Err(e) => Err(e),
    }
}

/// `or Vx, Vy` is `8XY1`.
pub open spec fn or_instruction(args: Operands) -> Assembled {
    match two_registers_outcome("or"@, args) {
        Ok((x, y)) => Ok(Instruction::Or { x: x.index_spec(), y: y.index_spec() }),
        Err(e) => Err(e),
    }
}

/// Emits `or`.
pub fn or(args: &Vec<String>) -> (r: Result<u16, String>)
    ensures
        outcome(r) == encoded(or_instruction(args.deep_view())),
{
    match two_registers("or", args) {
        Ok((x, y)) => Ok(Instruction::Or { x: x.index(), y: y.index() }.encode()),
        Err(e) => Err(e),
    }
}

/// `xor Vx, Vy` is `8XY3`.
pub open spec fn xor_instruction(args: Operands) -> Assembled {
    match two_registers_outcome("xor"@, args) {
        Ok((x, y)) => Ok(Instruction::Xor { x: x.index_spec(), y: y.index_spec() }),
        Err(e) => Err(e),
    }
}

/// Emits `xor`.
pub fn xor(args: &Vec<String>) -> (r: Result<u16, String>)
    ensures
        outcome(r) == encoded(xor_instruction(args.deep_view())),
{
    match two_registers("xor", args) {
        Ok((x, y)) => Ok(Instruction::Xor { x: x.index(), y: y.index() }.encode()),
        Err(e) => Err(e),
    }
}

/// `sub Vx, Vy` is `8XY5`.
pub open spec fn sub_instruction(args: Operands) -> Assembled {
    match two_registers_outcome("sub"@, args) {
        Ok((x, y)) => Ok(Instruction::Sub { x: x.index_spec(), y: y.index_spec() }),
        Err(e) => Err(e),
    }
}

/// Emits `sub`.
pub fn sub(args: &Vec<String>) -> (r: Result<u16, String>)
    ensures
        outcome(r) == encoded(sub_instruction(args.deep_view())),
{
    match two_registers("sub", args) {
        Ok((x, y)) => Ok(Instruction::Sub { x: x.index(), y: y.index() }.encode()),
        Err(e) => Err(e),
    }
}

/// `subn Vx, Vy` is `8XY7`.
pub open spec fn subn_instruction(args: Operands) -> Assembled {
    match two_registers_outcome("subn"@, args) {
        Ok((x, y)) => Ok(Instruction::Subn { x: x.index_spec(), y: y.index_spec() }),
        Err(e) => Err(e),
    }
}

/// Emits `subn`.
pub fn subn(args: &Vec<String>) -> (r: Result<u16, String>)
    ensures
        outcome(r) == encoded(subn_instruction(args.deep_view())),
{
    match two_registers("subn", args) {
        Ok((x, y)) => Ok(Instruction::Subn { x: x.index(), y: y.index() }.encode()),
        Err(e) => Err(e),
    }
}

/// `shl Vx, Vy` is `8XYE`.
pub open spec fn shl_instruction(args: Operands) -> Assembled {
    match two_registers_outcome("shl"@, args) {
        Ok((x, y)) => Ok(Instruction::Shl { x: x.index_spec(), y: y.index_spec() }),
        Err(e) => Err(e),
    }
}

/// Emits `shl`.
pub fn shl(args: &Vec<String>) -> (r: Result<u16, String>)
    ensures
        outcome(r) == encoded(shl_instruction(args.deep_view())),
{
    match two_registers("shl", args) {
        Ok((x, y)) => Ok(Instruction::Shl { x: x.index(), y: y.index() }.encode()),
        Err(e) => Err(e),
    }
}

/// `shr Vx, Vy` is `8XY6`.
pub open spec fn shr_instruction(args: Operands) -> Assembled {
    match two_registers_outcome("shr"@, args) {
        Ok((x, y)) => Ok(Instruction::Shr { x: x.index_spec(), y: y.index_spec() }),
        Err(e) => Err(e),
    }
}

/// Emits `shr`.
pub fn shr(args: &Vec<String>) -> (r: Result<u16, String>)
    ensures
        outcome(r) == encoded(shr_instruction(args.deep_view())),
{
    match two_registers("shr", args) {
        Ok((x, y)) => Ok(Instruction::Shr { x: x.index(), y: y.index() }.encode()),
        Err(e) => Err(e),
    }
}

// ---------------------------------------------------------------------------
// drw
// ---------------------------------------------------------------------------

/// The sprite height that an operand of `drw` names: a hexadecimal numeral
/// of one byte, after any leading `0x`, that does not exceed `0xF`.
pub open spec fn height_outcome(arg: Seq<char>) -> Result<u8, Seq<char>> {
    let digits = strip_hex_prefix(lowercase(arg));
    if !is_hex_u16(digits) || hex_value(numeral_digits(digits)) > 0xFF {
        Err("Invalid nibble for drw: expected hex value, got "@ + arg)
    } else if hex_value(numeral_digits(digits)) > 0xF {
        Err(
            "Invalid nibble for drw: expected 0xF or less, got "@ + decimal_text(
                hex_value(numeral_digits(digits)),
            ),
        )
    } else {
        Ok(hex_value(numeral_digits(digits)) as u8)
    }
}

/// `drw Vx, Vy, n` is `DXYN`.
pub open spec fn drw_instruction(args: Operands) -> Assembled {
    if args.len() != 3 {
        Err(wrong_count("drw"@, "3"@, args.len()))
    } else {
        match register_operand(args[0]) {
            Err(e) => Err(e),
            Ok(x) => match register_operand(args[1]) {
                Err(e) => Err(e),
                Ok(y) => match height_outcome(args[2]) {
                    Err(e) => Err(e),
                    Ok(n) => Ok(Instruction::Drw { x: x.index_spec(), y: y.index_spec(), n }),
                },
            },
        }
    }
}

/// Reads the sprite height of `drw`.
pub fn sprite_height(arg: &str) -> (r: Result<u8, String>)
    ensures
        outcome(r) == height_outcome(arg@),
{
    let lower = to_lowercase(arg);
    let digits = trim_hex_prefix(lower.as_str());
    let nibble = match parse_hex_u16(digits) {
        Ok(nibble) => nibble,
        Err(_) => 0x100,
    };
    if nibble > 0xFF {
        return Err(
            String::from_str("Invalid nibble for drw: expected hex value, got ").concat(arg),
        );
    }
    if nibble > 0xF {
        let shown = decimal(nibble as u64);
        return Err(
            String::from_str("Invalid nibble for drw: expected 0xF or less, got ").concat(
                shown.as_str(),
            ),
        );
    }
    Ok(nibble as u8)
}

/// Emits `drw`.
pub fn drw(args: &Vec<String>) -> (r: Result<u16, String>)
    ensures
        outcome(r) == encoded(drw_instruction(args.deep_view())),
{
    if args.len() != 3 {
        return Err(wrong_count_message("drw", "3", args.len()));
    }
    assert(args.deep_view()[0] == args@[0]@);
    assert(args.deep_view()[1] == args@[1]@);
    assert(args.deep_view()[2] == args@[2]@);
    let reg_x = match register_of(args[0].as_str()) {
        Ok(x) => x,
        Err(e) => return Err(e),
    };
    let reg_y = match register_of(args[1].as_str()) {
        Ok(y) => y,
        Err(e) => return Err(e),
    };
    let nibble = match sprite_height(args[2].as_str()) {
        Ok(n) => n,
        Err(e) => return Err(e),
    };
    Ok(Instruction::Drw { x: reg_x.index(), y: reg_y.index(), n: nibble }.encode())
}

// ---------------------------------------------------------------------------
// ld
// ---------------------------------------------------------------------------

/// `ld Vx, DT` is `FX07`, `ld Vx, I` is `FX65`, `ld Vx, Vy` is `8XY0` and
/// `ld Vx, nn` is `6Xnn` with `nn` of one byte.
pub open spec fn ld_register_instruction(reg_x: Register, arg: ArgType) -> Assembled {
    match arg {
        ArgType::DelayTimer(_) => Ok(Instruction::LdFromDelay { x: reg_x.index_spec() }),
        ArgType::IndexRegister(_) => Ok(Instruction::Load { x: reg_x.index_spec() }),
        ArgType::Register(reg_y) => Ok(
            Instruction::LdReg { x: reg_x.index_spec(), y: reg_y.index_spec() },
        ),
        ArgType::Number(num) => if num > 0xFF {
            Err("Invalid second argument for ld: expected 0xFF or less"@)
        } else {
            Ok(Instruction::LdByte { x: reg_x.index_spec(), byte: num as u8 })
        },
        _ => Err("Invalid second argument for ld"@),
    }
}

/// `ld B, Vx` is `FX33`.
pub open spec fn ld_bcd_instruction(arg: ArgType) -> Assembled {
    match arg {
        ArgType::Register(reg) => Ok(Instruction::LdBcd { x: reg.index_spec() }),
        _ => Err("Invalid second argument for ld"@),
    }
}

/// `ld F, Vx` is `FX29`.
pub open spec fn ld_font_instruction(arg: ArgType) -> Assembled {
    match arg {
        ArgType::Register(reg) => Ok(Instruction::LdFont { x: reg.index_spec() }),
        _ => Err("Invalid second argument for ld"@),
    }
}

/// `ld I, Vx` is `FX55`; `ld I, nnn` is `ANNN`.
pub open spec fn ld_index_instruction(arg: ArgType) -> Assembled {
    match arg {
        ArgType::Register(reg) => Ok(Instruction::Store { x: reg.index_spec() }),
        ArgType::Number(num) => if num > 0xFFF {
            Err("Invalid address for ld: expected 0xFFF or less"@)
        } else {
            Ok(Instruction::LdIndex { addr: num })
        },
        _ => Err("Invalid argument for ld"@),
    }
}

/// `ld DT, Vx` is `FX15`.
pub open spec fn ld_dt_instruction(arg: ArgType) -> Assembled {
    match arg {
        ArgType::Register(reg) => Ok(Instruction::LdDelay { x: reg.index_spec() }),
        _ => Err("Invalid second argument for ld"@),
    }
}

/// `ld ST, Vx` is `FX18`.
pub open spec fn ld_st_instruction(arg: ArgType) -> Assembled {
    match arg {
        ArgType::Register(reg) => Ok(Instruction::LdSound { x: reg.index_spec() }),
        _ => Err("Invalid second argument for ld"@),
    }
}

/// The instruction of `ld` with the operands `args`: the first operand
/// selects the target, the second the source.
pub open spec fn ld_instruction(args: Operands) -> Assembled {
    match two_operands_outcome("ld"@, args) {
        Err(e) => Err(e),
        Ok((first, second)) => match first {
            ArgType::IndexRegister(_) => ld_index_instruction(second),
            ArgType::SoundTimer(_) => ld_st_instruction(second),
            ArgType::DelayTimer(_) => ld_dt_instruction(second),
            ArgType::Font(_) => ld_font_instruction(second),
            ArgType::BCD(_) => ld_bcd_instruction(second),
            ArgType::Register(reg_x) => ld_register_instruction(reg_x, second),
            _ => Err("Invalid first argument for ld"@),
        },
    }
}

/// Emits `ld`.
pub fn ld(args: &Vec<String>) -> (r: Result<u16, String>)
    ensures
        outcome(r) == encoded(ld_instruction(args.deep_view())),
{
    match two_operands("ld", args) {
        Err(e) => Err(e),
        Ok((first, second)) => match first {
            ArgType::IndexRegister(_) => ld_index(second),
            ArgType::SoundTimer(_) => ld_st(second),
            ArgType::DelayTimer(_) => ld_dt(second),
            ArgType::Font(_) => ld_font(second),
            ArgType::BCD(_) => ld_bcd(second),
            ArgType::Register(reg_x) => ld_register(reg_x, second),
            _ => Err(String::from_str("Invalid first argument for ld")),
        },
    }
}

/// Emits `ld` into the register `reg_x`.
pub fn ld_register(reg_x: Register, arg: ArgType) -> (r: Result<u16, String>)
    ensures
        outcome(r) == encoded(ld_register_instruction(reg_x, arg)),
{
    match arg {
        ArgType::DelayTimer(_) => Ok(Instruction::LdFromDelay { x: reg_x.index() }.encode()),
        ArgType::IndexRegister(_) => Ok(Instruction::Load { x: reg_x.index() }.encode()),
        ArgType::Register(reg_y) => Ok(
            Instruction::LdReg { x: reg_x.index(), y: reg_y.index() }.encode(),
        ),
        ArgType::Number(num) => {
            if num > 0xFF {
                return Err(
                    String::from_str("Invalid second argument for ld: expected 0xFF or less"),
                );
            }
            Ok(Instruction::LdByte { x: reg_x.index(), byte: num as u8 }.encode())
        },
        _ => Err(String::from_str("Invalid second argument for ld")),
    }
}

/// Emits `ld B, Vx`.
pub fn ld_bcd(arg: ArgType) -> (r: Result<u16, String>)
    ensures
        outcome(r) == encoded(ld_bcd_instruction(arg)),
{
    match arg {
        ArgType::Register(reg) => Ok(Instruction::LdBcd { x: reg.index() }.encode()),
        _ => Err(String::from_str("Invalid second argument for ld")),
    }
}

/// Emits `ld F, Vx`.
pub fn ld_font(arg: ArgType) -> (r: Result<u16, String>)
    ensures
        outcome(r) == encoded(ld_font_instruction(arg)),
{
    match arg {
        ArgType::Register(reg) => Ok(Instruction::LdFont { x: reg.index() }.encode()),
        _ => Err(String::from_str("Invalid second argument for ld")),
    }
}

/// Emits `ld I, Vx` or `ld I, nnn`.
pub fn ld_index(arg: ArgType) -> (r: Result<u16, String>)
    ensures
        outcome(r) == encoded(ld_index_instruction(arg)),
{
    match arg {
        ArgType::Register(reg) => Ok(Instruction::Store { x: reg.index() }.encode()),
        ArgType::Number(num) => {
            if num > 0xFFF {
                return Err(String::from_str("Invalid address for ld: expected 0xFFF or less"));
            }
            Ok(Instruction::LdIndex { addr: num }.encode())
        },
        _ => Err(String::from_str("Invalid argument for ld")),
    }
}

/// Emits `ld DT, Vx`.
pub fn ld_dt(arg: ArgType) -> (r: Result<u16, String>)
    ensures
        outcome(r) == encoded(ld_dt_instruction(arg)),
{
    match arg {
        ArgType::Register(reg) => Ok(Instruction::LdDelay { x: reg.index() }.encode()),
        _ => Err(String::from_str("Invalid second argument for ld")),
    }
}

/// Emits `ld ST, Vx`.
pub fn ld_st(arg: ArgType) -> (r: Result<u16, String>)
    ensures
        outcome(r) == encoded(ld_st_instruction(arg)),
{
    match arg {
        ArgType::Register(reg) => Ok(Instruction::LdSound { x: reg.index() }.encode()),
        _ => Err(String::from_str("Invalid second argument for ld")),
    }
}

// ---------------------------------------------------------------------------
// jmp and call
// ---------------------------------------------------------------------------

/// `jmp addr` is `1NNN`; `jmp V0, addr` is `BNNN` and takes no other
/// register.
pub open spec fn jmp_instruction(labels: Map<Seq<char>, u16>, args: Operands) -> Assembled {
    if args.len() == 1 {
        match resolve_outcome(labels, args[0]) {
            Err(e) => Err(e),
            Ok(addr) => Ok(Instruction::Jmp { addr }),
        }
    } else if args.len() == 2 {
        match register_operand(args[0]) {
            Err(e) => Err(e),
            Ok(register) => if register != Register::V0 {
                Err("Invalid register for jmp: expected V0"@)
            } else {
                match resolve_outcome(labels, args[1]) {
                    Err(e) => Err(e),
                    Ok(addr) => Ok(Instruction::JmpV0 { addr }),
                }
            },
        }
    } else {
        Err(wrong_count("jmp"@, "1 or 2"@, args.len()))
    }
}

/// Emits `jmp` to an address or a label.
pub fn jmp(labels: &LabelTable, args: &Vec<String>) -> (r: Result<u16, String>)
    requires
        labels.wf(),
    ensures
        outcome(r) == encoded(jmp_instruction(labels@, args.deep_view())),
{
    if args.len() == 1 {
        assert(args.deep_view()[0] == args@[0]@);
        match get_address(labels, args[0].as_str()) {
            Err(e) => Err(e),
            Ok(addr) => Ok(Instruction::Jmp { addr }.encode()),
        }
    } else if args.len() == 2 {
        assert(args.deep_view()[0] == args@[0]@);
        assert(args.deep_view()[1] == args@[1]@);
        let register = match register_of(args[0].as_str()) {
            Ok(register) => register,
            Err(e) => return Err(e),
        };
        if register.index() != 0 {
            return Err(String::from_str("Invalid register for jmp: expected V0"));
        }
        match get_address(labels, args[1].as_str()) {
            Err(e) => Err(e),
            Ok(addr) => Ok(Instruction::JmpV0 { addr }.encode()),
        }
    } else {
        Err(wrong_count_message("jmp", "1 or 2", args.len()))
    }
}

/// `call addr` is `2NNN`.
pub open spec fn call_instruction(labels: Map<Seq<char>, u16>, args: Operands) -> Assembled {
    if args.len() != 1 {
        Err(wrong_count("call"@, "1"@, args.len()))
    } else {
        match resolve_outcome(labels, args[0]) {
            Err(e) => Err(e),
            Ok(addr) => Ok(Instruction::Call { addr }),
        }
    }
}

/// Emits `call` of an address or a label.
pub fn call(labels: &LabelTable, args: &Vec<String>) -> (r: Result<u16, String>)
    requires
        labels.wf(),
    ensures
        outcome(r) == encoded(call_instruction(labels@, args.deep_view())),
{
    if args.len() != 1 {
        return Err(wrong_count_message("call", "1", args.len()));
    }
    assert(args.deep_view()[0] == args@[0]@);
    match get_address(labels, args[0].as_str()) {
        Err(e) => Err(e),
        Ok(addr) => Ok(Instruction::Call { addr }.encode()),
    }
}

// ---------------------------------------------------------------------------
// rnd, se, sne
// ---------------------------------------------------------------------------

/// `rnd Vx, nn` is `CXnn` with `nn` of one byte.
pub open spec fn rnd_instruction(args: Operands) -> Assembled {
    match register_and_operand_outcome("rnd"@, args) {
        Err(e) => Err(e),
        Ok((reg_x, second)) => match second {
            ArgType::Number(num) => if num > 0xFF {
                Err("Invalid address for rnd: expected 0xFF or less"@)
            } else {
                Ok(Instruction::Rnd { x: reg_x.index_spec(), byte: num as u8 })
            },
            _ => Err("Invalid second argument for rnd: expected number"@),
        },
    }
}

/// Emits `rnd`.
pub fn rnd(args: &Vec<String>) -> (r: Result<u16, String>)
    ensures
        outcome(r) == encoded(rnd_instruction(args.deep_view())),
{
    match register_and_operand("rnd", args) {
        Err(e) => Err(e),
        Ok((reg_x, second)) => match second {
            ArgType::Number(num) => {
                if num > 0xFF {
                    return Err(String::from_str("Invalid address for rnd: expected 0xFF or less"));
                }
                Ok(Instruction::Rnd { x: reg_x.index(), byte: num as u8 }.encode())
            },
            _ => Err(String::from_str("Invalid second argument for rnd: expected number")),
        },
    }
}

/// `se Vx, Vy` is `5XY0`; `se Vx, nn` is `3Xnn` with `nn` of one byte.
pub open spec fn se_instruction(args: Operands) -> Assembled {
    match register_and_operand_outcome("se"@, args) {
        Err(e) => Err(e),
        Ok((reg_x, second)) => match second {
            ArgType::Register(reg) => Ok(
                Instruction::SeReg { x: reg_x.index_spec(), y: reg.index_spec() },
            ),
            ArgType::Number(num) => if num > 0xFF {
                Err("Invalid address for se: expected 0xFF or less"@)
            } else {
                Ok(Instruction::SeByte { x: reg_x.index_spec(), byte: num as u8 })
            },
            _ => Err("Invalid second argument for se"@),
        },
    }
}

/// Emits `se`, skip if equal.
pub fn se(args: &Vec<String>) -> (r: Result<u16, String>)
    ensures
        outcome(r) == encoded(se_instruction(args.deep_view())),
{
    match register_and_operand("se", args) {
        Err(e) => Err(e),
        Ok((reg_x, second)) => match second {
            ArgType::Register(reg) => Ok(
                Instruction::SeReg { x: reg_x.index(), y: reg.index() }.encode(),
            ),
            ArgType::Number(num) => {
                if num > 0xFF {
                    return Err(String::from_str("Invalid address for se: expected 0xFF or less"));
                }
                Ok(Instruction::SeByte { x: reg_x.index(), byte: num as u8 }.encode())
            },
            _ => Err(String::from_str("Invalid second argument for se")),
        },
    }
}

/// `sne Vx, Vy` is `9XY0`; `sne Vx, nn` is `4Xnn` with `nn` of one byte.
pub open spec fn sne_instruction(args: Operands) -> Assembled {
    match register_and_operand_outcome("sne"@, args) {
        Err(e) => Err(e),
        Ok((reg_x, second)) => match second {
            ArgType::Register(reg) => Ok(
                Instruction::SneReg { x: reg_x.index_spec(), y: reg.index_spec() },
            ),
            ArgType::Number(num) => if num > 0xFF {
                Err("Invalid address for sne: expected 0xFF or less"@)
            } else {
                Ok(Instruction::SneByte { x: reg_x.index_spec(), byte: num as u8 })
            },
            _ => Err("Invalid second argument for sne"@),
        },
    }
}

/// Emits `sne`, skip if not equal.
pub fn sne(args: &Vec<String>) -> (r: Result<u16, String>)
    ensures
        outcome(r) == encoded(sne_instruction(args.deep_view())),
{
    match register_and_operand("sne", args) {
        Err(e) => Err(e),
        Ok((reg_x, second)) => match second {
            ArgType::Register(reg) => Ok(
                Instruction::SneReg { x: reg_x.index(), y: reg.index() }.encode(),
            ),
            ArgType::Number(num) => {
                if num > 0xFF {
                    return Err(String::from_str("Invalid address for sne: expected 0xFF or less"));
                }
                Ok(Instruction::SneByte { x: reg_x.index(), byte: num as u8 }.encode())
            },
            _ => Err(String::from_str("Invalid second argument for sne")),
        },
    }
}

// ---------------------------------------------------------------------------
// Instructions on one register, and on none
// ---------------------------------------------------------------------------

/// `skp Vx` is `EX9E`.
pub open spec fn skp_instruction(args: Operands) -> Assembled {
    match one_register_outcome("skp"@, args) {
        Ok(x) => Ok(Instruction::Skp { x: x.index_spec() }),
        Err(e) => Err(e),
    }
}

/// Emits `skp`, skip if the key is down.
pub fn skp(args: &Vec<String>) -> (r: Result<u16, String>)
    ensures
        outcome(r) == encoded(skp_instruction(args.deep_view())),
{
    match one_register("skp", args) {
        Ok(x) => Ok(Instruction::Skp { x: x.index() }.encode()),
        Err(e) => Err(e),
    }
}

/// `sknp Vx` is `EXA1`.
pub open spec fn sknp_instruction(args: Operands) -> Assembled {
    match one_register_outcome("sknp"@, args) {
        Ok(x) => Ok(Instruction::Sknp { x: x.index_spec() }),
        Err(e) => Err(e),
    }
}

/// Emits `sknp`, skip if the key is up.
pub fn sknp(args: &Vec<String>) -> (r: Result<u16, String>)
    ensures
        outcome(r) == encoded(sknp_instruction(args.deep_view())),
{
    match one_register("sknp", args) {
        Ok(x) => Ok(Instruction::Sknp { x: x.index() }.encode()),
        Err(e) => Err(e),
    }
}

/// `wkp Vx` is `FX0A`.
pub open spec fn wkp_instruction(args: Operands) -> Assembled {
    match one_register_outcome("wkp"@, args) {
        Ok(x) => Ok(Instruction::Wkp { x: x.index_spec() }),
        Err(e) => Err(e),
    }
}

/// Emits `wkp`, wait for a key.
pub fn wkp(args: &Vec<String>) -> (r: Result<u16, String>)
    ensures
        outcome(r) == encoded(wkp_instruction(args.deep_view())),
{
    match one_register("wkp", args) {
        Ok(x) => Ok(Instruction::Wkp { x: x.index() }.encode()),
        Err(e) => Err(e),
    }
}

/// An instruction without operands.
pub open spec fn bare_instruction(
    mnemonic: Seq<char>,
    instruction: Instruction,
    args: Operands,
) -> Assembled {
    if args.len() != 0 {
        Err(wrong_count(mnemonic, "0"@, args.len()))
    } else {
        Ok(instruction)
    }
}

/// Emits `cls`, which is `00E0`.
pub fn cls(args: &Vec<String>) -> (r: Result<u16, String>)
    ensures
        outcome(r) == encoded(bare_instruction("cls"@, Instruction::Cls, args.deep_view())),
{
    if args.len() != 0 {
        return Err(wrong_count_message("cls", "0", args.len()));
    }
    Ok(Instruction::Cls.encode())
}

/// Emits `ret`, which is `00EE`.
pub fn ret(args: &Vec<String>) -> (r: Result<u16, String>)
    ensures
        outcome(r) == encoded(bare_instruction("ret"@, Instruction::Ret, args.deep_view())),
{
    if args.len() != 0 {
        return Err(wrong_count_message("ret", "0", args.len()));
    }
    Ok(Instruction::Ret.encode())
}

} // verus!
