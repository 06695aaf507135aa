//! Operands of an instruction, classified by their spelling.

use vstd::prelude::*;
use vstd::string::StrSliceExecFns;
use vstd::string::StringExecFns;
use crate::assembler::registers::register_outcome;
use crate::assembler::registers::Register;
use crate::text::hex_failure_text;
use crate::text::hex_value;
use crate::text::is_hex_u16;
use crate::text::lowercase;
use crate::text::numeral_digits;
use crate::text::outcome;
use crate::text::parse_hex_u16;
use crate::text::same_text;
use crate::text::strip_hex_prefix;
use crate::text::to_lowercase;
use crate::text::trim_hex_prefix;
use crate::text::upper_hex;
use crate::text::upper_hex_text;

verus! {

/// An operand. The marker variants keep the spelling that selects them.
#[derive(PartialEq, Debug, Clone, Copy)]
pub enum ArgType {
    /// `b`: the binary-coded-decimal target.
    BCD(&'static str),
    /// `f`: the font target.
    Font(&'static str),
    /// `i`: the index register.
    IndexRegister(&'static str),
    /// `v0` to `vf`: a general register.
    Register(Register),
    /// A hexadecimal number of at most twelve bits.
    Number(u16),
    /// `st`: the sound timer.
    SoundTimer(&'static str),
    /// `dt`: the delay timer.
    DelayTimer(&'static str),
}

/// The number that a spelling stands for: a hexadecimal numeral after any
/// leading `0x`, of at most twelve bits.
pub open spec fn number_outcome(s: Seq<char>) -> Result<ArgType, Seq<char>> {
    let digits = strip_hex_prefix(s);
    if !is_hex_u16(digits) {
        Err("Error parsing number: "@ + hex_failure_text(digits))
    } else if hex_value(numeral_digits(digits)) > 0xFFF {
        Err("Number out of range: 0x"@ + upper_hex_text(hex_value(numeral_digits(digits))))
    } else {
        Ok(ArgType::Number(hex_value(numeral_digits(digits)) as u16))
    }
}

/// The operand that a spelling in small letters stands for.
pub open spec fn classify(s: Seq<char>) -> Result<ArgType, Seq<char>> {
    if s == "b"@ {
        Ok(ArgType::BCD("b"))
    } else if s == "i"@ {
        Ok(ArgType::IndexRegister("i"))
    } else if s == "f"@ {
        Ok(ArgType::Font("f"))
    } else if s == "dt"@ {
        Ok(ArgType::DelayTimer("dt"))
    } else if s == "st"@ {
        Ok(ArgType::SoundTimer("st"))
    } else if s.len() > 0 && s[0] == 'v' {
        match register_outcome(s) {
            Ok(r) => Ok(ArgType::Register(r)),
            Err(e) => Err(e),
        }
    } else {
        number_outcome(s)
    }
}

impl ArgType {
    /// Classifies an operand without regard to the case of its letters.
    pub fn new(arg: &str) -> (r: Result<ArgType, String>)
        ensures
            outcome(r) == classify(lowercase(arg@)),
    {
        let lower = to_lowercase(arg);
        ArgType::from_lowercase(lower.as_str())
    }

    /// Classifies an operand that is spelled in small letters.
    pub fn from_lowercase(arg: &str) -> (r: Result<ArgType, String>)
        ensures
            outcome(r) == classify(arg@),
    {
        if same_text(arg, "b") {
            Ok(ArgType::BCD("b"))
        } else if same_text(arg, "i") {
            Ok(ArgType::IndexRegister("i"))
        } else if same_text(arg, "f") {
            Ok(ArgType::Font("f"))
        } else if same_text(arg, "dt") {
            Ok(ArgType::DelayTimer("dt"))
        } else if same_text(arg, "st") {
            Ok(ArgType::SoundTimer("st"))
        } else if arg.unicode_len() > 0 && arg.get_char(0) == 'v' {
            match Register::get_register(arg) {
                Ok(r) => Ok(ArgType::Register(r)),
                Err(e) => Err(e),
            }
        } else {
            ArgType::number(arg)
        }
    }

    /// Reads a number: hexadecimal digits after any leading `0x`.
    pub fn number(arg: &str) -> (r: Result<ArgType, String>)
        ensures
            outcome(r) == number_outcome(arg@),
    {
        let digits = trim_hex_prefix(arg);
        match parse_hex_u16(digits) {
            Err(e) => Err(String::from_str("Error parsing number: ").concat(e.as_str())),
            Ok(number) => {
                if number > 0xFFF {
                    let shown = upper_hex(number as u64);
                    Err(String::from_str("Number out of range: 0x").concat(shown.as_str()))
                } else {
                    Ok(ArgType::Number(number))
                }
            },
        }
    }
}

} // verus!
