//! The sixteen general registers as the assembler names them.

use vstd::prelude::*;
use vstd::string::StrSliceExecFns;
use vstd::string::StringExecFns;
use crate::text::outcome;

verus! {

/// One of the registers `V0` to `VF`.
#[derive(PartialEq, Eq, Debug, Clone, Copy)]
pub enum Register {
    V0,
    V1,
    V2,
    V3,
    V4,
    V5,
    V6,
    V7,
    V8,
    V9,
    VA,
    VB,
    VC,
    VD,
    VE,
    VF,
}

/// A digit of a register name: `0` to `9` or a small letter `a` to `f`.
pub open spec fn is_register_digit(c: char) -> bool {
    ('0' <= c <= '9') || ('a' <= c <= 'f')
}

/// The number of the register whose name ends in the digit `c`.
pub open spec fn register_digit_value(c: char) -> u8
    recommends
        is_register_digit(c),
{
    if '0' <= c <= '9' {
        (c as u32 - '0' as u32) as u8
    } else {
        (c as u32 - 'a' as u32 + 10) as u8
    }
}

/// The register with the number `index`.
pub open spec fn register_at(index: u8) -> Register
    recommends
        index < 16,
{
    match index {
        0 => Register::V0,
        1 => Register::V1,
        2 => Register::V2,
        3 => Register::V3,
        4 => Register::V4,
        5 => Register::V5,
        6 => Register::V6,
        7 => Register::V7,
        8 => Register::V8,
        9 => Register::V9,
        10 => Register::VA,
        11 => Register::VB,
        12 => Register::VC,
        13 => Register::VD,
        14 => Register::VE,
        _ => Register::VF,
    }
}

/// What a name stands for: `v` followed by one digit names a register,
/// anything else is rejected with a message that quotes the name.
pub open spec fn register_outcome(name: Seq<char>) -> Result<Register, Seq<char>> {
    if name.len() == 2 && name[0] == 'v' && is_register_digit(name[1]) {
        Ok(register_at(register_digit_value(name[1])))
    } else {
        Err("Invalid register name: "@ + name)
    }
}

impl Register {
    /// The number of the register, 0 for `V0` up to 15 for `VF`.
    pub open spec fn index_spec(self) -> u8 {
        match self {
            Register::V0 => 0,
            Register::V1 => 1,
            Register::V2 => 2,
            Register::V3 => 3,
            Register::V4 => 4,
            Register::V5 => 5,
            Register::V6 => 6,
            Register::V7 => 7,
            Register::V8 => 8,
            Register::V9 => 9,
            Register::VA => 10,
            Register::VB => 11,
            Register::VC => 12,
            Register::VD => 13,
            Register::VE => 14,
            Register::VF => 15,
        }
    }

    /// The number of the register.
    pub fn index(self) -> (r: u8)
        ensures
            r == self.index_spec(),
            r < 16,
    {
        match self {
            Register::V0 => 0,
            Register::V1 => 1,
            Register::V2 => 2,
            Register::V3 => 3,
            Register::V4 => 4,
            Register::V5 => 5,
            Register::V6 => 6,
            Register::V7 => 7,
            Register::V8 => 8,
            Register::V9 => 9,
            Register::VA => 10,
            Register::VB => 11,
            Register::VC => 12,
            Register::VD => 13,
            Register::VE => 14,
            Register::VF => 15,
        }
    }

    /// The register with the given number.
    pub fn from_index(index: u8) -> (r: Register)
        requires
            index < 16,
        ensures
            r == register_at(index),
            r.index_spec() == index,
    {
        match index {
            0 => Register::V0,
            1 => Register::V1,
            2 => Register::V2,
            3 => Register::V3,
            4 => Register::V4,
            5 => Register::V5,
            6 => Register::V6,
            7 => Register::V7,
            8 => Register::V8,
            9 => Register::V9,
            10 => Register::VA,
            11 => Register::VB,
            12 => Register::VC,
            13 => Register::VD,
            14 => Register::VE,
            _ => Register::VF,
        }
    }

    /// Reads a register name, `v0` to `vf` in small letters.
    pub fn get_register(name: &str) -> (r: Result<Register, String>)
        ensures
            outcome(r) == register_outcome(name@),
    {
        if name.unicode_len() == 2 && name.get_char(0) == 'v' {
            let c: u32 = name.get_char(1) as u32;
            if 48 <= c && c <= 57 {
                return Ok(Register::from_index((c - 48) as u8));
            }
            if 97 <= c && c <= 102 {
                return Ok(Register::from_index((c - 97 + 10) as u8));
            }
        }
        Err(String::from_str("Invalid register name: ").concat(name))
    }
}

} // verus!
