//! Addresses: reading them from hexadecimal text and resolving operands that
//! name either an address or a label.

use vstd::prelude::*;
use vstd::string::StringExecFns;
use crate::assembler::labels::LabelTable;
use crate::isa::LAST_ADDRESS;
use crate::text::hex_failure_text;
use crate::text::hex_value;
use crate::text::is_hex_u16;
use crate::text::lowercase;
use crate::text::numeral_digits;
use crate::text::outcome;
use crate::text::parse_hex_u16;
use crate::text::strip_hex_prefix;
use crate::text::trim_hex_prefix;

verus! {

/// The message for digits that are no sixteen-bit hexadecimal numeral.
pub open spec fn unreadable_address(digits: Seq<char>) -> Seq<char> {
    "Error parsing address "@ + digits + " with error: "@ + hex_failure_text(digits)
}

/// What a number read from `digits` amounts to as an address: it has to lie
/// in memory and to be even.
pub open spec fn checked_address(digits: Seq<char>, value: nat) -> Result<u16, Seq<char>> {
    if value > LAST_ADDRESS {
        Err("Error parsing address "@ + digits + ": address out of range"@)
    } else if value % 2 != 0 {
        Err("Error parsing address "@ + digits + ": address must be even"@)
    } else {
        Ok(value as u16)
    }
}

/// The address that a text stands for: a hexadecimal numeral after any
/// leading `0x`, in memory and even.
pub open spec fn address_outcome(s: Seq<char>) -> Result<u16, Seq<char>> {
    let digits = strip_hex_prefix(s);
    if !is_hex_u16(digits) {
        Err(unreadable_address(digits))
    } else {
        checked_address(digits, hex_value(numeral_digits(digits)))
    }
}

/// The address that an operand stands for. A hexadecimal literal is checked
/// and taken as it is; any other operand is looked up among the labels by
/// its lowercase form, and one that no label has is reported as an
/// unreadable address.
pub open spec fn resolve_outcome(labels: Map<Seq<char>, u16>, arg: Seq<char>) -> Result<
    u16,
    Seq<char>,
> {
    if is_hex_u16(strip_hex_prefix(arg)) {
        address_outcome(arg)
    } else if labels.contains_key(lowercase(arg)) {
        Ok(labels[lowercase(arg)])
    } else {
        Err(unreadable_address(strip_hex_prefix(arg)))
    }
}

/// Checks that a number read from `digits` is an address.
fn check_address(digits: &str, address: u16) -> (r: Result<u16, String>)
    ensures
        outcome(r) == checked_address(digits@, address as nat),
{
    if address > LAST_ADDRESS {
        return Err(
            String::from_str("Error parsing address ").concat(digits).concat(
                ": address out of range",
            ),
        );
    }
    if address % 2 != 0 {
        return Err(
            String::from_str("Error parsing address ").concat(digits).concat(
                ": address must be even",
            ),
        );
    }
    Ok(address)
}

/// Describes digits that could not be read.
fn unreadable(digits: &str, error: &str) -> (r: String)
    ensures
        r@ == "Error parsing address "@ + digits@ + " with error: "@ + error@,
{
    String::from_str("Error parsing address ").concat(digits).concat(" with error: ").concat(error)
}

/// Reads an address from hexadecimal text.
pub fn address_from_string(s: &str) -> (r: Result<u16, String>)
    ensures
        outcome(r) == address_outcome(s@),
        r matches Ok(address) ==> address <= LAST_ADDRESS && address % 2 == 0,
{
    let digits = trim_hex_prefix(s);
    match parse_hex_u16(digits) {
        Ok(address) => check_address(digits, address),
        Err(e) => Err(unreadable(digits, e.as_str())),
    }
}

/// Resolves an operand that names an address or a label.
pub fn get_address(labels: &LabelTable, arg: &str) -> (r: Result<u16, String>)
    requires
        labels.wf(),
    ensures
        outcome(r) == resolve_outcome(labels@, arg@),
        r matches Ok(address) ==> address <= LAST_ADDRESS,
{
    let digits = trim_hex_prefix(arg);
    match parse_hex_u16(digits) {
        Ok(address) => check_address(digits, address),
        Err(e) => match labels.get(arg) {
            Some(address) => Ok(address),
            None => Err(unreadable(digits, e.as_str())),
        },
    }
}

} // verus!
