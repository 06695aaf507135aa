//! The origin directive: where in memory the program starts.

use vstd::prelude::*;
use vstd::string::StringExecFns;
use crate::assembler::token::Token;
use crate::assembler::token::TokenModel;
use crate::assembler::token::TokenType;
use crate::assembler::utils::address_from_string;
use crate::assembler::utils::address_outcome;
use crate::text::at_line;
use crate::text::message_at_line;
use crate::text::outcome;

verus! {

/// Where a program starts when no directive says otherwise.
pub const DEFAULT_ORIGIN: u16 = 0x200;

/// The origin that `tokens` give, when the tokens before them have set
/// `current`. Each origin token is examined in turn and the first fault
/// ends the search: a second directive, a directive without exactly one
/// operand, or an operand that is no address.
pub open spec fn origin_after(tokens: Seq<TokenModel>, current: Option<u16>) -> Result<
    u16,
    Seq<char>,
>
    decreases tokens.len(),
{
    if tokens.len() == 0 {
        match current {
            Some(origin) => Ok(origin),
            None => Ok(DEFAULT_ORIGIN),
        }
    } else {
        let token = tokens[0];
        if token.token_type != TokenType::Origin {
            origin_after(tokens.skip(1), current)
        } else if current is Some {
            Err(at_line(token.line, "More than one org set."@))
        } else if token.args.len() != 1 {
            Err(at_line(token.line, "incorrect number of args for org."@))
        } else {
            match address_outcome(token.args[0]) {
                Ok(origin) => origin_after(tokens.skip(1), Some(origin)),
                Err(e) => Err(at_line(token.line, e)),
            }
        }
    }
}

/// The origin of a program: `0x200` without a directive, the address of the
/// one directive otherwise.
pub open spec fn origin_outcome(tokens: Seq<TokenModel>) -> Result<u16, Seq<char>> {
    origin_after(tokens, None)
}

/// An origin that was found is an even address in memory.
pub proof fn lemma_origin_is_even_address(tokens: Seq<TokenModel>, current: Option<u16>)
    requires
        current matches Some(origin) ==> origin <= 0x0FFF && origin % 2 == 0,
    ensures
        origin_after(tokens, current) matches Ok(origin) ==> origin <= 0x0FFF && origin % 2 == 0,
    decreases tokens.len(),
{
    if tokens.len() > 0 {
        let token = tokens[0];
        if token.token_type != TokenType::Origin {
            lemma_origin_is_even_address(tokens.skip(1), current);
        } else if current is None && token.args.len() == 1 {
            match address_outcome(token.args[0]) {
                Ok(origin) => lemma_origin_is_even_address(tokens.skip(1), Some(origin)),
                Err(e) => {},
            }
        }
    }
}

/// Finds the origin of a program.
pub fn get_origin(tokens: &Vec<Token>) -> (r: Result<u16, String>)
    ensures
        outcome(r) == origin_outcome(tokens.deep_view()),
        r matches Ok(origin) ==> origin <= 0x0FFF && origin % 2 == 0,
{
    let mut org_set = false;
    let mut origin: u16 = DEFAULT_ORIGIN;
    let mut i: usize = 0;
    assert(tokens.deep_view().skip(0) =~= tokens.deep_view());
    while i < tokens.len()
        invariant
            i <= tokens.len(),
            origin <= 0x0FFF,
            origin % 2 == 0,
            !org_set ==> origin == DEFAULT_ORIGIN,
            origin_outcome(tokens.deep_view()) == origin_after(
                tokens.deep_view().skip(i as int),
                if org_set {
                    Some(origin)
                } else {
                    None
                },
            ),
        decreases tokens.len() - i,
    {
        let ghost rest = tokens.deep_view().skip(i as int);
        assert(rest[0] == tokens@[i as int].deep_view());
        assert(rest.skip(1) =~= tokens.deep_view().skip(i + 1));
        let token = &tokens[i];
        match token.token_type {
            TokenType::Origin => {
                if org_set {
                    return Err(message_at_line(token.line, "More than one org set."));
                }
                org_set = true;
                if token.args.len() != 1 {
                    return Err(message_at_line(token.line, "incorrect number of args for org."));
                }
                assert(token.args.deep_view()[0] == token.args@[0]@);
                origin =
                match address_from_string(token.args[0].as_str()) {
                    Ok(origin) => origin,
                    Err(e) => return Err(message_at_line(token.line, e.as_str())),
                };
            },
            _ => {},
        }
        i += 1;
    }
    Ok(origin)
}

} // verus!
