//! The assembler proper: from source text to the bytes of a program image.
//!
//! The text is cut into tokens line by line. The origin is resolved, then
//! the labels, then every instruction token is turned into its opcode. The
//! image holds zero bytes up to the origin and then the opcodes, each as two
//! bytes with the high byte first.

use vstd::prelude::*;
use vstd::string::StrSliceExecFns;
use vstd::string::StringExecFns;
use crate::assembler::labels::get_labels;
use crate::assembler::labels::instructions_in;
use crate::assembler::labels::labels_outcome;
use crate::assembler::labels::LabelTable;
use crate::assembler::opcodes;
use crate::assembler::opcodes::encoded;
use crate::assembler::opcodes::Assembled;
use crate::assembler::opcodes::Operands;
use crate::assembler::origin::get_origin;
use crate::assembler::origin::lemma_origin_is_even_address;
use crate::assembler::origin::origin_after;
use crate::assembler::origin::origin_outcome;
use crate::assembler::origin::DEFAULT_ORIGIN;
use crate::assembler::registers::Register;
use crate::assembler::utils::resolve_outcome;
use crate::isa::decode_spec;
use crate::isa::lemma_decode_encode;
use crate::isa::mnemonic_of;
use crate::assembler::token::token_of_line;
use crate::assembler::token::tokenize_line;
use crate::assembler::token::Token;
use crate::assembler::token::TokenModel;
use crate::assembler::token::TokenType;
use crate::isa::Instruction;
use crate::text::at_line;
use crate::text::characters;
use crate::text::join;
use crate::text::join_texts;
use crate::text::lowercase;
use crate::text::message_at_line;
use crate::text::outcome;
use crate::text::same_text;
use crate::text::to_lowercase;

verus! {

// ---------------------------------------------------------------------------
// From text to tokens
// ---------------------------------------------------------------------------

/// The number of characters before the first line feed of `s`.
pub open spec fn line_length(s: Seq<char>) -> nat
    decreases s.len(),
{
    if s.len() > 0 && s[0] != '\n' {
        1 + line_length(s.skip(1))
    } else {
        0
    }
}

/// The tokens of a text whose first line has the number `number`. Lines end
/// at line feeds; a line that is blank or a comment gives no token.
pub open spec fn tokens_from(source: Seq<char>, number: nat) -> Seq<TokenModel>
    decreases source.len(),
{
    let length = line_length(source);
    let first = match token_of_line(source.take(length as int), number) {
        Some(token) => seq![token],
        None => Seq::empty(),
    };
    if length < source.len() {
        first + tokens_from(source.skip(length as int + 1), number + 1)
    } else {
        first
    }
}

/// The tokens of a source text; lines are counted from zero.
pub open spec fn tokens_of(source: Seq<char>) -> Seq<TokenModel> {
    tokens_from(source, 0)
}

/// A line ends at the first line feed.
proof fn lemma_line_length(s: Seq<char>, k: int)
    requires
        0 <= k <= s.len(),
        forall|i: int| 0 <= i < k ==> #[trigger] s[i] != '\n',
        k == s.len() || s[k] == '\n',
    ensures
        line_length(s) == k,
    decreases k,
{
    if k > 0 {
        let t = s.skip(1);
        assert forall|i: int| 0 <= i < k - 1 implies #[trigger] t[i] != '\n' by {
            assert(t[i] == s[i + 1]);
        }
        lemma_line_length(t, k - 1);
    }
}

/// Cuts a source text into tokens.
pub fn parse_source(source: &str) -> (tokens: Vec<Token>)
    ensures
        tokens.deep_view() == tokens_of(source@),
{
    let chars = characters(source);
    let n = chars.len();
    let mut tokens: Vec<Token> = Vec::new();
    let mut start: usize = 0;
    let mut number: usize = 0;
    assert(source@.skip(0) =~= source@);
    assert(tokens.deep_view() =~= Seq::empty());
    loop
        invariant_except_break
            tokens_of(source@) == tokens.deep_view() + tokens_from(
                source@.skip(start as int),
                number as nat,
            ),
        invariant
            start <= n,
            number <= start,
            n == chars.len(),
            chars@ == source@,
        ensures
            tokens.deep_view() == tokens_of(source@),
        decreases n - start,
    {
        let ghost rest = source@.skip(start as int);
        let mut end: usize = start;
        while end < n && chars[end] != '\n'
            invariant
                start <= end <= n,
                n == chars.len(),
                forall|k: int| start <= k < end ==> #[trigger] chars@[k] != '\n',
            decreases n - end,
        {
            end += 1;
        }
        proof {
            assert forall|k: int| 0 <= k < end - start implies #[trigger] rest[k] != '\n' by {
                assert(rest[k] == chars@[start + k]);
            }
            lemma_line_length(rest, end - start);
            assert(rest.take(end - start) =~= source@.subrange(start as int, end as int));
            if end < n {
                assert(rest.skip(end - start + 1) =~= source@.skip(end + 1));
            }
        }
        let line = source.substring_char(start, end);
        let ghost before = tokens.deep_view();
        match tokenize_line(line, number) {
            Some(token) => {
                tokens.push(token);
                assert(tokens.deep_view() =~= before + seq![token.deep_view()]);
            },
            None => {
                assert(before + Seq::<TokenModel>::empty() =~= before);
            },
        }
        if end < n {
            assert(tokens_of(source@) == tokens.deep_view() + tokens_from(
                source@.skip(end + 1),
                (number + 1) as nat,
            )) by {
                assert(tokens.deep_view() + tokens_from(source@.skip(end + 1), (number + 1) as nat)
                    =~= before + tokens_from(rest, number as nat));
            }
            start = end + 1;
            number += 1;
        } else {
            assert(tokens.deep_view() =~= before + tokens_from(rest, number as nat));
            break;
        }
    }
    tokens
}

// ---------------------------------------------------------------------------
// From an instruction token to its opcode
// ---------------------------------------------------------------------------

/// The instruction that a mnemonic in small letters and its operands
/// denote. `name` is the mnemonic as written, for the message about a
/// mnemonic that is not known.
pub open spec fn emit_instruction(
    labels: Map<Seq<char>, u16>,
    mnemonic: Seq<char>,
    name: Seq<char>,
    args: Operands,
) -> Assembled {
    if mnemonic == "add"@ {
        opcodes::add_instruction(args)
    } else if mnemonic == "and"@ {
        opcodes::and_instruction(args)
    } else if mnemonic == "call"@ {
        opcodes::call_instruction(labels, args)
    } else if mnemonic == "cls"@ {
        opcodes::bare_instruction("cls"@, Instruction::Cls, args)
    } else if mnemonic == "drw"@ {
        opcodes::drw_instruction(args)
    } else if mnemonic == "jmp"@ {
        opcodes::jmp_instruction(labels, args)
    } else if mnemonic == "ld"@ {
        opcodes::ld_instruction(args)
    } else if mnemonic == "or"@ {
        opcodes::or_instruction(args)
    } else if mnemonic == "ret"@ {
        opcodes::bare_instruction("ret"@, Instruction::Ret, args)
    } else if mnemonic == "rnd"@ {
        opcodes::rnd_instruction(args)
    } else if mnemonic == "se"@ {
        opcodes::se_instruction(args)
    } else if mnemonic == "shl"@ {
        opcodes::shl_instruction(args)
    } else if mnemonic == "shr"@ {
        opcodes::shr_instruction(args)
    } else if mnemonic == "sknp"@ {
        opcodes::sknp_instruction(args)
    } else if mnemonic == "skp"@ {
        opcodes::skp_instruction(args)
    } else if mnemonic == "sne"@ {
        opcodes::sne_instruction(args)
    } else if mnemonic == "sub"@ {
        opcodes::sub_instruction(args)
    } else if mnemonic == "subn"@ {
        opcodes::subn_instruction(args)
    } else if mnemonic == "wkp"@ {
        opcodes::wkp_instruction(args)
    } else if mnemonic == "xor"@ {
        opcodes::xor_instruction(args)
    } else {
        Err("Unknown instruction "@ + name)
    }
}

/// The instruction that an instruction token denotes; its mnemonic is read
/// without regard to case.
pub open spec fn token_instruction(labels: Map<Seq<char>, u16>, token: TokenModel) -> Assembled {
    emit_instruction(labels, lowercase(token.name), token.name, token.args)
}

/// Emits the opcode of a mnemonic that is spelled in small letters.
pub fn emit(labels: &LabelTable, mnemonic: &str, name: &str, args: &Vec<String>) -> (r: Result<
    u16,
    String,
>)
    requires
        labels.wf(),
    ensures
        outcome(r) == encoded(emit_instruction(labels@, mnemonic@, name@, args.deep_view())),
{
    if same_text(mnemonic, "add") {
        opcodes::add(args)
    } else if same_text(mnemonic, "and") {
        opcodes::and(args)
    } else if same_text(mnemonic, "call") {
        opcodes::call(labels, args)
    } else if same_text(mnemonic, "cls") {
        opcodes::cls(args)
    } else if same_text(mnemonic, "drw") {
        opcodes::drw(args)
    } else if same_text(mnemonic, "jmp") {
        opcodes::jmp(labels, args)
    } else if same_text(mnemonic, "ld") {
        opcodes::ld(args)
    } else if same_text(mnemonic, "or") {
        opcodes::or(args)
    } else if same_text(mnemonic, "ret") {
        opcodes::ret(args)
    } else if same_text(mnemonic, "rnd") {
        opcodes::rnd(args)
    } else if same_text(mnemonic, "se") {
        opcodes::se(args)
    } else if same_text(mnemonic, "shl") {
        opcodes::shl(args)
    } else if same_text(mnemonic, "shr") {
        opcodes::shr(args)
    } else if same_text(mnemonic, "sknp") {
        opcodes::sknp(args)
    } else if same_text(mnemonic, "skp") {
        opcodes::skp(args)
    } else if same_text(mnemonic, "sne") {
        opcodes::sne(args)
    } else if same_text(mnemonic, "sub") {
        opcodes::sub(args)
    } else if same_text(mnemonic, "subn") {
        opcodes::subn(args)
    } else if same_text(mnemonic, "wkp") {
        opcodes::wkp(args)
    } else if same_text(mnemonic, "xor") {
        opcodes::xor(args)
    } else {
        Err(String::from_str("Unknown instruction ").concat(name))
    }
}

/// Emits the opcode of an instruction token.
pub fn emit_token(labels: &LabelTable, token: &Token) -> (r: Result<u16, String>)
    requires
        labels.wf(),
    ensures
        outcome(r) == encoded(token_instruction(labels@, token.deep_view())),
{
    let mnemonic = to_lowercase(token.name.as_str());
    emit(labels, mnemonic.as_str(), token.name.as_str(), &token.args)
}

// ---------------------------------------------------------------------------
// The emitting pass
// ---------------------------------------------------------------------------

/// The state of the emitting pass: the opcodes so far and the errors so far.
pub struct EmitScan {
    pub opcodes: Seq<u16>,
    pub errors: Seq<Seq<char>>,
}

/// The emitting pass over `tokens`: every instruction token adds its opcode
/// or, with the number of its line, its error; other tokens add nothing.
pub open spec fn emit_scan(tokens: Seq<TokenModel>, labels: Map<Seq<char>, u16>) -> EmitScan
    decreases tokens.len(),
{
    if tokens.len() == 0 {
        EmitScan { opcodes: Seq::empty(), errors: Seq::empty() }
    } else {
        let before = emit_scan(tokens.drop_last(), labels);
        let token = tokens.last();
        if token.token_type != TokenType::Instruction {
            before
        } else {
            match encoded(token_instruction(labels, token)) {
                Ok(opcode) => EmitScan {
                    opcodes: before.opcodes.push(opcode),
                    errors: before.errors,
                },
                Err(e) => EmitScan {
                    opcodes: before.opcodes,
                    errors: before.errors.push(at_line(token.line, e)),
                },
            }
        }
    }
}

/// The zero opcodes that fill memory below an even `origin`.
pub open spec fn padding(origin: u16) -> Seq<u16> {
    Seq::new((origin / 2) as nat, |i: int| 0u16)
}

/// The bytes of a sequence of opcodes, the high byte of each first.
pub open spec fn big_endian(opcodes: Seq<u16>) -> Seq<u8> {
    Seq::new(
        2 * opcodes.len(),
        |i: int|
            if i % 2 == 0 {
                (opcodes[i / 2] / 256) as u8
            } else {
                (opcodes[i / 2] % 256) as u8
            },
    )
}

/// The image that `tokens` assemble to, or the errors of the first pass
/// that failed.
pub open spec fn image_outcome(tokens: Seq<TokenModel>) -> Result<Seq<u8>, Seq<char>> {
    match origin_outcome(tokens) {
        Err(e) => Err(e),
        Ok(origin) => match labels_outcome(tokens, origin) {
            Err(e) => Err(e),
            Ok(labels) => {
                let scan = emit_scan(tokens, labels);
                if scan.errors.len() > 0 {
                    Err(join(scan.errors, "\n"@))
                } else {
                    Ok(big_endian(padding(origin) + scan.opcodes))
                }
            },
        },
    }
}

/// The image that a source text assembles to.
pub open spec fn assemble_outcome(source: Seq<char>) -> Result<Seq<u8>, Seq<char>> {
    image_outcome(tokens_of(source))
}

/// The mathematical content of the result of assembling.
pub open spec fn image_view(r: Result<Vec<u8>, String>) -> Result<Seq<u8>, Seq<char>> {
    match r {
        Ok(bytes) => Ok(bytes@),
        Err(e) => Err(e@),
    }
}

/// The mathematical content of a result that holds opcodes.
pub open spec fn opcodes_view(r: Result<Vec<u16>, String>) -> Result<Seq<u16>, Seq<char>> {
    match r {
        Ok(opcodes) => Ok(opcodes@),
        Err(e) => Err(e@),
    }
}

/// The opcodes below `origin`, if `origin` is even.
pub open spec fn new_opcodes_outcome(origin: u16) -> Result<Seq<u16>, Seq<char>> {
    if origin % 2 != 0 {
        Err("Origin must be even"@)
    } else {
        Ok(padding(origin))
    }
}

/// Starts the list of opcodes with the zeros that fill memory below
/// `origin`.
pub fn new_opcodes(origin: u16) -> (r: Result<Vec<u16>, String>)
    ensures
        opcodes_view(r) == new_opcodes_outcome(origin),
{
    if origin % 2 != 0 {
        return Err(String::from_str("Origin must be even"));
    }
    let num_opcodes = origin / 2;
    let opcodes: Vec<u16> = vec![0; num_opcodes as usize];
    assert(opcodes@ =~= padding(origin));
    Ok(opcodes)
}

/// Writes every opcode as two bytes, the high byte first.
pub fn to_bytes(opcodes: &Vec<u16>) -> (bytes: Vec<u8>)
    ensures
        bytes@ == big_endian(opcodes@),
{
    let mut bytes: Vec<u8> = Vec::new();
    let mut i: usize = 0;
    while i < opcodes.len()
        invariant
            i <= opcodes.len(),
            bytes@ == big_endian(opcodes@.take(i as int)),
        decreases opcodes.len() - i,
    {
        let opcode = opcodes[i];
        let ghost before = bytes@;
        bytes.push((opcode / 256) as u8);
        bytes.push((opcode % 256) as u8);
        assert(bytes@ =~= big_endian(opcodes@.take(i + 1))) by {
            assert(bytes@.len() == 2 * (i + 1));
            assert forall|k: int| 0 <= k < bytes@.len() implies bytes@[k] == big_endian(
                opcodes@.take(i + 1),
            )[k] by {
                if k < 2 * i {
                    assert(bytes@[k] == before[k]);
                    assert(opcodes@.take(i as int)[k / 2] == opcodes@.take(i + 1)[k / 2]);
                }
            }
        }
        i += 1;
    }
    assert(opcodes@.take(opcodes.len() as int) =~= opcodes@);
    bytes
}

/// Every instruction token yields either an opcode or an error.
pub proof fn lemma_emit_scan_counts(tokens: Seq<TokenModel>, labels: Map<Seq<char>, u16>)
    ensures
        emit_scan(tokens, labels).opcodes.len() + emit_scan(tokens, labels).errors.len()
            == instructions_in(tokens),
    decreases tokens.len(),
{
    if tokens.len() > 0 {
        lemma_emit_scan_counts(tokens.drop_last(), labels);
    }
}

/// Assembles tokens into a program image.
pub fn assemble_tokens(tokens: &Vec<Token>) -> (r: Result<Vec<u8>, String>)
    ensures
        image_view(r) == image_outcome(tokens.deep_view()),
        r matches Ok(bytes) ==> origin_outcome(tokens.deep_view()) is Ok && bytes.len()
            == origin_outcome(tokens.deep_view())->Ok_0 + 2 * instructions_in(tokens.deep_view()),
{
    let origin = match get_origin(tokens) {
        Ok(origin) => origin,
        Err(e) => return Err(e),
    };
    let mut opcodes = match new_opcodes(origin) {
        Ok(opcodes) => opcodes,
        Err(e) => return Err(e),
    };
    let labels = match get_labels(tokens, origin) {
        Ok(labels) => labels,
        Err(e) => return Err(e),
    };
    let mut errors: Vec<String> = Vec::new();
    let mut i: usize = 0;
    assert(tokens.deep_view().take(0) =~= Seq::empty());
    assert(errors.deep_view() =~= Seq::empty());
    assert(opcodes@ =~= padding(origin) + Seq::<u16>::empty());
    while i < tokens.len()
        invariant
            i <= tokens.len(),
            labels.wf(),
            opcodes@ == padding(origin) + emit_scan(
                tokens.deep_view().take(i as int),
                labels@,
            ).opcodes,
            errors.deep_view() == emit_scan(tokens.deep_view().take(i as int), labels@).errors,
        decreases tokens.len() - i,
    {
        let ghost before = tokens.deep_view().take(i as int);
        let ghost after = tokens.deep_view().take(i + 1);
        assert(after.drop_last() =~= before);
        assert(after.last() == tokens@[i as int].deep_view());
        let token = &tokens[i];
        match token.token_type {
            TokenType::Instruction => {
                match emit_token(&labels, token) {
                    Ok(opcode) => {
                        opcodes.push(opcode);
                        assert(opcodes@ =~= padding(origin) + emit_scan(after, labels@).opcodes);
                    },
                    Err(e) => {
                        let ghost shown = errors.deep_view();
                        errors.push(message_at_line(token.line, e.as_str()));
                        assert(errors.deep_view() =~= shown.push(
                            at_line(token.line as nat, e@),
                        ));
                    },
                }
            },
            _ => {},
        }
        i += 1;
    }
    assert(tokens.deep_view().take(tokens.len() as int) =~= tokens.deep_view());
    if errors.len() > 0 {
        return Err(join_texts(&errors, "\n"));
    }
    proof {
        lemma_emit_scan_counts(tokens.deep_view(), labels@);
    }
    Ok(to_bytes(&opcodes))
}

/// Assembles a source text into a program image: zero bytes up to the
/// origin, then the opcodes of the instructions in their order.
pub fn assemble(source: &str) -> (r: Result<Vec<u8>, String>)
    ensures
        image_view(r) == assemble_outcome(source@),
        r matches Ok(bytes) ==> origin_outcome(tokens_of(source@)) is Ok && bytes.len()
            == origin_outcome(tokens_of(source@))->Ok_0 + 2 * instructions_in(tokens_of(source@)),
{
    let tokens = parse_source(source);
    assemble_tokens(&tokens)
}

// ---------------------------------------------------------------------------
// Laws
// ---------------------------------------------------------------------------

/// Every address of `labels` lies in memory.
pub open spec fn addresses_in_memory(labels: Map<Seq<char>, u16>) -> bool {
    forall|key: Seq<char>| labels.contains_key(key) ==> #[trigger] labels[key] <= 0x0FFF
}

/// Assembling and decoding agree: the instruction that an instruction token
/// assembles to is well formed and known, its opcode decodes back to it, and
/// it carries the mnemonic of the token, in small letters.
pub proof fn lemma_assembled_opcode_decodes(labels: Map<Seq<char>, u16>, token: TokenModel)
    requires
        addresses_in_memory(labels),
        token_instruction(labels, token) is Ok,
    ensures
        token_instruction(labels, token)->Ok_0.wf(),
        !(token_instruction(labels, token)->Ok_0 is Unknown),
        decode_spec(token_instruction(labels, token)->Ok_0.encode_spec()) == token_instruction(
            labels,
            token,
        )->Ok_0,
        mnemonic_of(token_instruction(labels, token)->Ok_0) == lowercase(token.name),
{
    let ins = token_instruction(labels, token)->Ok_0;
    assert forall|r: Register| #[trigger] r.index_spec() < 16 by {}
    assert forall|arg: Seq<char>| opcodes::height_outcome(arg) is Ok implies (
    #[trigger] opcodes::height_outcome(arg))->Ok_0 < 16 by {}
    assert forall|arg: Seq<char>| resolve_outcome(labels, arg) is Ok implies (
    #[trigger] resolve_outcome(labels, arg))->Ok_0 <= 0x0FFF by {}
    lemma_decode_encode(ins);
}

/// The origin of tokens among which no origin directive stands.
proof fn lemma_origin_without_directive(tokens: Seq<TokenModel>, current: Option<u16>)
    requires
        forall|i: int| 0 <= i < tokens.len() ==> (#[trigger] tokens[i]).token_type
            != TokenType::Origin,
    ensures
        origin_after(tokens, current) == Ok::<u16, Seq<char>>(
            match current {
                Some(origin) => origin,
                None => DEFAULT_ORIGIN,
            },
        ),
    decreases tokens.len(),
{
    if tokens.len() > 0 {
        let rest = tokens.skip(1);
        assert forall|i: int| 0 <= i < rest.len() implies (#[trigger] rest[i]).token_type
            != TokenType::Origin by {
            assert(rest[i] == tokens[i + 1]);
        }
        lemma_origin_without_directive(rest, current);
    }
}

/// Tokens that are all instructions count as many instructions as there are
/// tokens.
proof fn lemma_all_instructions(tokens: Seq<TokenModel>)
    requires
        forall|i: int| 0 <= i < tokens.len() ==> (#[trigger] tokens[i]).token_type
            == TokenType::Instruction,
    ensures
        instructions_in(tokens) == tokens.len(),
    decreases tokens.len(),
{
    if tokens.len() > 0 {
        let rest = tokens.drop_last();
        assert forall|i: int| 0 <= i < rest.len() implies (#[trigger] rest[i]).token_type
            == TokenType::Instruction by {
            assert(rest[i] == tokens[i]);
        }
        lemma_all_instructions(rest);
    }
}

/// The image of a program holds `origin` bytes of padding and two bytes for
/// each instruction.
pub proof fn lemma_image_length(tokens: Seq<TokenModel>)
    requires
        image_outcome(tokens) is Ok,
    ensures
        origin_outcome(tokens) is Ok,
        image_outcome(tokens)->Ok_0.len() == origin_outcome(tokens)->Ok_0 + 2 * instructions_in(
            tokens,
        ),
{
    let origin = origin_outcome(tokens)->Ok_0;
    let labels = labels_outcome(tokens, origin)->Ok_0;
    lemma_origin_is_even_address(tokens, None);
    lemma_emit_scan_counts(tokens, labels);
}

/// A program that consists of `N` instruction tokens and nothing else starts
/// at `0x200`, and its image has `0x200 + 2 * N` bytes.
pub proof fn lemma_image_length_of_instructions(tokens: Seq<TokenModel>)
    requires
        forall|i: int| 0 <= i < tokens.len() ==> (#[trigger] tokens[i]).token_type
            == TokenType::Instruction,
        image_outcome(tokens) is Ok,
    ensures
        image_outcome(tokens)->Ok_0.len() == 0x200 + 2 * tokens.len(),
{
    lemma_origin_without_directive(tokens, None);
    lemma_all_instructions(tokens);
    lemma_image_length(tokens);
}

} // verus!
