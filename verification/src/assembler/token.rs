//! Tokens: what one line of source text amounts to.
//!
//! A line is blank, a comment (`//`), an origin directive (`org`, in either
//! case), a label definition (a word that ends in `:`) or an instruction: a
//! mnemonic followed by operands, which white space or commas keep apart.

use vstd::prelude::*;
use vstd::string::StrSliceExecFns;
use vstd::string::StringExecFns;
use crate::text::char_is_whitespace;
use crate::text::characters;
use crate::text::decimal;
use crate::text::decimal_text;
use crate::text::is_whitespace;
use crate::text::join;
use crate::text::join_texts;
use crate::text::starts_with;

verus! {

/// The three kinds of token.
#[derive(Clone, Copy, PartialEq, Eq, Debug)]
pub enum TokenType {
    Instruction,
    Label,
    Origin,
}

/// A token: its kind, its name (the mnemonic, the label or `org`), its
/// operands and the number of the line it stands on, counted from zero.
#[derive(Clone, Debug)]
pub struct Token {
    pub name: String,
    pub token_type: TokenType,
    pub args: Vec<String>,
    pub line: usize,
}

/// The mathematical content of a token.
pub struct TokenModel {
    pub name: Seq<char>,
    pub token_type: TokenType,
    pub args: Seq<Seq<char>>,
    pub line: nat,
}

impl DeepView for Token {
    type V = TokenModel;

    open spec fn deep_view(&self) -> TokenModel {
        TokenModel {
            name: self.name@,
            token_type: self.token_type,
            args: self.args.deep_view(),
            line: self.line as nat,
        }
    }
}

/// The word that names a kind of token.
pub open spec fn token_type_name(token_type: TokenType) -> Seq<char> {
    match token_type {
        TokenType::Instruction => "Instruction"@,
        TokenType::Label => "Label"@,
        TokenType::Origin => "Origin"@,
    }
}

/// The one-line description of a token.
pub open spec fn token_text(token: TokenModel) -> Seq<char> {
    "Token "@ + token.name + " of type "@ + token_type_name(token.token_type) + " on line "@
        + decimal_text(token.line) + " with args "@ + join(token.args, " "@)
}

impl Token {
    /// Describes the token in one line.
    pub fn to_string(&self) -> (r: String)
        ensures
            r@ == token_text(self.deep_view()),
    {
        let token_type = match self.token_type {
            TokenType::Instruction => "Instruction",
            TokenType::Label => "Label",
            TokenType::Origin => "Origin",
        };
        let line = decimal(self.line as u64);
        let args = join_texts(&self.args, " ");
        String::from_str("Token ").concat(self.name.as_str()).concat(" of type ").concat(
            token_type,
        ).concat(" on line ").concat(line.as_str()).concat(" with args ").concat(args.as_str())
    }
}

// ---------------------------------------------------------------------------
// The grammar of a line
// ---------------------------------------------------------------------------

/// Operands are kept apart by white space and by commas.
pub open spec fn is_separator(c: char) -> bool {
    is_whitespace(c) || c == ','
}

/// `s` without its leading white space.
pub open spec fn drop_leading_whitespace(s: Seq<char>) -> Seq<char>
    decreases s.len(),
{
    if s.len() > 0 && is_whitespace(s[0]) {
        drop_leading_whitespace(s.skip(1))
    } else {
        s
    }
}

/// The characters of `s` up to its first white space.
pub open spec fn leading_word(s: Seq<char>) -> Seq<char>
    decreases s.len(),
{
    if s.len() > 0 && !is_whitespace(s[0]) {
        seq![s[0]] + leading_word(s.skip(1))
    } else {
        Seq::empty()
    }
}

/// `s` without the colons at its end.
pub open spec fn drop_trailing_colons(s: Seq<char>) -> Seq<char>
    decreases s.len(),
{
    if s.len() > 0 && s.last() == ':' {
        drop_trailing_colons(s.drop_last())
    } else {
        s
    }
}

/// The fields of `s` that follow a field `open` which has been read so far
/// and is not yet closed: a separator closes it, any other character
/// lengthens it. Empty fields do not count.
pub open spec fn fields_after(s: Seq<char>, open: Seq<char>) -> Seq<Seq<char>>
    decreases s.len(),
{
    let closed = if open.len() > 0 {
        seq![open]
    } else {
        Seq::empty()
    };
    if s.len() == 0 {
        closed
    } else if is_separator(s[0]) {
        closed + fields_after(s.skip(1), Seq::empty())
    } else {
        fields_after(s.skip(1), open.push(s[0]))
    }
}

/// The operands in `s`: its longest runs of characters that are no
/// separators.
pub open spec fn fields(s: Seq<char>) -> Seq<Seq<char>> {
    fields_after(s, Seq::empty())
}

/// The word that opens an origin directive: `org`, in letters of either
/// case.
pub open spec fn is_origin_word(word: Seq<char>) -> bool {
    &&& word.len() == 3
    &&& (word[0] == 'o' || word[0] == 'O')
    &&& (word[1] == 'r' || word[1] == 'R')
    &&& (word[2] == 'g' || word[2] == 'G')
}

/// The token of a line that is neither blank nor a comment, given the line
/// without its leading white space.
pub open spec fn token_of_body(body: Seq<char>, number: nat) -> TokenModel {
    let head = leading_word(body);
    let args = fields(body.skip(head.len() as int));
    if is_origin_word(head) {
        TokenModel { name: "org"@, token_type: TokenType::Origin, args, line: number }
    } else if head.len() > 0 && head.last() == ':' {
        TokenModel {
            name: drop_trailing_colons(head),
            token_type: TokenType::Label,
            args,
            line: number,
        }
    } else {
        TokenModel { name: head, token_type: TokenType::Instruction, args, line: number }
    }
}

/// The token that a line of source text amounts to, if any.
pub open spec fn token_of_line(line: Seq<char>, number: nat) -> Option<TokenModel> {
    let body = drop_leading_whitespace(line);
    if body.len() == 0 || starts_with(body, seq!['/', '/']) {
        None
    } else {
        Some(token_of_body(body, number))
    }
}

/// The mathematical content of an optional token.
pub open spec fn token_option_view(token: Option<Token>) -> Option<TokenModel> {
    match token {
        Some(t) => Some(t.deep_view()),
        None => None,
    }
}

/// The leading word of a text ends where its first white space stands.
proof fn lemma_leading_word(s: Seq<char>, k: int)
    requires
        0 <= k <= s.len(),
        forall|i: int| 0 <= i < k ==> !is_whitespace(#[trigger] s[i]),
        k == s.len() || is_whitespace(s[k]),
    ensures
        leading_word(s) == s.subrange(0, k),
    decreases k,
{
    if k == 0 {
        assert(s.subrange(0, 0) =~= Seq::empty());
    } else {
        let t = s.skip(1);
        assert forall|i: int| 0 <= i < k - 1 implies !is_whitespace(#[trigger] t[i]) by {
            assert(t[i] == s[i + 1]);
        }
        lemma_leading_word(t, k - 1);
        assert(seq![s[0]] + t.subrange(0, k - 1) =~= s.subrange(0, k));
    }
}

/// Leading white space is dropped up to the first other character.
proof fn lemma_drop_leading_whitespace(s: Seq<char>, k: int)
    requires
        0 <= k <= s.len(),
        forall|i: int| 0 <= i < k ==> is_whitespace(#[trigger] s[i]),
        k == s.len() || !is_whitespace(s[k]),
    ensures
        drop_leading_whitespace(s) == s.skip(k),
    decreases k,
{
    if k == 0 {
        assert(s.skip(0) =~= s);
    } else {
        let t = s.skip(1);
        assert forall|i: int| 0 <= i < k - 1 implies is_whitespace(#[trigger] t[i]) by {
            assert(t[i] == s[i + 1]);
        }
        lemma_drop_leading_whitespace(t, k - 1);
        assert(t.skip(k - 1) =~= s.skip(k));
    }
}

/// Trailing colons are dropped down to the last other character.
proof fn lemma_drop_trailing_colons(s: Seq<char>, k: int)
    requires
        0 <= k <= s.len(),
        forall|i: int| k <= i < s.len() ==> #[trigger] s[i] == ':',
        k == 0 || s[k - 1] != ':',
    ensures
        drop_trailing_colons(s) == s.subrange(0, k),
    decreases s.len() - k,
{
    if k == s.len() {
        assert(s.subrange(0, k) =~= s);
    } else {
        let t = s.drop_last();
        lemma_drop_trailing_colons(t, k);
        assert(t.subrange(0, k) =~= s.subrange(0, k));
    }
}

/// Reads the operands of `line` from position `from` on.
fn read_fields(line: &str, chars: &Vec<char>, from: usize) -> (args: Vec<String>)
    requires
        chars@ == line@,
        from <= chars.len(),
    ensures
        args.deep_view() == fields(line@.skip(from as int)),
{
    let n = chars.len();
    let mut args: Vec<String> = Vec::new();
    let mut start: usize = from;
    let mut i: usize = from;
    assert(line@.subrange(from as int, from as int) =~= Seq::empty());
    assert(args.deep_view() =~= Seq::empty());
    while i < n
        invariant
            from <= start <= i <= n,
            n == chars.len(),
            chars@ == line@,
            fields(line@.skip(from as int)) == args.deep_view() + fields_after(
                line@.skip(i as int),
                line@.subrange(start as int, i as int),
            ),
        decreases n - i,
    {
        let ghost rest = line@.skip(i as int);
        let ghost open = line@.subrange(start as int, i as int);
        assert(rest[0] == line@[i as int]);
        assert(rest.skip(1) =~= line@.skip(i + 1));
        let c = chars[i];
        if char_is_whitespace(c) || c == ',' {
            if start < i {
                let field = String::from_str(line.substring_char(start, i));
                let ghost before = args.deep_view();
                args.push(field);
                assert(args.deep_view() =~= before + seq![open]);
            }
            start = i + 1;
            assert(line@.subrange(start as int, i + 1) =~= Seq::empty());
        } else {
            assert(open.push(c) =~= line@.subrange(start as int, i + 1));
        }
        i += 1;
    }
    assert(line@.skip(n as int) =~= Seq::empty());
    if start < n {
        let field = String::from_str(line.substring_char(start, n));
        let ghost before = args.deep_view();
        args.push(field);
        assert(args.deep_view() =~= before + seq![line@.subrange(start as int, n as int)]);
    }
    args
}

/// Reads one line of source text; `number` is the number of the line.
pub fn tokenize_line(line: &str, number: usize) -> (token: Option<Token>)
    ensures
        token_option_view(token) == token_of_line(line@, number as nat),
{
    let chars = characters(line);
    let n = chars.len();
    let mut i: usize = 0;
    while i < n && char_is_whitespace(chars[i])
        invariant
            i <= n,
            n == chars.len(),
            forall|k: int| 0 <= k < i ==> is_whitespace(#[trigger] chars@[k]),
        decreases n - i,
    {
        i += 1;
    }
    proof {
        lemma_drop_leading_whitespace(line@, i as int);
    }
    let ghost body = line@.skip(i as int);
    if i == n {
        return None;
    }
    if n - i >= 2 && chars[i] == '/' && chars[i + 1] == '/' {
        assert(body.subrange(0, 2) =~= seq!['/', '/']);
        return None;
    }
    proof {
        if starts_with(body, seq!['/', '/']) {
            assert(body.subrange(0, 2)[0] == '/');
            assert(body.subrange(0, 2)[1] == '/');
        }
    }
    let mut j: usize = i;
    while j < n && !char_is_whitespace(chars[j])
        invariant
            i <= j <= n,
            n == chars.len(),
            forall|k: int| i <= k < j ==> !is_whitespace(#[trigger] chars@[k]),
        decreases n - j,
    {
        j += 1;
    }
    proof {
        assert forall|k: int| 0 <= k < j - i implies !is_whitespace(#[trigger] body[k]) by {
            assert(body[k] == chars@[i + k]);
        }
        lemma_leading_word(body, j - i);
        assert(body.subrange(0, j - i) =~= line@.subrange(i as int, j as int));
        assert(body.skip(j - i) =~= line@.skip(j as int));
    }
    let head = line.substring_char(i, j);
    let args = read_fields(line, &chars, j);
    let is_origin = j - i == 3 && (chars[i] == 'o' || chars[i] == 'O') && (chars[i + 1] == 'r'
        || chars[i + 1] == 'R') && (chars[i + 2] == 'g' || chars[i + 2] == 'G');
    if is_origin {
        return Some(
            Token {
                name: String::from_str("org"),
                token_type: TokenType::Origin,
                args,
                line: number,
            },
        );
    }
    if chars[j - 1] == ':' {
        let mut k: usize = j;
        while k > i && chars[k - 1] == ':'
            invariant
                i <= k <= j,
                j <= n,
                n == chars.len(),
                forall|m: int| k <= m < j ==> #[trigger] chars@[m] == ':',
            decreases k,
        {
            k -= 1;
        }
        proof {
            lemma_drop_trailing_colons(head@, k - i);
            assert(head@.subrange(0, k - i) =~= line@.subrange(i as int, k as int));
        }
        let name = String::from_str(line.substring_char(i, k));
        return Some(Token { name, token_type: TokenType::Label, args, line: number });
    }
    Some(
        Token {
            name: String::from_str(head),
            token_type: TokenType::Instruction,
            args,
            line: number,
        },
    )
}

} // verus!
