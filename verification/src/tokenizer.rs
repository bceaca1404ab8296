//! Lexical analysis: expression text to a flat token sequence.

use vstd::prelude::*;
use crate::strings::{chars_vec, push_char};
use vstd::string::*;

verus! {

/// A lexical token. `Number` carries the raw matched text, parsed to a
/// float only at evaluation time; `StringLiteral` carries the decoded
/// content with escapes resolved.
#[derive(Debug, PartialEq, Eq)]
pub enum DewSchemaLanguageToken {
    Number(String),
    Identifier(String),
    StringLiteral(String),
    Dot,
    Comma,
    LeftParenthesis,
    RightParenthesis,
}

/// Mathematical model of a token.
pub enum TokenData {
    Number(Seq<char>),
    Identifier(Seq<char>),
    StringLiteral(Seq<char>),
    Dot,
    Comma,
    LeftParen,
    RightParen,
}

impl View for DewSchemaLanguageToken {
    type V = TokenData;

    open spec fn view(&self) -> TokenData {
        match self {
            DewSchemaLanguageToken::Number(s) => TokenData::Number(s@),
            DewSchemaLanguageToken::Identifier(s) => TokenData::Identifier(s@),
            DewSchemaLanguageToken::StringLiteral(s) => TokenData::StringLiteral(s@),
            DewSchemaLanguageToken::Dot => TokenData::Dot,
            DewSchemaLanguageToken::Comma => TokenData::Comma,
            DewSchemaLanguageToken::LeftParenthesis => TokenData::LeftParen,
            DewSchemaLanguageToken::RightParenthesis => TokenData::RightParen,
        }
    }
}

impl Clone for DewSchemaLanguageToken {
    /// Cloning a token yields an equal token.
    fn clone(&self) -> (r: Self)
        ensures
            r == *self,
    {
        match self {
            DewSchemaLanguageToken::Number(s) => DewSchemaLanguageToken::Number(s.clone()),
            DewSchemaLanguageToken::Identifier(s) => DewSchemaLanguageToken::Identifier(s.clone()),
            DewSchemaLanguageToken::StringLiteral(s) => DewSchemaLanguageToken::StringLiteral(
                s.clone(),
            ),
            DewSchemaLanguageToken::Dot => DewSchemaLanguageToken::Dot,
            DewSchemaLanguageToken::Comma => DewSchemaLanguageToken::Comma,
            DewSchemaLanguageToken::LeftParenthesis => DewSchemaLanguageToken::LeftParenthesis,
            DewSchemaLanguageToken::RightParenthesis => DewSchemaLanguageToken::RightParenthesis,
        }
    }
}

/// Whether two tokens are the same token with the same text.
pub fn token_eq(a: &DewSchemaLanguageToken, b: &DewSchemaLanguageToken) -> (r: bool)
    ensures
        r == (a@ == b@),
{
    match (a, b) {
        (DewSchemaLanguageToken::Number(x), DewSchemaLanguageToken::Number(y)) => *x == *y,
        (DewSchemaLanguageToken::Identifier(x), DewSchemaLanguageToken::Identifier(y)) => *x == *y,
        (
            DewSchemaLanguageToken::StringLiteral(x),
            DewSchemaLanguageToken::StringLiteral(y),
        ) => *x == *y,
        (DewSchemaLanguageToken::Dot, DewSchemaLanguageToken::Dot) => true,
        (DewSchemaLanguageToken::Comma, DewSchemaLanguageToken::Comma) => true,
        (DewSchemaLanguageToken::LeftParenthesis, DewSchemaLanguageToken::LeftParenthesis) => true,
        (
            DewSchemaLanguageToken::RightParenthesis,
            DewSchemaLanguageToken::RightParenthesis,
        ) => true,
        _ => {
            proof {
                assert(a@ != b@);
            }
            false
        },
    }
}

/// Whether `char::is_whitespace` accepts this character.
pub uninterp spec fn char_is_whitespace(c: char) -> bool;

/// Whether `char::is_alphabetic` accepts this character.
pub uninterp spec fn char_is_alphabetic(c: char) -> bool;

/// Whether `char::is_alphanumeric` accepts this character.
pub uninterp spec fn char_is_alphanumeric(c: char) -> bool;

/// Relies on `char::is_whitespace`: a pure classification by the Unicode
/// tables. In the ASCII range the accepted characters are documented
/// exactly: the space and the five controls tab through carriage return.
#[verifier::external_body]
pub fn is_whitespace_char(c: char) -> (r: bool)
    ensures
        r == char_is_whitespace(c),
        (c as u32) < 128 ==> r == (c == ' ' || 9 <= c as u32 <= 13),
{
    c.is_whitespace()
}

/// Relies on `char::is_alphabetic`: a pure classification by the Unicode
/// tables. In the ASCII range the accepted characters are documented
/// exactly: the letters.
#[verifier::external_body]
pub fn is_alphabetic_char(c: char) -> (r: bool)
    ensures
        r == char_is_alphabetic(c),
        (c as u32) < 128 ==> r == (65 <= c as u32 <= 90 || 97 <= c as u32 <= 122),
{
    c.is_alphabetic()
}

/// Relies on `char::is_alphanumeric`: a pure classification by the
/// Unicode tables. In the ASCII range the accepted characters are
/// documented exactly: the letters and the decimal digits.
#[verifier::external_body]
pub fn is_alphanumeric_char(c: char) -> (r: bool)
    ensures
        r == char_is_alphanumeric(c),
        (c as u32) < 128 ==> r == (65 <= c as u32 <= 90 || 97 <= c as u32 <= 122 || 48 <= c
            as u32 <= 57),
{
    c.is_alphanumeric()
}

/// An ASCII decimal digit.
pub open spec fn spec_is_digit(c: char) -> bool {
    48 <= c as u32 && c as u32 <= 57
}

/// Whether this character is an ASCII decimal digit.
pub fn is_digit_char(c: char) -> (r: bool)
    ensures
        r == spec_is_digit(c),
{
    let u = c as u32;
    48 <= u && u <= 57
}

/// A character that may start an identifier.
pub open spec fn spec_is_ident_start(c: char) -> bool {
    char_is_alphabetic(c) || c == '_' || c == '$'
}

/// A character that may continue an identifier.
pub open spec fn spec_is_ident_cont(c: char) -> bool {
    char_is_alphanumeric(c) || c == '_' || c == '$'
}

/// Whether this character may continue an identifier.
pub fn is_ident_cont_char(c: char) -> (r: bool)
    ensures
        r == spec_is_ident_cont(c),
{
    is_alphanumeric_char(c) || c == '_' || c == '$'
}

/// The position right after the identifier that continues at `i`.
pub open spec fn ident_end(s: Seq<char>, i: int) -> int
    decreases s.len() - i,
{
    if i >= s.len() {
        s.len() as int
    } else if spec_is_ident_cont(s[i]) {
        ident_end(s, i + 1)
    } else {
        i
    }
}

/// The position right after the number text that continues at `i`, given
/// whether a decimal dot or an exponent marker was already consumed.
pub open spec fn num_end(s: Seq<char>, i: int, seen_dot: bool, seen_exp: bool) -> int
    decreases s.len() - i,
{
    if i >= s.len() {
        s.len() as int
    } else if spec_is_digit(s[i]) {
        num_end(s, i + 1, seen_dot, seen_exp)
    } else if s[i] == '.' {
        if seen_dot || seen_exp || !(i + 1 < s.len() && spec_is_digit(s[i + 1])) {
            i
        } else {
            num_end(s, i + 1, true, seen_exp)
        }
    } else if s[i] == 'e' || s[i] == 'E' {
        if seen_exp {
            i
        } else if i + 1 < s.len() && (s[i + 1] == '+' || s[i + 1] == '-') {
            num_end(s, i + 2, seen_dot, true)
        } else {
            num_end(s, i + 1, seen_dot, true)
        }
    } else {
        i
    }
}

/// The position right after the string literal whose content starts at
/// `i` (after the opening quote): one past the closing quote, or the end
/// of input when the literal is unterminated.
pub open spec fn str_end(s: Seq<char>, i: int, escaped: bool) -> int
    decreases s.len() - i,
{
    if i >= s.len() {
        s.len() as int
    } else if escaped {
        str_end(s, i + 1, false)
    } else if s[i] == '\\' {
        str_end(s, i + 1, true)
    } else if s[i] == '"' {
        i + 1
    } else {
        str_end(s, i + 1, false)
    }
}

/// The decoded content of the string literal whose content starts at `i`:
/// a backslash only neutralizes the character after it, which is copied
/// verbatim.
pub open spec fn str_content(s: Seq<char>, i: int, escaped: bool) -> Seq<char>
    decreases s.len() - i,
{
    if i >= s.len() {
        Seq::empty()
    } else if escaped {
        seq![s[i]] + str_content(s, i + 1, false)
    } else if s[i] == '\\' {
        str_content(s, i + 1, true)
    } else if s[i] == '"' {
        Seq::empty()
    } else {
        seq![s[i]] + str_content(s, i + 1, false)
    }
}

/// A scan never moves backwards and never leaves the input.
pub proof fn lemma_ident_end(s: Seq<char>, i: int)
    requires
        i <= s.len(),
    ensures
        i <= ident_end(s, i) <= s.len(),
    decreases s.len() - i,
{
    if i < s.len() && spec_is_ident_cont(s[i]) {
        lemma_ident_end(s, i + 1);
    }
}

/// A scan never moves backwards and never leaves the input.
pub proof fn lemma_num_end(s: Seq<char>, i: int, seen_dot: bool, seen_exp: bool)
    requires
        i <= s.len(),
    ensures
        i <= num_end(s, i, seen_dot, seen_exp) <= s.len(),
    decreases s.len() - i,
{
    if i < s.len() {
        if spec_is_digit(s[i]) {
            lemma_num_end(s, i + 1, seen_dot, seen_exp);
        } else if s[i] == '.' {
            if !(seen_dot || seen_exp || !(i + 1 < s.len() && spec_is_digit(s[i + 1]))) {
                lemma_num_end(s, i + 1, true, seen_exp);
            }
        } else if s[i] == 'e' || s[i] == 'E' {
            if !seen_exp {
                if i + 1 < s.len() && (s[i + 1] == '+' || s[i + 1] == '-') {
                    lemma_num_end(s, i + 2, seen_dot, true);
                } else {
                    lemma_num_end(s, i + 1, seen_dot, true);
                }
            }
        }
    }
}

/// A scan never moves backwards and never leaves the input.
pub proof fn lemma_str_end(s: Seq<char>, i: int, escaped: bool)
    requires
        i <= s.len(),
    ensures
        i <= str_end(s, i, escaped) <= s.len(),
    decreases s.len() - i,
{
    if i < s.len() {
        if escaped {
            lemma_str_end(s, i + 1, false);
        } else if s[i] == '\\' {
            lemma_str_end(s, i + 1, true);
        } else if s[i] == '"' {
        } else {
            lemma_str_end(s, i + 1, false);
        }
    }
}

/// Prepends a token to a tokenization outcome.
pub open spec fn tok_cons(t: TokenData, rest: Result<Seq<TokenData>, char>) -> Result<
    Seq<TokenData>,
    char,
> {
    match rest {
        Ok(ts) => Ok(seq![t] + ts),
        Err(c) => Err(c),
    }
}

/// The tokens of the input from position `i` on, or the first character
/// that no token can start with.
pub open spec fn spec_tokenize_from(s: Seq<char>, i: int) -> Result<Seq<TokenData>, char>
    decreases s.len() - i,
        via spec_tokenize_from_decreases
{
    if i < 0 || i >= s.len() {
        Ok(Seq::empty())
    } else {
        let c = s[i];
        if char_is_whitespace(c) {
            spec_tokenize_from(s, i + 1)
        } else if spec_is_digit(c) || c == '-' {
            let start = if c == '-' {
                i + 1
            } else {
                i
            };
            let j = num_end(s, start, false, false);
            tok_cons(TokenData::Number(s.subrange(i, j)), spec_tokenize_from(s, j))
        } else if spec_is_ident_start(c) {
            let j = ident_end(s, i + 1);
            tok_cons(TokenData::Identifier(s.subrange(i, j)), spec_tokenize_from(s, j))
        } else if c == '"' {
            let j = str_end(s, i + 1, false);
            tok_cons(TokenData::StringLiteral(str_content(s, i + 1, false)), spec_tokenize_from(s, j))
        } else if c == '.' {
            tok_cons(TokenData::Dot, spec_tokenize_from(s, i + 1))
        } else if c == ',' {
            tok_cons(TokenData::Comma, spec_tokenize_from(s, i + 1))
        } else if c == '(' {
            tok_cons(TokenData::LeftParen, spec_tokenize_from(s, i + 1))
        } else if c == ')' {
            tok_cons(TokenData::RightParen, spec_tokenize_from(s, i + 1))
        } else {
            Err(c)
        }
    }
}

#[via_fn]
proof fn spec_tokenize_from_decreases(s: Seq<char>, i: int) {
    if 0 <= i && i < s.len() {
        lemma_num_end(s, i + 1, false, false);
        if spec_is_digit(s[i]) {
            lemma_num_end(s, i, false, false);
            assert(num_end(s, i, false, false) == num_end(s, i + 1, false, false));
        }
        lemma_ident_end(s, i + 1);
        lemma_str_end(s, i + 1, false);
    }
}

/// The tokens of the whole input, or the first character that no token
/// can start with.
pub open spec fn spec_tokenize(s: Seq<char>) -> Result<Seq<TokenData>, char> {
    spec_tokenize_from(s, 0)
}

/// The models of a sequence of tokens.
pub open spec fn toks_view(v: Seq<DewSchemaLanguageToken>) -> Seq<TokenData> {
    Seq::new(v.len(), |i: int| v[i]@)
}

/// Glues a tokenized prefix onto the outcome for the rest of the input.
pub open spec fn prefix_combine(
    prefix: Seq<TokenData>,
    rest: Result<Seq<TokenData>, char>,
) -> Result<Seq<TokenData>, char> {
    match rest {
        Ok(ts) => Ok(prefix + ts),
        Err(c) => Err(c),
    }
}

/// Scans a number's remaining text: digits, at most one decimal dot that
/// must be followed by a digit, and at most one exponent marker with an
/// optional sign.
fn scan_number(cs: &Vec<char>, start: usize) -> (end: usize)
    requires
        start <= cs@.len(),
    ensures
        start <= end <= cs@.len(),
        end == num_end(cs@, start as int, false, false),
{
    let mut pos: usize = start;
    let mut seen_dot = false;
    let mut seen_exp = false;
    loop
        invariant
            start <= pos <= cs@.len(),
            num_end(cs@, start as int, false, false) == num_end(cs@, pos as int, seen_dot, seen_exp),
        decreases cs@.len() - pos,
    {
        if pos >= cs.len() {
            return pos;
        }
        let c = cs[pos];
        if is_digit_char(c) {
            pos += 1;
        } else if c == '.' {
            if seen_dot || seen_exp || !(pos + 1 < cs.len() && is_digit_char(cs[pos + 1])) {
                return pos;
            }
            seen_dot = true;
            pos += 1;
        } else if c == 'e' || c == 'E' {
            if seen_exp {
                return pos;
            }
            seen_exp = true;
            pos += 1;
            if pos < cs.len() && (cs[pos] == '+' || cs[pos] == '-') {
                pos += 1;
            }
        } else {
            return pos;
        }
    }
}

/// Scans an identifier's remaining characters.
fn scan_ident(cs: &Vec<char>, start: usize) -> (end: usize)
    requires
        start <= cs@.len(),
    ensures
        start <= end <= cs@.len(),
        end == ident_end(cs@, start as int),
{
    let mut pos: usize = start;
    loop
        invariant
            start <= pos <= cs@.len(),
            ident_end(cs@, start as int) == ident_end(cs@, pos as int),
        decreases cs@.len() - pos,
    {
        if pos >= cs.len() {
            return pos;
        }
        if !is_ident_cont_char(cs[pos]) {
            return pos;
        }
        pos += 1;
    }
}

/// Scans a string literal's content starting right after the opening
/// quote, resolving escapes; an unterminated literal runs to end of input.
fn scan_string(cs: &Vec<char>, start: usize) -> (r: (String, usize))
    requires
        start <= cs@.len(),
    ensures
        start <= r.1 <= cs@.len(),
        r.1 == str_end(cs@, start as int, false),
        r.0@ == str_content(cs@, start as int, false),
{
    let mut acc = String::new();
    let mut pos: usize = start;
    let mut escaped = false;
    loop
        invariant
            start <= pos <= cs@.len(),
            str_end(cs@, start as int, false) == str_end(cs@, pos as int, escaped),
            str_content(cs@, start as int, false) == acc@ + str_content(cs@, pos as int, escaped),
        decreases cs@.len() - pos,
    {
        if pos >= cs.len() {
            proof {
                assert(str_content(cs@, pos as int, escaped) =~= Seq::<char>::empty());
                assert(acc@ + Seq::<char>::empty() =~= acc@);
            }
            return (acc, pos);
        }
        let c = cs[pos];
        if escaped {
            proof {
                assert(acc@ + (seq![c] + str_content(cs@, pos + 1, false)) =~= (acc@ + seq![c])
                    + str_content(cs@, pos + 1, false));
            }
            push_char(&mut acc, c);
            escaped = false;
            pos += 1;
        } else if c == '\\' {
            escaped = true;
            pos += 1;
        } else if c == '"' {
            pos += 1;
            proof {
                assert(acc@ + Seq::<char>::empty() =~= acc@);
            }
            return (acc, pos);
        } else {
            proof {
                assert(acc@ + (seq![c] + str_content(cs@, pos + 1, false)) =~= (acc@ + seq![c])
                    + str_content(cs@, pos + 1, false));
            }
            push_char(&mut acc, c);
            pos += 1;
        }
    }
}

/// The text of the characters in `[i, j)`.
fn string_of_range(cs: &Vec<char>, i: usize, j: usize) -> (r: String)
    requires
        i <= j <= cs@.len(),
    ensures
        r@ == cs@.subrange(i as int, j as int),
{
    let mut acc = String::new();
    let mut k: usize = i;
    while k < j
        invariant
            i <= k <= j <= cs@.len(),
            acc@ == cs@.subrange(i as int, k as int),
        decreases j - k,
    {
        push_char(&mut acc, cs[k]);
        k += 1;
        proof {
            assert(cs@.subrange(i as int, k as int) =~= cs@.subrange(i as int, k - 1) + seq![
                cs@[k - 1],
            ]);
        }
    }
    acc
}

/// Splits expression text into tokens. Whitespace separates tokens; a
/// token is a number, an identifier, a string literal, or one of `.` `,`
/// `(` `)`; any other character is a lexical error naming it.
pub fn tokenize(input: &str) -> (r: Result<Vec<DewSchemaLanguageToken>, String>)
    ensures
        spec_tokenize(input@) is Ok ==> r is Ok && toks_view(r->Ok_0@) == spec_tokenize(
            input@,
        )->Ok_0,
        spec_tokenize(input@) is Err ==> r is Err && r->Err_0@ == "Unexpected character: "@ + seq![
            spec_tokenize(input@)->Err_0,
        ],
{
    let cs = chars_vec(input);
    let ghost s = input@;
    let n = cs.len();
    let mut out: Vec<DewSchemaLanguageToken> = Vec::new();
    let mut pos: usize = 0;
    while pos < n
        invariant
            pos <= n,
            n == cs@.len(),
            cs@ == s,
            s == input@,
            spec_tokenize(s) == prefix_combine(toks_view(out@), spec_tokenize_from(s, pos as int)),
        decreases n - pos,
    {
        let ghost out0 = out@;
        let ghost pos0 = pos as int;
        let c = cs[pos];
        if is_whitespace_char(c) {
            pos += 1;
        } else if is_digit_char(c) || c == '-' {
            let scan_from = if c == '-' {
                pos + 1
            } else {
                pos
            };
            let end = scan_number(&cs, scan_from);
            proof {
                lemma_num_end(s, pos0 + 1, false, false);
                if spec_is_digit(c) {
                    assert(num_end(s, pos0, false, false) == num_end(s, pos0 + 1, false, false));
                }
            }
            let text = string_of_range(&cs, pos, end);
            out.push(DewSchemaLanguageToken::Number(text));
            pos = end;
        } else if is_alphabetic_char(c) || c == '_' || c == '$' {
            let end = scan_ident(&cs, pos + 1);
            let text = string_of_range(&cs, pos, end);
            out.push(DewSchemaLanguageToken::Identifier(text));
            pos = end;
        } else if c == '"' {
            let (text, end) = scan_string(&cs, pos + 1);
            out.push(DewSchemaLanguageToken::StringLiteral(text));
            pos = end;
        } else if c == '.' {
            out.push(DewSchemaLanguageToken::Dot);
            pos += 1;
        } else if c == ',' {
            out.push(DewSchemaLanguageToken::Comma);
            pos += 1;
        } else if c == '(' {
            out.push(DewSchemaLanguageToken::LeftParenthesis);
            pos += 1;
        } else if c == ')' {
            out.push(DewSchemaLanguageToken::RightParenthesis);
            pos += 1;
        } else {
            proof {
                assert(spec_tokenize_from(s, pos0) == Err::<Seq<TokenData>, char>(c));
            }
            let mut msg = String::from_str("Unexpected character: ");
            push_char(&mut msg, c);
            proof {
                assert(msg@ == "Unexpected character: "@ + seq![c]);
                assert(spec_tokenize(s) == Err::<Seq<TokenData>, char>(c));
            }
            return Err(msg);
        }
        proof {
            if out@.len() > out0.len() {
                let t = out@[out0.len() as int]@;
                assert(toks_view(out@) =~= toks_view(out0) + seq![t]);
                let rest = spec_tokenize_from(s, pos as int);
                if rest is Ok {
                    assert((toks_view(out0) + seq![t]) + rest->Ok_0 =~= toks_view(out0) + (seq![t]
                        + rest->Ok_0));
                }
            }
        }
    }
    proof {
        assert(spec_tokenize_from(s, pos as int) == Ok::<Seq<TokenData>, char>(Seq::empty()));
        assert(toks_view(out@) + Seq::<TokenData>::empty() =~= toks_view(out@));
    }
    Ok(out)
}

} // verus!
