//! The lexer: from the characters of a source to spanned tokens. Every token spans the
//! characters it was read from, and the tokens tile the source.

use vstd::prelude::*;
use crate::escape::copy_range;
use crate::pcore::wf_toks;
use crate::span::{Provider, Span, Spanned};
use crate::text::string_from_chars;
use crate::token::{is_plain, Radix, StringLiteralFlags, TokenInfo};

verus! {

/// A token with its text payloads as character sequences.
pub enum SpecToken {
    /// An identifier and whether it was written raw.
    Ident(Seq<char>, bool),
    /// The digits of an integer literal and its radix.
    IntLiteral(Seq<char>, Radix),
    /// A floating-point literal as written.
    FloatLiteral(Seq<char>),
    /// The content of a string literal, its flags and the span of the content.
    StringLiteral(Seq<char>, StringLiteralFlags, Span),
    /// The content of a character literal and its span.
    CharLiteral(Seq<char>, Span),
    /// A character that starts no token.
    Invalid(char),
    /// Whitespace or punctuation: a token without payload.
    Plain(TokenInfo),
}

/// The view of a token.
pub open spec fn v_token(t: TokenInfo) -> SpecToken {
    match t {
        TokenInfo::Ident(s, raw) => SpecToken::Ident(s@, raw),
        TokenInfo::IntLiteral(s, r) => SpecToken::IntLiteral(s@, r),
        TokenInfo::FloatLiteral(s) => SpecToken::FloatLiteral(s@),
        TokenInfo::StringLiteral(s, f, sp) => SpecToken::StringLiteral(s@, f, sp),
        TokenInfo::CharLiteral(s, sp) => SpecToken::CharLiteral(s@, sp),
        TokenInfo::Invalid(c) => SpecToken::Invalid(c),
        _ => SpecToken::Plain(t),
    }
}

/// The view of a sequence of spanned tokens.
pub open spec fn v_tokens(s: Seq<Spanned<TokenInfo>>) -> Seq<Spanned<SpecToken>> {
    s.map_values(|t: Spanned<TokenInfo>| Spanned(v_token(t.0), t.1))
}

/// The character at `i`, if there is one.
pub open spec fn at(s: Seq<char>, i: int) -> Option<char> {
    if 0 <= i < s.len() {
        Some(s[i])
    } else {
        None
    }
}

/// Whitespace characters: space, tab, line feed and carriage return.
pub open spec fn is_ws_char(c: char) -> bool {
    c == ' ' || c == '\t' || c == '\n' || c == '\r'
}

/// Characters that start an identifier: ASCII letters and `_`.
pub open spec fn is_ident_start(c: char) -> bool {
    ('a' <= c && c <= 'z') || ('A' <= c && c <= 'Z') || c == '_'
}

/// Characters that continue an identifier: ASCII letters, digits and `_`.
pub open spec fn is_ident_char(c: char) -> bool {
    is_ident_start(c) || ('0' <= c && c <= '9')
}

/// The digits of a radix.
pub open spec fn is_digit_in(c: char, radix: Radix) -> bool {
    match radix {
        Radix::Decimal => '0' <= c && c <= '9',
        Radix::Hexadecimal => ('0' <= c && c <= '9') || ('a' <= c && c <= 'f') || ('A' <= c
            && c <= 'F'),
        Radix::Octal => '0' <= c && c <= '7',
        Radix::Binary => c == '0' || c == '1',
    }
}

/// The end of the run of whitespace characters from `i`.
pub open spec fn scan_ws(s: Seq<char>, i: int) -> int
    decreases s.len() - i,
{
    if 0 <= i < s.len() && is_ws_char(s[i]) {
        scan_ws(s, i + 1)
    } else {
        i
    }
}

/// The end of the run of identifier characters from `i`.
pub open spec fn scan_ident(s: Seq<char>, i: int) -> int
    decreases s.len() - i,
{
    if 0 <= i < s.len() && is_ident_char(s[i]) {
        scan_ident(s, i + 1)
    } else {
        i
    }
}

/// The end of the run of digits of `radix` and underscores from `i`.
pub open spec fn scan_digits(s: Seq<char>, i: int, radix: Radix) -> int
    decreases s.len() - i,
{
    if 0 <= i < s.len() && (is_digit_in(s[i], radix) || s[i] == '_') {
        scan_digits(s, i + 1, radix)
    } else {
        i
    }
}

/// The end of the line from `i`: the next line feed, or the end of the source.
pub open spec fn scan_line(s: Seq<char>, i: int) -> int
    decreases s.len() - i,
{
    if 0 <= i < s.len() && s[i] != '\n' {
        scan_line(s, i + 1)
    } else {
        i
    }
}

/// The position of the quote `q` that closes a literal whose content starts at `i`: a
/// backslash escapes the character after it. `None` if the source ends first.
pub open spec fn close_quote(s: Seq<char>, i: int, q: char) -> Option<int>
    decreases s.len() - i,
{
    if !(0 <= i < s.len()) {
        None
    } else if s[i] == q {
        Some(i)
    } else if s[i] == '\\' {
        if i + 1 < s.len() {
            close_quote(s, i + 2, q)
        } else {
            None
        }
    } else {
        close_quote(s, i + 1, q)
    }
}

/// The position of the first `"` at or after `i`, which closes a raw string.
pub open spec fn close_raw(s: Seq<char>, i: int) -> Option<int>
    decreases s.len() - i,
{
    if !(0 <= i < s.len()) {
        None
    } else if s[i] == '"' {
        Some(i)
    } else {
        close_raw(s, i + 1)
    }
}

/// The token of a punctuation character, or an invalid token.
pub open spec fn punct(c: char) -> SpecToken {
    if c == '(' {
        SpecToken::Plain(TokenInfo::LeftParen)
    } else if c == ')' {
        SpecToken::Plain(TokenInfo::RightParen)
    } else if c == '[' {
        SpecToken::Plain(TokenInfo::LeftBracket)
    } else if c == ']' {
        SpecToken::Plain(TokenInfo::RightBracket)
    } else if c == '{' {
        SpecToken::Plain(TokenInfo::LeftBrace)
    } else if c == '}' {
        SpecToken::Plain(TokenInfo::RightBrace)
    } else if c == '<' {
        SpecToken::Plain(TokenInfo::Lt)
    } else if c == '>' {
        SpecToken::Plain(TokenInfo::Gt)
    } else if c == ',' {
        SpecToken::Plain(TokenInfo::Comma)
    } else if c == '.' {
        SpecToken::Plain(TokenInfo::Dot)
    } else if c == ':' {
        SpecToken::Plain(TokenInfo::Colon)
    } else if c == ';' {
        SpecToken::Plain(TokenInfo::Semicolon)
    } else if c == '=' {
        SpecToken::Plain(TokenInfo::Equals)
    } else if c == '-' {
        SpecToken::Plain(TokenInfo::Minus)
    } else if c == '+' {
        SpecToken::Plain(TokenInfo::Plus)
    } else if c == '!' {
        SpecToken::Plain(TokenInfo::Not)
    } else if c == '~' {
        SpecToken::Plain(TokenInfo::Tilde)
    } else if c == '*' {
        SpecToken::Plain(TokenInfo::Asterisk)
    } else if c == '/' {
        SpecToken::Plain(TokenInfo::Divide)
    } else if c == '%' {
        SpecToken::Plain(TokenInfo::Modulus)
    } else if c == '&' {
        SpecToken::Plain(TokenInfo::And)
    } else if c == '|' {
        SpecToken::Plain(TokenInfo::Or)
    } else if c == '^' {
        SpecToken::Plain(TokenInfo::Caret)
    } else if c == '?' {
        SpecToken::Plain(TokenInfo::Question)
    } else {
        SpecToken::Invalid(c)
    }
}

/// The span `[a, b)`.
pub open spec fn span_at(a: int, b: int) -> Span {
    Span { start: a as usize, end: b as usize }
}

/// Whether `0`, the letter `p` and a digit of `radix` start at `i`.
pub open spec fn prefixed(s: Seq<char>, i: int, p: char, radix: Radix) -> bool {
    s[i] == '0' && at(s, i + 1) == Some(p) && at(s, i + 2) is Some && is_digit_in(s[i + 2], radix)
}

/// A number at `i`, which holds a decimal digit: an integer with a `0x`, `0o` or `0b` prefix
/// followed by a digit of that radix, a decimal integer, or a decimal integer followed by `.`
/// and a digit, which makes a floating-point literal. Digits may be separated by `_`.
pub open spec fn lex_number(s: Seq<char>, i: int) -> (SpecToken, int) {
    if prefixed(s, i, 'x', Radix::Hexadecimal) {
        let e = scan_digits(s, i + 2, Radix::Hexadecimal);
        (SpecToken::IntLiteral(s.subrange(i + 2, e), Radix::Hexadecimal), e)
    } else if prefixed(s, i, 'o', Radix::Octal) {
        let e = scan_digits(s, i + 2, Radix::Octal);
        (SpecToken::IntLiteral(s.subrange(i + 2, e), Radix::Octal), e)
    } else if prefixed(s, i, 'b', Radix::Binary) {
        let e = scan_digits(s, i + 2, Radix::Binary);
        (SpecToken::IntLiteral(s.subrange(i + 2, e), Radix::Binary), e)
    } else {
        let e = scan_digits(s, i, Radix::Decimal);
        if at(s, e) == Some('.') && at(s, e + 1) is Some && is_digit_in(s[e + 1], Radix::Decimal) {
            let f = scan_digits(s, e + 1, Radix::Decimal);
            (SpecToken::FloatLiteral(s.subrange(i, f)), f)
        } else {
            (SpecToken::IntLiteral(s.subrange(i, e), Radix::Decimal), e)
        }
    }
}

/// The token that starts at `i`, and where it ends. Tried in order: whitespace; a `//` comment
/// up to the end of the line (whitespace too); a raw identifier `r#name`; a raw string
/// `r"..."`; an identifier; a number; a string `"..."`; a non-empty character literal `'...'`;
/// punctuation. A quote that is not closed, and any other character, is an invalid token.
pub open spec fn lex_one(s: Seq<char>, i: int) -> (SpecToken, int) {
    let c = s[i];
    if is_ws_char(c) {
        (SpecToken::Plain(TokenInfo::Whitespace), scan_ws(s, i))
    } else if c == '/' && at(s, i + 1) == Some('/') {
        (SpecToken::Plain(TokenInfo::Whitespace), scan_line(s, i))
    } else if c == 'r' && at(s, i + 1) == Some('#') && at(s, i + 2) is Some && is_ident_start(
        s[i + 2],
    ) {
        let e = scan_ident(s, i + 2);
        (SpecToken::Ident(s.subrange(i + 2, e), true), e)
    } else if c == 'r' && at(s, i + 1) == Some('"') && close_raw(s, i + 2) is Some {
        let k = close_raw(s, i + 2)->Some_0;
        (SpecToken::StringLiteral(s.subrange(i + 2, k), StringLiteralFlags(1), span_at(i + 2, k)), k + 1)
    } else if is_ident_start(c) {
        let e = scan_ident(s, i);
        (SpecToken::Ident(s.subrange(i, e), false), e)
    } else if is_digit_in(c, Radix::Decimal) {
        lex_number(s, i)
    } else if c == '"' {
        match close_quote(s, i + 1, '"') {
            Some(k) => (
                SpecToken::StringLiteral(s.subrange(i + 1, k), StringLiteralFlags(0), span_at(i + 1, k)),
                k + 1,
            ),
            None => (SpecToken::Invalid(c), i + 1),
        }
    } else if c == '\'' {
        match close_quote(s, i + 1, '\'') {
            Some(k) => if k > i + 1 {
                (SpecToken::CharLiteral(s.subrange(i + 1, k), span_at(i + 1, k)), k + 1)
            } else {
                (SpecToken::Invalid(c), i + 1)
            },
            None => (SpecToken::Invalid(c), i + 1),
        }
    } else {
        (punct(c), i + 1)
    }
}

/// The tokens of `s` from `i` on.
pub open spec fn lex_from(s: Seq<char>, i: int) -> Seq<Spanned<SpecToken>>
    decreases s.len() - i,
{
    if !(0 <= i < s.len()) {
        Seq::empty()
    } else {
        let (tok, e) = lex_one(s, i);
        if i < e <= s.len() {
            seq![Spanned(tok, span_at(i, e))] + lex_from(s, e)
        } else {
            Seq::empty()
        }
    }
}

/// The tokens of a source.
pub open spec fn lex(s: Seq<char>) -> Seq<Spanned<SpecToken>> {
    lex_from(s, 0)
}

/// Whether a token's literal content lies within a source of `n` characters, and a character
/// literal has some content.
pub open spec fn fits(t: TokenInfo, n: int) -> bool {
    match t {
        TokenInfo::StringLiteral(c, _, sp) => sp.start + c@.len() <= n,
        TokenInfo::CharLiteral(c, sp) => sp.start + c@.len() <= n && c@.len() > 0,
        _ => true,
    }
}

/// Whether the spans of `toks` tile `[0, end)`: each is non-empty, the first starts at `0`,
/// each starts where the one before it ends, and the last ends at `end`.
pub open spec fn tiles(toks: Seq<Spanned<TokenInfo>>, end: int) -> bool {
    &&& forall|j: int| 0 <= j < toks.len() ==> #[trigger] toks[j].1.start < toks[j].1.end
    &&& forall|j: int| 0 < j < toks.len() ==> #[trigger] toks[j].1.start == toks[j - 1].1.end
    &&& toks.len() == 0 ==> end == 0
    &&& toks.len() > 0 ==> toks[0].1.start == 0 && toks.last().1.end == end
}

fn is_ws_exec(c: char) -> (r: bool)
    ensures
        r == is_ws_char(c),
{
    c == ' ' || c == '\t' || c == '\n' || c == '\r'
}

fn is_ident_start_exec(c: char) -> (r: bool)
    ensures
        r == is_ident_start(c),
{
    ('a' <= c && c <= 'z') || ('A' <= c && c <= 'Z') || c == '_'
}

fn is_ident_char_exec(c: char) -> (r: bool)
    ensures
        r == is_ident_char(c),
{
    is_ident_start_exec(c) || ('0' <= c && c <= '9')
}

fn is_digit_in_exec(c: char, radix: Radix) -> (r: bool)
    ensures
        r == is_digit_in(c, radix),
{
    match radix {
        Radix::Decimal => '0' <= c && c <= '9',
        Radix::Hexadecimal => ('0' <= c && c <= '9') || ('a' <= c && c <= 'f') || ('A' <= c
            && c <= 'F'),
        Radix::Octal => '0' <= c && c <= '7',
        Radix::Binary => c == '0' || c == '1',
    }
}

fn scan_ws_exec(s: &Vec<char>, i: usize) -> (r: usize)
    requires
        i <= s@.len(),
    ensures
        r == scan_ws(s@, i as int),
        i <= r <= s@.len(),
{
    let mut j = i;
    while j < s.len() && is_ws_exec(s[j])
        invariant
            i <= j <= s@.len(),
            scan_ws(s@, j as int) == scan_ws(s@, i as int),
        decreases s@.len() - j,
    {
        j = j + 1;
    }
    j
}

fn scan_ident_exec(s: &Vec<char>, i: usize) -> (r: usize)
    requires
        i <= s@.len(),
    ensures
        r == scan_ident(s@, i as int),
        i <= r <= s@.len(),
{
    let mut j = i;
    while j < s.len() && is_ident_char_exec(s[j])
        invariant
            i <= j <= s@.len(),
            scan_ident(s@, j as int) == scan_ident(s@, i as int),
        decreases s@.len() - j,
    {
        j = j + 1;
    }
    j
}

fn scan_digits_exec(s: &Vec<char>, i: usize, radix: Radix) -> (r: usize)
    requires
        i <= s@.len(),
    ensures
        r == scan_digits(s@, i as int, radix),
        i <= r <= s@.len(),
{
    let mut j = i;
    while j < s.len() && (is_digit_in_exec(s[j], radix) || s[j] == '_')
        invariant
            i <= j <= s@.len(),
            scan_digits(s@, j as int, radix) == scan_digits(s@, i as int, radix),
        decreases s@.len() - j,
    {
        j = j + 1;
    }
    j
}

fn scan_line_exec(s: &Vec<char>, i: usize) -> (r: usize)
    requires
        i <= s@.len(),
    ensures
        r == scan_line(s@, i as int),
        i <= r <= s@.len(),
{
    let mut j = i;
    while j < s.len() && s[j] != '\n'
        invariant
            i <= j <= s@.len(),
            scan_line(s@, j as int) == scan_line(s@, i as int),
        decreases s@.len() - j,
    {
        j = j + 1;
    }
    j
}

fn close_quote_exec(s: &Vec<char>, i: usize, q: char) -> (r: Option<usize>)
    requires
        i <= s@.len(),
    ensures
        match r {
            Some(k) => close_quote(s@, i as int, q) == Some(k as int) && i <= k < s@.len(),
            None => close_quote(s@, i as int, q) is None,
        },
{
    let mut j = i;
    loop
        invariant
            i <= j <= s@.len(),
            close_quote(s@, j as int, q) == close_quote(s@, i as int, q),
        decreases s@.len() - j,
    {
        if j >= s.len() {
            return None;
        }
        if s[j] == q {
            return Some(j);
        }
        if s[j] == '\\' {
            if s.len() - j < 2 {
                return None;
            }
            j = j + 2;
        } else {
            j = j + 1;
        }
    }
}

fn close_raw_exec(s: &Vec<char>, i: usize) -> (r: Option<usize>)
    requires
        i <= s@.len(),
    ensures
        match r {
            Some(k) => close_raw(s@, i as int) == Some(k as int) && i <= k < s@.len(),
            None => close_raw(s@, i as int) is None,
        },
{
    let mut j = i;
    while j < s.len() && s[j] != '"'
        invariant
            i <= j <= s@.len(),
            close_raw(s@, j as int) == close_raw(s@, i as int),
        decreases s@.len() - j,
    {
        j = j + 1;
    }
    if j < s.len() {
        Some(j)
    } else {
        None
    }
}

fn at_is(s: &Vec<char>, i: usize, c: char) -> (r: bool)
    ensures
        r == (at(s@, i as int) == Some(c)),
{
    i < s.len() && s[i] == c
}

/// The characters `s[a..b]` as a string.
fn text(s: &Vec<char>, a: usize, b: usize) -> (r: String)
    requires
        a <= b <= s@.len(),
    ensures
        r@ == s@.subrange(a as int, b as int),
{
    let v = copy_range(s, a, b);
    string_from_chars(v.as_slice())
}

fn punct_exec(c: char) -> (r: TokenInfo)
    ensures
        v_token(r) == punct(c),
{
    if c == '(' {
        TokenInfo::LeftParen
    } else if c == ')' {
        TokenInfo::RightParen
    } else if c == '[' {
        TokenInfo::LeftBracket
    } else if c == ']' {
        TokenInfo::RightBracket
    } else if c == '{' {
        TokenInfo::LeftBrace
    } else if c == '}' {
        TokenInfo::RightBrace
    } else if c == '<' {
        TokenInfo::Lt
    } else if c == '>' {
        TokenInfo::Gt
    } else if c == ',' {
        TokenInfo::Comma
    } else if c == '.' {
        TokenInfo::Dot
    } else if c == ':' {
        TokenInfo::Colon
    } else if c == ';' {
        TokenInfo::Semicolon
    } else if c == '=' {
        TokenInfo::Equals
    } else if c == '-' {
        TokenInfo::Minus
    } else if c == '+' {
        TokenInfo::Plus
    } else if c == '!' {
        TokenInfo::Not
    } else if c == '~' {
        TokenInfo::Tilde
    } else if c == '*' {
        TokenInfo::Asterisk
    } else if c == '/' {
        TokenInfo::Divide
    } else if c == '%' {
        TokenInfo::Modulus
    } else if c == '&' {
        TokenInfo::And
    } else if c == '|' {
        TokenInfo::Or
    } else if c == '^' {
        TokenInfo::Caret
    } else if c == '?' {
        TokenInfo::Question
    } else {
        TokenInfo::Invalid(c)
    }
}

fn prefixed_exec(s: &Vec<char>, i: usize, p: char, radix: Radix) -> (r: bool)
    requires
        i < s@.len(),
    ensures
        r == prefixed(s@, i as int, p, radix),
        r ==> i + 2 < s@.len(),
{
    s.len() - i > 2 && s[i] == '0' && at_is(s, i + 1, p) && is_digit_in_exec(s[i + 2], radix)
}

fn lex_number_exec(s: &Vec<char>, i: usize) -> (r: (TokenInfo, usize))
    requires
        i < s@.len(),
        is_digit_in(s@[i as int], Radix::Decimal),
        s@.len() + 32 <= usize::MAX,
    ensures
        (v_token(r.0), r.1 as int) == lex_number(s@, i as int),
        i < r.1 <= s@.len(),
        fits(r.0, s@.len() as int),
{
    if prefixed_exec(s, i, 'x', Radix::Hexadecimal) {
        let e = scan_digits_exec(s, i + 2, Radix::Hexadecimal);
        (TokenInfo::IntLiteral(text(s, i + 2, e), Radix::Hexadecimal), e)
    } else if prefixed_exec(s, i, 'o', Radix::Octal) {
        let e = scan_digits_exec(s, i + 2, Radix::Octal);
        (TokenInfo::IntLiteral(text(s, i + 2, e), Radix::Octal), e)
    } else if prefixed_exec(s, i, 'b', Radix::Binary) {
        let e = scan_digits_exec(s, i + 2, Radix::Binary);
        (TokenInfo::IntLiteral(text(s, i + 2, e), Radix::Binary), e)
    } else {
        let e = scan_digits_exec(s, i + 1, Radix::Decimal);
        if at_is(s, e, '.') && s.len() - e > 1 && is_digit_in_exec(s[e + 1], Radix::Decimal) {
            let f = scan_digits_exec(s, e + 1, Radix::Decimal);
            (TokenInfo::FloatLiteral(text(s, i, f)), f)
        } else {
            (TokenInfo::IntLiteral(text(s, i, e), Radix::Decimal), e)
        }
    }
}

/// Reads the token that starts at `i`.
fn lex_one_exec(s: &Vec<char>, i: usize) -> (r: (TokenInfo, usize))
    requires
        i < s@.len(),
        s@.len() + 32 <= usize::MAX,
    ensures
        (v_token(r.0), r.1 as int) == lex_one(s@, i as int),
        i < r.1 <= s@.len(),
        fits(r.0, s@.len() as int),
{
    let c = s[i];
    if is_ws_exec(c) {
        (TokenInfo::Whitespace, scan_ws_exec(s, i + 1))
    } else if c == '/' && at_is(s, i + 1, '/') {
        (TokenInfo::Whitespace, scan_line_exec(s, i + 1))
    } else if c == 'r' && at_is(s, i + 1, '#') && s.len() - i > 2 && is_ident_start_exec(s[i + 2]) {
        let e = scan_ident_exec(s, i + 3);
        (TokenInfo::Ident(text(s, i + 2, e), true), e)
    } else if c == 'r' && at_is(s, i + 1, '"') && close_raw_exec(s, i + 2).is_some() {
        let k = match close_raw_exec(s, i + 2) {
            Some(k) => k,
            None => i,
        };
        let content = text(s, i + 2, k);
        (TokenInfo::StringLiteral(content, StringLiteralFlags(1), Span { start: i + 2, end: k }), k + 1)
    } else if is_ident_start_exec(c) {
        let e = scan_ident_exec(s, i + 1);
        (TokenInfo::Ident(text(s, i, e), false), e)
    } else if is_digit_in_exec(c, Radix::Decimal) {
        lex_number_exec(s, i)
    } else if c == '"' {
        match close_quote_exec(s, i + 1, '"') {
            Some(k) => {
                let content = text(s, i + 1, k);
                (TokenInfo::StringLiteral(content, StringLiteralFlags(0), Span { start: i + 1, end: k }), k + 1)
            },
            None => (TokenInfo::Invalid(c), i + 1),
        }
    } else if c == '\'' {
        match close_quote_exec(s, i + 1, '\'') {
            Some(k) => {
                if k > i + 1 {
                    let content = text(s, i + 1, k);
                    (TokenInfo::CharLiteral(content, Span { start: i + 1, end: k }), k + 1)
                } else {
                    (TokenInfo::Invalid(c), i + 1)
                }
            },
            None => (TokenInfo::Invalid(c), i + 1),
        }
    } else {
        (punct_exec(c), i + 1)
    }
}

/// Reads the tokens of a source. They tile the source, and are fit to be parsed.
pub fn tokenize(provider: &Provider) -> (r: Vec<Spanned<TokenInfo>>)
    requires
        provider@.len() + 32 <= usize::MAX,
    ensures
        v_tokens(r@) == lex(provider@),
        tiles(r@, provider@.len() as int),
        wf_toks(r@),
{
    let s = provider.content();
    let n = s.len();
    let mut out: Vec<Spanned<TokenInfo>> = Vec::new();
    let mut i: usize = 0;
    assert(v_tokens(out@) =~= Seq::<Spanned<SpecToken>>::empty());
    while i < n
        invariant
            i <= n == s@.len(),
            n + 32 <= usize::MAX,
            v_tokens(out@) + lex_from(s@, i as int) == lex_from(s@, 0),
            tiles(out@, i as int),
            forall|j: int| 0 <= j < out@.len() ==> fits(#[trigger] out@[j].0, n as int),
        decreases n - i,
    {
        let (tok, e) = lex_one_exec(s, i);
        let x = Spanned(tok, Span { start: i, end: e });
        proof {
            assert(lex_from(s@, i as int) == seq![Spanned(v_token(x.0), x.1)] + lex_from(s@, e as int));
            assert(v_tokens(out@.push(x)) =~= v_tokens(out@).push(Spanned(v_token(x.0), x.1)));
            assert(v_tokens(out@.push(x)) + lex_from(s@, e as int) =~= v_tokens(out@) + lex_from(s@, i as int));
        }
        out.push(x);
        i = e;
    }
    proof {
        assert(lex_from(s@, i as int) =~= Seq::<Spanned<SpecToken>>::empty());
        assert(v_tokens(out@) =~= v_tokens(out@) + lex_from(s@, i as int));
        reveal(wf_toks);
    }
    out
}

} // verus!
