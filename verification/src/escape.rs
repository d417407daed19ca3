//! Resolution of escape sequences in string and character literals.

use vstd::prelude::*;
use crate::error::{v_error, Error, SpecError, SpecErrorInfo};
use crate::span::Span;
use crate::text::{char_from_u32, chars_of, is_scalar_value, string_from_chars};
use crate::token::StringLiteralFlags;

verus! {

/// The character a simple escape `\c` stands for, if `c` starts a simple escape.
pub open spec fn simple_escape(c: char) -> Option<char> {
    if c == 'n' {
        Some('\n')
    } else if c == 'r' {
        Some('\r')
    } else if c == 't' {
        Some('\t')
    } else if c == 'b' {
        Some('\x08')
    } else if c == 'f' {
        Some('\x0c')
    } else if c == '0' {
        Some('\0')
    } else if c == '\'' {
        Some('\'')
    } else if c == '"' {
        Some('"')
    } else if c == '\\' {
        Some('\\')
    } else {
        None
    }
}

/// The number of hexadecimal digits that follow `\c`: two for `x`, four for `u`, eight for `U`,
/// and none if `c` starts no hexadecimal escape.
pub open spec fn hex_escape_len(c: char) -> nat {
    if c == 'x' {
        2
    } else if c == 'u' {
        4
    } else if c == 'U' {
        8
    } else {
        0
    }
}

/// The value of a hexadecimal digit.
pub open spec fn hex_digit(c: char) -> Option<nat> {
    if '0' <= c && c <= '9' {
        Some((c as nat - '0' as nat) as nat)
    } else if 'a' <= c && c <= 'f' {
        Some((c as nat - 'a' as nat + 10) as nat)
    } else if 'A' <= c && c <= 'F' {
        Some((c as nat - 'A' as nat + 10) as nat)
    } else {
        None
    }
}

/// The value of a sequence of hexadecimal digits, most significant first; `0` for none.
pub open spec fn hex_value(s: Seq<char>) -> Option<nat>
    decreases s.len(),
{
    if s.len() == 0 {
        Some(0)
    } else {
        match (hex_value(s.drop_last()), hex_digit(s.last())) {
            (Some(h), Some(d)) => Some(h * 16 + d),
            _ => None,
        }
    }
}

/// What `u32::from_str_radix(s, 16)` gives: the value of the digits after an optional `+`,
/// if there is at least one digit, all are hexadecimal, and the value fits in 32 bits.
pub open spec fn parse_hex_u32(s: Seq<char>) -> Option<u32> {
    let digits = if s.len() > 1 && s[0] == '+' { s.drop_first() } else { s };
    if digits.len() == 0 {
        None
    } else {
        match hex_value(digits) {
            Some(v) => if v <= u32::MAX { Some(v as u32) } else { None },
            None => None,
        }
    }
}

/// The error `info` at `[start, end)`.
pub open spec fn err_at(info: SpecErrorInfo, start: int, end: int) -> SpecError {
    SpecError { info, span: Span { start: start as usize, end: end as usize } }
}

/// What the hint of an escape sequence cut off by the end of input suggests: inserting `n`
/// makes the backslash start the escape sequence `\n`.
pub open spec fn eof_hint() -> Seq<char> {
    "insert an escape sequence"@
}

/// Prepends `c` to a successful result.
pub open spec fn cons_ok(c: char, r: Result<Seq<char>, SpecError>) -> Result<Seq<char>, SpecError> {
    match r {
        Ok(s) => Ok(seq![c] + s),
        Err(e) => Err(e),
    }
}

/// One unit of a literal's content: the character that `cs[i..]` starts with stands for, the
/// index after it, and the source offset after it, where `cs[i]` is at source offset `pos`.
///
/// A character other than a backslash stands for itself. A backslash followed by a simple
/// escape letter stands for that escape. `\x`, `\u` and `\U` take up to two, four or eight
/// following characters as the hexadecimal code of the character they stand for. Offsets
/// advance by one per character, and by the full digit count of a hexadecimal escape.
pub open spec fn escape_step(cs: Seq<char>, i: int, pos: int) -> Result<(char, int, int), SpecError> {
    if cs[i] != '\\' {
        Ok((cs[i], i + 1, pos + 1))
    } else {
        let pos1 = pos + 1;
        if i + 1 >= cs.len() {
            Err(err_at(SpecErrorInfo::UnexpectedEof(Some(('n', eof_hint()))), pos1, pos1 + 1))
        } else {
            let e = cs[i + 1];
            match simple_escape(e) {
                Some(c) => Ok((c, i + 2, pos1 + 1)),
                None => {
                    let len = hex_escape_len(e);
                    if len == 0 {
                        Err(err_at(SpecErrorInfo::UnknownEscapeSequence(e), pos1 - 1, pos1 + 1))
                    } else {
                        let end = if i + 2 + len <= cs.len() { i + 2 + len } else { cs.len() as int };
                        let digits = cs.subrange(i + 2, end);
                        match parse_hex_u32(digits) {
                            None => Err(
                                err_at(
                                    SpecErrorInfo::InvalidHexEscapeSequence(digits),
                                    pos1 - 1,
                                    pos1 + 1 + len,
                                ),
                            ),
                            Some(v) => {
                                let pos2 = pos1 + len;
                                if is_scalar_value(v) {
                                    Ok((v as char, end, pos2 + 1))
                                } else {
                                    Err(
                                        err_at(
                                            SpecErrorInfo::InvalidHexEscapeSequence(digits),
                                            pos2 - 1,
                                            pos2 + 1 + len,
                                        ),
                                    )
                                }
                            },
                        }
                    }
                },
            }
        }
    }
}

/// The resolution of `cs[i..]`, where the character `cs[i]` is at source offset `pos`: the
/// characters its units stand for, or the error of the first unit that stands for none.
pub open spec fn resolve_from(cs: Seq<char>, i: int, pos: int) -> Result<Seq<char>, SpecError>
    decreases cs.len() - i,
{
    if i < 0 || i >= cs.len() {
        Ok(Seq::empty())
    } else {
        proof {
            lemma_escape_step_advances(cs, i, pos);
        }
        match escape_step(cs, i, pos) {
            Ok((c, j, p)) => cons_ok(c, resolve_from(cs, j, p)),
            Err(e) => Err(e),
        }
    }
}

/// A unit is at least one character long, and lies within the content.
pub proof fn lemma_escape_step_advances(cs: Seq<char>, i: int, pos: int)
    requires
        0 <= i < cs.len(),
    ensures
        escape_step(cs, i, pos) matches Ok((_, j, _)) ==> i < j <= cs.len(),
{
}

/// The content of a literal after resolving its escapes: the content itself if the literal is
/// raw, else its resolution from its first character at `span.start`.
pub open spec fn spec_resolve_string(content: Seq<char>, flags: StringLiteralFlags, span: Span) -> Result<
    Seq<char>,
    SpecError,
> {
    if flags.spec_is_raw() {
        Ok(content)
    } else {
        resolve_from(content, 0, span.start as int)
    }
}

/// View of a resolution result.
pub open spec fn v_resolved(r: Result<String, Error>) -> Result<Seq<char>, SpecError> {
    match r {
        Ok(s) => Ok(s@),
        Err(e) => Err(v_error(e)),
    }
}

/// The value of a hexadecimal digit.
fn hex_digit_exec(c: char) -> (r: Option<u32>)
    ensures
        r matches Some(v) ==> hex_digit(c) == Some(v as nat) && v < 16,
        r is None ==> hex_digit(c) is None,
{
    if '0' <= c && c <= '9' {
        Some((c as u32) - ('0' as u32))
    } else if 'a' <= c && c <= 'f' {
        Some((c as u32) - ('a' as u32) + 10)
    } else if 'A' <= c && c <= 'F' {
        Some((c as u32) - ('A' as u32) + 10)
    } else {
        None
    }
}

/// `u32::from_str_radix(digits, 16)`, for at most eight characters.
pub fn parse_hex(digits: &[char]) -> (r: Option<u32>)
    requires
        digits@.len() <= 8,
    ensures
        r == parse_hex_u32(digits@),
{
    let n = digits.len();
    let start: usize = if n > 1 && digits[0] == '+' { 1 } else { 0 };
    let ghost ds = if n > 1 && digits@[0] == '+' { digits@.drop_first() } else { digits@ };
    assert(ds =~= digits@.subrange(start as int, n as int));
    if start == n {
        return None;
    }
    let mut value: u32 = 0;
    let mut i = start;
    while i < n
        invariant
            start <= i <= n,
            n == digits@.len(),
            n <= 8,
            ds =~= digits@.subrange(start as int, n as int),
            ds == (if n > 1 && digits@[0] == '+' { digits@.drop_first() } else { digits@ }),
            hex_value(digits@.subrange(start as int, i as int)) == Some(value as nat),
            value < pow16((i - start) as nat),
            i - start <= 8,
        decreases n - i,
    {
        let d = hex_digit_exec(digits[i]);
        let ghost sub = digits@.subrange(start as int, i + 1);
        assert(sub.drop_last() =~= digits@.subrange(start as int, i as int));
        match d {
            None => {
                proof {
                    assert(sub.last() == digits@[i as int]);
                    assert(hex_value(sub) is None);
                    assert(sub =~= ds.subrange(0, sub.len() as int));
                    lemma_hex_value_none(ds, sub);
                }
                return None;
            },
            Some(v) => {
                proof { lemma_pow16_step((i - start) as nat); }
                assert(value as int * 16 + v < pow16((i + 1 - start) as nat)) by (nonlinear_arith)
                    requires
                        value < pow16((i - start) as nat),
                        v < 16,
                        pow16((i + 1 - start) as nat) == pow16((i - start) as nat) * 16,
                ;
                proof { lemma_pow16_bound((i + 1 - start) as nat); }
                value = value * 16 + v;
                i = i + 1;
            },
        }
    }
    assert(digits@.subrange(start as int, n as int) =~= ds);
    Some(value)
}

/// `16` to the power `k`.
pub open spec fn pow16(k: nat) -> nat
    decreases k,
{
    if k == 0 { 1 } else { 16 * pow16((k - 1) as nat) }
}

proof fn lemma_pow16_step(k: nat)
    ensures
        pow16(k + 1) == pow16(k) * 16,
{
}

proof fn lemma_pow16_bound(k: nat)
    requires
        k <= 8,
    ensures
        pow16(k) <= 0x1_0000_0000,
    decreases k,
{
    reveal_with_fuel(pow16, 9);
    if k > 0 {
        lemma_pow16_bound((k - 1) as nat);
    }
}

/// A prefix with a non-digit makes the whole sequence a non-number.
proof fn lemma_hex_value_none(s: Seq<char>, p: Seq<char>)
    requires
        p.len() <= s.len(),
        p =~= s.subrange(0, p.len() as int),
        hex_value(p) is None,
    ensures
        hex_value(s) is None,
    decreases s.len(),
{
    if s.len() > p.len() {
        assert(s.drop_last().subrange(0, p.len() as int) =~= p);
        lemma_hex_value_none(s.drop_last(), p);
    } else {
        assert(s =~= p);
    }
}

/// The characters `v[a..b]`.
pub fn copy_range(v: &Vec<char>, a: usize, b: usize) -> (r: Vec<char>)
    requires
        a <= b <= v@.len(),
    ensures
        r@ == v@.subrange(a as int, b as int),
{
    let mut r: Vec<char> = Vec::new();
    let mut k = a;
    while k < b
        invariant
            a <= k <= b <= v@.len(),
            r@ == v@.subrange(a as int, k as int),
        decreases b - k,
    {
        r.push(v[k]);
        k = k + 1;
        assert(r@ =~= v@.subrange(a as int, k as int));
    }
    r
}

/// What the overall resolution is, given the resolution of the rest and what was resolved so far.
pub open spec fn with_prefix(out: Seq<char>, r: Result<Seq<char>, SpecError>) -> Result<
    Seq<char>,
    SpecError,
> {
    match r {
        Ok(s) => Ok(out + s),
        Err(e) => Err(e),
    }
}

/// The unit of `cs` at index `i`, whose first character is at source offset `pos`.
fn escape_unit(cs: &Vec<char>, i: usize, pos: usize) -> (r: Result<(char, usize, usize), Error>)
    requires
        i < cs@.len(),
        pos <= usize::MAX - 32 - (cs@.len() - i),
    ensures
        match (r, escape_step(cs@, i as int, pos as int)) {
            (Ok((c, j, p)), Ok((sc, sj, sp))) => c == sc && j == sj && p == sp,
            (Err(e), Err(se)) => v_error(e) == se,
            _ => false,
        },
        r matches Ok((_, j, p)) ==> (j < cs@.len() ==> p - pos <= j - i) && p - pos <= j - i + 8,
{
    let n = cs.len();
    let c = cs[i];
    if c != '\\' {
        return Ok((c, i + 1, pos + 1));
    }
    let pos1 = pos + 1;
    if i + 1 >= n {
        let hint = String::from_str("insert an escape sequence");
        return Err(Error::unexpected_eof(Span::single(pos1), Some(('n', hint))));
    }
    let e = cs[i + 1];
    let simple: Option<char> = if e == 'n' {
        Some('\n')
    } else if e == 'r' {
        Some('\r')
    } else if e == 't' {
        Some('\t')
    } else if e == 'b' {
        Some('\x08')
    } else if e == 'f' {
        Some('\x0c')
    } else if e == '0' {
        Some('\0')
    } else if e == '\'' {
        Some('\'')
    } else if e == '"' {
        Some('"')
    } else if e == '\\' {
        Some('\\')
    } else {
        None
    };
    assert(simple == simple_escape(e));
    if let Some(s) = simple {
        return Ok((s, i + 2, pos1 + 1));
    }
    let len: usize = if e == 'x' {
        2
    } else if e == 'u' {
        4
    } else if e == 'U' {
        8
    } else {
        0
    };
    assert(len == hex_escape_len(e));
    if len == 0 {
        return Err(Error::unknown_escape_sequence(e, span_of(pos1 - 1, pos1 + 1)));
    }
    let end = if len <= n - i - 2 { i + 2 + len } else { n };
    let digits = copy_range(cs, i + 2, end);
    match parse_hex(digits.as_slice()) {
        None => Err(
            Error::invalid_hex_escape_sequence(
                string_from_chars(digits.as_slice()),
                span_of(pos1 - 1, pos1 + 1 + len),
            ),
        ),
        Some(v) => {
            let pos2 = pos1 + len;
            match char_from_u32(v) {
                None => Err(
                    Error::invalid_hex_escape_sequence(
                        string_from_chars(digits.as_slice()),
                        span_of(pos2 - 1, pos2 + 1 + len),
                    ),
                ),
                Some(ch) => {
                    assert(digits@.len() > 0);
                    Ok((ch, end, pos2 + 1))
                },
            }
        },
    }
}

/// The span `[start, end)`.
fn span_of(start: usize, end: usize) -> (r: Span)
    ensures
        r == (Span { start, end }),
{
    Span { start, end }
}

/// Resolves escape sequences in the content of a string literal whose content spans `span`.
pub fn resolve_string(content: String, flags: StringLiteralFlags, span: Span) -> (r: Result<
    String,
    Error,
>)
    requires
        span.start + content@.len() + 32 <= usize::MAX,
    ensures
        v_resolved(r) == spec_resolve_string(content@, flags, span),
{
    if flags.is_raw() {
        return Ok(content);
    }
    let cs = chars_of(content.as_str());
    let n = cs.len();
    let mut out: Vec<char> = Vec::new();
    let mut i: usize = 0;
    let mut pos: usize = span.start;
    let ghost total = resolve_from(cs@, 0, span.start as int);
    while i < n
        invariant
            n == cs@.len(),
            cs@ == content@,
            i <= n,
            span.start + n + 32 <= usize::MAX,
            i < n ==> pos <= span.start + i,
            pos <= span.start + i + 8,
            total == spec_resolve_string(content@, flags, span),
            total == with_prefix(out@, resolve_from(cs@, i as int, pos as int)),
        decreases n - i,
    {
        let ghost rest = resolve_from(cs@, i as int, pos as int);
        match escape_unit(&cs, i, pos) {
            Err(e) => {
                return Err(e);
            },
            Ok((c, j, p)) => {
                proof {
                    lemma_escape_step_advances(cs@, i as int, pos as int);
                    let r2 = resolve_from(cs@, j as int, p as int);
                    if r2 is Ok {
                        assert(out@.push(c) + r2->Ok_0 =~= out@ + (seq![c] + r2->Ok_0));
                    }
                }
                out.push(c);
                i = j;
                pos = p;
            },
        }
    }
    assert(out@ + Seq::<char>::empty() =~= out@);
    Ok(string_from_chars(out.as_slice()))
}

} // verus!
