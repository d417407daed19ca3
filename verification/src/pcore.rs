//! The vocabulary of the grammar: positions in a token sequence, spans of consumed tokens,
//! errors, and the parsers of single tokens and whitespace.

use vstd::prelude::*;
use crate::error::{v_error, Error, ErrorInfo, SpecError, SpecErrorInfo};
use crate::span::{Span, Spanned};
use crate::token::{is_plain, TokenInfo};

verus! {

/// A sequence of spanned tokens.
pub type Toks = Seq<Spanned<TokenInfo>>;

/// The result of a parser that starts at some position: what was parsed and the position after
/// it, or an error.
pub type PRes<T> = Result<(T, int), SpecError>;

/// The source offset where the tokens end.
pub open spec fn end_offset(t: Toks) -> usize {
    if t.len() == 0 {
        0
    } else {
        t.last().1.end
    }
}

/// The source offset where the token at `p` starts, or where the tokens end.
pub open spec fn next_start(t: Toks, p: int) -> usize {
    if 0 <= p < t.len() {
        t[p].1.start
    } else {
        end_offset(t)
    }
}

/// The span of the tokens `[p, q)`: from the start of the first to the end of the last, or an
/// empty span where the next token starts if there are none.
pub open spec fn range_span(t: Toks, p: int, q: int) -> Span {
    if p < q {
        Span { start: t[p].1.start, end: t[q - 1].1.end }
    } else {
        Span { start: next_start(t, p), end: next_start(t, p) }
    }
}

/// The error of a parser that does not accept the token at `p`, or the end of input.
pub open spec fn fail_at(t: Toks, p: int) -> SpecError {
    if 0 <= p < t.len() {
        SpecError { info: SpecErrorInfo::UnexpectedInput(Some(t[p].0)), span: t[p].1 }
    } else {
        SpecError {
            info: SpecErrorInfo::UnexpectedInput(None),
            span: Span { start: end_offset(t), end: end_offset(t) },
        }
    }
}

/// Of the errors of two alternatives, the one that got further; the second on a tie.
pub open spec fn furthest(a: SpecError, b: SpecError) -> SpecError {
    if a.span.start > b.span.start {
        a
    } else {
        b
    }
}

/// The first position at or after `p` that does not hold whitespace.
pub open spec fn skip_ws(t: Toks, p: int) -> int
    decreases t.len() - p,
{
    if 0 <= p < t.len() && t[p].0 is Whitespace {
        skip_ws(t, p + 1)
    } else {
        p
    }
}

/// Whether the token at `p` is `k`.
pub open spec fn tok_is(t: Toks, p: int, k: TokenInfo) -> bool {
    0 <= p < t.len() && t[p].0 == k
}

/// Whether the token at `p` is the keyword `name`: a non-raw identifier spelled `name`.
pub open spec fn is_kw(t: Toks, p: int, name: Seq<char>) -> bool {
    0 <= p < t.len() && (t[p].0 matches TokenInfo::Ident(n, false) && n@ == name)
}

/// Whether `q` is a position at or after `p`, within the tokens.
pub open spec fn adv(t: Toks, p: int, q: int) -> bool {
    p <= q <= t.len()
}

/// The view of an executable parse result, through `f`.
pub open spec fn vres<X, S>(r: Result<(X, usize), Error>, f: spec_fn(X) -> S) -> PRes<S> {
    match r {
        Ok((x, q)) => Ok((f(x), q as int)),
        Err(e) => Err(v_error(e)),
    }
}

/// An executable result moves forward from `p` and stays within the tokens.
pub open spec fn moves<X>(t: Toks, p: int, r: Result<(X, usize), Error>) -> bool {
    r matches Ok((_, q)) ==> p <= q <= t.len()
}

/// Whether the literal tokens are fit to be resolved: each content can be resolved without its
/// offsets overflowing, and each character literal has some content.
#[verifier::opaque]
pub open spec fn wf_toks(t: Toks) -> bool {
    forall|i: int|
        0 <= i < t.len() ==> match #[trigger] t[i].0 {
            TokenInfo::StringLiteral(c, _, s) => s.start + c@.len() + 32 <= usize::MAX,
            TokenInfo::CharLiteral(c, s) => s.start + c@.len() + 32 <= usize::MAX && c@.len() > 0,
            _ => true,
        }
}

/// Whitespace is skipped to a later position within the tokens.
pub proof fn lemma_skip_ws(t: Toks, p: int)
    requires
        0 <= p <= t.len(),
    ensures
        p <= skip_ws(t, p) <= t.len(),
        skip_ws(t, p) < t.len() ==> !(t[skip_ws(t, p)].0 is Whitespace),
        skip_ws(t, skip_ws(t, p)) == skip_ws(t, p),
    decreases t.len() - p,
{
    if p < t.len() && t[p].0 is Whitespace {
        lemma_skip_ws(t, p + 1);
    }
}

/// Skips whitespace from `p`.
pub fn skip_ws_exec(t: &Vec<Spanned<TokenInfo>>, p: usize) -> (q: usize)
    requires
        p <= t@.len(),
    ensures
        q == skip_ws(t@, p as int),
        p <= q <= t@.len() <= usize::MAX,
{
    let mut q = p;
    while q < t.len() && matches!(t[q].0, TokenInfo::Whitespace)
        invariant
            p <= q <= t@.len(),
            skip_ws(t@, q as int) == skip_ws(t@, p as int),
        decreases t@.len() - q,
    {
        q = q + 1;
    }
    q
}

/// The source offset where the tokens end.
pub fn end_offset_exec(t: &Vec<Spanned<TokenInfo>>) -> (r: usize)
    ensures
        r == end_offset(t@),
{
    if t.len() == 0 {
        0
    } else {
        t[t.len() - 1].1.end
    }
}

/// The span of the tokens `[p, q)`.
pub fn range_span_exec(t: &Vec<Spanned<TokenInfo>>, p: usize, q: usize) -> (r: Span)
    requires
        q <= t@.len(),
    ensures
        r == range_span(t@, p as int, q as int),
{
    if p < q {
        Span { start: t[p].1.start, end: t[q - 1].1.end }
    } else if p < t.len() {
        Span { start: t[p].1.start, end: t[p].1.start }
    } else {
        let e = end_offset_exec(t);
        Span { start: e, end: e }
    }
}

/// The error of a parser that does not accept what is at `p`.
pub fn fail_at_exec(t: &Vec<Spanned<TokenInfo>>, p: usize) -> (r: Error)
    ensures
        v_error(r) == fail_at(t@, p as int),
{
    if p < t.len() {
        Error { info: ErrorInfo::UnexpectedInput(Some(t[p].0.duplicate())), span: t[p].1 }
    } else {
        let e = end_offset_exec(t);
        Error { info: ErrorInfo::UnexpectedInput(None), span: Span { start: e, end: e } }
    }
}

/// Of two errors, the one that got further; the second on a tie.
pub fn furthest_exec(a: Error, b: Error) -> (r: Error)
    ensures
        v_error(r) == furthest(v_error(a), v_error(b)),
{
    if a.span.start > b.span.start {
        a
    } else {
        b
    }
}

/// Whether the token at `p` is the payload-free token `k`.
pub fn tok_is_exec(t: &Vec<Spanned<TokenInfo>>, p: usize, k: &TokenInfo) -> (r: bool)
    requires
        is_plain(*k),
    ensures
        r == tok_is(t@, p as int, *k),
        r ==> (p as int) + 1 <= t@.len() <= usize::MAX,
{
    p < t.len() && t[p].0.is(k)
}

/// Whether `name` is spelled `word`.
pub fn spelled(name: &String, word: &str) -> (r: bool)
    ensures
        r == (name@ == word@),
{
    *name == String::from_str(word)
}

/// Whether the token at `p` is the keyword `word`.
pub fn is_kw_exec(t: &Vec<Spanned<TokenInfo>>, p: usize, word: &str) -> (r: bool)
    ensures
        r == is_kw(t@, p as int, word@),
        r ==> (p as int) + 1 <= t@.len() <= usize::MAX,
{
    if p < t.len() {
        match &t[p].0 {
            TokenInfo::Ident(n, raw) => !*raw && spelled(n, word),
            _ => false,
        }
    } else {
        false
    }
}

} // verus!
