//! Parsers of the small pieces of the grammar: binding patterns, block labels, and
//! visibility specifiers.

use vstd::prelude::*;
use crate::ast::{FieldVisibility, ItemVisibility, MemberVisibility, Pattern};
use crate::error::{v_error, Error, SpecError};
use crate::model::{v_name, v_sp_pat, SpecPattern};
use crate::pcore::{
    adv, fail_at, fail_at_exec, is_kw, is_kw_exec, moves, range_span, range_span_exec, skip_ws,
    skip_ws_exec, tok_is, tok_is_exec, vres, PRes, Toks,
};
use crate::span::Spanned;
use crate::token::TokenInfo;

verus! {

// ---------------------------------------------------------------------------------------------
// Binding patterns: `mut`? identifier.

/// A binding pattern at `p`: an optional `mut` keyword and whitespace, then an identifier. The
/// pattern spans both; its `mut_kw` is the span of the keyword.
pub open spec fn sp_pat(t: Toks, p: int) -> PRes<Spanned<SpecPattern>> {
    let (mut_kw, q) = if is_kw(t, p, "mut"@) {
        (Some(t[p].1), skip_ws(t, p + 1))
    } else {
        (None, p)
    };
    if 0 <= q < t.len() && t[q].0 is Ident {
        let ident = Spanned(t[q].0->Ident_0@, t[q].1);
        Ok((Spanned(SpecPattern::Ident { ident, mut_kw }, range_span(t, p, q + 1)), q + 1))
    } else {
        Err(fail_at(t, q))
    }
}

/// Parses a binding pattern at `p`.
pub fn pat_parser(t: &Vec<Spanned<TokenInfo>>, p: usize) -> (r: Result<(Spanned<Pattern>, usize), Error>)
    requires
        p <= t@.len(),
    ensures
        vres(r, |x: Spanned<Pattern>| v_sp_pat(x)) == sp_pat(t@, p as int),
        moves(t@, p as int, r),
{
    let (mut_kw, q) = if is_kw_exec(t, p, "mut") {
        (Some(t[p].1), skip_ws_exec(t, p + 1))
    } else {
        (None, p)
    };
    if q < t.len() {
        if let TokenInfo::Ident(name, _) = &t[q].0 {
            let ident = Spanned(name.clone(), t[q].1);
            let span = range_span_exec(t, p, q + 1);
            return Ok((Spanned(Pattern::Ident { ident, mut_kw }, span), q + 1));
        }
    }
    Err(fail_at_exec(t, q))
}

// ---------------------------------------------------------------------------------------------
// Block labels: `:name`.

/// A block label at `p`: a colon immediately followed by an identifier, spanning both.
pub open spec fn sp_block_label(t: Toks, p: int) -> PRes<Spanned<Seq<char>>> {
    if !tok_is(t, p, TokenInfo::Colon) {
        Err(fail_at(t, p))
    } else if p + 1 < t.len() && t[p + 1].0 is Ident {
        Ok((Spanned(t[p + 1].0->Ident_0@, range_span(t, p, p + 2)), p + 2))
    } else {
        Err(fail_at(t, p + 1))
    }
}

/// Parses a block label at `p`.
pub fn block_label(t: &Vec<Spanned<TokenInfo>>, p: usize) -> (r: Result<
    (Spanned<String>, usize),
    Error,
>)
    requires
        p <= t@.len(),
    ensures
        vres(r, |x: Spanned<String>| v_name(x)) == sp_block_label(t@, p as int),
        moves(t@, p as int, r),
{
    if !tok_is_exec(t, p, &TokenInfo::Colon) {
        return Err(fail_at_exec(t, p));
    }
    if p + 1 < t.len() {
        if let TokenInfo::Ident(name, _) = &t[p + 1].0 {
            return Ok((Spanned(name.clone(), range_span_exec(t, p, p + 2)), p + 2));
        }
    }
    Err(fail_at_exec(t, p + 1))
}

// ---------------------------------------------------------------------------------------------
// Item visibility: `private`, `public`, `public(mod | super | lib)`, or nothing.

/// The scope keyword of an item visibility at `p`.
pub open spec fn item_scope(t: Toks, p: int) -> Option<ItemVisibility> {
    if is_kw(t, p, "mod"@) {
        Some(ItemVisibility::Mod)
    } else if is_kw(t, p, "super"@) {
        Some(ItemVisibility::Super)
    } else if is_kw(t, p, "lib"@) {
        Some(ItemVisibility::Lib)
    } else {
        None
    }
}

/// A scope in parentheses at `p`, with whitespace allowed before, inside and around it.
pub open spec fn item_scope_parens(t: Toks, p: int) -> Option<(ItemVisibility, int)> {
    let a = skip_ws(t, p);
    let b = skip_ws(t, a + 1);
    let c = skip_ws(t, b + 1);
    if tok_is(t, a, TokenInfo::LeftParen) && item_scope(t, b) is Some && tok_is(
        t,
        c,
        TokenInfo::RightParen,
    ) {
        Some((item_scope(t, b)->Some_0, c + 1))
    } else {
        None
    }
}

/// The visibility of an item at `p`, and the position after it and the whitespace after it:
/// `private` is module visibility; `public` is public unless a scope in parentheses follows;
/// nothing written is module visibility.
pub open spec fn sp_item_vis(t: Toks, p: int) -> (ItemVisibility, int) {
    let (v, q) = if is_kw(t, p, "private"@) {
        (ItemVisibility::Mod, p + 1)
    } else if is_kw(t, p, "public"@) {
        match item_scope_parens(t, p + 1) {
            Some((v, r)) => (v, r),
            None => (ItemVisibility::Public, p + 1),
        }
    } else {
        (ItemVisibility::Mod, p)
    };
    (v, skip_ws(t, q))
}

fn item_scope_exec(t: &Vec<Spanned<TokenInfo>>, p: usize) -> (r: Option<ItemVisibility>)
    ensures
        r == item_scope(t@, p as int),
{
    if is_kw_exec(t, p, "mod") {
        Some(ItemVisibility::Mod)
    } else if is_kw_exec(t, p, "super") {
        Some(ItemVisibility::Super)
    } else if is_kw_exec(t, p, "lib") {
        Some(ItemVisibility::Lib)
    } else {
        None
    }
}

fn item_scope_parens_exec(t: &Vec<Spanned<TokenInfo>>, p: usize) -> (r: Option<(ItemVisibility, usize)>)
    requires
        p <= t@.len(),
    ensures
        match r {
            Some((v, q)) => item_scope_parens(t@, p as int) == Some((v, q as int)) && p <= q <= t@.len(),
            None => item_scope_parens(t@, p as int) is None,
        },
{
    let a = skip_ws_exec(t, p);
    if !tok_is_exec(t, a, &TokenInfo::LeftParen) {
        return None;
    }
    let b = skip_ws_exec(t, a + 1);
    let s = item_scope_exec(t, b);
    if s.is_none() {
        return None;
    }
    let c = skip_ws_exec(t, b + 1);
    if !tok_is_exec(t, c, &TokenInfo::RightParen) {
        return None;
    }
    Some((s.unwrap(), c + 1))
}

/// Parses the visibility of an item at `p`; this never fails.
pub fn item_vis_parser(t: &Vec<Spanned<TokenInfo>>, p: usize) -> (r: (ItemVisibility, usize))
    requires
        p <= t@.len(),
    ensures
        (r.0, r.1 as int) == sp_item_vis(t@, p as int),
        p <= r.1 <= t@.len(),
{
    let (v, q) = if is_kw_exec(t, p, "private") {
        (ItemVisibility::Mod, p + 1)
    } else if is_kw_exec(t, p, "public") {
        match item_scope_parens_exec(t, p + 1) {
            Some((v, r)) => (v, r),
            None => (ItemVisibility::Public, p + 1),
        }
    } else {
        (ItemVisibility::Mod, p)
    };
    (v, skip_ws_exec(t, q))
}

// ---------------------------------------------------------------------------------------------
// Member visibility: `private`, `public`, `public(private | sub | mod | super | lib)`, or
// nothing.

/// The scope keyword of a member visibility at `p`; `public(private)` is another way to write
/// `private`.
pub open spec fn member_scope(t: Toks, p: int) -> Option<MemberVisibility> {
    if is_kw(t, p, "private"@) {
        Some(MemberVisibility::Private)
    } else if is_kw(t, p, "sub"@) {
        Some(MemberVisibility::Sub)
    } else if is_kw(t, p, "mod"@) {
        Some(MemberVisibility::Mod)
    } else if is_kw(t, p, "super"@) {
        Some(MemberVisibility::Super)
    } else if is_kw(t, p, "lib"@) {
        Some(MemberVisibility::Lib)
    } else {
        None
    }
}

/// A member scope in parentheses at `p`, with whitespace allowed before, inside and around it.
pub open spec fn member_scope_parens(t: Toks, p: int) -> Option<(MemberVisibility, int)> {
    let a = skip_ws(t, p);
    let b = skip_ws(t, a + 1);
    let c = skip_ws(t, b + 1);
    if tok_is(t, a, TokenInfo::LeftParen) && member_scope(t, b) is Some && tok_is(
        t,
        c,
        TokenInfo::RightParen,
    ) {
        Some((member_scope(t, b)->Some_0, c + 1))
    } else {
        None
    }
}

/// The visibility of a member at `p`, spanning what was written of it, and the position after it
/// and the whitespace after it: `private` is private; `public` is public unless a scope in
/// parentheses follows; nothing written is module visibility.
pub open spec fn sp_member_vis(t: Toks, p: int) -> (Spanned<MemberVisibility>, int) {
    let (v, q) = if is_kw(t, p, "private"@) {
        (MemberVisibility::Private, p + 1)
    } else if is_kw(t, p, "public"@) {
        match member_scope_parens(t, p + 1) {
            Some((v, r)) => (v, r),
            None => (MemberVisibility::Public, p + 1),
        }
    } else {
        (MemberVisibility::Mod, p)
    };
    (Spanned(v, range_span(t, p, q)), skip_ws(t, q))
}

fn member_scope_exec(t: &Vec<Spanned<TokenInfo>>, p: usize) -> (r: Option<MemberVisibility>)
    ensures
        r == member_scope(t@, p as int),
{
    if is_kw_exec(t, p, "private") {
        Some(MemberVisibility::Private)
    } else if is_kw_exec(t, p, "sub") {
        Some(MemberVisibility::Sub)
    } else if is_kw_exec(t, p, "mod") {
        Some(MemberVisibility::Mod)
    } else if is_kw_exec(t, p, "super") {
        Some(MemberVisibility::Super)
    } else if is_kw_exec(t, p, "lib") {
        Some(MemberVisibility::Lib)
    } else {
        None
    }
}

fn member_scope_parens_exec(t: &Vec<Spanned<TokenInfo>>, p: usize) -> (r: Option<
    (MemberVisibility, usize),
>)
    requires
        p <= t@.len(),
    ensures
        match r {
            Some((v, q)) => member_scope_parens(t@, p as int) == Some((v, q as int)) && p <= q
                <= t@.len(),
            None => member_scope_parens(t@, p as int) is None,
        },
{
    let a = skip_ws_exec(t, p);
    if !tok_is_exec(t, a, &TokenInfo::LeftParen) {
        return None;
    }
    let b = skip_ws_exec(t, a + 1);
    let s = member_scope_exec(t, b);
    if s.is_none() {
        return None;
    }
    let c = skip_ws_exec(t, b + 1);
    if !tok_is_exec(t, c, &TokenInfo::RightParen) {
        return None;
    }
    Some((s.unwrap(), c + 1))
}

/// Parses the visibility of a member at `p`; this never fails.
pub fn member_vis_parser(t: &Vec<Spanned<TokenInfo>>, p: usize) -> (r: (Spanned<MemberVisibility>, usize))
    requires
        p <= t@.len(),
    ensures
        (r.0, r.1 as int) == sp_member_vis(t@, p as int),
        p <= r.1 <= t@.len(),
{
    let (v, q) = if is_kw_exec(t, p, "private") {
        (MemberVisibility::Private, p + 1)
    } else if is_kw_exec(t, p, "public") {
        match member_scope_parens_exec(t, p + 1) {
            Some((v, r)) => (v, r),
            None => (MemberVisibility::Public, p + 1),
        }
    } else {
        (MemberVisibility::Mod, p)
    };
    (Spanned(v, range_span_exec(t, p, q)), skip_ws_exec(t, q))
}

// ---------------------------------------------------------------------------------------------
// Field visibility: a member visibility, or `public(...)` with separate getter and setter
// visibilities.

/// The visibility that stands for an accessor that is not mentioned: private, written nowhere.
pub open spec fn fallback() -> (MemberVisibility, Option<crate::span::Span>) {
    (MemberVisibility::Private, None)
}

/// The visibility keyword before `get` or `set` at `p`, if any, and the position after it and
/// the whitespace after it.
pub open spec fn accessor_scope(t: Toks, p: int) -> (Option<MemberVisibility>, int) {
    let (v, q) = if is_kw(t, p, "private"@) {
        (Some(MemberVisibility::Private), p + 1)
    } else if is_kw(t, p, "sub"@) {
        (Some(MemberVisibility::Sub), p + 1)
    } else if is_kw(t, p, "mod"@) {
        (Some(MemberVisibility::Mod), p + 1)
    } else if is_kw(t, p, "super"@) {
        (Some(MemberVisibility::Super), p + 1)
    } else if is_kw(t, p, "lib"@) {
        (Some(MemberVisibility::Lib), p + 1)
    } else {
        (None, p)
    };
    (v, skip_ws(t, q))
}

/// An accessor visibility at `p`: an optional scope, then the keyword `word`. An accessor
/// without a scope is public. The span covers the scope and the keyword.
pub open spec fn accessor(t: Toks, p: int, word: Seq<char>) -> Option<
    ((MemberVisibility, Option<crate::span::Span>), int),
> {
    let (v, q) = accessor_scope(t, p);
    if is_kw(t, q, word) {
        Some(
            (
                (
                    match v {
                        Some(m) => m,
                        None => MemberVisibility::Public,
                    },
                    Some(range_span(t, p, q + 1)),
                ),
                q + 1,
            ),
        )
    } else {
        None
    }
}

/// The accessor list inside `public(...)` at `p`: a getter and a setter separated by a comma,
/// a getter alone (private setter), or a setter alone (private getter).
pub open spec fn accessor_list(t: Toks, p: int) -> Option<(FieldVisibility, int)> {
    match accessor(t, p, "get"@) {
        Some((g, b)) => {
            let c = skip_ws(t, b);
            let d = skip_ws(t, c + 1);
            if tok_is(t, c, TokenInfo::Comma) && accessor(t, d, "set"@) is Some {
                let (s, e) = accessor(t, d, "set"@)->Some_0;
                Some((FieldVisibility { get: g, set: s }, e))
            } else {
                Some((FieldVisibility { get: g, set: fallback() }, b))
            }
        },
        None => match accessor(t, p, "set"@) {
            Some((s, e)) => Some((FieldVisibility { get: fallback(), set: s }, e)),
            None => None,
        },
    }
}

/// The expanded form `public(...)` at `p`, with the parenthesis right after `public`.
pub open spec fn expanded_field_vis(t: Toks, p: int) -> Option<(Spanned<FieldVisibility>, int)> {
    if is_kw(t, p, "public"@) && tok_is(t, p + 1, TokenInfo::LeftParen) {
        let a = skip_ws(t, p + 2);
        match accessor_list(t, a) {
            Some((fv, b)) => {
                let c = skip_ws(t, b);
                if tok_is(t, c, TokenInfo::RightParen) {
                    Some((Spanned(fv, range_span(t, p, c + 1)), c + 1))
                } else {
                    None
                }
            },
            None => None,
        }
    } else {
        None
    }
}

/// The visibility of a field at `p`, and the position after it and the whitespace after it:
/// the expanded form if it is there, else a member visibility for both accessors.
pub open spec fn sp_field_vis(t: Toks, p: int) -> (Spanned<FieldVisibility>, int) {
    match expanded_field_vis(t, p) {
        Some((fv, q)) => (fv, skip_ws(t, q)),
        None => {
            let (mv, q) = sp_member_vis(t, p);
            (Spanned(FieldVisibility { get: (mv.0, None), set: (mv.0, None) }, mv.1), skip_ws(t, q))
        },
    }
}

fn accessor_scope_exec(t: &Vec<Spanned<TokenInfo>>, p: usize) -> (r: (Option<MemberVisibility>, usize))
    requires
        p <= t@.len(),
    ensures
        (r.0, r.1 as int) == accessor_scope(t@, p as int),
        p <= r.1 <= t@.len(),
{
    let (v, q) = if is_kw_exec(t, p, "private") {
        (Some(MemberVisibility::Private), p + 1)
    } else if is_kw_exec(t, p, "sub") {
        (Some(MemberVisibility::Sub), p + 1)
    } else if is_kw_exec(t, p, "mod") {
        (Some(MemberVisibility::Mod), p + 1)
    } else if is_kw_exec(t, p, "super") {
        (Some(MemberVisibility::Super), p + 1)
    } else if is_kw_exec(t, p, "lib") {
        (Some(MemberVisibility::Lib), p + 1)
    } else {
        (None, p)
    };
    (v, skip_ws_exec(t, q))
}

fn accessor_exec(t: &Vec<Spanned<TokenInfo>>, p: usize, word: &str) -> (r: Option<
    ((MemberVisibility, Option<crate::span::Span>), usize),
>)
    requires
        p <= t@.len(),
    ensures
        match r {
            Some((a, q)) => accessor(t@, p as int, word@) == Some((a, q as int)) && p <= q
                <= t@.len(),
            None => accessor(t@, p as int, word@) is None,
        },
{
    let (v, q) = accessor_scope_exec(t, p);
    if is_kw_exec(t, q, word) {
        let m = match v {
            Some(m) => m,
            None => MemberVisibility::Public,
        };
        Some(((m, Some(range_span_exec(t, p, q + 1))), q + 1))
    } else {
        None
    }
}

fn accessor_list_exec(t: &Vec<Spanned<TokenInfo>>, p: usize) -> (r: Option<(FieldVisibility, usize)>)
    requires
        p <= t@.len(),
    ensures
        match r {
            Some((f, q)) => accessor_list(t@, p as int) == Some((f, q as int)) && p <= q <= t@.len(),
            None => accessor_list(t@, p as int) is None,
        },
{
    let fb = (MemberVisibility::Private, None);
    match accessor_exec(t, p, "get") {
        Some((g, b)) => {
            let c = skip_ws_exec(t, b);
            if tok_is_exec(t, c, &TokenInfo::Comma) {
                let d = skip_ws_exec(t, c + 1);
                if let Some((s, e)) = accessor_exec(t, d, "set") {
                    return Some((FieldVisibility { get: g, set: s }, e));
                }
            }
            Some((FieldVisibility { get: g, set: fb }, b))
        },
        None => match accessor_exec(t, p, "set") {
            Some((s, e)) => Some((FieldVisibility { get: fb, set: s }, e)),
            None => None,
        },
    }
}

fn expanded_field_vis_exec(t: &Vec<Spanned<TokenInfo>>, p: usize) -> (r: Option<
    (Spanned<FieldVisibility>, usize),
>)
    requires
        p <= t@.len(),
    ensures
        match r {
            Some((f, q)) => expanded_field_vis(t@, p as int) == Some((f, q as int)) && p <= q
                <= t@.len(),
            None => expanded_field_vis(t@, p as int) is None,
        },
{
    if !(is_kw_exec(t, p, "public") && tok_is_exec(t, p + 1, &TokenInfo::LeftParen)) {
        return None;
    }
    let a = skip_ws_exec(t, p + 2);
    match accessor_list_exec(t, a) {
        Some((fv, b)) => {
            let c = skip_ws_exec(t, b);
            if tok_is_exec(t, c, &TokenInfo::RightParen) {
                Some((Spanned(fv, range_span_exec(t, p, c + 1)), c + 1))
            } else {
                None
            }
        },
        None => None,
    }
}

/// How private a member visibility is: `public`, then `public(lib)`, `public(super)`,
/// `public(mod)`, `public(sub)`, and `private`, from least to most private.
pub open spec fn privacy(v: MemberVisibility) -> nat {
    match v {
        MemberVisibility::Public => 0,
        MemberVisibility::Lib => 1,
        MemberVisibility::Super => 2,
        MemberVisibility::Mod => 3,
        MemberVisibility::Sub => 4,
        MemberVisibility::Private => 5,
    }
}

/// Whether the setter of `fv` is as private as its getter, or more.
pub open spec fn setter_within_getter(fv: FieldVisibility) -> bool {
    privacy(fv.set.0) >= privacy(fv.get.0)
}

/// The visibility of a field at `p`, as read by `sp_field_vis`, if its setter is as private as
/// its getter or more; else an error spanning the visibility.
pub open spec fn sp_field_vis_checked(t: Toks, p: int) -> PRes<Spanned<FieldVisibility>> {
    let (fv, q) = sp_field_vis(t, p);
    if setter_within_getter(fv.0) {
        Ok((fv, q))
    } else {
        Err(
            SpecError {
                info: crate::error::SpecErrorInfo::SetterMorePublicThanGetter,
                span: fv.1,
            },
        )
    }
}

fn privacy_exec(v: MemberVisibility) -> (r: u8)
    ensures
        r as nat == privacy(v),
{
    match v {
        MemberVisibility::Public => 0,
        MemberVisibility::Lib => 1,
        MemberVisibility::Super => 2,
        MemberVisibility::Mod => 3,
        MemberVisibility::Sub => 4,
        MemberVisibility::Private => 5,
    }
}

/// Parses the visibility of a field at `p`. It fails when the setter would be more public than
/// the getter, as in `public(set)` or `public(mod get, lib set)`.
pub fn field_vis_parser(t: &Vec<Spanned<TokenInfo>>, p: usize) -> (r: Result<
    (Spanned<FieldVisibility>, usize),
    Error,
>)
    requires
        p <= t@.len(),
    ensures
        vres(r, |x: Spanned<FieldVisibility>| x) == sp_field_vis_checked(t@, p as int),
        moves(t@, p as int, r),
        r matches Ok((fv, _)) ==> privacy(fv.0.set.0) >= privacy(fv.0.get.0),
{
    let (fv, q) = match expanded_field_vis_exec(t, p) {
        Some((fv, q)) => (fv, skip_ws_exec(t, q)),
        None => {
            let (mv, q) = member_vis_parser(t, p);
            let m = mv.0;
            (Spanned(FieldVisibility { get: (m, None), set: (m, None) }, mv.1), skip_ws_exec(t, q))
        },
    };
    if privacy_exec(fv.0.set.0) >= privacy_exec(fv.0.get.0) {
        Ok((fv, q))
    } else {
        Err(Error::setter_more_public_than_getter(fv.1))
    }
}

} // verus!
