//! The parser of `break`, `continue` and `return` statements.

use vstd::prelude::*;
use crate::ast::{Expr, Node};
use crate::error::{Error, SpecError};
use crate::grammar::{
    sp_break, sp_cond_opt, sp_continue, sp_expr, sp_expr_opt, sp_label_opt_padded, sp_return,
    sp_value_cond,
};
use crate::model::{SpecExpr, SpecNode, v_opt_expr, v_opt_name};
use crate::pcore::{
    fail_at, fail_at_exec, is_kw, is_kw_exec, moves, range_span, range_span_exec, skip_ws,
    skip_ws_exec, tok_is, tok_is_exec, wf_toks, Toks,
};
use crate::pstmt::{parse_cond_opt, parse_expr_opt, parse_label_opt_padded};
use crate::pview::vr_node;
use crate::span::Spanned;
use crate::token::TokenInfo;

verus! {

/// Parses an optional value, then an optional condition, at `b`; this never fails.
pub(crate) fn parse_value_cond(t: &Vec<Spanned<TokenInfo>>, b: usize) -> (r: (
    Option<Spanned<Expr>>,
    Option<Spanned<Expr>>,
    usize,
))
    requires
        b <= t@.len(),
        wf_toks(t@),
    ensures
        sp_value_cond(t@, b as int) == Ok::<
            ((Option<Spanned<SpecExpr>>, Option<Spanned<SpecExpr>>), int),
            SpecError,
        >(((v_opt_expr(r.0), v_opt_expr(r.1)), r.2 as int)),
        b <= r.2 <= t@.len(),
    decreases t@.len() - b, 57nat,
{
    reveal(sp_value_cond);
    reveal(sp_expr_opt);
    reveal(sp_cond_opt);
    let (value, c) = parse_expr_opt(t, b);
    let (cond, d) = parse_cond_opt(t, c);
    proof {
        lemma_value_cond(t@, b as int, v_opt_expr(value), c as int, v_opt_expr(cond), d as int);
    }
    (value, cond, d)
}

/// The optional value and condition at `b`, from the optional value and the optional condition.
proof fn lemma_value_cond(
    t: Toks,
    b: int,
    value: Option<Spanned<SpecExpr>>,
    c: int,
    cond: Option<Spanned<SpecExpr>>,
    d: int,
)
    requires
        0 <= b <= c <= t.len(),
        sp_expr_opt(t, b) == (value, c),
        sp_cond_opt(t, c) == (cond, d),
    ensures
        sp_value_cond(t, b) == Ok::<
            ((Option<Spanned<SpecExpr>>, Option<Spanned<SpecExpr>>), int),
            SpecError,
        >(((value, cond), d)),
{
    reveal(sp_expr_opt);
    reveal(sp_cond_opt);
    reveal(sp_value_cond);
    reveal(sp_expr);
}

/// A `break` statement at `p`, from its parts.
proof fn lemma_break(
    t: Toks,
    p: int,
    label: Option<Spanned<Seq<char>>>,
    b: int,
    value: Option<Spanned<SpecExpr>>,
    cond: Option<Spanned<SpecExpr>>,
    d: int,
)
    requires
        is_kw(t, p, "break"@),
        sp_label_opt_padded(t, p + 1) == (label, b),
        p + 1 <= b <= t.len(),
        sp_value_cond(t, b) == Ok::<
            ((Option<Spanned<SpecExpr>>, Option<Spanned<SpecExpr>>), int),
            SpecError,
        >(((value, cond), d)),
    ensures
        sp_break(t, p) == if tok_is(t, d, TokenInfo::Semicolon) {
            Ok::<(Spanned<SpecNode>, int), SpecError>(
                (
                    Spanned(
                        SpecNode::Break { kw: t[p].1, label, value, cond },
                        range_span(t, p, d + 1),
                    ),
                    skip_ws(t, d + 1),
                ),
            )
        } else {
            Err(fail_at(t, d))
        },
{
    reveal(sp_value_cond);
    reveal(sp_break);
    reveal(sp_expr_opt);
    reveal(sp_cond_opt);
}

pub(crate) fn parse_break(t: &Vec<Spanned<TokenInfo>>, p: usize) -> (r: Result<(Spanned<Node>, usize), Error>)
    requires
        p <= t@.len(),
        wf_toks(t@),
    ensures
        vr_node(r) == sp_break(t@, p as int),
        moves(t@, p as int, r),
    decreases t@.len() - p, 56nat,
{
    reveal(sp_break);
    reveal(sp_value_cond);
    if !is_kw_exec(t, p, "break") {
        return Err(fail_at_exec(t, p));
    }
    let (label, b) = parse_label_opt_padded(t, p + 1);
    let (value, cond, d) = parse_value_cond(t, b);
    proof {
        lemma_break(
            t@,
            p as int,
            v_opt_name(label),
            b as int,
            v_opt_expr(value),
            v_opt_expr(cond),
            d as int,
        );
    }
    if tok_is_exec(t, d, &TokenInfo::Semicolon) {
        let kw = t[p].1;
        let span = range_span_exec(t, p, d + 1);
        let q = skip_ws_exec(t, d + 1);
        Ok((Spanned(Node::Break { kw, label, value, cond }, span), q))
    } else {
        Err(fail_at_exec(t, d))
    }
}

pub(crate) fn parse_continue(t: &Vec<Spanned<TokenInfo>>, p: usize) -> (r: Result<(Spanned<Node>, usize), Error>)
    requires
        p <= t@.len(),
        wf_toks(t@),
    ensures
        vr_node(r) == sp_continue(t@, p as int),
        moves(t@, p as int, r),
    decreases t@.len() - p, 56nat,
{
    reveal(sp_continue);
    reveal(sp_cond_opt);
    if !is_kw_exec(t, p, "continue") {
        return Err(fail_at_exec(t, p));
    }
    let (label, b) = parse_label_opt_padded(t, p + 1);
    let (cond, d) = parse_cond_opt(t, b);
    if tok_is_exec(t, d, &TokenInfo::Semicolon) {
        let kw = t[p].1;
        let span = range_span_exec(t, p, d + 1);
        let q = skip_ws_exec(t, d + 1);
        Ok((Spanned(Node::Continue { kw, label, cond }, span), q))
    } else {
        Err(fail_at_exec(t, d))
    }
}

pub(crate) fn parse_return(t: &Vec<Spanned<TokenInfo>>, p: usize) -> (r: Result<(Spanned<Node>, usize), Error>)
    requires
        p <= t@.len(),
        wf_toks(t@),
    ensures
        vr_node(r) == sp_return(t@, p as int),
        moves(t@, p as int, r),
    decreases t@.len() - p, 56nat,
{
    reveal(sp_return);
    reveal(sp_value_cond);
    if !is_kw_exec(t, p, "return") {
        return Err(fail_at_exec(t, p));
    }
    let b = skip_ws_exec(t, p + 1);
    let (value, cond, d) = parse_value_cond(t, b);
    if tok_is_exec(t, d, &TokenInfo::Semicolon) {
        let kw = t[p].1;
        let span = range_span_exec(t, p, d + 1);
        let q = skip_ws_exec(t, d + 1);
        Ok((Spanned(Node::Return { kw, value, cond }, span), q))
    } else {
        Err(fail_at_exec(t, d))
    }
}

} // verus!
