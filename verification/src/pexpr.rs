//! The parser of expressions: assignments, ternaries, and the expressions that are not assignments.

use vstd::prelude::*;
use crate::ast::{AssignmentOperator, AssignmentTarget, Expr, Node, Pattern};
use crate::error::{Error, SpecError, v_error};
use crate::grammar::{
    as_block, as_expr_block, assign_op_at, sp_ambiguous, sp_assign, sp_assign_pair, sp_assign_target, sp_binary,
    sp_brace_ending, sp_expr, sp_ternary,
};
use crate::model::{SpecExpr, v_elifs, v_opt_body, v_sp_expr, v_target};
use crate::parse_misc::pat_parser;
use crate::pbrace::brace_ending_expr;
use crate::pcore::{
    fail_at_exec, furthest_exec, is_kw_exec, moves, range_span_exec, skip_ws_exec, tok_is,
    tok_is_exec, vres, wf_toks,
};
use crate::pops::parse_binary;
use crate::pview::{expr_node_block_exec, vr_expr};
use crate::span::Spanned;
use crate::token::TokenInfo;

verus! {

/// Parses an expression at `p`.
pub fn expr_parser(t: &Vec<Spanned<TokenInfo>>, p: usize) -> (r: Result<(Spanned<Expr>, usize), Error>)
    requires
        p <= t@.len(),
        wf_toks(t@),
    ensures
        vr_expr(r) == sp_expr(t@, p as int),
        moves(t@, p as int, r),
    decreases t@.len() - p, 30nat,
{
    reveal(sp_expr);
    reveal(sp_assign);
    let a = skip_ws_exec(t, p);
    let (e, b) = parse_assign(t, a)?;
    Ok((e, skip_ws_exec(t, b)))
}

pub(crate) fn parse_assign(t: &Vec<Spanned<TokenInfo>>, p: usize) -> (r: Result<(Spanned<Expr>, usize), Error>)
    requires
        p <= t@.len(),
        wf_toks(t@),
    ensures
        vr_expr(r) == sp_assign(t@, p as int),
        moves(t@, p as int, r),
    decreases t@.len() - p, 29nat,
{
    reveal(sp_assign);
    reveal(sp_assign_pair);
    reveal(sp_ambiguous);
    match parse_assign_pair(t, p) {
        Ok((target, op, b)) => {
            if p < b {
                match parse_assign(t, b) {
                    Ok((v, c)) => {
                        let span = target.1.merge(v.1);
                        Ok((Spanned(Expr::Assign { target, op, value: Box::new(v) }, span), c))
                    },
                    Err(e) => Err(e),
                }
            } else {
                parse_ambiguous(t, p)
            }
        },
        Err(_) => parse_ambiguous(t, p),
    }
}

pub(crate) fn parse_assign_target(t: &Vec<Spanned<TokenInfo>>, p: usize) -> (r: Result<
    (Spanned<AssignmentTarget>, usize),
    Error,
>)
    requires
        p <= t@.len(),
        wf_toks(t@),
    ensures
        vres(r, |x: Spanned<AssignmentTarget>| Spanned(v_target(x.0), x.1)) == sp_assign_target(
            t@,
            p as int,
        ),
        moves(t@, p as int, r),
    decreases t@.len() - p, 27nat,
{
    reveal(sp_assign_target);
    reveal(sp_expr);
    let first: Result<(Spanned<AssignmentTarget>, usize), Error> = match pat_parser(t, p) {
        Err(e) => Err(e),
        Ok((pat, b)) => {
            let Spanned(pv, ps) = pat;
            match pv {
                Pattern::Ident { ident, mut_kw: Some(s) } => Err(
                    Error::mutable_assignment_target(s, ident),
                ),
                pv => Ok((Spanned(AssignmentTarget::Pattern(pv), ps), b)),
            }
        },
    };
    match first {
        Ok(r) => Ok(r),
        Err(e1) => {
            if !tok_is_exec(t, p, &TokenInfo::And) {
                return Err(furthest_exec(e1, fail_at_exec(t, p)));
            }
            let a = skip_ws_exec(t, p + 1);
            match expr_parser(t, a) {
                Err(e2) => Err(furthest_exec(e1, e2)),
                Ok((x, c)) => {
                    let span = range_span_exec(t, p, c);
                    Ok((Spanned(AssignmentTarget::Pointer(Box::new(x)), span), c))
                },
            }
        },
    }
}

pub(crate) fn tok_is_off(t: &Vec<Spanned<TokenInfo>>, p: usize, off: usize, k: &TokenInfo) -> (r: bool)
    requires
        p <= t@.len(),
        crate::token::is_plain(*k),
    ensures
        r == tok_is(t@, p + off, *k),
        r ==> p + off + 1 <= t@.len(),
{
    if off < t.len() - p {
        tok_is_exec(t, p + off, k)
    } else {
        false
    }
}

pub(crate) fn assign_op_at_exec(t: &Vec<Spanned<TokenInfo>>, p: usize) -> (r: Option<(AssignmentOperator, usize)>)
    requires
        p <= t@.len(),
    ensures
        match r {
            Some((op, n)) => assign_op_at(t@, p as int) == Some((op, n as int)) && p + n <= t@.len(),
            None => assign_op_at(t@, p as int) is None,
        },
{
    if tok_is_off(t, p, 0, &TokenInfo::Lt) && tok_is_off(t, p, 1, &TokenInfo::Lt) && tok_is_off(t, p, 2, &TokenInfo::Equals) {
        Some((AssignmentOperator::ShlAssign, 3))
    } else if tok_is_off(t, p, 0, &TokenInfo::Gt) && tok_is_off(t, p, 1, &TokenInfo::Gt) && tok_is_off(t, p, 2, &TokenInfo::Equals) {
        Some((AssignmentOperator::ShrAssign, 3))
    } else if tok_is_off(t, p, 0, &TokenInfo::Asterisk) && tok_is_off(t, p, 1, &TokenInfo::Asterisk) && tok_is_off(t, p, 2, &TokenInfo::Equals) {
        Some((AssignmentOperator::PowAssign, 3))
    } else if tok_is_off(t, p, 0, &TokenInfo::Or) && tok_is_off(t, p, 1, &TokenInfo::Or) && tok_is_off(t, p, 2, &TokenInfo::Equals) {
        Some((AssignmentOperator::LogicalOrAssign, 3))
    } else if tok_is_off(t, p, 0, &TokenInfo::And) && tok_is_off(t, p, 1, &TokenInfo::And) && tok_is_off(t, p, 2, &TokenInfo::Equals) {
        Some((AssignmentOperator::LogicalAndAssign, 3))
    } else if tok_is_off(t, p, 0, &TokenInfo::Plus) && tok_is_off(t, p, 1, &TokenInfo::Equals) {
        Some((AssignmentOperator::AddAssign, 2))
    } else if tok_is_off(t, p, 0, &TokenInfo::Minus) && tok_is_off(t, p, 1, &TokenInfo::Equals) {
        Some((AssignmentOperator::SubAssign, 2))
    } else if tok_is_off(t, p, 0, &TokenInfo::Asterisk) && tok_is_off(t, p, 1, &TokenInfo::Equals) {
        Some((AssignmentOperator::MulAssign, 2))
    } else if tok_is_off(t, p, 0, &TokenInfo::Divide) && tok_is_off(t, p, 1, &TokenInfo::Equals) {
        Some((AssignmentOperator::DivAssign, 2))
    } else if tok_is_off(t, p, 0, &TokenInfo::Modulus) && tok_is_off(t, p, 1, &TokenInfo::Equals) {
        Some((AssignmentOperator::ModAssign, 2))
    } else if tok_is_off(t, p, 0, &TokenInfo::Or) && tok_is_off(t, p, 1, &TokenInfo::Equals) {
        Some((AssignmentOperator::BitOrAssign, 2))
    } else if tok_is_off(t, p, 0, &TokenInfo::And) && tok_is_off(t, p, 1, &TokenInfo::Equals) {
        Some((AssignmentOperator::BitAndAssign, 2))
    } else if tok_is_off(t, p, 0, &TokenInfo::Caret) && tok_is_off(t, p, 1, &TokenInfo::Equals) {
        Some((AssignmentOperator::BitXorAssign, 2))
    } else if tok_is_off(t, p, 0, &TokenInfo::Equals) && !tok_is_off(t, p, 1, &TokenInfo::Equals) {
        Some((AssignmentOperator::Assign, 1))
    } else {
        None
    }
}

pub(crate) fn parse_assign_pair(t: &Vec<Spanned<TokenInfo>>, p: usize) -> (r: Result<
    (Spanned<AssignmentTarget>, Spanned<AssignmentOperator>, usize),
    Error,
>)
    requires
        p <= t@.len(),
        wf_toks(t@),
    ensures
        match (r, sp_assign_pair(t@, p as int)) {
            (Ok((tg, op, q)), Ok((stg, sop, sq))) => Spanned(v_target(tg.0), tg.1) == stg && op
                == sop && q == sq,
            (Err(e), Err(se)) => v_error(e) == se,
            _ => false,
        },
        r matches Ok((_, _, q)) ==> p <= q <= t@.len(),
    decreases t@.len() - p, 28nat,
{
    reveal(sp_assign_pair);
    reveal(sp_assign_target);
    let (target, b) = parse_assign_target(t, p)?;
    let c = skip_ws_exec(t, b);
    match assign_op_at_exec(t, c) {
        Some((op, n)) => {
            let span = range_span_exec(t, c, c + n);
            Ok((target, Spanned(op, span), skip_ws_exec(t, c + n)))
        },
        None => Err(fail_at_exec(t, c)),
    }
}

pub(crate) fn parse_ambiguous(t: &Vec<Spanned<TokenInfo>>, p: usize) -> (r: Result<(Spanned<Expr>, usize), Error>)
    requires
        p <= t@.len(),
        wf_toks(t@),
    ensures
        vr_expr(r) == sp_ambiguous(t@, p as int),
        moves(t@, p as int, r),
    decreases t@.len() - p, 27nat,
{
    reveal(sp_ambiguous);
    reveal(sp_ternary);
    reveal(sp_brace_ending);
    reveal(sp_binary);
    let e1 = match brace_ending_expr(t, p) {
        Ok(r) => return Ok(r),
        Err(e) => e,
    };
    let e2 = match parse_ternary(t, p) {
        Ok(r) => return Ok(r),
        Err(e) => e,
    };
    let e3 = match parse_binary(t, p, 5) {
        Ok(r) => return Ok(r),
        Err(e) => e,
    };
    Err(furthest_exec(furthest_exec(e1, e2), e3))
}

pub(crate) fn parse_ternary(t: &Vec<Spanned<TokenInfo>>, p: usize) -> (r: Result<(Spanned<Expr>, usize), Error>)
    requires
        p <= t@.len(),
        wf_toks(t@),
    ensures
        vr_expr(r) == sp_ternary(t@, p as int),
        moves(t@, p as int, r),
    decreases t@.len() - p, 25nat,
{
    reveal(sp_ternary);
    reveal(sp_expr);
    let s = skip_ws_exec(t, p);
    if !is_kw_exec(t, s, "if") {
        return Err(fail_at_exec(t, s));
    }
    let (cond, a) = expr_parser(t, s + 1)?;
    if !is_kw_exec(t, a, "then") {
        return Err(fail_at_exec(t, a));
    }
    let (x, b) = expr_parser(t, a + 1)?;
    if !is_kw_exec(t, b, "else") {
        return Err(fail_at_exec(t, b));
    }
    let (y, c) = expr_parser(t, b + 1)?;
    let ghost (gc, gx, gy) = (v_sp_expr(cond), v_sp_expr(x), v_sp_expr(y));
    let span = range_span_exec(t, s, c);
    let body = expr_node_block_exec(x);
    let else_body = expr_node_block_exec(y);
    let elifs: Vec<(Spanned<Expr>, Spanned<Vec<Spanned<Node>>>)> = Vec::new();
    assert(v_elifs(elifs@) =~= Seq::empty());
    let q = skip_ws_exec(t, c);
    let res = Spanned(
        Expr::If {
            label: None,
            cond: Box::new(cond),
            body,
            else_if_bodies: elifs,
            else_body: Some(else_body),
            ternary: true,
        },
        span,
    );
    proof {
        assert(v_opt_body(Some(else_body)) == Some(as_expr_block(gy)));
        assert(v_sp_expr(res) == Spanned(
            SpecExpr::If {
                label: None,
                cond: Box::new(gc),
                body: as_expr_block(gx),
                else_if_bodies: Seq::empty(),
                else_body: Some(as_expr_block(gy)),
                ternary: true,
            },
            span,
        ));
        assert(sp_ternary(t@, p as int) == Ok::<(Spanned<SpecExpr>, int), SpecError>(
            (v_sp_expr(res), q as int),
        ));
    }
    Ok((res, q))
}

} // verus!
