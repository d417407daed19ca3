//! The parser of operator expressions: binary operators, powers, casts and prefix operators.

use vstd::prelude::*;
use crate::ast::{BinaryOp, Expr, UnaryOp};
use crate::error::{Error, SpecError};
use crate::grammar::{
    bin, bin_op_at, sp_binary, sp_binary_tail, sp_cast, sp_cast_tail, sp_chain, sp_operand, sp_pow,
    sp_unary, unary_op_at,
};
use crate::model::{SpecExpr, v_sp_expr};
use crate::parse_type::type_expr_parser;
use crate::pchain::parse_chain;
use crate::pcore::{moves, range_span_exec, skip_ws_exec, tok_is_exec, wf_toks};
use crate::pexpr::tok_is_off;
use crate::pview::vr_expr;
use crate::span::Spanned;
use crate::token::TokenInfo;

verus! {

pub(crate) fn bin_op_at_exec(t: &Vec<Spanned<TokenInfo>>, p: usize, k: u8) -> (r: Option<(Spanned<BinaryOp>, usize)>)
    requires
        p <= t@.len(),
        k <= 5,
    ensures
        match r {
            Some((op, q)) => bin_op_at(t@, p as int, k as nat) == Some((op, q as int)) && p < q
                <= t@.len(),
            None => bin_op_at(t@, p as int, k as nat) is None,
        },
{
    let a = skip_ws_exec(t, p);
    if k == 5 {
        if tok_is_exec(t, a, &TokenInfo::And) {
            Some((Spanned(BinaryOp::BitAnd, t[a].1), skip_ws_exec(t, a + 1)))
        } else if tok_is_exec(t, a, &TokenInfo::Or) {
            Some((Spanned(BinaryOp::BitOr, t[a].1), skip_ws_exec(t, a + 1)))
        } else if tok_is_exec(t, a, &TokenInfo::Caret) {
            Some((Spanned(BinaryOp::BitXor, t[a].1), skip_ws_exec(t, a + 1)))
        } else {
            None
        }
    } else if k == 4 {
        if tok_is_off(t, a, 0, &TokenInfo::Or) && tok_is_off(t, a, 1, &TokenInfo::Or) {
            Some((Spanned(BinaryOp::LogicalOr, range_span_exec(t, a, a + 2)), skip_ws_exec(t, a + 2)))
        } else {
            None
        }
    } else if k == 3 {
        if tok_is_off(t, a, 0, &TokenInfo::And) && tok_is_off(t, a, 1, &TokenInfo::And) {
            Some((Spanned(BinaryOp::LogicalAnd, range_span_exec(t, a, a + 2)), skip_ws_exec(t, a + 2)))
        } else {
            None
        }
    } else if k == 2 {
        if tok_is_off(t, a, 0, &TokenInfo::Equals) && tok_is_off(t, a, 1, &TokenInfo::Equals) {
            Some((Spanned(BinaryOp::Eq, range_span_exec(t, a, a + 2)), skip_ws_exec(t, a + 2)))
        } else if tok_is_off(t, a, 0, &TokenInfo::Not) && tok_is_off(t, a, 1, &TokenInfo::Equals) {
            Some((Spanned(BinaryOp::Ne, range_span_exec(t, a, a + 2)), skip_ws_exec(t, a + 2)))
        } else if tok_is_off(t, a, 0, &TokenInfo::Lt) && tok_is_off(t, a, 1, &TokenInfo::Equals) {
            Some((Spanned(BinaryOp::Le, range_span_exec(t, a, a + 2)), skip_ws_exec(t, a + 2)))
        } else if tok_is_off(t, a, 0, &TokenInfo::Gt) && tok_is_off(t, a, 1, &TokenInfo::Equals) {
            Some((Spanned(BinaryOp::Ge, range_span_exec(t, a, a + 2)), skip_ws_exec(t, a + 2)))
        } else if tok_is_exec(t, a, &TokenInfo::Lt) {
            Some((Spanned(BinaryOp::Lt, t[a].1), skip_ws_exec(t, a + 1)))
        } else if tok_is_exec(t, a, &TokenInfo::Gt) {
            Some((Spanned(BinaryOp::Gt, t[a].1), skip_ws_exec(t, a + 1)))
        } else {
            None
        }
    } else if k == 1 {
        if tok_is_exec(t, a, &TokenInfo::Plus) {
            let r = skip_ws_exec(t, a + 1);
            Some((Spanned(BinaryOp::Add, range_span_exec(t, p, r)), r))
        } else if tok_is_exec(t, a, &TokenInfo::Minus) {
            let r = skip_ws_exec(t, a + 1);
            Some((Spanned(BinaryOp::Sub, range_span_exec(t, p, r)), r))
        } else {
            None
        }
    } else {
        if tok_is_exec(t, a, &TokenInfo::Asterisk) {
            Some((Spanned(BinaryOp::Mul, t[a].1), skip_ws_exec(t, a + 1)))
        } else if tok_is_exec(t, a, &TokenInfo::Divide) {
            Some((Spanned(BinaryOp::Div, t[a].1), skip_ws_exec(t, a + 1)))
        } else if tok_is_exec(t, a, &TokenInfo::Modulus) {
            Some((Spanned(BinaryOp::Mod, t[a].1), skip_ws_exec(t, a + 1)))
        } else {
            None
        }
    }
}

pub(crate) fn bin_exec(left: Spanned<Expr>, op: Spanned<BinaryOp>, right: Spanned<Expr>) -> (r: Spanned<Expr>)
    ensures
        v_sp_expr(r) == bin(v_sp_expr(left), op, v_sp_expr(right)),
{
    let span = left.1.merge(right.1);
    Spanned(Expr::BinaryOp { left: Box::new(left), op, right: Box::new(right) }, span)
}

pub(crate) fn parse_operand(t: &Vec<Spanned<TokenInfo>>, p: usize, k: u8) -> (r: Result<(Spanned<Expr>, usize), Error>)
    requires
        p <= t@.len(),
        wf_toks(t@),
        k <= 5,
    ensures
        vr_expr(r) == sp_operand(t@, p as int, k as nat),
        moves(t@, p as int, r),
    decreases t@.len() - p, 2 * k + 13,
{
    reveal(sp_operand);
    reveal(sp_binary);
    reveal(sp_pow);
    if k == 0 {
        parse_pow(t, p)
    } else {
        parse_binary(t, p, k - 1)
    }
}

pub(crate) fn parse_binary(t: &Vec<Spanned<TokenInfo>>, p: usize, k: u8) -> (r: Result<(Spanned<Expr>, usize), Error>)
    requires
        p <= t@.len(),
        wf_toks(t@),
        k <= 5,
    ensures
        vr_expr(r) == sp_binary(t@, p as int, k as nat),
        moves(t@, p as int, r),
    decreases t@.len() - p, 2 * k + 14,
{
    reveal(sp_binary);
    reveal(sp_operand);
    reveal(sp_binary_tail);
    let (x, q0) = parse_operand(t, p, k)?;
    let mut acc = x;
    let mut q = q0;
    loop
        invariant
            p <= q0 <= q <= t@.len(),
            wf_toks(t@),
            k <= 5,
            sp_binary(t@, p as int, k as nat) == Ok::<(Spanned<SpecExpr>, int), SpecError>(
                sp_binary_tail(t@, q0 as int, v_sp_expr(x), k as nat),
            ),
            sp_binary_tail(t@, q0 as int, v_sp_expr(x), k as nat) == sp_binary_tail(
                t@,
                q as int,
                v_sp_expr(acc),
                k as nat,
            ),
        decreases t@.len() - q,
    {
        reveal(sp_binary);
        reveal(sp_binary_tail);
        reveal(sp_operand);
        match bin_op_at_exec(t, q, k) {
            None => {
                return Ok((acc, q));
            },
            Some((op, r)) => match parse_operand(t, r, k) {
                Err(_) => {
                    return Ok((acc, q));
                },
                Ok((y, s)) => {
                    acc = bin_exec(acc, op, y);
                    q = s;
                },
            },
        }
    }
}

pub(crate) fn parse_pow(t: &Vec<Spanned<TokenInfo>>, p: usize) -> (r: Result<(Spanned<Expr>, usize), Error>)
    requires
        p <= t@.len(),
        wf_toks(t@),
    ensures
        vr_expr(r) == sp_pow(t@, p as int),
        moves(t@, p as int, r),
    decreases t@.len() - p, 12nat,
{
    reveal(sp_pow);
    reveal(sp_cast);
    let (h, q) = parse_cast(t, p)?;
    let a = skip_ws_exec(t, q);
    if tok_is_off(t, a, 0, &TokenInfo::Asterisk) && tok_is_off(t, a, 1, &TokenInfo::Asterisk) {
        let r = skip_ws_exec(t, a + 2);
        let op = Spanned(BinaryOp::Pow, range_span_exec(t, a, a + 2));
        match parse_pow(t, r) {
            Ok((rhs, s)) => Ok((bin_exec(h, op, rhs), s)),
            Err(_) => Ok((h, q)),
        }
    } else {
        Ok((h, q))
    }
}

pub(crate) fn parse_cast(t: &Vec<Spanned<TokenInfo>>, p: usize) -> (r: Result<(Spanned<Expr>, usize), Error>)
    requires
        p <= t@.len(),
        wf_toks(t@),
    ensures
        vr_expr(r) == sp_cast(t@, p as int),
        moves(t@, p as int, r),
    decreases t@.len() - p, 11nat,
{
    reveal(sp_cast);
    reveal(sp_cast_tail);
    reveal(sp_unary);
    let (x, q0) = parse_unary(t, p)?;
    let mut acc = x;
    let mut q = q0;
    loop
        invariant
            p <= q0 <= q <= t@.len(),
            sp_cast(t@, p as int) == Ok::<(Spanned<SpecExpr>, int), SpecError>(
                sp_cast_tail(t@, q0 as int, v_sp_expr(x)),
            ),
            sp_cast_tail(t@, q0 as int, v_sp_expr(x)) == sp_cast_tail(t@, q as int, v_sp_expr(acc)),
        decreases t@.len() - q,
    {
        reveal(sp_cast);
        reveal(sp_cast_tail);
        reveal(sp_unary);
        let a = skip_ws_exec(t, q);
        if !(tok_is_off(t, a, 0, &TokenInfo::Colon) && tok_is_off(t, a, 1, &TokenInfo::Colon)) {
            return Ok((acc, q));
        }
        let b = skip_ws_exec(t, a + 2);
        match type_expr_parser(t, b) {
            Ok((ty, c)) => {
                let span = acc.1.merge(ty.1);
                acc = Spanned(Expr::Cast { expr: Box::new(acc), ty }, span);
                q = c;
            },
            Err(_) => {
                return Ok((acc, q));
            },
        }
    }
}

pub(crate) fn unary_op_at_exec(t: &Vec<Spanned<TokenInfo>>, p: usize) -> (r: Option<UnaryOp>)
    ensures
        r == unary_op_at(t@, p as int),
        r is Some ==> p + 1 <= t@.len(),
{
    if tok_is_exec(t, p, &TokenInfo::Minus) {
        Some(UnaryOp::Minus)
    } else if tok_is_exec(t, p, &TokenInfo::Plus) {
        Some(UnaryOp::Plus)
    } else if tok_is_exec(t, p, &TokenInfo::Not) {
        Some(UnaryOp::Not)
    } else {
        None
    }
}

pub(crate) fn parse_unary(t: &Vec<Spanned<TokenInfo>>, p: usize) -> (r: Result<(Spanned<Expr>, usize), Error>)
    requires
        p <= t@.len(),
        wf_toks(t@),
    ensures
        vr_expr(r) == sp_unary(t@, p as int),
        moves(t@, p as int, r),
    decreases t@.len() - p, 9nat,
{
    reveal(sp_unary);
    reveal(sp_chain);
    let a = skip_ws_exec(t, p);
    match unary_op_at_exec(t, a) {
        Some(o) => {
            let r = skip_ws_exec(t, a + 1);
            let op = Spanned(o, t[a].1);
            let (e, s) = parse_unary(t, r)?;
            let span = op.1.merge(e.1);
            Ok((Spanned(Expr::UnaryOp { op, expr: Box::new(e) }, span), s))
        },
        None => parse_chain(t, p),
    }
}

} // verus!
