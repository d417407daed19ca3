//! The parser of brace-ending expressions: braced bodies, `if`, `while`, `loop` and blocks.

use vstd::prelude::*;
use crate::ast::{Expr, Node, While};
use crate::error::Error;
use crate::grammar::{
    sp_block, sp_body, sp_brace_ending, sp_braced_body, sp_braced_if, sp_elif_tail, sp_else_opt,
    sp_expr, sp_label_opt, sp_loop, sp_while,
};
use crate::model::{v_elifs, v_opt_body, v_opt_name};
use crate::parse_misc::block_label;
use crate::pcore::{
    fail_at_exec, furthest_exec, is_kw_exec, moves, range_span_exec, skip_ws_exec, tok_is_exec,
    wf_toks,
};
use crate::pexpr::expr_parser;
use crate::pstmt::body_parser;
use crate::pview::{lemma_v_elifs_push, vr_body, vr_expr};
use crate::span::Spanned;
use crate::token::TokenInfo;

verus! {

pub(crate) fn parse_braced_body(t: &Vec<Spanned<TokenInfo>>, p: usize) -> (r: Result<
    (Spanned<Vec<Spanned<Node>>>, usize),
    Error,
>)
    requires
        p <= t@.len(),
        wf_toks(t@),
    ensures
        vr_body(r) == sp_braced_body(t@, p as int),
        moves(t@, p as int, r),
    decreases t@.len() - p, 24nat,
{
    reveal(sp_braced_body);
    reveal(sp_body);
    let a = skip_ws_exec(t, p);
    if !tok_is_exec(t, a, &TokenInfo::LeftBrace) {
        return Err(fail_at_exec(t, a));
    }
    let b = skip_ws_exec(t, a + 1);
    let (nodes, c) = body_parser(t, b);
    let d = skip_ws_exec(t, c);
    if tok_is_exec(t, d, &TokenInfo::RightBrace) {
        let span = range_span_exec(t, a, d + 1);
        Ok((Spanned(nodes, span), skip_ws_exec(t, d + 1)))
    } else {
        Err(fail_at_exec(t, d))
    }
}

pub(crate) fn parse_label_opt(t: &Vec<Spanned<TokenInfo>>, p: usize) -> (r: (Option<Spanned<String>>, usize))
    requires
        p <= t@.len(),
    ensures
        (v_opt_name(r.0), r.1 as int) == sp_label_opt(t@, p as int),
        p <= r.1 <= t@.len(),
{
    reveal(sp_label_opt);
    match block_label(t, p) {
        Ok((l, b)) => (Some(l), skip_ws_exec(t, b)),
        Err(_) => (None, p),
    }
}

pub fn brace_ending_expr(t: &Vec<Spanned<TokenInfo>>, p: usize) -> (r: Result<(Spanned<Expr>, usize), Error>)
    requires
        p <= t@.len(),
        wf_toks(t@),
    ensures
        vr_expr(r) == sp_brace_ending(t@, p as int),
        moves(t@, p as int, r),
    decreases t@.len() - p, 26nat,
{
    reveal(sp_brace_ending);
    reveal(sp_braced_if);
    reveal(sp_while);
    reveal(sp_loop);
    reveal(sp_block);
    let e1 = match parse_braced_if(t, p) {
        Ok(r) => return Ok(r),
        Err(e) => e,
    };
    let e2 = match parse_while(t, p) {
        Ok(r) => return Ok(r),
        Err(e) => e,
    };
    let e3 = match parse_loop(t, p) {
        Ok(r) => return Ok(r),
        Err(e) => e,
    };
    let e4 = match parse_block(t, p) {
        Ok(r) => return Ok(r),
        Err(e) => e,
    };
    Err(furthest_exec(furthest_exec(furthest_exec(e1, e2), e3), e4))
}

pub(crate) fn parse_else_opt(t: &Vec<Spanned<TokenInfo>>, q: usize) -> (r: (
    Option<Spanned<Vec<Spanned<Node>>>>,
    usize,
))
    requires
        q <= t@.len(),
        wf_toks(t@),
    ensures
        (v_opt_body(r.0), r.1 as int) == sp_else_opt(t@, q as int),
        q <= r.1 <= t@.len(),
    decreases t@.len() - q, 23nat,
{
    reveal(sp_else_opt);
    reveal(sp_braced_body);
    if is_kw_exec(t, q, "else") {
        match parse_braced_body(t, q + 1) {
            Ok((b, r)) => (Some(b), r),
            Err(_) => (None, q),
        }
    } else {
        (None, q)
    }
}

pub(crate) fn parse_braced_if(t: &Vec<Spanned<TokenInfo>>, p: usize) -> (r: Result<(Spanned<Expr>, usize), Error>)
    requires
        p <= t@.len(),
        wf_toks(t@),
    ensures
        vr_expr(r) == sp_braced_if(t@, p as int),
        moves(t@, p as int, r),
    decreases t@.len() - p, 25nat,
{
    reveal(sp_braced_if);
    reveal(sp_expr);
    reveal(sp_braced_body);
    reveal(sp_elif_tail);
    reveal(sp_else_opt);
    let s = skip_ws_exec(t, p);
    let (label, a) = parse_label_opt(t, s);
    if !is_kw_exec(t, a, "if") {
        return Err(fail_at_exec(t, a));
    }
    let (cond, b) = expr_parser(t, a + 1)?;
    let (body, c) = parse_braced_body(t, b)?;
    let mut elifs: Vec<(Spanned<Expr>, Spanned<Vec<Spanned<Node>>>)> = Vec::new();
    assert(v_elifs(elifs@) =~= Seq::empty());
    let mut d = c;
    loop
        invariant
            p <= c <= d <= t@.len(),
            wf_toks(t@),
            sp_elif_tail(t@, c as int, Seq::empty()) == sp_elif_tail(t@, d as int, v_elifs(elifs@)),
        ensures
            p <= c <= d <= t@.len(),
            sp_elif_tail(t@, c as int, Seq::empty()) == (v_elifs(elifs@), d as int),
        decreases t@.len() - d,
    {
        reveal(sp_elif_tail);
        reveal(sp_expr);
        reveal(sp_braced_body);
        if !is_kw_exec(t, d, "else") {
            break;
        }
        let f = skip_ws_exec(t, d + 1);
        if !is_kw_exec(t, f, "if") {
            break;
        }
        let g = skip_ws_exec(t, f + 1);
        match expr_parser(t, g) {
            Err(_) => {
                break;
            },
            Ok((ce, h)) => match parse_braced_body(t, h) {
                Err(_) => {
                    break;
                },
                Ok((be, i)) => {
                    proof {
                        lemma_v_elifs_push(elifs@, (ce, be));
                    }
                    elifs.push((ce, be));
                    d = i;
                },
            },
        }
    }
    let (else_body, e) = parse_else_opt(t, d);
    let span = range_span_exec(t, s, e);
    let q = skip_ws_exec(t, e);
    Ok(
        (
            Spanned(
                Expr::If {
                    label,
                    cond: Box::new(cond),
                    body,
                    else_if_bodies: elifs,
                    else_body,
                    ternary: false,
                },
                span,
            ),
            q,
        ),
    )
}

pub(crate) fn parse_while(t: &Vec<Spanned<TokenInfo>>, p: usize) -> (r: Result<(Spanned<Expr>, usize), Error>)
    requires
        p <= t@.len(),
        wf_toks(t@),
    ensures
        vr_expr(r) == sp_while(t@, p as int),
        moves(t@, p as int, r),
    decreases t@.len() - p, 25nat,
{
    reveal(sp_while);
    reveal(sp_expr);
    reveal(sp_braced_body);
    reveal(sp_else_opt);
    let s = skip_ws_exec(t, p);
    let (label, a) = parse_label_opt(t, s);
    if !is_kw_exec(t, a, "while") {
        return Err(fail_at_exec(t, a));
    }
    let (cond, b) = expr_parser(t, a + 1)?;
    let (body, c) = parse_braced_body(t, b)?;
    let (else_body, d) = parse_else_opt(t, c);
    let span = range_span_exec(t, s, d);
    let q = skip_ws_exec(t, d);
    Ok((Spanned(Expr::While(While { label, cond: Box::new(cond), body, else_body }), span), q))
}

pub(crate) fn parse_loop(t: &Vec<Spanned<TokenInfo>>, p: usize) -> (r: Result<(Spanned<Expr>, usize), Error>)
    requires
        p <= t@.len(),
        wf_toks(t@),
    ensures
        vr_expr(r) == sp_loop(t@, p as int),
        moves(t@, p as int, r),
    decreases t@.len() - p, 25nat,
{
    reveal(sp_loop);
    reveal(sp_braced_body);
    let s = skip_ws_exec(t, p);
    let (label, a) = parse_label_opt(t, s);
    if !is_kw_exec(t, a, "loop") {
        return Err(fail_at_exec(t, a));
    }
    let (body, c) = parse_braced_body(t, a + 1)?;
    let span = range_span_exec(t, s, c);
    let q = skip_ws_exec(t, c);
    Ok((Spanned(Expr::Loop { label, body }, span), q))
}

pub(crate) fn parse_block(t: &Vec<Spanned<TokenInfo>>, p: usize) -> (r: Result<(Spanned<Expr>, usize), Error>)
    requires
        p <= t@.len(),
        wf_toks(t@),
    ensures
        vr_expr(r) == sp_block(t@, p as int),
        moves(t@, p as int, r),
    decreases t@.len() - p, 25nat,
{
    reveal(sp_block);
    reveal(sp_braced_body);
    let s = skip_ws_exec(t, p);
    let (label, a) = parse_label_opt(t, s);
    let (body, c) = parse_braced_body(t, a)?;
    let span = range_span_exec(t, s, c);
    let q = skip_ws_exec(t, c);
    Ok((Spanned(Expr::Block { label, body }, span), q))
}

} // verus!
