//! The parser of bodies and statements.

use vstd::prelude::*;
use crate::ast::{Expr, Node, TypeExpr};
use crate::error::Error;
use crate::grammar::{
    sp_body, sp_body_items, sp_brace_ending, sp_break, sp_cond_opt, sp_const, sp_continue, sp_expr,
    sp_expr_opt, sp_expr_stmt, sp_func, sp_ident, sp_label_opt_padded, sp_let, sp_return, sp_stmt,
    sp_stmt_padded, sp_struct, sp_ty_annot, sp_value_opt,
};
use crate::model::{SpecNode, v_name, v_nodes, v_opt_expr, v_opt_name, v_opt_ty};
use crate::parse_misc::{block_label, item_vis_parser, pat_parser};
use crate::parse_type::type_expr_parser;
use crate::pbrace::brace_ending_expr;
use crate::pcore::{
    fail_at_exec, furthest_exec, is_kw_exec, moves, range_span_exec, skip_ws_exec, tok_is_exec,
    vres, wf_toks,
};
use crate::pdecl::{parse_func, parse_struct};
use crate::pexpr::expr_parser;
use crate::pjump::{parse_break, parse_continue, parse_return};
use crate::pview::{lemma_v_nodes_push, vr_node};
use crate::span::Spanned;
use crate::token::TokenInfo;

verus! {

/// Parses a body at `p`; this never fails.
pub fn body_parser(t: &Vec<Spanned<TokenInfo>>, p: usize) -> (r: (Vec<Spanned<Node>>, usize))
    requires
        p <= t@.len(),
        wf_toks(t@),
    ensures
        (v_nodes(r.0@), r.1 as int) == sp_body(t@, p as int),
        p <= r.1 <= t@.len(),
    decreases t@.len() - p, 60nat,
{
    reveal(sp_body);
    reveal(sp_body_items);
    reveal(sp_expr);
    let mut nodes: Vec<Spanned<Node>> = Vec::new();
    let mut q = p;
    assert(v_nodes(nodes@) =~= Seq::<Spanned<SpecNode>>::empty());
    loop
        invariant
            p <= q <= t@.len(),
            wf_toks(t@),
            sp_body_items(t@, p as int, Seq::empty()) == sp_body_items(t@, q as int, v_nodes(nodes@)),
        ensures
            p <= q <= t@.len(),
            sp_body_items(t@, p as int, Seq::empty()) == (v_nodes(nodes@), q as int),
        decreases t@.len() - q,
    {
        reveal(sp_body_items);
        reveal(sp_stmt_padded);
        match parse_stmt_padded(t, q) {
            Ok((n, r)) => {
                if q < r {
                    proof {
                        lemma_v_nodes_push(nodes@, n);
                    }
                    nodes.push(n);
                    q = r;
                } else {
                    break;
                }
            },
            Err(_) => {
                break;
            },
        }
    }
    match expr_parser(t, q) {
        Ok((e, r)) => {
            let span = e.1;
            proof {
                lemma_v_nodes_push(nodes@, Spanned(Node::ImplicitReturn(e), span));
            }
            nodes.push(Spanned(Node::ImplicitReturn(e), span));
            (nodes, r)
        },
        Err(_) => (nodes, q),
    }
}

pub(crate) fn parse_stmt_padded(t: &Vec<Spanned<TokenInfo>>, p: usize) -> (r: Result<(Spanned<Node>, usize), Error>)
    requires
        p <= t@.len(),
        wf_toks(t@),
    ensures
        vr_node(r) == sp_stmt_padded(t@, p as int),
        moves(t@, p as int, r),
    decreases t@.len() - p, 58nat,
{
    reveal(sp_stmt_padded);
    reveal(sp_stmt);
    let a = skip_ws_exec(t, p);
    let (n, b) = parse_stmt(t, a)?;
    Ok((n, skip_ws_exec(t, b)))
}

pub(crate) fn parse_stmt(t: &Vec<Spanned<TokenInfo>>, p: usize) -> (r: Result<(Spanned<Node>, usize), Error>)
    requires
        p <= t@.len(),
        wf_toks(t@),
    ensures
        vr_node(r) == sp_stmt(t@, p as int),
        moves(t@, p as int, r),
    decreases t@.len() - p, 57nat,
{
    reveal(sp_stmt);
    reveal(sp_let);
    reveal(sp_const);
    reveal(sp_func);
    reveal(sp_struct);
    reveal(sp_break);
    reveal(sp_continue);
    reveal(sp_return);
    reveal(sp_expr_stmt);
    let e1 = match parse_let(t, p) {
        Ok(r) => return Ok(r),
        Err(e) => e,
    };
    let e2 = match parse_const(t, p) {
        Ok(r) => return Ok(r),
        Err(e) => e,
    };
    let e3 = match parse_func(t, p) {
        Ok(r) => return Ok(r),
        Err(e) => e,
    };
    let e4 = match parse_struct(t, p) {
        Ok(r) => return Ok(r),
        Err(e) => e,
    };
    let e5 = match parse_break(t, p) {
        Ok(r) => return Ok(r),
        Err(e) => e,
    };
    let e6 = match parse_continue(t, p) {
        Ok(r) => return Ok(r),
        Err(e) => e,
    };
    let e7 = match parse_return(t, p) {
        Ok(r) => return Ok(r),
        Err(e) => e,
    };
    let e8 = match parse_expr_stmt(t, p) {
        Ok(r) => return Ok(r),
        Err(e) => e,
    };
    Err(
        furthest_exec(
            furthest_exec(
                furthest_exec(
                    furthest_exec(
                        furthest_exec(furthest_exec(furthest_exec(e1, e2), e3), e4),
                        e5,
                    ),
                    e6,
                ),
                e7,
            ),
            e8,
        ),
    )
}

pub(crate) fn parse_ty_annot(t: &Vec<Spanned<TokenInfo>>, q: usize) -> (r: (Option<Spanned<TypeExpr>>, usize))
    requires
        q <= t@.len(),
    ensures
        (v_opt_ty(r.0), r.1 as int) == sp_ty_annot(t@, q as int),
        q <= r.1 <= t@.len(),
{
    reveal(sp_ty_annot);
    let d = skip_ws_exec(t, q);
    if tok_is_exec(t, d, &TokenInfo::Colon) {
        let e = skip_ws_exec(t, d + 1);
        match type_expr_parser(t, e) {
            Ok((ty, f)) => (Some(ty), f),
            Err(_) => (None, q),
        }
    } else {
        (None, q)
    }
}

pub(crate) fn parse_value_opt(t: &Vec<Spanned<TokenInfo>>, q: usize) -> (r: (Option<Spanned<Expr>>, usize))
    requires
        q <= t@.len(),
        wf_toks(t@),
    ensures
        (v_opt_expr(r.0), r.1 as int) == sp_value_opt(t@, q as int),
        q <= r.1 <= t@.len(),
    decreases t@.len() - q, 56nat,
{
    reveal(sp_value_opt);
    reveal(sp_expr);
    let g = skip_ws_exec(t, q);
    if tok_is_exec(t, g, &TokenInfo::Equals) {
        let h = skip_ws_exec(t, g + 1);
        match expr_parser(t, h) {
            Ok((v, i)) => (Some(v), i),
            Err(_) => (None, q),
        }
    } else {
        (None, q)
    }
}

pub(crate) fn parse_let(t: &Vec<Spanned<TokenInfo>>, p: usize) -> (r: Result<(Spanned<Node>, usize), Error>)
    requires
        p <= t@.len(),
        wf_toks(t@),
    ensures
        vr_node(r) == sp_let(t@, p as int),
        moves(t@, p as int, r),
    decreases t@.len() - p, 56nat,
{
    reveal(sp_let);
    reveal(sp_value_opt);
    if !is_kw_exec(t, p, "let") {
        return Err(fail_at_exec(t, p));
    }
    let b = skip_ws_exec(t, p + 1);
    let (pat, c) = pat_parser(t, b)?;
    let (ty, d) = parse_ty_annot(t, c);
    let (value, h) = parse_value_opt(t, d);
    if tok_is_exec(t, h, &TokenInfo::Semicolon) {
        let kw = t[p].1;
        let span = range_span_exec(t, p, h + 1);
        Ok((Spanned(Node::Let { kw, pat, ty, value }, span), h + 1))
    } else {
        Err(fail_at_exec(t, h))
    }
}

pub(crate) fn parse_ident(t: &Vec<Spanned<TokenInfo>>, p: usize) -> (r: Result<(Spanned<String>, usize), Error>)
    requires
        p <= t@.len(),
    ensures
        vres(r, |x: Spanned<String>| v_name(x)) == sp_ident(t@, p as int),
        moves(t@, p as int, r),
{
    reveal(sp_ident);
    let c = skip_ws_exec(t, p);
    if c < t.len() {
        if let TokenInfo::Ident(n, _) = &t[c].0 {
            let name = Spanned(n.clone(), t[c].1);
            return Ok((name, skip_ws_exec(t, c + 1)));
        }
    }
    Err(fail_at_exec(t, c))
}

pub(crate) fn parse_const(t: &Vec<Spanned<TokenInfo>>, p: usize) -> (r: Result<(Spanned<Node>, usize), Error>)
    requires
        p <= t@.len(),
        wf_toks(t@),
    ensures
        vr_node(r) == sp_const(t@, p as int),
        moves(t@, p as int, r),
    decreases t@.len() - p, 56nat,
{
    reveal(sp_const);
    reveal(sp_expr);
    let (vis, b) = item_vis_parser(t, p);
    if !is_kw_exec(t, b, "const") {
        return Err(fail_at_exec(t, b));
    }
    let (name, d) = parse_ident(t, b + 1)?;
    let (ty, e) = parse_ty_annot(t, d);
    let f = skip_ws_exec(t, e);
    if !tok_is_exec(t, f, &TokenInfo::Equals) {
        return Err(fail_at_exec(t, f));
    }
    let g = skip_ws_exec(t, f + 1);
    let (value, h) = expr_parser(t, g)?;
    if tok_is_exec(t, h, &TokenInfo::Semicolon) {
        let kw = t[b].1;
        let span = range_span_exec(t, p, h + 1);
        Ok((Spanned(Node::Const { vis, kw, name, ty, value }, span), h + 1))
    } else {
        Err(fail_at_exec(t, h))
    }
}

pub(crate) fn parse_label_opt_padded(t: &Vec<Spanned<TokenInfo>>, q: usize) -> (r: (
    Option<Spanned<String>>,
    usize,
))
    requires
        q <= t@.len(),
    ensures
        (v_opt_name(r.0), r.1 as int) == sp_label_opt_padded(t@, q as int),
        q <= r.1 <= t@.len(),
{
    reveal(sp_label_opt_padded);
    let b = skip_ws_exec(t, q);
    match block_label(t, b) {
        Ok((l, c)) => (Some(l), skip_ws_exec(t, c)),
        Err(_) => (None, q),
    }
}

pub(crate) fn parse_expr_opt(t: &Vec<Spanned<TokenInfo>>, q: usize) -> (r: (Option<Spanned<Expr>>, usize))
    requires
        q <= t@.len(),
        wf_toks(t@),
    ensures
        (v_opt_expr(r.0), r.1 as int) == sp_expr_opt(t@, q as int),
        q <= r.1 <= t@.len(),
    decreases t@.len() - q, 56nat,
{
    reveal(sp_expr_opt);
    reveal(sp_expr);
    match expr_parser(t, q) {
        Ok((v, r)) => (Some(v), r),
        Err(_) => (None, q),
    }
}

pub(crate) fn parse_cond_opt(t: &Vec<Spanned<TokenInfo>>, q: usize) -> (r: (Option<Spanned<Expr>>, usize))
    requires
        q <= t@.len(),
        wf_toks(t@),
    ensures
        (v_opt_expr(r.0), r.1 as int) == sp_cond_opt(t@, q as int),
        q <= r.1 <= t@.len(),
    decreases t@.len() - q, 56nat,
{
    reveal(sp_cond_opt);
    reveal(sp_expr);
    let a = skip_ws_exec(t, q);
    if is_kw_exec(t, a, "if") {
        let b = skip_ws_exec(t, a + 1);
        match expr_parser(t, b) {
            Ok((c, r)) => (Some(c), r),
            Err(_) => (None, q),
        }
    } else {
        (None, q)
    }
}

pub(crate) fn parse_expr_stmt(t: &Vec<Spanned<TokenInfo>>, p: usize) -> (r: Result<(Spanned<Node>, usize), Error>)
    requires
        p <= t@.len(),
        wf_toks(t@),
    ensures
        vr_node(r) == sp_expr_stmt(t@, p as int),
        moves(t@, p as int, r),
    decreases t@.len() - p, 56nat,
{
    reveal(sp_expr_stmt);
    reveal(sp_expr);
    reveal(sp_brace_ending);
    let first: Result<(Spanned<Expr>, usize), Error> = match expr_parser(t, p) {
        Err(e) => Err(e),
        Ok((e, b)) => {
            let c = skip_ws_exec(t, b);
            if tok_is_exec(t, c, &TokenInfo::Semicolon) {
                Ok((e, skip_ws_exec(t, c + 1)))
            } else {
                Err(fail_at_exec(t, c))
            }
        },
    };
    let chosen: Result<(Spanned<Expr>, usize), Error> = match first {
        Ok(r) => Ok(r),
        Err(e1) => match brace_ending_expr(t, p) {
            Err(e2) => Err(furthest_exec(e1, e2)),
            Ok((e, b)) => {
                if b < t.len() && !tok_is_exec(t, skip_ws_exec(t, b), &TokenInfo::RightBrace) {
                    Ok((e, b))
                } else {
                    Err(furthest_exec(e1, fail_at_exec(t, b)))
                }
            },
        },
    };
    match chosen {
        Ok((e, q)) => {
            let span = range_span_exec(t, p, q);
            Ok((Spanned(Node::Expr(e), span), q))
        },
        Err(e) => Err(e),
    }
}

} // verus!
