//! The parser of chains (attribute accesses, calls, indexing) and of unambiguous expressions.

use vstd::prelude::*;
use crate::ast::{Atom, Expr};
use crate::error::{Error, SpecError, v_error};
use crate::escape::resolve_string;
use crate::grammar::{
    SpecCallArg, apply_postfix, arg_values, keyword_args, literal_atom, positional_args,
    sp_arg_list, sp_arg_list_tail, sp_atom, sp_call_arg, sp_chain, sp_chain_tail, sp_expr,
    sp_expr_list, sp_expr_list_tail, sp_paren_expr, sp_postfix, sp_seq_expr, sp_unambiguous,
    split_call_args,
};
use crate::model::{SpecExpr, v_atom, v_exprs, v_kwargs, v_sp_expr};
use crate::pcore::{
    fail_at_exec, furthest_exec, moves, range_span_exec, skip_ws_exec, spelled, tok_is_exec, vres,
    wf_toks,
};
use crate::pexpr::expr_parser;
use crate::pview::{
    CallArg, Postfix, lemma_v_exprs_push, lemma_v_kwargs_push, v_call_arg, v_call_args,
    v_expr_or_err, v_postfix, vr_expr,
};
use crate::span::Spanned;
use crate::token::{StringLiteralFlags, TokenInfo};

verus! {

pub(crate) fn parse_chain(t: &Vec<Spanned<TokenInfo>>, p: usize) -> (r: Result<(Spanned<Expr>, usize), Error>)
    requires
        p <= t@.len(),
        wf_toks(t@),
    ensures
        vr_expr(r) == sp_chain(t@, p as int),
        moves(t@, p as int, r),
    decreases t@.len() - p, 8nat,
{
    reveal(sp_chain);
    reveal(sp_chain_tail);
    reveal(sp_unambiguous);
    let (x, q0) = parse_unambiguous(t, p)?;
    let mut acc: Result<Spanned<Expr>, Error> = Ok(x);
    let mut q = q0;
    loop
        invariant
            p <= q0 <= q <= t@.len(),
            wf_toks(t@),
            sp_chain_tail(t@, q0 as int, Ok(v_sp_expr(x))) == sp_chain_tail(
                t@,
                q as int,
                v_expr_or_err(acc),
            ),
        ensures
            p <= q0 <= q <= t@.len(),
            sp_chain_tail(t@, q0 as int, Ok(v_sp_expr(x))) == (v_expr_or_err(acc), q as int),
        decreases t@.len() - q,
    {
        reveal(sp_chain_tail);
        reveal(sp_postfix);
        match parse_postfix(t, q) {
            Err(_) => {
                break;
            },
            Ok((pf, r)) => {
                if q < r {
                    acc = apply_postfix_exec(acc, pf);
                    q = r;
                } else {
                    break;
                }
            },
        }
    }
    match acc {
        Ok(y) => Ok((y, q)),
        Err(e) => Err(e),
    }
}

pub(crate) fn apply_postfix_exec(acc: Result<Spanned<Expr>, Error>, pf: Postfix) -> (r: Result<Spanned<Expr>, Error>)
    ensures
        v_expr_or_err(r) == apply_postfix(v_expr_or_err(acc), v_postfix(pf)),
{
    match acc {
        Err(e) => Err(e),
        Ok(lhs) => match pf {
            Postfix::Attr(dot, attr) => {
                let span = lhs.1.merge(attr.1);
                Ok(Spanned(Expr::Attr { subject: Box::new(lhs), dot, attr }, span))
            },
            Postfix::Call(items, cspan) => match split_call_args_exec(items) {
                Err(e) => Err(e),
                Ok((args, kwargs)) => {
                    let span = lhs.1.merge(cspan);
                    Ok(Spanned(Expr::Call { func: Box::new(lhs), args, kwargs }, span))
                },
            },
            Postfix::Index(ix) => {
                let span = lhs.1.merge(ix.1);
                Ok(Spanned(Expr::Index { subject: Box::new(lhs), index: Box::new(ix) }, span))
            },
        },
    }
}

pub(crate) proof fn lemma_positional_args(items: Seq<SpecCallArg>, k: int)
    requires
        0 <= k <= items.len(),
        forall|i: int| 0 <= i < k ==> items[i].0 is None,
        k == items.len() || items[k].0 is Some,
    ensures
        positional_args(items) == k,
    decreases items.len(),
{
    if items.len() > 0 && k > 0 {
        lemma_positional_args(items.drop_first(), k - 1);
    }
}

/// An error of `keyword_args` on a prefix is its error on the whole.
pub(crate) proof fn lemma_keyword_args_err_prefix(items: Seq<SpecCallArg>, n: int)
    requires
        0 <= n <= items.len(),
        keyword_args(items.subrange(0, n)) is Err,
    ensures
        keyword_args(items) == keyword_args(items.subrange(0, n)),
    decreases items.len() - n,
{
    if n < items.len() {
        assert(items.subrange(0, n + 1).drop_last() =~= items.subrange(0, n));
        lemma_keyword_args_err_prefix(items, n + 1);
    } else {
        assert(items.subrange(0, n) =~= items);
    }
}

/// Takes the values out of call arguments.
pub(crate) fn unwrap_args(items: Vec<CallArg>) -> (r: Vec<Spanned<Expr>>)
    ensures
        v_exprs(r@) == arg_values(v_call_args(items@)),
{
    let ghost all = items@;
    let n = items.len();
    let mut work = items;
    let mut out: Vec<Spanned<Expr>> = Vec::new();
    let mut i: usize = 0;
    assert(arg_values(v_call_args(all.subrange(0, 0))) =~= Seq::empty());
    while work.len() > 0
        invariant
            i + work@.len() == all.len() == n,
            all == items@,
            work@ == all.subrange(i as int, all.len() as int),
            v_exprs(out@) == arg_values(v_call_args(all.subrange(0, i as int))),
        decreases work@.len(),
    {
        let it = work.remove(0);
        assert(it == all[i as int]);
        proof {
            lemma_v_exprs_push(out@, it.1);
            assert(arg_values(v_call_args(all.subrange(0, i + 1))) =~= arg_values(
                v_call_args(all.subrange(0, i as int)),
            ).push(v_sp_expr(it.1)));
        }
        out.push(it.1);
        i = i + 1;
        assert(work@ =~= all.subrange(i as int, all.len() as int));
    }
    assert(all.subrange(0, i as int) =~= all);
    out
}

/// The keyword arguments of call arguments that must all have a keyword.
pub(crate) fn keyword_args_exec(items: Vec<CallArg>) -> (r: Result<Vec<(String, Spanned<Expr>)>, Error>)
    ensures
        match (r, keyword_args(v_call_args(items@))) {
            (Ok(a), Ok(sa)) => v_kwargs(a@) == sa,
            (Err(e), Err(se)) => v_error(e) == se,
            _ => false,
        },
{
    let ghost all = items@;
    let ghost kw_items = v_call_args(all);
    let n = items.len();
    let mut work = items;
    let mut kwargs: Vec<(String, Spanned<Expr>)> = Vec::new();
    let mut m: usize = 0;
    assert(kw_items.subrange(0, 0) =~= Seq::<SpecCallArg>::empty());
    assert(v_kwargs(kwargs@) =~= Seq::empty());
    while work.len() > 0
        invariant
            m + work@.len() == all.len() == n,
            all == items@,
            work@ == all.subrange(m as int, all.len() as int),
            kw_items == v_call_args(all),
            keyword_args(kw_items.subrange(0, m as int)) == Ok::<
                Seq<(Seq<char>, Spanned<SpecExpr>)>,
                SpecError,
            >(v_kwargs(kwargs@)),
        decreases work@.len(),
    {
        let it = work.remove(0);
        assert(it == all[m as int]);
        assert(kw_items.subrange(0, m + 1).drop_last() =~= kw_items.subrange(0, m as int));
        assert(kw_items.subrange(0, m + 1).last() == v_call_arg(it));
        let (name, v) = it;
        match name {
            Some(nm) => {
                proof {
                    lemma_v_kwargs_push(kwargs@, (nm, v));
                }
                kwargs.push((nm, v));
            },
            None => {
                proof {
                    lemma_keyword_args_err_prefix(kw_items, m as int + 1);
                }
                return Err(Error::unexpected_positional_argument(v.1));
            },
        }
        m = m + 1;
        assert(work@ =~= all.subrange(m as int, all.len() as int));
    }
    assert(kw_items.subrange(0, m as int) =~= kw_items);
    Ok(kwargs)
}

/// Splits call arguments into positional and keyword arguments.
pub(crate) fn split_call_args_exec(items: Vec<CallArg>) -> (r: Result<
    (Vec<Spanned<Expr>>, Vec<(String, Spanned<Expr>)>),
    Error,
>)
    ensures
        match (r, split_call_args(v_call_args(items@))) {
            (Ok((a, b)), Ok((sa, sb))) => v_exprs(a@) == sa && v_kwargs(b@) == sb,
            (Err(e), Err(se)) => v_error(e) == se,
            _ => false,
        },
{
    let ghost orig = items@;
    let ghost vi = v_call_args(orig);
    let n = items.len();
    let mut k: usize = 0;
    while k < n && items[k].0.is_none()
        invariant
            k <= n == items@.len(),
            forall|i: int| 0 <= i < k ==> items@[i].0 is None,
        decreases n - k,
    {
        k = k + 1;
    }
    proof {
        assert forall|i: int| 0 <= i < k implies vi[i].0 is None by {
            assert(vi[i] == v_call_arg(orig[i]));
        }
        if k < n {
            assert(vi[k as int] == v_call_arg(orig[k as int]));
        }
        lemma_positional_args(vi, k as int);
    }
    let mut front = items;
    let rest = front.split_off(k);
    proof {
        assert(v_call_args(front@) =~= vi.subrange(0, k as int));
        assert(v_call_args(rest@) =~= vi.subrange(k as int, vi.len() as int));
    }
    let args = unwrap_args(front);
    match keyword_args_exec(rest) {
        Ok(kwargs) => Ok((args, kwargs)),
        Err(e) => Err(e),
    }
}

pub(crate) fn parse_postfix(t: &Vec<Spanned<TokenInfo>>, q: usize) -> (r: Result<(Postfix, usize), Error>)
    requires
        q <= t@.len(),
        wf_toks(t@),
    ensures
        vres(r, |x: Postfix| v_postfix(x)) == sp_postfix(t@, q as int),
        moves(t@, q as int, r),
    decreases t@.len() - q, 6nat,
{
    reveal(sp_postfix);
    reveal(sp_expr);
    reveal(sp_arg_list);
    if tok_is_exec(t, q, &TokenInfo::Dot) && q + 1 < t.len() {
        if let TokenInfo::Ident(n, _) = &t[q + 1].0 {
            let attr = Spanned(n.clone(), t[q + 1].1);
            return Ok((Postfix::Attr(t[q].1, attr), q + 2));
        }
    }
    if tok_is_exec(t, q, &TokenInfo::LeftParen) {
        let a = skip_ws_exec(t, q + 1);
        let (items, c) = parse_arg_list(t, a);
        let b = skip_ws_exec(t, c);
        if tok_is_exec(t, b, &TokenInfo::RightParen) {
            let span = range_span_exec(t, q, b + 1);
            Ok((Postfix::Call(items, span), skip_ws_exec(t, b + 1)))
        } else {
            Err(fail_at_exec(t, b))
        }
    } else {
        let a = skip_ws_exec(t, q);
        if !tok_is_exec(t, a, &TokenInfo::LeftBracket) {
            return Err(fail_at_exec(t, a));
        }
        let b = skip_ws_exec(t, a + 1);
        let (ix, c) = expr_parser(t, b)?;
        let d = skip_ws_exec(t, c);
        if tok_is_exec(t, d, &TokenInfo::RightBracket) {
            Ok((Postfix::Index(ix), skip_ws_exec(t, d + 1)))
        } else {
            Err(fail_at_exec(t, d))
        }
    }
}

pub(crate) fn parse_call_arg(t: &Vec<Spanned<TokenInfo>>, p: usize) -> (r: Result<(CallArg, usize), Error>)
    requires
        p <= t@.len(),
        wf_toks(t@),
    ensures
        vres(r, |x: CallArg| v_call_arg(x)) == sp_call_arg(t@, p as int),
        moves(t@, p as int, r),
    decreases t@.len() - p, 32nat,
{
    reveal(sp_call_arg);
    reveal(sp_expr);
    let a = skip_ws_exec(t, p);
    let mut name: Option<String> = None;
    let mut s = a;
    if a < t.len() {
        if let TokenInfo::Ident(n, _) = &t[a].0 {
            if tok_is_exec(t, a + 1, &TokenInfo::Colon) {
                name = Some(n.clone());
                s = skip_ws_exec(t, a + 2);
            }
        }
    }
    let (v, e) = expr_parser(t, s)?;
    Ok(((name, v), e))
}

pub(crate) fn parse_arg_list(t: &Vec<Spanned<TokenInfo>>, p: usize) -> (r: (Vec<CallArg>, usize))
    requires
        p <= t@.len(),
        wf_toks(t@),
    ensures
        (v_call_args(r.0@), r.1 as int) == sp_arg_list(t@, p as int),
        p <= r.1 <= t@.len(),
    decreases t@.len() - p, 34nat,
{
    reveal(sp_arg_list);
    reveal(sp_call_arg);
    reveal(sp_arg_list_tail);
    let mut acc: Vec<CallArg> = Vec::new();
    match parse_call_arg(t, p) {
        Err(_) => {
            assert(v_call_args(acc@) =~= Seq::<SpecCallArg>::empty());
            (acc, p)
        },
        Ok((x, q0)) => {
            acc.push(x);
            assert(v_call_args(acc@) =~= seq![v_call_arg(x)]);
            let mut q = q0;
            loop
                invariant
                    p <= q0 <= q <= t@.len(),
                    wf_toks(t@),
                    sp_arg_list(t@, p as int) == sp_arg_list_tail(t@, q as int, v_call_args(acc@)),
                decreases t@.len() - q,
            {
                reveal(sp_arg_list);
                reveal(sp_arg_list_tail);
                reveal(sp_call_arg);
                let c = skip_ws_exec(t, q);
                if !tok_is_exec(t, c, &TokenInfo::Comma) {
                    return (acc, q);
                }
                let d = skip_ws_exec(t, c + 1);
                match parse_call_arg(t, d) {
                    Ok((x, e)) => {
                        assert(v_call_args(acc@.push(x)) =~= v_call_args(acc@).push(v_call_arg(x)));
                        acc.push(x);
                        q = e;
                    },
                    Err(_) => {
                        return (acc, d);
                    },
                }
            }
        },
    }
}

pub(crate) fn parse_unambiguous(t: &Vec<Spanned<TokenInfo>>, p: usize) -> (r: Result<(Spanned<Expr>, usize), Error>)
    requires
        p <= t@.len(),
        wf_toks(t@),
    ensures
        vr_expr(r) == sp_unambiguous(t@, p as int),
        moves(t@, p as int, r),
    decreases t@.len() - p, 5nat,
{
    reveal(sp_unambiguous);
    reveal(sp_paren_expr);
    reveal(sp_seq_expr);
    let s = skip_ws_exec(t, p);
    let chosen: Result<(Spanned<Expr>, usize), Error> = match parse_paren_expr(t, s) {
        Ok(r) => Ok(r),
        Err(e1) => match parse_seq_expr(t, s, true) {
            Ok(r) => Ok(r),
            Err(e2) => match parse_seq_expr(t, s, false) {
                Ok(r) => Ok(r),
                Err(e3) => match parse_atom(t, s) {
                    Ok(r) => Ok(r),
                    Err(e4) => Err(furthest_exec(furthest_exec(furthest_exec(e1, e2), e3), e4)),
                },
            },
        },
    };
    match chosen {
        Ok((x, q)) => Ok((x, skip_ws_exec(t, q))),
        Err(e) => Err(e),
    }
}

pub(crate) fn parse_paren_expr(t: &Vec<Spanned<TokenInfo>>, p: usize) -> (r: Result<(Spanned<Expr>, usize), Error>)
    requires
        p <= t@.len(),
        wf_toks(t@),
    ensures
        vr_expr(r) == sp_paren_expr(t@, p as int),
        moves(t@, p as int, r),
    decreases t@.len() - p, 4nat,
{
    reveal(sp_paren_expr);
    reveal(sp_expr);
    if !tok_is_exec(t, p, &TokenInfo::LeftParen) {
        return Err(fail_at_exec(t, p));
    }
    let a = skip_ws_exec(t, p + 1);
    let (x, b) = expr_parser(t, a)?;
    let c = skip_ws_exec(t, b);
    if tok_is_exec(t, c, &TokenInfo::RightParen) {
        Ok((x, c + 1))
    } else {
        Err(fail_at_exec(t, c))
    }
}

pub(crate) fn parse_seq_expr(t: &Vec<Spanned<TokenInfo>>, p: usize, tuple: bool) -> (r: Result<
    (Spanned<Expr>, usize),
    Error,
>)
    requires
        p <= t@.len(),
        wf_toks(t@),
    ensures
        vr_expr(r) == sp_seq_expr(t@, p as int, tuple),
        moves(t@, p as int, r),
    decreases t@.len() - p, 4nat,
{
    reveal(sp_seq_expr);
    reveal(sp_expr_list);
    let (open, close) = if tuple {
        (TokenInfo::LeftParen, TokenInfo::RightParen)
    } else {
        (TokenInfo::LeftBracket, TokenInfo::RightBracket)
    };
    if !tok_is_exec(t, p, &open) {
        return Err(fail_at_exec(t, p));
    }
    let a = skip_ws_exec(t, p + 1);
    let (xs, b) = parse_expr_list(t, a);
    let c = skip_ws_exec(t, b);
    if tok_is_exec(t, c, &close) {
        let e = if tuple {
            Expr::Tuple(xs)
        } else {
            Expr::Array(xs)
        };
        let span = range_span_exec(t, p, c + 1);
        Ok((Spanned(e, span), c + 1))
    } else {
        Err(fail_at_exec(t, c))
    }
}

pub(crate) fn parse_expr_list(t: &Vec<Spanned<TokenInfo>>, p: usize) -> (r: (Vec<Spanned<Expr>>, usize))
    requires
        p <= t@.len(),
        wf_toks(t@),
    ensures
        (v_exprs(r.0@), r.1 as int) == sp_expr_list(t@, p as int),
        p <= r.1 <= t@.len(),
    decreases t@.len() - p, 32nat,
{
    reveal(sp_expr_list);
    reveal(sp_expr);
    reveal(sp_expr_list_tail);
    let mut acc: Vec<Spanned<Expr>> = Vec::new();
    match expr_parser(t, p) {
        Err(_) => {
            assert(v_exprs(acc@) =~= Seq::<Spanned<SpecExpr>>::empty());
            (acc, p)
        },
        Ok((x, q0)) => {
            proof {
                lemma_v_exprs_push(acc@, x);
            }
            acc.push(x);
            let mut q = q0;
            loop
                invariant
                    p <= q0 <= q <= t@.len(),
                    wf_toks(t@),
                    sp_expr_list(t@, p as int) == sp_expr_list_tail(t@, q as int, v_exprs(acc@)),
                decreases t@.len() - q,
            {
                reveal(sp_expr_list);
                reveal(sp_expr_list_tail);
                reveal(sp_expr);
                let c = skip_ws_exec(t, q);
                if !tok_is_exec(t, c, &TokenInfo::Comma) {
                    return (acc, q);
                }
                let d = skip_ws_exec(t, c + 1);
                match expr_parser(t, d) {
                    Ok((x, e)) => {
                        proof {
                            lemma_v_exprs_push(acc@, x);
                        }
                        acc.push(x);
                        q = e;
                    },
                    Err(_) => {
                        return (acc, d);
                    },
                }
            }
        },
    }
}

/// A resolved string has a character for each unit of its content.
pub(crate) proof fn lemma_resolve_nonempty(cs: Seq<char>, i: int, pos: int)
    requires
        0 <= i < cs.len(),
        crate::escape::resolve_from(cs, i, pos) is Ok,
    ensures
        crate::escape::resolve_from(cs, i, pos)->Ok_0.len() > 0,
{
    crate::escape::lemma_escape_step_advances(cs, i, pos);
}

pub(crate) fn literal_atom_exec(t: &Vec<Spanned<TokenInfo>>, p: usize) -> (r: Result<Atom, Error>)
    requires
        p < t@.len(),
        wf_toks(t@),
    ensures
        match (r, literal_atom(t@, p as int)) {
            (Ok(a), Ok(sa)) => v_atom(a) == sa,
            (Err(e), Err(se)) => v_error(e) == se,
            _ => false,
        },
{
    reveal(wf_toks);
    assert(match t@[p as int].0 {
        TokenInfo::StringLiteral(c, _, s) => s.start + c@.len() + 32 <= usize::MAX,
        TokenInfo::CharLiteral(c, s) => s.start + c@.len() + 32 <= usize::MAX && c@.len() > 0,
        _ => true,
    });
    match &t[p].0 {
        TokenInfo::IntLiteral(v, rd) => Ok(Atom::Int(v.clone(), *rd)),
        TokenInfo::FloatLiteral(v) => Ok(Atom::Float(v.clone())),
        TokenInfo::StringLiteral(c, f, s) => match resolve_string(c.clone(), *f, *s) {
            Ok(res) => Ok(Atom::String(res)),
            Err(e) => Err(e),
        },
        TokenInfo::CharLiteral(c, s) => match resolve_string(c.clone(), StringLiteralFlags(0), *s) {
            Ok(res) => {
                let cs = crate::text::chars_of(res.as_str());
                proof {
                    lemma_resolve_nonempty(c@, 0, s.start as int);
                }
                Ok(Atom::Char(cs[0]))
            },
            Err(e) => Err(e),
        },
        _ => Err(fail_at_exec(t, p)),
    }
}

pub(crate) fn parse_atom(t: &Vec<Spanned<TokenInfo>>, p: usize) -> (r: Result<(Spanned<Expr>, usize), Error>)
    requires
        p <= t@.len(),
        wf_toks(t@),
    ensures
        vr_expr(r) == sp_atom(t@, p as int),
        moves(t@, p as int, r),
{
    if p >= t.len() {
        return Err(fail_at_exec(t, p));
    }
    match literal_atom_exec(t, p) {
        Ok(a) => Ok((Spanned(Expr::Atom(a), t[p].1), p + 1)),
        Err(e1) => match &t[p].0 {
            TokenInfo::Ident(n, _) => {
                let a = if spelled(n, "true") {
                    Atom::Bool(true)
                } else if spelled(n, "false") {
                    Atom::Bool(false)
                } else if spelled(n, "void") {
                    Atom::Void
                } else {
                    Atom::Ident(n.clone())
                };
                Ok((Spanned(Expr::Atom(a), t[p].1), p + 1))
            },
            _ => Err(furthest_exec(e1, fail_at_exec(t, p))),
        },
    }
}

} // verus!
