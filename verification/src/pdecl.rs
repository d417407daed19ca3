//! The parser of declarations: functions with their parameters, and structs with their fields.

use vstd::prelude::*;
use crate::ast::{FuncParam, Node, Pattern, StructDef, StructField, TyParam, TypeExpr};
use crate::error::{Error, ErrorInfo, SpecError, v_error};
use crate::grammar::{
    SpecParamItem, keyword_params, leading_params, param_values, sp_braced_body, sp_expr,
    sp_field_list, sp_field_list_tail, sp_func, sp_func_body, sp_func_param, sp_param_item,
    sp_param_list, sp_param_list_tail, sp_ret_opt, sp_struct, sp_struct_field, sp_ty_param,
    sp_ty_param_tail, sp_ty_params_opt, sp_value_opt, split_params,
};
use crate::model::{
    v_name, v_opt_ty, v_param, v_params, v_struct_field, v_struct_fields, v_ty_params,
};
use crate::parse_misc::{field_vis_parser, item_vis_parser, pat_parser};
use crate::parse_type::type_expr_parser;
use crate::pbrace::parse_braced_body;
use crate::pcore::{
    fail_at_exec, furthest_exec, is_kw_exec, moves, range_span_exec, skip_ws_exec, tok_is_exec,
    vres, wf_toks,
};
use crate::pexpr::expr_parser;
use crate::pstmt::{parse_ident, parse_ty_annot, parse_value_opt};
use crate::pview::{
    ParamItem, expr_as_block_exec, lemma_v_params_push, lemma_v_struct_fields_push,
    lemma_v_ty_params_push, v_param_item, v_param_items, vr_body, vr_node,
};
use crate::span::{Span, Spanned};
use crate::token::TokenInfo;

verus! {

pub(crate) fn parse_func_param(t: &Vec<Spanned<TokenInfo>>, p: usize) -> (r: Result<
    (Spanned<FuncParam>, usize),
    Error,
>)
    requires
        p <= t@.len(),
        wf_toks(t@),
    ensures
        vres(r, |x: Spanned<FuncParam>| Spanned(v_param(x.0), x.1)) == sp_func_param(t@, p as int),
        moves(t@, p as int, r),
    decreases t@.len() - p, 56nat,
{
    reveal(sp_func_param);
    reveal(sp_value_opt);
    let (pat, b) = pat_parser(t, p)?;
    if !tok_is_exec(t, b, &TokenInfo::Colon) {
        return Err(fail_at_exec(t, b));
    }
    let c = skip_ws_exec(t, b + 1);
    let (ty, d) = type_expr_parser(t, c)?;
    let (default, e) = parse_value_opt(t, d);
    let span = range_span_exec(t, p, e);
    Ok((Spanned(FuncParam { pat, ty, default }, span), e))
}

pub(crate) fn parse_param_item(t: &Vec<Spanned<TokenInfo>>, p: usize) -> (r: Result<(ParamItem, usize), Error>)
    requires
        p <= t@.len(),
        wf_toks(t@),
    ensures
        vres(r, |x: ParamItem| v_param_item(x)) == sp_param_item(t@, p as int),
        moves(t@, p as int, r),
    decreases t@.len() - p, 57nat,
{
    reveal(sp_param_item);
    reveal(sp_func_param);
    if tok_is_exec(t, p, &TokenInfo::Asterisk) {
        Ok((ParamItem::Sep(t[p].1), p + 1))
    } else {
        match parse_func_param(t, p) {
            Ok((x, q)) => Ok((ParamItem::Param(x), q)),
            Err(e) => Err(furthest_exec(fail_at_exec(t, p), e)),
        }
    }
}

pub(crate) fn parse_param_list(t: &Vec<Spanned<TokenInfo>>, p: usize) -> (r: (Vec<ParamItem>, usize))
    requires
        p <= t@.len(),
        wf_toks(t@),
    ensures
        (v_param_items(r.0@), r.1 as int) == sp_param_list(t@, p as int),
        p <= r.1 <= t@.len(),
    decreases t@.len() - p, 58nat,
{
    reveal(sp_param_list);
    reveal(sp_param_item);
    reveal(sp_param_list_tail);
    let mut acc: Vec<ParamItem> = Vec::new();
    match parse_param_item(t, p) {
        Err(_) => {
            assert(v_param_items(acc@) =~= Seq::<SpecParamItem>::empty());
            (acc, p)
        },
        Ok((x, q0)) => {
            acc.push(x);
            assert(v_param_items(acc@) =~= seq![v_param_item(x)]);
            let mut q = q0;
            loop
                invariant
                    p <= q0 <= q <= t@.len(),
                    wf_toks(t@),
                    sp_param_list(t@, p as int) == sp_param_list_tail(
                        t@,
                        q as int,
                        v_param_items(acc@),
                    ),
                decreases t@.len() - q,
            {
                reveal(sp_param_list);
                reveal(sp_param_list_tail);
                reveal(sp_param_item);
                let c = skip_ws_exec(t, q);
                if !tok_is_exec(t, c, &TokenInfo::Comma) {
                    return (acc, q);
                }
                let d = skip_ws_exec(t, c + 1);
                match parse_param_item(t, d) {
                    Ok((x, e)) => {
                        assert(v_param_items(acc@.push(x)) =~= v_param_items(acc@).push(
                            v_param_item(x),
                        ));
                        acc.push(x);
                        q = e;
                    },
                    Err(_) => {
                        return (acc, d);
                    },
                }
            }
        },
    }
}

pub(crate) proof fn lemma_leading_params(items: Seq<SpecParamItem>, k: int)
    requires
        0 <= k <= items.len(),
        forall|i: int| 0 <= i < k ==> items[i] is Param,
        k == items.len() || items[k] is Sep,
    ensures
        leading_params(items) == k,
    decreases items.len(),
{
    if items.len() > 0 && k > 0 {
        lemma_leading_params(items.drop_first(), k - 1);
    }
}

/// Takes the parameters out of items that are all parameters.
pub(crate) fn unwrap_params(items: Vec<ParamItem>) -> (r: Vec<Spanned<FuncParam>>)
    requires
        forall|j: int| 0 <= j < items@.len() ==> items@[j] is Param,
    ensures
        v_params(r@) == param_values(v_param_items(items@)),
{
    let ghost all = items@;
    let n = items.len();
    let mut work = items;
    let mut out: Vec<Spanned<FuncParam>> = Vec::new();
    let mut i: usize = 0;
    assert(param_values(v_param_items(all.subrange(0, 0))) =~= Seq::empty());
    while work.len() > 0
        invariant
            i + work@.len() == all.len() == n,
            all == items@,
            work@ == all.subrange(i as int, all.len() as int),
            forall|j: int| 0 <= j < all.len() ==> all[j] is Param,
            v_params(out@) == param_values(v_param_items(all.subrange(0, i as int))),
        decreases work@.len(),
    {
        let it = work.remove(0);
        assert(it == all[i as int]);
        match it {
            ParamItem::Param(x) => {
                proof {
                    lemma_v_params_push(out@, x);
                    assert(param_values(v_param_items(all.subrange(0, i + 1))) =~= param_values(
                        v_param_items(all.subrange(0, i as int)),
                    ).push(Spanned(v_param(x.0), x.1)));
                }
                out.push(x);
            },
            ParamItem::Sep(_) => {
                assert(false);
            },
        }
        i = i + 1;
        assert(work@ =~= all.subrange(i as int, all.len() as int));
    }
    assert(all.subrange(0, i as int) =~= all);
    out
}

/// The keyword parameters of the items after the first separator.
pub(crate) fn keyword_params_exec(hspan: Span, items: Vec<ParamItem>) -> (r: Result<
    Vec<Spanned<FuncParam>>,
    Error,
>)
    ensures
        match (r, keyword_params(hspan, v_param_items(items@))) {
            (Ok(a), Ok(sa)) => v_params(a@) == sa,
            (Err(e), Err(se)) => v_error(e) == se,
            _ => false,
        },
{
    let ghost all = items@;
    let ghost kw_items = v_param_items(all);
    let n = items.len();
    let mut work = items;
    let mut kws: Vec<Spanned<FuncParam>> = Vec::new();
    let mut m: usize = 0;
    assert(kw_items.subrange(0, 0) =~= Seq::<SpecParamItem>::empty());
    assert(v_params(kws@) =~= Seq::empty());
    while work.len() > 0
        invariant
            m + work@.len() == all.len() == n,
            all == items@,
            work@ == all.subrange(m as int, all.len() as int),
            kw_items == v_param_items(all),
            keyword_params(hspan, kw_items.subrange(0, m as int)) == Ok::<
                Seq<Spanned<crate::model::SpecFuncParam>>,
                SpecError,
            >(v_params(kws@)),
        decreases work@.len(),
    {
        let it = work.remove(0);
        assert(it == all[m as int]);
        assert(kw_items.subrange(0, m + 1).drop_last() =~= kw_items.subrange(0, m as int));
        assert(kw_items.subrange(0, m + 1).last() == v_param_item(it));
        match it {
            ParamItem::Param(x) => {
                let is_ident = matches!(x.0.pat.0, Pattern::Ident { .. });
                if !is_ident {
                    proof {
                        lemma_keyword_params_err_prefix(hspan, kw_items, m as int + 1);
                    }
                    return Err(
                        Error { info: ErrorInfo::KeywordParameterNotIdent(x.1), span: hspan },
                    );
                }
                proof {
                    lemma_v_params_push(kws@, x);
                }
                kws.push(x);
            },
            ParamItem::Sep(s) => {
                proof {
                    lemma_keyword_params_err_prefix(hspan, kw_items, m as int + 1);
                }
                return Err(
                    Error { info: ErrorInfo::MultipleKeywordParameterSeparators(s), span: hspan },
                );
            },
        }
        m = m + 1;
        assert(work@ =~= all.subrange(m as int, all.len() as int));
    }
    assert(kw_items.subrange(0, m as int) =~= kw_items);
    Ok(kws)
}

/// Splits parameter items into positional and keyword parameters.
pub fn split_func_params(hspan: Span, items: Vec<ParamItem>) -> (r: Result<
    (Vec<Spanned<FuncParam>>, Vec<Spanned<FuncParam>>),
    Error,
>)
    ensures
        match (r, split_params(hspan, v_param_items(items@))) {
            (Ok((a, b)), Ok((sa, sb))) => v_params(a@) == sa && v_params(b@) == sb,
            (Err(e), Err(se)) => v_error(e) == se,
            _ => false,
        },
{
    let ghost orig = items@;
    let ghost vi = v_param_items(orig);
    let n = items.len();
    let mut k: usize = 0;
    while k < n && matches!(items[k], ParamItem::Param(_))
        invariant
            k <= n == items@.len(),
            forall|i: int| 0 <= i < k ==> items@[i] is Param,
        decreases n - k,
    {
        k = k + 1;
    }
    proof {
        assert forall|i: int| 0 <= i < k implies vi[i] is Param by {
            assert(vi[i] == v_param_item(orig[i]));
        }
        if k < n {
            assert(vi[k as int] == v_param_item(orig[k as int]));
        }
        lemma_leading_params(vi, k as int);
    }
    let mut front = items;
    let mut rest = front.split_off(k);
    proof {
        assert(v_param_items(front@) =~= vi.subrange(0, k as int));
    }
    let params = unwrap_params(front);
    if rest.len() == 0 {
        let kws: Vec<Spanned<FuncParam>> = Vec::new();
        assert(v_params(kws@) =~= Seq::<Spanned<crate::model::SpecFuncParam>>::empty());
        return Ok((params, kws));
    }
    let _sep = rest.remove(0);
    proof {
        assert(v_param_items(rest@) =~= vi.subrange(k + 1, vi.len() as int));
    }
    match keyword_params_exec(hspan, rest) {
        Ok(kws) => Ok((params, kws)),
        Err(e) => Err(e),
    }
}

/// An error of `keyword_params` on a prefix is its error on the whole.
pub(crate) proof fn lemma_keyword_params_err_prefix(hspan: Span, items: Seq<SpecParamItem>, n: int)
    requires
        0 <= n <= items.len(),
        keyword_params(hspan, items.subrange(0, n)) is Err,
    ensures
        keyword_params(hspan, items) == keyword_params(hspan, items.subrange(0, n)),
    decreases items.len() - n,
{
    if n < items.len() {
        assert(items.subrange(0, n + 1).drop_last() =~= items.subrange(0, n));
        lemma_keyword_params_err_prefix(hspan, items, n + 1);
    } else {
        assert(items.subrange(0, n) =~= items);
    }
}

pub(crate) fn parse_ret_opt(t: &Vec<Spanned<TokenInfo>>, q: usize) -> (r: (Option<Spanned<TypeExpr>>, usize))
    requires
        q <= t@.len(),
    ensures
        (v_opt_ty(r.0), r.1 as int) == sp_ret_opt(t@, q as int),
        q <= r.1 <= t@.len(),
{
    reveal(sp_ret_opt);
    let h = skip_ws_exec(t, q);
    if tok_is_exec(t, h, &TokenInfo::Minus) && tok_is_exec(t, h + 1, &TokenInfo::Gt) {
        let i = skip_ws_exec(t, h + 2);
        match type_expr_parser(t, i) {
            Ok((ty, j)) => (Some(ty), j),
            Err(_) => (None, q),
        }
    } else {
        (None, q)
    }
}

pub(crate) fn parse_func_body(t: &Vec<Spanned<TokenInfo>>, q: usize) -> (r: Result<
    (Spanned<Vec<Spanned<Node>>>, usize),
    Error,
>)
    requires
        q <= t@.len(),
        wf_toks(t@),
    ensures
        vr_body(r) == sp_func_body(t@, q as int),
        moves(t@, q as int, r),
    decreases t@.len() - q, 56nat,
{
    reveal(sp_func_body);
    reveal(sp_expr);
    reveal(sp_braced_body);
    let e1 = match parse_braced_body(t, q) {
        Ok((b, r)) => {
            if tok_is_exec(t, r, &TokenInfo::Semicolon) {
                return Ok((b, r + 1));
            } else {
                return Ok((b, r));
            }
        },
        Err(e) => e,
    };
    let g = skip_ws_exec(t, q);
    if !tok_is_exec(t, g, &TokenInfo::Equals) {
        return Err(furthest_exec(e1, fail_at_exec(t, g)));
    }
    let h = skip_ws_exec(t, g + 1);
    match expr_parser(t, h) {
        Err(e2) => Err(furthest_exec(e1, e2)),
        Ok((x, k)) => {
            if tok_is_exec(t, k, &TokenInfo::Semicolon) {
                let q2 = skip_ws_exec(t, k + 1);
                Ok((expr_as_block_exec(x), q2))
            } else {
                Err(furthest_exec(e1, fail_at_exec(t, k)))
            }
        },
    }
}

pub(crate) fn parse_func(t: &Vec<Spanned<TokenInfo>>, p: usize) -> (r: Result<(Spanned<Node>, usize), Error>)
    requires
        p <= t@.len(),
        wf_toks(t@),
    ensures
        vr_node(r) == sp_func(t@, p as int),
        moves(t@, p as int, r),
    decreases t@.len() - p, 56nat,
{
    reveal(sp_func);
    reveal(sp_param_list);
    reveal(sp_func_body);
    let (vis, b) = item_vis_parser(t, p);
    if !is_kw_exec(t, b, "func") {
        return Err(fail_at_exec(t, b));
    }
    let (name, d) = parse_ident(t, b + 1)?;
    if !tok_is_exec(t, d, &TokenInfo::LeftParen) {
        return Err(fail_at_exec(t, d));
    }
    let e = skip_ws_exec(t, d + 1);
    let (items, f) = parse_param_list(t, e);
    let g = skip_ws_exec(t, f);
    if !tok_is_exec(t, g, &TokenInfo::RightParen) {
        return Err(fail_at_exec(t, g));
    }
    let (ret, hend) = parse_ret_opt(t, g + 1);
    let hspan = range_span_exec(t, b, hend);
    let (params, kw_params) = split_func_params(hspan, items)?;
    let (body, k) = parse_func_body(t, hend)?;
    let span = range_span_exec(t, p, k);
    let q = skip_ws_exec(t, k);
    Ok((Spanned(Node::Func { vis, name, params, kw_params, ret, body }, span), q))
}

pub(crate) fn parse_ty_param(t: &Vec<Spanned<TokenInfo>>, p: usize) -> (r: Result<(TyParam, usize), Error>)
    requires
        p <= t@.len(),
    ensures
        vres(
            r,
            |x: TyParam| crate::model::SpecTyParam { name: v_name(x.name), bound: v_opt_ty(x.bound) },
        ) == sp_ty_param(t@, p as int),
        moves(t@, p as int, r),
{
    let (name, q) = parse_ident(t, p)?;
    let (bound, r) = parse_ty_annot(t, q);
    Ok((TyParam { name, bound }, r))
}

pub(crate) fn parse_ty_param_tail(t: &Vec<Spanned<TokenInfo>>, q_in: usize, acc: &mut Vec<TyParam>) -> (r: usize)
    requires
        q_in <= t@.len(),
    ensures
        (v_ty_params(final(acc)@), r as int) == sp_ty_param_tail(t@, q_in as int, v_ty_params(old(acc)@)),
        q_in <= r <= t@.len(),
{
    let mut q = q_in;
    loop
        invariant
            q_in <= q <= t@.len(),
            sp_ty_param_tail(t@, q_in as int, v_ty_params(old(acc)@)) == sp_ty_param_tail(
                t@,
                q as int,
                v_ty_params(acc@),
            ),
        decreases t@.len() - q,
    {
        let c = skip_ws_exec(t, q);
        if !tok_is_exec(t, c, &TokenInfo::Comma) {
            return q;
        }
        let d = skip_ws_exec(t, c + 1);
        match parse_ty_param(t, d) {
            Ok((y, e)) => {
                if e > q {
                    proof {
                        lemma_v_ty_params_push(acc@, y);
                    }
                    acc.push(y);
                    q = e;
                } else {
                    return d;
                }
            },
            Err(_) => {
                return d;
            },
        }
    }
}

pub(crate) fn parse_ty_params_opt(t: &Vec<Spanned<TokenInfo>>, q: usize) -> (r: (Option<Vec<TyParam>>, usize))
    requires
        q <= t@.len(),
    ensures
        (match r.0 {
            Some(v) => Some(v_ty_params(v@)),
            None => None,
        }, r.1 as int) == sp_ty_params_opt(t@, q as int),
        q <= r.1 <= t@.len(),
{
    reveal(sp_ty_params_opt);
    let a = skip_ws_exec(t, q);
    if !tok_is_exec(t, a, &TokenInfo::Lt) {
        return (None, q);
    }
    let b = skip_ws_exec(t, a + 1);
    let mut xs: Vec<TyParam> = Vec::new();
    let c = match parse_ty_param(t, b) {
        Err(_) => {
            assert(v_ty_params(xs@) =~= Seq::<crate::model::SpecTyParam>::empty());
            b
        },
        Ok((x, q1)) => {
            proof {
                lemma_v_ty_params_push(xs@, x);
            }
            xs.push(x);
            assert(xs@ =~= Seq::<TyParam>::empty().push(x));
            assert(v_ty_params(xs@) =~= seq![crate::model::SpecTyParam { name: v_name(x.name), bound: v_opt_ty(x.bound) }]);
            parse_ty_param_tail(t, q1, &mut xs)
        },
    };
    let d = skip_ws_exec(t, c);
    if tok_is_exec(t, d, &TokenInfo::Gt) {
        (Some(xs), skip_ws_exec(t, d + 1))
    } else {
        (None, q)
    }
}

pub(crate) fn parse_struct_field(t: &Vec<Spanned<TokenInfo>>, p: usize) -> (r: Result<
    (Spanned<StructField>, usize),
    Error,
>)
    requires
        p <= t@.len(),
        wf_toks(t@),
    ensures
        vres(r, |x: Spanned<StructField>| Spanned(v_struct_field(x.0), x.1)) == sp_struct_field(
            t@,
            p as int,
        ),
        moves(t@, p as int, r),
    decreases t@.len() - p, 56nat,
{
    reveal(sp_struct_field);
    reveal(sp_value_opt);
    let (vis, b) = field_vis_parser(t, p)?;
    let (name, c) = parse_ident(t, b)?;
    if !tok_is_exec(t, c, &TokenInfo::Colon) {
        return Err(fail_at_exec(t, c));
    }
    let d = skip_ws_exec(t, c + 1);
    let (ty, e) = type_expr_parser(t, d)?;
    let (default, f) = parse_value_opt(t, e);
    let span = range_span_exec(t, p, f);
    Ok((Spanned(StructField { vis, name, ty, default }, span), f))
}

pub(crate) fn parse_field_list(t: &Vec<Spanned<TokenInfo>>, p: usize) -> (r: (Vec<Spanned<StructField>>, usize))
    requires
        p <= t@.len(),
        wf_toks(t@),
    ensures
        (v_struct_fields(r.0@), r.1 as int) == sp_field_list(t@, p as int),
        p <= r.1 <= t@.len(),
    decreases t@.len() - p, 58nat,
{
    reveal(sp_field_list);
    reveal(sp_struct_field);
    reveal(sp_field_list_tail);
    let mut acc: Vec<Spanned<StructField>> = Vec::new();
    match parse_struct_field(t, p) {
        Err(_) => {
            assert(v_struct_fields(acc@) =~= Seq::<Spanned<crate::model::SpecStructField>>::empty());
            (acc, p)
        },
        Ok((x, q0)) => {
            proof {
                lemma_v_struct_fields_push(acc@, x);
            }
            acc.push(x);
            let mut q = q0;
            loop
                invariant
                    p <= q0 <= q <= t@.len(),
                    wf_toks(t@),
                    sp_field_list(t@, p as int) == sp_field_list_tail(
                        t@,
                        q as int,
                        v_struct_fields(acc@),
                    ),
                decreases t@.len() - q,
            {
                reveal(sp_field_list);
                reveal(sp_field_list_tail);
                reveal(sp_struct_field);
                let c = skip_ws_exec(t, q);
                if !tok_is_exec(t, c, &TokenInfo::Comma) {
                    return (acc, q);
                }
                let d = skip_ws_exec(t, c + 1);
                match parse_struct_field(t, d) {
                    Ok((x, e)) => {
                        proof {
                            lemma_v_struct_fields_push(acc@, x);
                        }
                        acc.push(x);
                        q = e;
                    },
                    Err(_) => {
                        return (acc, d);
                    },
                }
            }
        },
    }
}

pub(crate) fn parse_struct(t: &Vec<Spanned<TokenInfo>>, p: usize) -> (r: Result<(Spanned<Node>, usize), Error>)
    requires
        p <= t@.len(),
        wf_toks(t@),
    ensures
        vr_node(r) == sp_struct(t@, p as int),
        moves(t@, p as int, r),
    decreases t@.len() - p, 56nat,
{
    reveal(sp_struct);
    reveal(sp_field_list);
    let (vis, b) = item_vis_parser(t, p);
    if !is_kw_exec(t, b, "struct") {
        return Err(fail_at_exec(t, b));
    }
    let (name, d) = parse_ident(t, b + 1)?;
    let (ty_params, e) = parse_ty_params_opt(t, d);
    let (extends, f) = parse_ty_annot(t, e);
    if !tok_is_exec(t, f, &TokenInfo::LeftBrace) {
        return Err(fail_at_exec(t, f));
    }
    let g = skip_ws_exec(t, f + 1);
    let (fields, h) = parse_field_list(t, g);
    let i = skip_ws_exec(t, h);
    if !tok_is_exec(t, i, &TokenInfo::RightBrace) {
        return Err(fail_at_exec(t, i));
    }
    let j = if tok_is_exec(t, i + 1, &TokenInfo::Semicolon) {
        i + 2
    } else {
        i + 1
    };
    let ty_params = match ty_params {
        Some(xs) => xs,
        None => {
            let v: Vec<TyParam> = Vec::new();
            assert(v_ty_params(v@) =~= Seq::<crate::model::SpecTyParam>::empty());
            v
        },
    };
    let span = range_span_exec(t, p, j);
    let q = skip_ws_exec(t, j);
    Ok((Spanned(Node::Struct(StructDef { vis, name, ty_params, fields, extends }), span), q))
}

} // verus!
