//! The parser of type expressions.

use vstd::prelude::*;
use crate::ast::{Atom, FuncTypeParam, TypeApplication, TypeExpr, TypePath, TypePathSeg};
use crate::error::{Error, SpecError};
use crate::model::{
    v_app, v_fparams, v_name, v_seg, v_segs, v_sp_ty, v_sp_tys, v_ty, v_ty_kwargs, v_tys, SpecAtom,
    SpecFuncTypeParam, SpecTypeApplication, SpecTypeExpr, SpecTypePath, SpecTypePathSeg,
};
use crate::pcore::{
    adv, fail_at, fail_at_exec, furthest, furthest_exec, is_kw, is_kw_exec, moves, range_span,
    range_span_exec, skip_ws, skip_ws_exec, tok_is, tok_is_exec, vres, PRes, Toks,
};
use crate::span::{spec_merge, Span, Spanned};
use crate::pexpr::tok_is_off;
use crate::token::TokenInfo;

verus! {

/// An argument of a type application: an optional name with `=`, and a type.
pub type SpecAppItem = (Option<Spanned<Seq<char>>>, Spanned<SpecTypeExpr>);

/// A type expression at `p`: one or more product types separated by `|`, with whitespace
/// around it. One alone is itself; more make a union, spanning them all.
pub open spec fn sp_ty(t: Toks, p: int) -> PRes<Spanned<SpecTypeExpr>>
    decreases t.len() - p, 40nat,
{
    match sp_ty_and(t, p) {
        Err(e) => Err(e),
        Ok((x, q)) => if !adv(t, p, q) {
            Err(fail_at(t, q))
        } else {
            let (xs, last, r) = sp_union_tail(t, q, seq![x.0], x.1);
            if xs.len() == 1 {
                Ok((x, q))
            } else {
                Ok((Spanned(SpecTypeExpr::Union(xs), spec_merge(x.1, last)), r))
            }
        },
    }
}

/// Further members of a union after `q`, each after `|`, appended to `acc`; `last` is the span
/// of the last member so far.
pub open spec fn sp_union_tail(t: Toks, q: int, acc: Seq<SpecTypeExpr>, last: Span) -> (Seq<
    SpecTypeExpr,
>, Span, int)
    decreases t.len() - q, 39nat,
{
    let c = skip_ws(t, q);
    let d = skip_ws(t, c + 1);
    if 0 <= q && adv(t, q, c) && tok_is(t, c, TokenInfo::Or) && adv(t, c + 1, d) {
        match sp_ty_and(t, d) {
            Ok((y, e)) => if adv(t, d, e) {
                sp_union_tail(t, e, acc.push(y.0), y.1)
            } else {
                (acc, last, q)
            },
            Err(_) => (acc, last, q),
        }
    } else {
        (acc, last, q)
    }
}

/// A product type at `p`: one or more prefixed types separated by `&`, with whitespace around
/// it. One alone is itself; more make an "and" type, spanning them all.
pub open spec fn sp_ty_and(t: Toks, p: int) -> PRes<Spanned<SpecTypeExpr>>
    decreases t.len() - p, 38nat,
{
    match sp_ty_prefix(t, p) {
        Err(e) => Err(e),
        Ok((x, q)) => if !adv(t, p, q) {
            Err(fail_at(t, q))
        } else {
            let (xs, last, r) = sp_and_tail(t, q, seq![x.0], x.1);
            if xs.len() == 1 {
                Ok((x, q))
            } else {
                Ok((Spanned(SpecTypeExpr::And(xs), spec_merge(x.1, last)), r))
            }
        },
    }
}

/// Further members of a product after `q`, each after `&`, appended to `acc`; `last` is the
/// span of the last member so far.
pub open spec fn sp_and_tail(t: Toks, q: int, acc: Seq<SpecTypeExpr>, last: Span) -> (Seq<
    SpecTypeExpr,
>, Span, int)
    decreases t.len() - q, 37nat,
{
    let c = skip_ws(t, q);
    let d = skip_ws(t, c + 1);
    if 0 <= q && adv(t, q, c) && tok_is(t, c, TokenInfo::And) && adv(t, c + 1, d) {
        match sp_ty_prefix(t, d) {
            Ok((y, e)) => if adv(t, d, e) {
                sp_and_tail(t, e, acc.push(y.0), y.1)
            } else {
                (acc, last, q)
            },
            Err(_) => (acc, last, q),
        }
    } else {
        (acc, last, q)
    }
}

/// A prefixed type at `p`: `!` and a prefixed type (a negation), `mut` and one (the mutable
/// modifier), `to` and one (the cast modifier), or else an array type. The prefix may have
/// whitespace before and after it, and the result spans the prefix and the type.
pub open spec fn sp_ty_prefix(t: Toks, p: int) -> PRes<Spanned<SpecTypeExpr>>
    decreases t.len() - p, 36nat,
{
    let a = skip_ws(t, p);
    if !adv(t, p, a) {
        Err(fail_at(t, a))
    } else if tok_is(t, a, TokenInfo::Not) || is_kw(t, a, "mut"@) || is_kw(t, a, "to"@) {
        let b = skip_ws(t, a + 1);
        if !adv(t, a + 1, b) {
            Err(fail_at(t, b))
        } else {
            match sp_ty_prefix(t, b) {
                Err(e) => Err(e),
                Ok((x, c)) => {
                    let inner = Box::new(x.0);
                    let ty = if tok_is(t, a, TokenInfo::Not) {
                        SpecTypeExpr::Not(inner)
                    } else if is_kw(t, a, "mut"@) {
                        SpecTypeExpr::Mut(inner)
                    } else {
                        SpecTypeExpr::To(inner)
                    };
                    Ok((Spanned(ty, spec_merge(t[a].1, x.1)), c))
                },
            }
        }
    } else {
        sp_ty_postfix(t, p)
    }
}

/// An array type at `p`: a type atom followed by any number of `[size]` or `[]`, the size an
/// integer literal or an identifier. Each array spans its element type and the closing bracket.
pub open spec fn sp_ty_postfix(t: Toks, p: int) -> PRes<Spanned<SpecTypeExpr>>
    decreases t.len() - p, 35nat,
{
    match sp_ty_atom(t, p) {
        Err(e) => Err(e),
        Ok((x, q)) => if adv(t, p, q) {
            Ok(sp_array_tail(t, q, x))
        } else {
            Err(fail_at(t, q))
        },
    }
}

/// Array brackets after `q`, applied to `acc` from the left, with whitespace around them.
pub open spec fn sp_array_tail(t: Toks, q: int, acc: Spanned<SpecTypeExpr>) -> (
    Spanned<SpecTypeExpr>,
    int,
)
    decreases t.len() - q,
{
    let c = skip_ws(t, q);
    let d = skip_ws(t, c + 1);
    if 0 <= q && adv(t, q, c) && tok_is(t, c, TokenInfo::LeftBracket) && adv(t, c + 1, d) {
        let (size, e) = array_size(t, d);
        let f = skip_ws(t, e);
        let g = skip_ws(t, f + 1);
        if adv(t, d, e) && adv(t, e, f) && tok_is(t, f, TokenInfo::RightBracket) && adv(t, f + 1, g) {
            sp_array_tail(
                t,
                g,
                Spanned(SpecTypeExpr::Array(Box::new(acc), size), spec_merge(acc.1, t[f].1)),
            )
        } else {
            (acc, q)
        }
    } else {
        (acc, q)
    }
}

/// A type atom at `p`: a function type, a parenthesized type, the inferred type `_`, a path, or
/// a tuple type, tried in this order. If none matches, the error of the one that got furthest.
pub open spec fn sp_ty_atom(t: Toks, p: int) -> PRes<Spanned<SpecTypeExpr>>
    decreases t.len() - p, 34nat,
{
    match sp_ty_func(t, p) {
        Ok(r) => Ok(r),
        Err(e0) => match sp_ty_paren(t, p) {
            Ok(r) => Ok(r),
            Err(e1) => match sp_ty_infer(t, p) {
                Ok(r) => Ok(r),
                Err(e2) => match sp_ty_path(t, p) {
                    Ok(r) => Ok(r),
                    Err(e3) => match sp_ty_tuple(t, p) {
                        Ok(r) => Ok(r),
                        Err(e4) => Err(furthest(furthest(furthest(furthest(e0, e1), e2), e3), e4)),
                    },
                },
            },
        },
    }
}

/// A function type at `p`: `(`, parameters separated by commas (a trailing comma allowed), `)`,
/// `->` and the return type, with whitespace before, inside and around the arrow. It spans the
/// opening parenthesis and the return type.
pub open spec fn sp_ty_func(t: Toks, p: int) -> PRes<Spanned<SpecTypeExpr>>
    decreases t.len() - p, 33nat,
{
    let a = skip_ws(t, p);
    if !(adv(t, p, a) && tok_is(t, a, TokenInfo::LeftParen)) {
        Err(fail_at(t, a))
    } else {
        let b = skip_ws(t, a + 1);
        if !adv(t, a + 1, b) {
            Err(fail_at(t, b))
        } else {
            let (params, c) = sp_fparam_list(t, b);
            let d = skip_ws(t, c);
            if !(adv(t, b, c) && adv(t, c, d) && tok_is(t, d, TokenInfo::RightParen)) {
                Err(fail_at(t, d))
            } else {
                let e = skip_ws(t, d + 1);
                if !(adv(t, d + 1, e) && tok_is(t, e, TokenInfo::Minus)) {
                    Err(fail_at(t, e))
                } else if !tok_is(t, e + 1, TokenInfo::Gt) {
                    Err(fail_at(t, e + 1))
                } else {
                    let f = skip_ws(t, e + 2);
                    if !adv(t, e + 2, f) {
                        Err(fail_at(t, f))
                    } else {
                        match sp_ty(t, f) {
                            Err(err) => Err(err),
                            Ok((ret, g)) => Ok(
                                (
                                    Spanned(
                                        SpecTypeExpr::Func {
                                            params,
                                            kw_params: Seq::empty(),
                                            ret: Some(Box::new(ret.0)),
                                        },
                                        spec_merge(t[a].1, ret.1),
                                    ),
                                    g,
                                ),
                            ),
                        }
                    }
                }
            }
        }
    }
}

/// A parameter of a function type at `p`: a name, `?` right after it if it is optional, `:`
/// with whitespace around it and a type; or a type alone.
pub open spec fn sp_fparam(t: Toks, p: int) -> PRes<SpecFuncTypeParam>
    decreases t.len() - p, 43nat,
{
    let opt = tok_is(t, p + 1, TokenInfo::Question);
    let b = if opt {
        p + 2
    } else {
        p + 1
    };
    let c = skip_ws(t, b);
    let d = skip_ws(t, c + 1);
    if 0 <= p < t.len() && t[p].0 is Ident && adv(t, b, c) && tok_is(t, c, TokenInfo::Colon)
        && adv(t, c + 1, d) {
        match sp_ty(t, d) {
            Err(e) => Err(e),
            Ok((ty, e)) => Ok(
                (SpecFuncTypeParam { name: Some(t[p].0->Ident_0@), ty: ty.0, optional: opt }, e),
            ),
        }
    } else {
        match sp_ty(t, p) {
            Err(e) => Err(e),
            Ok((ty, e)) => Ok((SpecFuncTypeParam { name: None, ty: ty.0, optional: false }, e)),
        }
    }
}

/// Zero or more parameters of a function type at `p`, separated by commas with whitespace
/// around them; after at least one a trailing comma is allowed.
pub open spec fn sp_fparam_list(t: Toks, p: int) -> (Seq<SpecFuncTypeParam>, int)
    decreases t.len() - p, 44nat,
{
    if !(0 <= p <= t.len()) {
        (Seq::empty(), p)
    } else {
        match sp_fparam(t, p) {
            Err(_) => (Seq::empty(), p),
            Ok((x, q)) => if adv(t, p, q) {
                sp_fparam_tail(t, q, seq![x])
            } else {
                (Seq::empty(), p)
            },
        }
    }
}

/// Further parameters after `q`, each after a comma, appended to `acc`; a comma not followed by
/// a parameter is consumed as a trailing comma.
pub open spec fn sp_fparam_tail(t: Toks, q: int, acc: Seq<SpecFuncTypeParam>) -> (Seq<
    SpecFuncTypeParam,
>, int)
    decreases t.len() - q, 42nat,
{
    let c = skip_ws(t, q);
    let d = skip_ws(t, c + 1);
    if 0 <= q && adv(t, q, c) && tok_is(t, c, TokenInfo::Comma) && adv(t, c + 1, d) {
        match sp_fparam(t, d) {
            Ok((x, e)) => if adv(t, d, e) {
                sp_fparam_tail(t, e, acc.push(x))
            } else {
                (acc, d)
            },
            Err(_) => (acc, d),
        }
    } else {
        (acc, q)
    }
}

/// A type in parentheses at `p`: `(` right at `p`, whitespace allowed inside. It is the inner
/// type itself, with its own span.
pub open spec fn sp_ty_paren(t: Toks, p: int) -> PRes<Spanned<SpecTypeExpr>>
    decreases t.len() - p, 33nat,
{
    if !tok_is(t, p, TokenInfo::LeftParen) {
        Err(fail_at(t, p))
    } else {
        let a = skip_ws(t, p + 1);
        if !adv(t, p + 1, a) {
            Err(fail_at(t, a))
        } else {
            match sp_ty(t, a) {
                Err(e) => Err(e),
                Ok((x, b)) => {
                    let c = skip_ws(t, b);
                    if tok_is(t, c, TokenInfo::RightParen) {
                        Ok((x, c + 1))
                    } else {
                        Err(fail_at(t, c))
                    }
                },
            }
        }
    }
}

/// The inferred type `_` at `p`, with whitespace before and after; it spans the `_`.
pub open spec fn sp_ty_infer(t: Toks, p: int) -> PRes<Spanned<SpecTypeExpr>>
    decreases t.len() - p, 33nat,
{
    let a = skip_ws(t, p);
    if is_kw(t, a, "_"@) {
        Ok((Spanned(SpecTypeExpr::Infer, t[a].1), skip_ws(t, a + 1)))
    } else {
        Err(fail_at(t, a))
    }
}

/// A path type at `p`: segments separated by dots, with whitespace before and after. The path
/// spans its segments.
pub open spec fn sp_ty_path(t: Toks, p: int) -> PRes<Spanned<SpecTypeExpr>>
    decreases t.len() - p, 33nat,
{
    let a = skip_ws(t, p);
    if !adv(t, p, a) {
        Err(fail_at(t, a))
    } else {
        match sp_seg(t, a) {
            Err(e) => Err(e),
            Ok((s, b)) => if !adv(t, a, b) {
                Err(fail_at(t, b))
            } else {
                let (segs, c) = sp_segs_tail(t, b, seq![s]);
                let rs = range_span(t, a, c);
                Ok(
                    (
                        Spanned(SpecTypeExpr::Path(Spanned(SpecTypePath(segs), rs)), rs),
                        skip_ws(t, c),
                    ),
                )
            },
        }
    }
}

/// A path segment at `p`: an identifier and an optional application, spanning both.
pub open spec fn sp_seg(t: Toks, p: int) -> PRes<Spanned<SpecTypePathSeg>>
    decreases t.len() - p, 8nat,
{
    if 0 <= p < t.len() && t[p].0 is Ident {
        let ident = Spanned(t[p].0->Ident_0@, t[p].1);
        let (app, b) = sp_app_opt(t, p + 1);
        Ok((Spanned(SpecTypePathSeg(ident, app), range_span(t, p, b)), b))
    } else {
        Err(fail_at(t, p))
    }
}

/// Further path segments after `q`, each after a dot with whitespace around it, appended to
/// `acc`. A dot not followed by a segment is left unconsumed.
pub open spec fn sp_segs_tail(t: Toks, q: int, acc: Seq<Spanned<SpecTypePathSeg>>) -> (Seq<
    Spanned<SpecTypePathSeg>,
>, int)
    decreases t.len() - q, 7nat,
{
    let c = skip_ws(t, q);
    let d = skip_ws(t, c + 1);
    if 0 <= q && adv(t, q, c) && tok_is(t, c, TokenInfo::Dot) && adv(t, c + 1, d) {
        match sp_seg(t, d) {
            Ok((s, e)) => if adv(t, d, e) {
                sp_segs_tail(t, e, acc.push(s))
            } else {
                (acc, q)
            },
            Err(_) => (acc, q),
        }
    } else {
        (acc, q)
    }
}

/// An optional type application at `p`; nothing is consumed if there is none, or if the one
/// there has a positional argument after a named one.
pub open spec fn sp_app_opt(t: Toks, p: int) -> (Option<Spanned<SpecTypeApplication>>, int)
    decreases t.len() - p, 6nat,
{
    match sp_app(t, p) {
        Some((a, q)) => (Some(a), q),
        None => (None, p),
    }
}

/// A type application at `p`: `<`, at least one argument, arguments separated by commas with
/// an optional trailing comma, whitespace inside, and `>`. Positional arguments come first; the
/// application spans the angle brackets.
pub open spec fn sp_app(t: Toks, p: int) -> Option<(Spanned<SpecTypeApplication>, int)>
    decreases t.len() - p, 5nat,
{
    if !tok_is(t, p, TokenInfo::Lt) {
        None
    } else {
        let a = skip_ws(t, p + 1);
        if !adv(t, p + 1, a) {
            None
        } else {
            match sp_app_item(t, a) {
                Err(_) => None,
                Ok((i1, b)) => if !adv(t, a, b) {
                    None
                } else {
                    let (items, c) = sp_app_tail(t, b, seq![i1]);
                    let d = skip_ws(t, c);
                    if tok_is(t, d, TokenInfo::Gt) {
                        match split_app(items) {
                            Some(app) => Some((Spanned(app, range_span(t, p, d + 1)), d + 1)),
                            None => None,
                        }
                    } else {
                        None
                    }
                },
            }
        }
    }
}

/// One argument of a type application at `p`: an optional identifier followed by `=`
/// (whitespace allowed around it), then a type.
pub open spec fn sp_app_item(t: Toks, p: int) -> PRes<SpecAppItem>
    decreases t.len() - p, 43nat,
{
    let c = skip_ws(t, p + 1);
    let d = skip_ws(t, c + 1);
    let (name, s) = if 0 <= p < t.len() && t[p].0 is Ident && adv(t, p + 1, c) && tok_is(
        t,
        c,
        TokenInfo::Equals,
    ) && adv(t, c + 1, d) {
        (Some(Spanned(t[p].0->Ident_0@, t[p].1)), d)
    } else {
        (None, p)
    };
    if !(0 <= p <= s <= t.len()) {
        Err(fail_at(t, s))
    } else {
        match sp_ty(t, s) {
            Ok((ty, e)) => Ok(((name, ty), e)),
            Err(e) => Err(e),
        }
    }
}

/// Further application arguments after `q`, each after a comma with whitespace around it,
/// appended to `acc`; a comma not followed by an argument is consumed as a trailing comma.
pub open spec fn sp_app_tail(t: Toks, q: int, acc: Seq<SpecAppItem>) -> (Seq<SpecAppItem>, int)
    decreases t.len() - q, 42nat,
{
    let c = skip_ws(t, q);
    let d = skip_ws(t, c + 1);
    if 0 <= q && adv(t, q, c) && tok_is(t, c, TokenInfo::Comma) && adv(t, c + 1, d) {
        match sp_app_item(t, d) {
            Ok((x, e)) => if adv(t, d, e) {
                sp_app_tail(t, e, acc.push(x))
            } else {
                (acc, d)
            },
            Err(_) => (acc, d),
        }
    } else {
        (acc, q)
    }
}

/// The number of leading arguments without a name.
pub open spec fn positional_count(items: Seq<SpecAppItem>) -> nat
    decreases items.len(),
{
    if items.len() == 0 || items[0].0 is Some {
        0
    } else {
        1 + positional_count(items.drop_first())
    }
}

/// The named arguments of `items`, if every one of them has a name.
pub open spec fn named_args(items: Seq<SpecAppItem>) -> Option<
    Seq<(Spanned<Seq<char>>, Spanned<SpecTypeExpr>)>,
>
    decreases items.len(),
{
    if items.len() == 0 {
        Some(Seq::empty())
    } else {
        match (named_args(items.drop_last()), items.last().0) {
            (Some(ns), Some(n)) => Some(ns.push((n, items.last().1))),
            _ => None,
        }
    }
}

/// The application made of `items`: the leading unnamed arguments are positional, and every
/// argument after the first named one must be named.
pub open spec fn split_app(items: Seq<SpecAppItem>) -> Option<SpecTypeApplication> {
    let k = positional_count(items) as int;
    match named_args(items.subrange(k, items.len() as int)) {
        Some(kwargs) => Some(
            SpecTypeApplication {
                args: items.subrange(0, k).map_values(|i: SpecAppItem| i.1),
                kwargs,
            },
        ),
        None => None,
    }
}

/// A tuple type at `p`: `(`, types separated by commas with an optional trailing comma,
/// whitespace inside, and `)`, with whitespace before and after. It spans the parentheses.
pub open spec fn sp_ty_tuple(t: Toks, p: int) -> PRes<Spanned<SpecTypeExpr>>
    decreases t.len() - p, 33nat,
{
    let a = skip_ws(t, p);
    if !(adv(t, p, a) && tok_is(t, a, TokenInfo::LeftParen)) {
        Err(fail_at(t, a))
    } else {
        let b = skip_ws(t, a + 1);
        if !adv(t, a + 1, b) {
            Err(fail_at(t, b))
        } else {
            let (xs, c) = sp_ty_list(t, b);
            let d = skip_ws(t, c);
            if tok_is(t, d, TokenInfo::RightParen) {
                Ok((Spanned(SpecTypeExpr::Tuple(xs), range_span(t, a, d + 1)), skip_ws(t, d + 1)))
            } else {
                Err(fail_at(t, d))
            }
        }
    }
}

/// Zero or more types at `p`, separated by commas with whitespace around them; after at least
/// one type a trailing comma is allowed.
pub open spec fn sp_ty_list(t: Toks, p: int) -> (Seq<Spanned<SpecTypeExpr>>, int)
    decreases t.len() - p, 43nat,
{
    if !(0 <= p <= t.len()) {
        (Seq::empty(), p)
    } else {
        match sp_ty(t, p) {
            Err(_) => (Seq::empty(), p),
            Ok((x, q)) => if adv(t, p, q) {
                sp_ty_list_tail(t, q, seq![x])
            } else {
                (Seq::empty(), p)
            },
        }
    }
}

/// Further types after `q`, each after a comma with whitespace around it, appended to `acc`; a
/// comma not followed by a type is consumed as a trailing comma.
pub open spec fn sp_ty_list_tail(t: Toks, q: int, acc: Seq<Spanned<SpecTypeExpr>>) -> (Seq<
    Spanned<SpecTypeExpr>,
>, int)
    decreases t.len() - q, 42nat,
{
    let c = skip_ws(t, q);
    let d = skip_ws(t, c + 1);
    if 0 <= q && adv(t, q, c) && tok_is(t, c, TokenInfo::Comma) && adv(t, c + 1, d) {
        match sp_ty(t, d) {
            Ok((x, e)) => if adv(t, d, e) {
                sp_ty_list_tail(t, e, acc.push(x))
            } else {
                (acc, d)
            },
            Err(_) => (acc, d),
        }
    } else {
        (acc, q)
    }
}

/// The size of an array type at `p`: an integer literal or an identifier, if there is one.
pub open spec fn array_size(t: Toks, p: int) -> (Option<Spanned<SpecAtom>>, int) {
    if 0 <= p < t.len() {
        match t[p].0 {
            TokenInfo::IntLiteral(v, r) => (Some(Spanned(SpecAtom::Int(v@, r), t[p].1)), p + 1),
            TokenInfo::Ident(n, _) => (Some(Spanned(SpecAtom::Ident(n@), t[p].1)), p + 1),
            _ => (None, p),
        }
    } else {
        (None, p)
    }
}

// ---------------------------------------------------------------------------------------------
// Views of the intermediate values, and how they grow.

/// View of the arguments of a type application as parsed.
pub open spec fn v_app_items(s: Seq<(Option<Spanned<String>>, Spanned<TypeExpr>)>) -> Seq<SpecAppItem> {
    s.map_values(
        |i: (Option<Spanned<String>>, Spanned<TypeExpr>)|
            (
                match i.0 {
                    Some(n) => Some(v_name(n)),
                    None => None,
                },
                v_sp_ty(i.1),
            ),
    )
}

proof fn lemma_v_sp_tys_push(s: Seq<Spanned<TypeExpr>>, x: Spanned<TypeExpr>)
    ensures
        v_sp_tys(s.push(x)) == v_sp_tys(s).push(v_sp_ty(x)),
{
    assert(s.push(x).drop_last() =~= s);
}

proof fn lemma_v_segs_push(s: Seq<Spanned<TypePathSeg>>, x: Spanned<TypePathSeg>)
    ensures
        v_segs(s.push(x)) == v_segs(s).push(Spanned(v_seg(x.0), x.1)),
{
    assert(s.push(x).drop_last() =~= s);
}

proof fn lemma_v_ty_kwargs_push(
    s: Seq<(Spanned<String>, Spanned<TypeExpr>)>,
    x: (Spanned<String>, Spanned<TypeExpr>),
)
    ensures
        v_ty_kwargs(s.push(x)) == v_ty_kwargs(s).push((v_name(x.0), v_sp_ty(x.1))),
{
    assert(s.push(x).drop_last() =~= s);
}

/// View of a parameter of a function type.
pub open spec fn v_fparam(p: FuncTypeParam) -> SpecFuncTypeParam {
    SpecFuncTypeParam {
        name: match p.name {
            Some(n) => Some(n@),
            None => None,
        },
        ty: v_ty(p.ty),
        optional: p.optional,
    }
}

proof fn lemma_v_fparams_push(s: Seq<FuncTypeParam>, x: FuncTypeParam)
    ensures
        v_fparams(s.push(x)) == v_fparams(s).push(v_fparam(x)),
{
    assert(s.push(x).drop_last() =~= s);
}

proof fn lemma_v_tys_push(s: Seq<TypeExpr>, x: TypeExpr)
    ensures
        v_tys(s.push(x)) == v_tys(s).push(v_ty(x)),
{
    assert(s.push(x).drop_last() =~= s);
}

proof fn lemma_v_tys_len(s: Seq<TypeExpr>)
    ensures
        v_tys(s).len() == s.len(),
    decreases s.len(),
{
    if s.len() > 0 {
        lemma_v_tys_len(s.drop_last());
    }
}

// ---------------------------------------------------------------------------------------------
// Executable parsers.

/// Parses a type expression at `p`.
pub fn type_expr_parser(t: &Vec<Spanned<TokenInfo>>, p: usize) -> (r: Result<(Spanned<TypeExpr>, usize), Error>)
    requires
        p <= t@.len(),
    ensures
        vres(r, |x: Spanned<TypeExpr>| v_sp_ty(x)) == sp_ty(t@, p as int),
        moves(t@, p as int, r),
    decreases t@.len() - p, 40nat,
{
    let (x, q) = parse_ty_and(t, p)?;
    let ghost gx = x;
    let span0 = x.1;
    let mut acc: Vec<TypeExpr> = Vec::new();
    acc.push(x.0);
    proof {
        lemma_v_tys_push(Seq::empty(), gx.0);
        assert(Seq::<TypeExpr>::empty().push(gx.0) =~= acc@);
    }
    let (last, r) = parse_union_tail(t, q, &mut acc, span0, Ghost(p as int));
    proof {
        lemma_v_tys_len(acc@);
    }
    if acc.len() == 1 {
        let y = acc.pop().unwrap();
        return Ok((Spanned(y, span0), q));
    }
    let span = span0.merge(last);
    Ok((Spanned(TypeExpr::Union(acc), span), r))
}

fn parse_union_tail(
    t: &Vec<Spanned<TokenInfo>>,
    q_in: usize,
    acc: &mut Vec<TypeExpr>,
    last_in: Span,
    Ghost(p0): Ghost<int>,
) -> (r: (Span, usize))
    requires
        0 <= p0 <= q_in <= t@.len(),
    ensures
        (v_tys(final(acc)@), r.0, r.1 as int) == sp_union_tail(
            t@,
            q_in as int,
            v_tys(old(acc)@),
            last_in,
        ),
        q_in <= r.1 <= t@.len(),
        final(acc)@.len() >= old(acc)@.len(),
        forall|i: int| 0 <= i < old(acc)@.len() ==> final(acc)@[i] == old(acc)@[i],
    decreases t@.len() - p0, 39nat,
{
    let mut q = q_in;
    let mut last = last_in;
    loop
        invariant
            p0 <= q_in <= q <= t@.len(),
            acc@.len() >= old(acc)@.len(),
            forall|i: int| 0 <= i < old(acc)@.len() ==> acc@[i] == old(acc)@[i],
            sp_union_tail(t@, q_in as int, v_tys(old(acc)@), last_in) == sp_union_tail(
                t@,
                q as int,
                v_tys(acc@),
                last,
            ),
        decreases t@.len() - q,
    {
        let c = skip_ws_exec(t, q);
        if !tok_is_exec(t, c, &TokenInfo::Or) {
            return (last, q);
        }
        let d = skip_ws_exec(t, c + 1);
        match parse_ty_and(t, d) {
            Ok((y, e)) => {
                proof {
                    lemma_v_tys_push(acc@, y.0);
                }
                last = y.1;
                acc.push(y.0);
                q = e;
            },
            Err(_) => {
                return (last, q);
            },
        }
    }
}

fn parse_ty_and(t: &Vec<Spanned<TokenInfo>>, p: usize) -> (r: Result<(Spanned<TypeExpr>, usize), Error>)
    requires
        p <= t@.len(),
    ensures
        vres(r, |x: Spanned<TypeExpr>| v_sp_ty(x)) == sp_ty_and(t@, p as int),
        moves(t@, p as int, r),
    decreases t@.len() - p, 38nat,
{
    let (x, q) = parse_ty_prefix(t, p)?;
    let ghost gx = x;
    let span0 = x.1;
    let mut acc: Vec<TypeExpr> = Vec::new();
    acc.push(x.0);
    proof {
        lemma_v_tys_push(Seq::empty(), gx.0);
        assert(Seq::<TypeExpr>::empty().push(gx.0) =~= acc@);
    }
    let (last, r) = parse_and_tail(t, q, &mut acc, span0, Ghost(p as int));
    proof {
        lemma_v_tys_len(acc@);
    }
    if acc.len() == 1 {
        let y = acc.pop().unwrap();
        return Ok((Spanned(y, span0), q));
    }
    let span = span0.merge(last);
    Ok((Spanned(TypeExpr::And(acc), span), r))
}

fn parse_and_tail(
    t: &Vec<Spanned<TokenInfo>>,
    q_in: usize,
    acc: &mut Vec<TypeExpr>,
    last_in: Span,
    Ghost(p0): Ghost<int>,
) -> (r: (Span, usize))
    requires
        0 <= p0 <= q_in <= t@.len(),
    ensures
        (v_tys(final(acc)@), r.0, r.1 as int) == sp_and_tail(
            t@,
            q_in as int,
            v_tys(old(acc)@),
            last_in,
        ),
        q_in <= r.1 <= t@.len(),
        final(acc)@.len() >= old(acc)@.len(),
        forall|i: int| 0 <= i < old(acc)@.len() ==> final(acc)@[i] == old(acc)@[i],
    decreases t@.len() - p0, 37nat,
{
    let mut q = q_in;
    let mut last = last_in;
    loop
        invariant
            p0 <= q_in <= q <= t@.len(),
            acc@.len() >= old(acc)@.len(),
            forall|i: int| 0 <= i < old(acc)@.len() ==> acc@[i] == old(acc)@[i],
            sp_and_tail(t@, q_in as int, v_tys(old(acc)@), last_in) == sp_and_tail(
                t@,
                q as int,
                v_tys(acc@),
                last,
            ),
        decreases t@.len() - q,
    {
        let c = skip_ws_exec(t, q);
        if !tok_is_exec(t, c, &TokenInfo::And) {
            return (last, q);
        }
        let d = skip_ws_exec(t, c + 1);
        match parse_ty_prefix(t, d) {
            Ok((y, e)) => {
                proof {
                    lemma_v_tys_push(acc@, y.0);
                }
                last = y.1;
                acc.push(y.0);
                q = e;
            },
            Err(_) => {
                return (last, q);
            },
        }
    }
}

fn parse_ty_prefix(t: &Vec<Spanned<TokenInfo>>, p: usize) -> (r: Result<(Spanned<TypeExpr>, usize), Error>)
    requires
        p <= t@.len(),
    ensures
        vres(r, |x: Spanned<TypeExpr>| v_sp_ty(x)) == sp_ty_prefix(t@, p as int),
        moves(t@, p as int, r),
    decreases t@.len() - p, 36nat,
{
    let a = skip_ws_exec(t, p);
    let is_not = tok_is_exec(t, a, &TokenInfo::Not);
    let is_mut = is_kw_exec(t, a, "mut");
    let is_to = is_kw_exec(t, a, "to");
    if is_not || is_mut || is_to {
        let b = skip_ws_exec(t, a + 1);
        let (x, c) = parse_ty_prefix(t, b)?;
        let span = t[a].1.merge(x.1);
        let inner = Box::new(x.0);
        let ty = if is_not {
            TypeExpr::Not(inner)
        } else if is_mut {
            TypeExpr::Mut(inner)
        } else {
            TypeExpr::To(inner)
        };
        Ok((Spanned(ty, span), c))
    } else {
        parse_ty_postfix(t, p)
    }
}

fn parse_ty_postfix(t: &Vec<Spanned<TokenInfo>>, p: usize) -> (r: Result<(Spanned<TypeExpr>, usize), Error>)
    requires
        p <= t@.len(),
    ensures
        vres(r, |x: Spanned<TypeExpr>| v_sp_ty(x)) == sp_ty_postfix(t@, p as int),
        moves(t@, p as int, r),
    decreases t@.len() - p, 35nat,
{
    let (x, q) = parse_ty_atom(t, p)?;
    Ok(parse_array_tail(t, q, x))
}

fn parse_array_tail(t: &Vec<Spanned<TokenInfo>>, q_in: usize, x: Spanned<TypeExpr>) -> (r: (
    Spanned<TypeExpr>,
    usize,
))
    requires
        q_in <= t@.len(),
    ensures
        (v_sp_ty(r.0), r.1 as int) == sp_array_tail(t@, q_in as int, v_sp_ty(x)),
        q_in <= r.1 <= t@.len(),
{
    let mut q = q_in;
    let mut acc = x;
    loop
        invariant
            q_in <= q <= t@.len(),
            sp_array_tail(t@, q_in as int, v_sp_ty(x)) == sp_array_tail(
                t@,
                q as int,
                v_sp_ty(acc),
            ),
        decreases t@.len() - q,
    {
        let c = skip_ws_exec(t, q);
        if !tok_is_exec(t, c, &TokenInfo::LeftBracket) {
            return (acc, q);
        }
        let d = skip_ws_exec(t, c + 1);
        let (size, e) = array_size_exec(t, d);
        let f = skip_ws_exec(t, e);
        if !tok_is_exec(t, f, &TokenInfo::RightBracket) {
            return (acc, q);
        }
        let span = acc.1.merge(t[f].1);
        acc = Spanned(TypeExpr::Array(Box::new(acc), size), span);
        q = skip_ws_exec(t, f + 1);
    }
}

fn parse_ty_atom(t: &Vec<Spanned<TokenInfo>>, p: usize) -> (r: Result<(Spanned<TypeExpr>, usize), Error>)
    requires
        p <= t@.len(),
    ensures
        vres(r, |x: Spanned<TypeExpr>| v_sp_ty(x)) == sp_ty_atom(t@, p as int),
        moves(t@, p as int, r),
    decreases t@.len() - p, 34nat,
{
    let e0 = match parse_ty_func(t, p) {
        Ok(r) => return Ok(r),
        Err(e) => e,
    };
    let e1 = match parse_ty_paren(t, p) {
        Ok(r) => return Ok(r),
        Err(e) => e,
    };
    let e2 = match parse_ty_infer(t, p) {
        Ok(r) => return Ok(r),
        Err(e) => e,
    };
    let e3 = match parse_ty_path(t, p) {
        Ok(r) => return Ok(r),
        Err(e) => e,
    };
    let e4 = match parse_ty_tuple(t, p) {
        Ok(r) => return Ok(r),
        Err(e) => e,
    };
    Err(furthest_exec(furthest_exec(furthest_exec(furthest_exec(e0, e1), e2), e3), e4))
}

fn parse_ty_func(t: &Vec<Spanned<TokenInfo>>, p: usize) -> (r: Result<(Spanned<TypeExpr>, usize), Error>)
    requires
        p <= t@.len(),
    ensures
        vres(r, |x: Spanned<TypeExpr>| v_sp_ty(x)) == sp_ty_func(t@, p as int),
        moves(t@, p as int, r),
    decreases t@.len() - p, 33nat,
{
    let a = skip_ws_exec(t, p);
    if !tok_is_exec(t, a, &TokenInfo::LeftParen) {
        return Err(fail_at_exec(t, a));
    }
    let b = skip_ws_exec(t, a + 1);
    let (params, c) = parse_fparam_list(t, b);
    let d = skip_ws_exec(t, c);
    if !tok_is_exec(t, d, &TokenInfo::RightParen) {
        return Err(fail_at_exec(t, d));
    }
    let e = skip_ws_exec(t, d + 1);
    if !tok_is_exec(t, e, &TokenInfo::Minus) {
        return Err(fail_at_exec(t, e));
    }
    if !tok_is_exec(t, e + 1, &TokenInfo::Gt) {
        return Err(fail_at_exec(t, e + 1));
    }
    let f = skip_ws_exec(t, e + 2);
    let (ret, g) = type_expr_parser(t, f)?;
    let span = t[a].1.merge(ret.1);
    let kw_params: Vec<FuncTypeParam> = Vec::new();
    proof {
        assert(v_fparams(kw_params@) =~= Seq::<SpecFuncTypeParam>::empty());
    }
    Ok((Spanned(TypeExpr::Func { params, kw_params, ret: Some(Box::new(ret.0)) }, span), g))
}

fn parse_fparam(t: &Vec<Spanned<TokenInfo>>, p: usize) -> (r: Result<(FuncTypeParam, usize), Error>)
    requires
        p <= t@.len(),
    ensures
        vres(r, |x: FuncTypeParam| v_fparam(x)) == sp_fparam(t@, p as int),
        moves(t@, p as int, r),
    decreases t@.len() - p, 43nat,
{
    if p < t.len() {
        if let TokenInfo::Ident(n, _) = &t[p].0 {
            let opt = tok_is_off(t, p, 1, &TokenInfo::Question);
            let b = if opt {
                p + 2
            } else {
                p + 1
            };
            let c = skip_ws_exec(t, b);
            if tok_is_exec(t, c, &TokenInfo::Colon) {
                let d = skip_ws_exec(t, c + 1);
                let (ty, e) = type_expr_parser(t, d)?;
                return Ok((FuncTypeParam { name: Some(n.clone()), ty: ty.0, optional: opt }, e));
            }
        }
    }
    let (ty, e) = type_expr_parser(t, p)?;
    Ok((FuncTypeParam { name: None, ty: ty.0, optional: false }, e))
}

fn parse_fparam_list(t: &Vec<Spanned<TokenInfo>>, p: usize) -> (r: (Vec<FuncTypeParam>, usize))
    requires
        p <= t@.len(),
    ensures
        (v_fparams(r.0@), r.1 as int) == sp_fparam_list(t@, p as int),
        p <= r.1 <= t@.len(),
    decreases t@.len() - p, 44nat,
{
    let mut acc: Vec<FuncTypeParam> = Vec::new();
    match parse_fparam(t, p) {
        Err(_) => {
            assert(v_fparams(acc@) =~= Seq::<SpecFuncTypeParam>::empty());
            (acc, p)
        },
        Ok((x, q)) => {
            proof {
                lemma_v_fparams_push(Seq::empty(), x);
                assert(Seq::<FuncTypeParam>::empty().push(x) =~= seq![x]);
            }
            acc.push(x);
            assert(acc@ =~= seq![x]);
            let r = parse_fparam_tail(t, q, &mut acc, Ghost(p as int));
            (acc, r)
        },
    }
}

fn parse_fparam_tail(
    t: &Vec<Spanned<TokenInfo>>,
    q_in: usize,
    acc: &mut Vec<FuncTypeParam>,
    Ghost(p0): Ghost<int>,
) -> (r: usize)
    requires
        0 <= p0 <= q_in <= t@.len(),
    ensures
        (v_fparams(final(acc)@), r as int) == sp_fparam_tail(t@, q_in as int, v_fparams(old(acc)@)),
        q_in <= r <= t@.len(),
    decreases t@.len() - p0, 42nat,
{
    let mut q = q_in;
    loop
        invariant
            p0 <= q_in <= q <= t@.len(),
            sp_fparam_tail(t@, q_in as int, v_fparams(old(acc)@)) == sp_fparam_tail(
                t@,
                q as int,
                v_fparams(acc@),
            ),
        decreases t@.len() - q,
    {
        let c = skip_ws_exec(t, q);
        if !tok_is_exec(t, c, &TokenInfo::Comma) {
            return q;
        }
        let d = skip_ws_exec(t, c + 1);
        match parse_fparam(t, d) {
            Ok((x, e)) => {
                proof {
                    lemma_v_fparams_push(acc@, x);
                }
                acc.push(x);
                q = e;
            },
            Err(_) => {
                return d;
            },
        }
    }
}

fn parse_ty_paren(t: &Vec<Spanned<TokenInfo>>, p: usize) -> (r: Result<(Spanned<TypeExpr>, usize), Error>)
    requires
        p <= t@.len(),
    ensures
        vres(r, |x: Spanned<TypeExpr>| v_sp_ty(x)) == sp_ty_paren(t@, p as int),
        moves(t@, p as int, r),
    decreases t@.len() - p, 33nat,
{
    if !tok_is_exec(t, p, &TokenInfo::LeftParen) {
        return Err(fail_at_exec(t, p));
    }
    let a = skip_ws_exec(t, p + 1);
    let (x, b) = type_expr_parser(t, a)?;
    let c = skip_ws_exec(t, b);
    if tok_is_exec(t, c, &TokenInfo::RightParen) {
        Ok((x, c + 1))
    } else {
        Err(fail_at_exec(t, c))
    }
}

fn parse_ty_infer(t: &Vec<Spanned<TokenInfo>>, p: usize) -> (r: Result<(Spanned<TypeExpr>, usize), Error>)
    requires
        p <= t@.len(),
    ensures
        vres(r, |x: Spanned<TypeExpr>| v_sp_ty(x)) == sp_ty_infer(t@, p as int),
        moves(t@, p as int, r),
    decreases t@.len() - p, 33nat,
{
    let a = skip_ws_exec(t, p);
    if is_kw_exec(t, a, "_") {
        let q = skip_ws_exec(t, a + 1);
        Ok((Spanned(TypeExpr::Infer, t[a].1), q))
    } else {
        Err(fail_at_exec(t, a))
    }
}

fn parse_ty_path(t: &Vec<Spanned<TokenInfo>>, p: usize) -> (r: Result<(Spanned<TypeExpr>, usize), Error>)
    requires
        p <= t@.len(),
    ensures
        vres(r, |x: Spanned<TypeExpr>| v_sp_ty(x)) == sp_ty_path(t@, p as int),
        moves(t@, p as int, r),
    decreases t@.len() - p, 33nat,
{
    let a = skip_ws_exec(t, p);
    let (s, b) = parse_seg(t, a)?;
    let mut segs: Vec<Spanned<TypePathSeg>> = Vec::new();
    segs.push(s);
    proof {
        lemma_v_segs_push(Seq::empty(), s);
        assert(Seq::<Spanned<TypePathSeg>>::empty().push(s) =~= segs@);
    }
    let c = parse_segs_tail(t, b, &mut segs, Ghost(p as int));
    let rs = range_span_exec(t, a, c);
    let q = skip_ws_exec(t, c);
    Ok((Spanned(TypeExpr::Path(Spanned(TypePath(segs), rs)), rs), q))
}

fn parse_seg(t: &Vec<Spanned<TokenInfo>>, p: usize) -> (r: Result<(Spanned<TypePathSeg>, usize), Error>)
    requires
        p <= t@.len(),
    ensures
        vres(r, |x: Spanned<TypePathSeg>| Spanned(v_seg(x.0), x.1)) == sp_seg(t@, p as int),
        moves(t@, p as int, r),
    decreases t@.len() - p, 8nat,
{
    if p < t.len() {
        if let TokenInfo::Ident(name, _) = &t[p].0 {
            let ident = Spanned(name.clone(), t[p].1);
            let (app, b) = parse_app_opt(t, p + 1);
            let span = range_span_exec(t, p, b);
            return Ok((Spanned(TypePathSeg(ident, app), span), b));
        }
    }
    Err(fail_at_exec(t, p))
}

fn parse_segs_tail(
    t: &Vec<Spanned<TokenInfo>>,
    q_in: usize,
    acc: &mut Vec<Spanned<TypePathSeg>>,
    Ghost(p0): Ghost<int>,
) -> (r: usize)
    requires
        0 <= p0 <= q_in <= t@.len(),
    ensures
        (v_segs(final(acc)@), r as int) == sp_segs_tail(t@, q_in as int, v_segs(old(acc)@)),
        q_in <= r <= t@.len(),
    decreases t@.len() - p0, 7nat,
{
    let mut q = q_in;
    loop
        invariant
            p0 <= q_in <= q <= t@.len(),
            old(acc)@.len() <= acc@.len(),
            sp_segs_tail(t@, q_in as int, v_segs(old(acc)@)) == sp_segs_tail(t@, q as int, v_segs(acc@)),
        decreases t@.len() - q,
    {
        let c = skip_ws_exec(t, q);
        if !tok_is_exec(t, c, &TokenInfo::Dot) {
            return q;
        }
        let d = skip_ws_exec(t, c + 1);
        match parse_seg(t, d) {
            Ok((s, e)) => {
                proof {
                    lemma_v_segs_push(acc@, s);
                }
                acc.push(s);
                q = e;
            },
            Err(_) => {
                return q;
            },
        }
    }
}

fn parse_ty_list(t: &Vec<Spanned<TokenInfo>>, p: usize) -> (r: (Vec<Spanned<TypeExpr>>, usize))
    requires
        p <= t@.len(),
    ensures
        (v_sp_tys(r.0@), r.1 as int) == sp_ty_list(t@, p as int),
        p <= r.1 <= t@.len(),
    decreases t@.len() - p, 43nat,
{
    let mut acc: Vec<Spanned<TypeExpr>> = Vec::new();
    match type_expr_parser(t, p) {
        Err(_) => {
            assert(v_sp_tys(acc@) =~= Seq::<Spanned<SpecTypeExpr>>::empty());
            (acc, p)
        },
        Ok((x, q)) => {
            proof {
                lemma_v_sp_tys_push(Seq::empty(), x);
                assert(Seq::<Spanned<TypeExpr>>::empty().push(x) =~= seq![x]);
            }
            acc.push(x);
            assert(acc@ =~= seq![x]);
            let r = parse_ty_list_tail(t, q, &mut acc, Ghost(p as int));
            (acc, r)
        },
    }
}

fn parse_ty_list_tail(
    t: &Vec<Spanned<TokenInfo>>,
    q_in: usize,
    acc: &mut Vec<Spanned<TypeExpr>>,
    Ghost(p0): Ghost<int>,
) -> (r: usize)
    requires
        0 <= p0 <= q_in <= t@.len(),
    ensures
        (v_sp_tys(final(acc)@), r as int) == sp_ty_list_tail(t@, q_in as int, v_sp_tys(old(acc)@)),
        q_in <= r <= t@.len(),
    decreases t@.len() - p0, 42nat,
{
    let mut q = q_in;
    loop
        invariant
            p0 <= q_in <= q <= t@.len(),
            sp_ty_list_tail(t@, q_in as int, v_sp_tys(old(acc)@)) == sp_ty_list_tail(t@, q as int, v_sp_tys(acc@)),
        decreases t@.len() - q,
    {
        let c = skip_ws_exec(t, q);
        if !tok_is_exec(t, c, &TokenInfo::Comma) {
            return q;
        }
        let d = skip_ws_exec(t, c + 1);
        match type_expr_parser(t, d) {
            Ok((x, e)) => {
                proof {
                    lemma_v_sp_tys_push(acc@, x);
                }
                acc.push(x);
                q = e;
            },
            Err(_) => {
                return d;
            },
        }
    }
}

fn parse_ty_tuple(t: &Vec<Spanned<TokenInfo>>, p: usize) -> (r: Result<(Spanned<TypeExpr>, usize), Error>)
    requires
        p <= t@.len(),
    ensures
        vres(r, |x: Spanned<TypeExpr>| v_sp_ty(x)) == sp_ty_tuple(t@, p as int),
        moves(t@, p as int, r),
    decreases t@.len() - p, 33nat,
{
    let a = skip_ws_exec(t, p);
    if !tok_is_exec(t, a, &TokenInfo::LeftParen) {
        return Err(fail_at_exec(t, a));
    }
    let b = skip_ws_exec(t, a + 1);
    let (xs, c) = parse_ty_list(t, b);
    let d = skip_ws_exec(t, c);
    if tok_is_exec(t, d, &TokenInfo::RightParen) {
        let span = range_span_exec(t, a, d + 1);
        let q = skip_ws_exec(t, d + 1);
        Ok((Spanned(TypeExpr::Tuple(xs), span), q))
    } else {
        Err(fail_at_exec(t, d))
    }
}

fn array_size_exec(t: &Vec<Spanned<TokenInfo>>, p: usize) -> (r: (Option<Spanned<Atom>>, usize))
    requires
        p <= t@.len(),
    ensures
        (match r.0 {
            Some(a) => Some(Spanned(crate::model::v_atom(a.0), a.1)),
            None => None,
        }, r.1 as int) == array_size(t@, p as int),
        p <= r.1 <= t@.len(),
{
    if p < t.len() {
        match &t[p].0 {
            TokenInfo::IntLiteral(v, rd) => {
                return (Some(Spanned(Atom::Int(v.clone(), *rd), t[p].1)), p + 1);
            },
            TokenInfo::Ident(n, _) => {
                return (Some(Spanned(Atom::Ident(n.clone()), t[p].1)), p + 1);
            },
            _ => {},
        }
    }
    (None, p)
}

fn parse_app_opt(t: &Vec<Spanned<TokenInfo>>, p: usize) -> (r: (Option<Spanned<TypeApplication>>, usize))
    requires
        p <= t@.len(),
    ensures
        (match r.0 {
            Some(a) => Some(Spanned(v_app(a.0), a.1)),
            None => None,
        }, r.1 as int) == sp_app_opt(t@, p as int),
        p <= r.1 <= t@.len(),
    decreases t@.len() - p, 6nat,
{
    match parse_app(t, p) {
        Some((a, q)) => (Some(a), q),
        None => (None, p),
    }
}

fn parse_app(t: &Vec<Spanned<TokenInfo>>, p: usize) -> (r: Option<(Spanned<TypeApplication>, usize)>)
    requires
        p <= t@.len(),
    ensures
        match r {
            Some((a, q)) => sp_app(t@, p as int) == Some((Spanned(v_app(a.0), a.1), q as int)) && p
                <= q <= t@.len(),
            None => sp_app(t@, p as int) is None,
        },
    decreases t@.len() - p, 5nat,
{
    if !tok_is_exec(t, p, &TokenInfo::Lt) {
        return None;
    }
    let a = skip_ws_exec(t, p + 1);
    let (i1, b) = match parse_app_item(t, a) {
        Ok(r) => r,
        Err(_) => {
            return None;
        },
    };
    let mut items: Vec<(Option<Spanned<String>>, Spanned<TypeExpr>)> = Vec::new();
    items.push(i1);
    assert(v_app_items(items@) =~= seq![v_app_item(i1)]);
    let c = parse_app_tail(t, b, &mut items, Ghost(p as int + 1));
    let d = skip_ws_exec(t, c);
    if !tok_is_exec(t, d, &TokenInfo::Gt) {
        return None;
    }
    match split_app_exec(items) {
        Some(app) => {
            let span = range_span_exec(t, p, d + 1);
            Some((Spanned(app, span), d + 1))
        },
        None => None,
    }
}

/// View of one argument of a type application.
pub open spec fn v_app_item(i: (Option<Spanned<String>>, Spanned<TypeExpr>)) -> SpecAppItem {
    (
        match i.0 {
            Some(n) => Some(v_name(n)),
            None => None,
        },
        v_sp_ty(i.1),
    )
}

fn parse_app_item(t: &Vec<Spanned<TokenInfo>>, p: usize) -> (r: Result<
    ((Option<Spanned<String>>, Spanned<TypeExpr>), usize),
    Error,
>)
    requires
        p <= t@.len(),
    ensures
        vres(r, |x: (Option<Spanned<String>>, Spanned<TypeExpr>)| v_app_item(x)) == sp_app_item(
            t@,
            p as int,
        ),
        moves(t@, p as int, r),
    decreases t@.len() - p, 43nat,
{
    let mut name: Option<Spanned<String>> = None;
    let mut s = p;
    if p < t.len() {
        if let TokenInfo::Ident(n, _) = &t[p].0 {
            let c = skip_ws_exec(t, p + 1);
            if tok_is_exec(t, c, &TokenInfo::Equals) {
                let d = skip_ws_exec(t, c + 1);
                name = Some(Spanned(n.clone(), t[p].1));
                s = d;
            }
        }
    }
    let (ty, e) = type_expr_parser(t, s)?;
    Ok(((name, ty), e))
}

fn parse_app_tail(
    t: &Vec<Spanned<TokenInfo>>,
    q_in: usize,
    acc: &mut Vec<(Option<Spanned<String>>, Spanned<TypeExpr>)>,
    Ghost(p0): Ghost<int>,
) -> (r: usize)
    requires
        0 <= p0 <= q_in <= t@.len(),
    ensures
        (v_app_items(final(acc)@), r as int) == sp_app_tail(t@, q_in as int, v_app_items(old(acc)@)),
        q_in <= r <= t@.len(),
    decreases t@.len() - p0, 42nat,
{
    let mut q = q_in;
    loop
        invariant
            p0 <= q_in <= q <= t@.len(),
            sp_app_tail(t@, q_in as int, v_app_items(old(acc)@)) == sp_app_tail(t@, q as int, v_app_items(acc@)),
        decreases t@.len() - q,
    {
        let c = skip_ws_exec(t, q);
        if !tok_is_exec(t, c, &TokenInfo::Comma) {
            return q;
        }
        let d = skip_ws_exec(t, c + 1);
        match parse_app_item(t, d) {
            Ok((x, e)) => {
                assert(v_app_items(acc@.push(x)) =~= v_app_items(acc@).push(v_app_item(x)));
                acc.push(x);
                q = e;
            },
            Err(_) => {
                return d;
            },
        }
    }
}

/// `positional_count` counts the leading unnamed arguments.
proof fn lemma_positional_count(items: Seq<SpecAppItem>, k: int)
    requires
        0 <= k <= items.len(),
        forall|i: int| 0 <= i < k ==> items[i].0 is None,
        k == items.len() || items[k].0 is Some,
    ensures
        positional_count(items) == k,
    decreases items.len(),
{
    if items.len() > 0 && k > 0 {
        lemma_positional_count(items.drop_first(), k - 1);
    }
}

/// `named_args` succeeds exactly when every argument is named, and keeps them in order.
proof fn lemma_named_args(items: Seq<SpecAppItem>)
    ensures
        named_args(items) is Some <==> forall|i: int| 0 <= i < items.len() ==> items[i].0 is Some,
        named_args(items) matches Some(ns) ==> ns.len() == items.len() && forall|i: int|
            0 <= i < items.len() ==> ns[i] == (items[i].0->Some_0, items[i].1),
    decreases items.len(),
{
    if items.len() > 0 {
        lemma_named_args(items.drop_last());
        if named_args(items.drop_last()) is None {
            let j = choose|j: int| 0 <= j < items.len() - 1 && !(items.drop_last()[j].0 is Some);
            assert(items[j] == items.drop_last()[j]);
        } else {
            assert forall|i: int| 0 <= i < items.len() - 1 implies items[i].0 is Some by {
                assert(items[i] == items.drop_last()[i]);
            }
        }
    }
}

fn split_app_exec(items: Vec<(Option<Spanned<String>>, Spanned<TypeExpr>)>) -> (r: Option<
    TypeApplication,
>)
    ensures
        match r {
            Some(a) => split_app(v_app_items(items@)) == Some(v_app(a)),
            None => split_app(v_app_items(items@)) is None,
        },
{
    let ghost vi = v_app_items(items@);
    let n = items.len();
    let mut k: usize = 0;
    while k < n && items[k].0.is_none()
        invariant
            k <= n == items@.len(),
            vi == v_app_items(items@),
            forall|i: int| 0 <= i < k ==> vi[i].0 is None,
        decreases n - k,
    {
        k = k + 1;
    }
    proof {
        lemma_positional_count(vi, k as int);
    }
    let mut j = k;
    while j < n
        invariant
            k <= j <= n == items@.len(),
            vi == v_app_items(items@),
            forall|i: int| k <= i < j ==> vi[i].0 is Some,
            positional_count(vi) == k,
        decreases n - j,
    {
        if items[j].0.is_none() {
            proof {
                let rest = vi.subrange(k as int, n as int);
                lemma_named_args(rest);
                assert(vi[j as int] == v_app_item(items@[j as int]));
                assert(rest[j - k] == vi[j as int]);
            }
            return None;
        }
        j = j + 1;
    }
    let ghost rest = vi.subrange(k as int, n as int);
    proof {
        lemma_named_args(rest);
        assert forall|i: int| 0 <= i < rest.len() implies rest[i].0 is Some by {
            assert(rest[i] == vi[k + i]);
        }
    }
    let mut items = items;
    let mut kw_items = items.split_off(k);
    let mut args: Vec<Spanned<TypeExpr>> = Vec::new();
    let mut kwargs: Vec<(Spanned<String>, Spanned<TypeExpr>)> = Vec::new();
    let ghost pos = items@;
    let ghost kws = kw_items@;
    assert(v_app_items(pos) =~= vi.subrange(0, k as int));
    assert(v_app_items(kws) =~= rest);
    let mut i: usize = 0;
    while items.len() > 0
        invariant
            i + items@.len() == pos.len(),
            pos.len() <= usize::MAX,
            items@ =~= pos.subrange(i as int, pos.len() as int),
            v_sp_tys(args@) =~= v_app_items(pos.subrange(0, i as int)).map_values(
                |x: SpecAppItem| x.1,
            ),
        decreases items@.len(),
    {
        let it = items.remove(0);
        proof {
            lemma_v_sp_tys_push(args@, it.1);
            assert(pos.subrange(0, i + 1) =~= pos.subrange(0, i as int).push(it));
            assert(v_app_items(pos.subrange(0, i as int).push(it)) =~= v_app_items(
                pos.subrange(0, i as int),
            ).push(v_app_item(it)));
        }
        args.push(it.1);
        i = i + 1;
        assert(items@ =~= pos.subrange(i as int, pos.len() as int));
    }
    assert(pos.subrange(0, i as int) =~= pos);
    let ghost ns = named_args(rest)->Some_0;
    let mut m: usize = 0;
    while kw_items.len() > 0
        invariant
            m + kw_items@.len() == kws.len(),
            kws.len() <= usize::MAX,
            kw_items@ =~= kws.subrange(m as int, kws.len() as int),
            v_app_items(kws) == rest,
            ns.len() == rest.len(),
            forall|x: int| 0 <= x < rest.len() ==> rest[x].0 is Some,
            forall|x: int| 0 <= x < rest.len() ==> ns[x] == (rest[x].0->Some_0, rest[x].1),
            v_ty_kwargs(kwargs@) =~= ns.subrange(0, m as int),
        decreases kw_items@.len(),
    {
        let it = kw_items.remove(0);
        assert(it == kws[m as int]);
        assert(v_app_item(it) == rest[m as int]);
        let name = match it.0 {
            Some(n) => n,
            None => {
                proof {
                    assert(rest[m as int].0 is Some);
                }
                return None;
            },
        };
        proof {
            lemma_v_ty_kwargs_push(kwargs@, (name, it.1));
        }
        kwargs.push((name, it.1));
        m = m + 1;
        assert(ns.subrange(0, m as int) =~= ns.subrange(0, m - 1).push(ns[m - 1]));
        assert(kw_items@ =~= kws.subrange(m as int, kws.len() as int));
    }
    assert(ns.subrange(0, m as int) =~= ns);
    let app = TypeApplication { args, kwargs };
    proof {
        assert(vi.subrange(0, k as int).map_values(|x: SpecAppItem| x.1) =~= v_sp_tys(args@));
    }
    Some(app)
}

} // verus!
