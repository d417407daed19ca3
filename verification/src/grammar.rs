//! The grammar of expressions and statements, as functions from a token sequence and a
//! position to what is parsed there and the position after it (parsing expression grammar
//! semantics: alternatives are tried in order, repetitions are greedy, and a failed attempt
//! consumes nothing).

use vstd::prelude::*;
use crate::ast::{AssignmentOperator, BinaryOp, ItemVisibility, UnaryOp};
use crate::error::{SpecError, SpecErrorInfo};
use crate::escape::spec_resolve_string;
use crate::model::{
    SpecAssignmentTarget, SpecAtom, SpecBody, SpecExpr, SpecFuncParam, SpecNode, SpecPattern,
    SpecStructDef, SpecStructField, SpecTyParam, SpecTypeExpr, SpecWhile,
};
use crate::parse_misc::{sp_block_label, sp_field_vis_checked, sp_item_vis, sp_pat};
use crate::parse_type::sp_ty;
use crate::pcore::{adv, fail_at, furthest, is_kw, range_span, skip_ws, tok_is, PRes, Toks};
use crate::span::{spec_merge, Span, Spanned};
use crate::token::{StringLiteralFlags, TokenInfo};

verus! {

// ---------------------------------------------------------------------------------------------
// Shapes of intermediate results.

/// A call argument as parsed: an optional keyword and the value.
pub type SpecCallArg = (Option<Seq<char>>, Spanned<SpecExpr>);

/// An item of a parameter list as parsed: a `*` separator (its span) or a parameter.
pub enum SpecParamItem {
    Sep(Span),
    Param(Spanned<SpecFuncParam>),
}

/// A postfix of a chain: an attribute access, call arguments, or an index.
pub enum SpecPostfix {
    Attr(Span, Spanned<Seq<char>>),
    Call(Seq<SpecCallArg>, Span),
    Index(Spanned<SpecExpr>),
}

/// The block that holds one implicit return of `x` and spans it.
pub open spec fn as_block(x: Spanned<SpecExpr>) -> SpecBody {
    Spanned(seq![Spanned(SpecNode::ImplicitReturn(x), x.1)], x.1)
}

/// The body made of one expression node holding `x`, spanning `x`: a branch of a ternary `if`.
pub open spec fn as_expr_block(x: Spanned<SpecExpr>) -> SpecBody {
    Spanned(seq![Spanned(SpecNode::Expr(x), x.1)], x.1)
}

// ---------------------------------------------------------------------------------------------
// Bodies and statements.

/// A body at `p`: statements, each with whitespace around it, then an optional expression that
/// becomes an implicit return spanning the expression. A body never fails.
#[verifier::opaque]
pub open spec fn sp_body(t: Toks, p: int) -> (Seq<Spanned<SpecNode>>, int)
    decreases t.len() - p, 60nat,
{
    if !(0 <= p <= t.len()) {
        (Seq::empty(), p)
    } else {
        let (nodes, q) = sp_body_items(t, p, Seq::empty());
        if !adv(t, p, q) {
            (nodes, q)
        } else {
            match sp_expr(t, q) {
                Ok((e, r)) => (nodes.push(Spanned(SpecNode::ImplicitReturn(e), e.1)), r),
                Err(_) => (nodes, q),
            }
        }
    }
}

/// Statements from `q`, appended to `acc`, as long as they parse.
#[verifier::opaque]
pub open spec fn sp_body_items(t: Toks, q: int, acc: Seq<Spanned<SpecNode>>) -> (Seq<
    Spanned<SpecNode>,
>, int)
    decreases t.len() - q, 59nat,
{
    if !(0 <= q <= t.len()) {
        (acc, q)
    } else {
        match sp_stmt_padded(t, q) {
            Ok((n, r)) => if q < r <= t.len() {
                sp_body_items(t, r, acc.push(n))
            } else {
                (acc, q)
            },
            Err(_) => (acc, q),
        }
    }
}

/// A statement at `p`, with whitespace before and after it.
#[verifier::opaque]
pub open spec fn sp_stmt_padded(t: Toks, p: int) -> PRes<Spanned<SpecNode>>
    decreases t.len() - p, 58nat,
{
    let a = skip_ws(t, p);
    if !(0 <= p <= a <= t.len()) {
        Err(fail_at(t, a))
    } else {
        match sp_stmt(t, a) {
            Ok((n, b)) => Ok((n, skip_ws(t, b))),
            Err(e) => Err(e),
        }
    }
}

/// A statement at `p`: a `let`, `const`, function or struct declaration, a `break`,
/// `continue` or `return` statement, or an expression statement, tried in this order.
#[verifier::opaque]
pub open spec fn sp_stmt(t: Toks, p: int) -> PRes<Spanned<SpecNode>>
    decreases t.len() - p, 57nat,
{
    match sp_let(t, p) {
        Ok(r) => Ok(r),
        Err(e1) => match sp_const(t, p) {
            Ok(r) => Ok(r),
            Err(e2) => match sp_func(t, p) {
                Ok(r) => Ok(r),
                Err(e3) => match sp_struct(t, p) {
                    Ok(r) => Ok(r),
                    Err(e4) => match sp_break(t, p) {
                        Ok(r) => Ok(r),
                        Err(e5) => match sp_continue(t, p) {
                            Ok(r) => Ok(r),
                            Err(e6) => match sp_return(t, p) {
                                Ok(r) => Ok(r),
                                Err(e7) => match sp_expr_stmt(t, p) {
                                    Ok(r) => Ok(r),
                                    Err(e8) => Err(
                                        furthest(
                                            furthest(
                                                furthest(
                                                    furthest(
                                                        furthest(
                                                            furthest(furthest(e1, e2), e3),
                                                            e4,
                                                        ),
                                                        e5,
                                                    ),
                                                    e6,
                                                ),
                                                e7,
                                            ),
                                            e8,
                                        ),
                                    ),
                                },
                            },
                        },
                    },
                },
            },
        },
    }
}

/// An optional type annotation at `q`: a colon with whitespace around it, then a type. Nothing
/// is consumed if it is not there or the type does not parse.
#[verifier::opaque]
pub open spec fn sp_ty_annot(t: Toks, q: int) -> (Option<Spanned<SpecTypeExpr>>, int) {
    let d = skip_ws(t, q);
    let e = skip_ws(t, d + 1);
    if 0 <= q <= d && tok_is(t, d, TokenInfo::Colon) && adv(t, d + 1, e) {
        match sp_ty(t, e) {
            Ok((ty, f)) => (Some(ty), f),
            Err(_) => (None, q),
        }
    } else {
        (None, q)
    }
}

/// An optional value at `q`: `=` with whitespace around it, then an expression. Nothing is
/// consumed if it is not there or the expression does not parse.
#[verifier::opaque]
pub open spec fn sp_value_opt(t: Toks, q: int) -> (Option<Spanned<SpecExpr>>, int)
    decreases t.len() - q, 56nat,
{
    let g = skip_ws(t, q);
    let h = skip_ws(t, g + 1);
    if 0 <= q <= g && tok_is(t, g, TokenInfo::Equals) && adv(t, g + 1, h) {
        match sp_expr(t, h) {
            Ok((v, i)) => (Some(v), i),
            Err(_) => (None, q),
        }
    } else {
        (None, q)
    }
}

/// A `let` declaration at `p`: `let`, whitespace, a binding pattern, an optional type
/// annotation, an optional value, and `;` right after.
#[verifier::opaque]
pub open spec fn sp_let(t: Toks, p: int) -> PRes<Spanned<SpecNode>>
    decreases t.len() - p, 56nat,
{
    if !is_kw(t, p, "let"@) {
        Err(fail_at(t, p))
    } else {
        let b = skip_ws(t, p + 1);
        match sp_pat(t, b) {
            Err(e) => Err(e),
            Ok((pat, c)) => {
                let (ty, d) = sp_ty_annot(t, c);
                if !adv(t, p + 1, d) {
                    Err(fail_at(t, d))
                } else {
                    let (value, h) = sp_value_opt(t, d);
                    if tok_is(t, h, TokenInfo::Semicolon) {
                        Ok(
                            (
                                Spanned(
                                    SpecNode::Let { kw: t[p].1, pat, ty, value },
                                    range_span(t, p, h + 1),
                                ),
                                h + 1,
                            ),
                        )
                    } else {
                        Err(fail_at(t, h))
                    }
                }
            },
        }
    }
}

/// An identifier at `p` with whitespace before and after; it spans the identifier.
#[verifier::opaque]
pub open spec fn sp_ident(t: Toks, p: int) -> PRes<Spanned<Seq<char>>> {
    let c = skip_ws(t, p);
    if 0 <= c < t.len() && t[c].0 is Ident {
        Ok((Spanned(t[c].0->Ident_0@, t[c].1), skip_ws(t, c + 1)))
    } else {
        Err(fail_at(t, c))
    }
}

/// A `const` declaration at `p`: a visibility, `const`, a name, an optional type annotation,
/// `=` and a value (whitespace around it), and `;` right after.
#[verifier::opaque]
pub open spec fn sp_const(t: Toks, p: int) -> PRes<Spanned<SpecNode>>
    decreases t.len() - p, 56nat,
{
    let (vis, b) = sp_item_vis(t, p);
    if !(0 <= p <= b && is_kw(t, b, "const"@)) {
        Err(fail_at(t, b))
    } else {
        match sp_ident(t, b + 1) {
            Err(e) => Err(e),
            Ok((name, d)) => {
                let (ty, e) = sp_ty_annot(t, d);
                let f = skip_ws(t, e);
                let g = skip_ws(t, f + 1);
                if !(adv(t, b + 1, e) && adv(t, e, f) && tok_is(t, f, TokenInfo::Equals) && adv(
                    t,
                    f + 1,
                    g,
                )) {
                    Err(fail_at(t, f))
                } else {
                    match sp_expr(t, g) {
                        Err(err) => Err(err),
                        Ok((value, h)) => if tok_is(t, h, TokenInfo::Semicolon) {
                            Ok(
                                (
                                    Spanned(
                                        SpecNode::Const { vis, kw: t[b].1, name, ty, value },
                                        range_span(t, p, h + 1),
                                    ),
                                    h + 1,
                                ),
                            )
                        } else {
                            Err(fail_at(t, h))
                        },
                    }
                }
            },
        }
    }
}

/// A function parameter at `p`: a binding pattern, `:` right after it, whitespace, a type, and
/// an optional default value; it spans all of it.
#[verifier::opaque]
pub open spec fn sp_func_param(t: Toks, p: int) -> PRes<Spanned<SpecFuncParam>>
    decreases t.len() - p, 56nat,
{
    match sp_pat(t, p) {
        Err(e) => Err(e),
        Ok((pat, b)) => if !(adv(t, p, b) && tok_is(t, b, TokenInfo::Colon)) {
            Err(fail_at(t, b))
        } else {
            let c = skip_ws(t, b + 1);
            if !adv(t, b + 1, c) {
                Err(fail_at(t, c))
            } else {
                match sp_ty(t, c) {
                    Err(e) => Err(e),
                    Ok((ty, d)) => if !adv(t, c, d) {
                        Err(fail_at(t, d))
                    } else {
                        let (default, e) = sp_value_opt(t, d);
                        Ok(
                            (
                                Spanned(SpecFuncParam { pat, ty, default }, range_span(t, p, e)),
                                e,
                            ),
                        )
                    },
                }
            }
        },
    }
}

/// An item of a parameter list at `p`: a `*` separator, or a parameter.
#[verifier::opaque]
pub open spec fn sp_param_item(t: Toks, p: int) -> PRes<SpecParamItem>
    decreases t.len() - p, 57nat,
{
    if tok_is(t, p, TokenInfo::Asterisk) {
        Ok((SpecParamItem::Sep(t[p].1), p + 1))
    } else {
        match sp_func_param(t, p) {
            Ok((x, q)) => Ok((SpecParamItem::Param(x), q)),
            Err(e) => Err(furthest(fail_at(t, p), e)),
        }
    }
}

/// Zero or more parameter items at `p`, separated by commas with whitespace around them; a
/// trailing comma is allowed after at least one.
#[verifier::opaque]
pub open spec fn sp_param_list(t: Toks, p: int) -> (Seq<SpecParamItem>, int)
    decreases t.len() - p, 58nat,
{
    if !(0 <= p <= t.len()) {
        (Seq::empty(), p)
    } else {
        match sp_param_item(t, p) {
            Err(_) => (Seq::empty(), p),
            Ok((x, q)) => if adv(t, p, q) {
                sp_param_list_tail(t, q, seq![x])
            } else {
                (Seq::empty(), p)
            },
        }
    }
}

/// Further parameter items after `q`, appended to `acc`.
#[verifier::opaque]
pub open spec fn sp_param_list_tail(t: Toks, q: int, acc: Seq<SpecParamItem>) -> (Seq<
    SpecParamItem,
>, int)
    decreases t.len() - q, 57nat,
{
    let c = skip_ws(t, q);
    let d = skip_ws(t, c + 1);
    if 0 <= q && adv(t, q, c) && tok_is(t, c, TokenInfo::Comma) && adv(t, c + 1, d) {
        match sp_param_item(t, d) {
            Ok((x, e)) => if adv(t, d, e) {
                sp_param_list_tail(t, e, acc.push(x))
            } else {
                (acc, d)
            },
            Err(_) => (acc, d),
        }
    } else {
        (acc, q)
    }
}

/// The number of leading parameters before the first `*` separator.
pub open spec fn leading_params(items: Seq<SpecParamItem>) -> nat
    decreases items.len(),
{
    if items.len() == 0 || items[0] is Sep {
        0
    } else {
        1 + leading_params(items.drop_first())
    }
}

/// The keyword parameters of `items` (what follows the first separator), in the function
/// header spanning `hspan`: each must be a parameter whose pattern is an identifier; the first
/// that is not gives the error.
pub open spec fn keyword_params(hspan: Span, items: Seq<SpecParamItem>) -> Result<
    Seq<Spanned<SpecFuncParam>>,
    SpecError,
>
    decreases items.len(),
{
    if items.len() == 0 {
        Ok(Seq::empty())
    } else {
        match keyword_params(hspan, items.drop_last()) {
            Err(e) => Err(e),
            Ok(ps) => match items.last() {
                SpecParamItem::Param(x) => if x.0.pat.0 is Ident {
                    Ok(ps.push(x))
                } else {
                    Err(
                        SpecError {
                            info: SpecErrorInfo::KeywordParameterNotIdent(x.1),
                            span: hspan,
                        },
                    )
                },
                SpecParamItem::Sep(s) => Err(
                    SpecError {
                        info: SpecErrorInfo::MultipleKeywordParameterSeparators(s),
                        span: hspan,
                    },
                ),
            },
        }
    }
}

/// The parameters held by parameter items that are all parameters.
pub open spec fn param_values(items: Seq<SpecParamItem>) -> Seq<Spanned<SpecFuncParam>> {
    items.map_values(|i: SpecParamItem| i->Param_0)
}

/// The positional and keyword parameters of a parameter list in the function header spanning
/// `hspan`: those before the first `*` are positional, those after it are keyword parameters.
pub open spec fn split_params(hspan: Span, items: Seq<SpecParamItem>) -> Result<
    (Seq<Spanned<SpecFuncParam>>, Seq<Spanned<SpecFuncParam>>),
    SpecError,
> {
    let k = leading_params(items) as int;
    let params = param_values(items.subrange(0, k));
    if k >= items.len() {
        Ok((params, Seq::empty()))
    } else {
        match keyword_params(hspan, items.subrange(k + 1, items.len() as int)) {
            Ok(kws) => Ok((params, kws)),
            Err(e) => Err(e),
        }
    }
}

/// An optional return type at `q`: `->` (adjacent tokens) with whitespace around it, then a
/// type.
#[verifier::opaque]
pub open spec fn sp_ret_opt(t: Toks, q: int) -> (Option<Spanned<SpecTypeExpr>>, int) {
    let h = skip_ws(t, q);
    let i = skip_ws(t, h + 2);
    if 0 <= q <= h && tok_is(t, h, TokenInfo::Minus) && tok_is(t, h + 1, TokenInfo::Gt) && adv(
        t,
        h + 2,
        i,
    ) {
        match sp_ty(t, i) {
            Ok((ty, j)) => (Some(ty), j),
            Err(_) => (None, q),
        }
    } else {
        (None, q)
    }
}

/// The body of a function at `q`: a braced body with an optional `;`, or `=`, an expression
/// and `;`, whitespace allowed around; the second becomes a block of one implicit return.
#[verifier::opaque]
pub open spec fn sp_func_body(t: Toks, q: int) -> PRes<SpecBody>
    decreases t.len() - q, 56nat,
{
    match sp_braced_body(t, q) {
        Ok((b, r)) => if tok_is(t, r, TokenInfo::Semicolon) {
            Ok((b, r + 1))
        } else {
            Ok((b, r))
        },
        Err(e1) => {
            let g = skip_ws(t, q);
            let h = skip_ws(t, g + 1);
            if !(0 <= q <= g && tok_is(t, g, TokenInfo::Equals) && adv(t, g + 1, h)) {
                Err(furthest(e1, fail_at(t, g)))
            } else {
                match sp_expr(t, h) {
                    Err(e2) => Err(furthest(e1, e2)),
                    Ok((x, k)) => if tok_is(t, k, TokenInfo::Semicolon) {
                        Ok((as_block(x), skip_ws(t, k + 1)))
                    } else {
                        Err(furthest(e1, fail_at(t, k)))
                    },
                }
            }
        },
    }
}

/// A function declaration at `p`: a visibility, `func`, a name, a parenthesized parameter list
/// (positional parameters, then `*` and keyword parameters), an optional return type, and a
/// body. The function spans all of it, with the whitespace after it.
#[verifier::opaque]
pub open spec fn sp_func(t: Toks, p: int) -> PRes<Spanned<SpecNode>>
    decreases t.len() - p, 56nat,
{
    let (vis, b) = sp_item_vis(t, p);
    if !(0 <= p <= b && is_kw(t, b, "func"@)) {
        Err(fail_at(t, b))
    } else {
        match sp_ident(t, b + 1) {
            Err(e) => Err(e),
            Ok((name, d)) => if !(adv(t, b + 1, d) && tok_is(t, d, TokenInfo::LeftParen)) {
                Err(fail_at(t, d))
            } else {
                let e = skip_ws(t, d + 1);
                if !adv(t, d + 1, e) {
                    Err(fail_at(t, e))
                } else {
                    let (items, f) = sp_param_list(t, e);
                    let g = skip_ws(t, f);
                    if !(adv(t, e, f) && adv(t, f, g) && tok_is(t, g, TokenInfo::RightParen)) {
                        Err(fail_at(t, g))
                    } else {
                        let (ret, hend) = sp_ret_opt(t, g + 1);
                        match split_params(range_span(t, b, hend), items) {
                            Err(err) => Err(err),
                            Ok((params, kw_params)) => if !adv(t, g + 1, hend) {
                                Err(fail_at(t, hend))
                            } else {
                                match sp_func_body(t, hend) {
                                    Err(err) => Err(err),
                                    Ok((body, k)) => Ok(
                                        (
                                            Spanned(
                                                SpecNode::Func {
                                                    vis,
                                                    name,
                                                    params,
                                                    kw_params,
                                                    ret,
                                                    body,
                                                },
                                                range_span(t, p, k),
                                            ),
                                            skip_ws(t, k),
                                        ),
                                    ),
                                }
                            },
                        }
                    }
                }
            },
        }
    }
}

/// A type parameter at `p`: a name with an optional bound after a colon.
pub open spec fn sp_ty_param(t: Toks, p: int) -> PRes<SpecTyParam> {
    match sp_ident(t, p) {
        Err(e) => Err(e),
        Ok((name, q)) => {
            let (bound, r) = sp_ty_annot(t, q);
            Ok((SpecTyParam { name, bound }, r))
        },
    }
}

/// Further type parameters after `q`, appended to `acc`.
pub open spec fn sp_ty_param_tail(t: Toks, q: int, acc: Seq<SpecTyParam>) -> (Seq<SpecTyParam>, int)
    decreases t.len() - q,
{
    let c = skip_ws(t, q);
    let d = skip_ws(t, c + 1);
    if 0 <= q && adv(t, q, c) && tok_is(t, c, TokenInfo::Comma) && adv(t, c + 1, d) {
        match sp_ty_param(t, d) {
            Ok((x, e)) => if adv(t, d, e) && e > q {
                sp_ty_param_tail(t, e, acc.push(x))
            } else {
                (acc, d)
            },
            Err(_) => (acc, d),
        }
    } else {
        (acc, q)
    }
}

/// Optional type parameters at `q`: `<`, zero or more type parameters separated by commas,
/// `>`, whitespace allowed around; nothing is consumed if they do not parse.
#[verifier::opaque]
pub open spec fn sp_ty_params_opt(t: Toks, q: int) -> (Option<Seq<SpecTyParam>>, int) {
    let a = skip_ws(t, q);
    let b = skip_ws(t, a + 1);
    if 0 <= q <= a && tok_is(t, a, TokenInfo::Lt) && adv(t, a + 1, b) {
        let (xs, c) = match sp_ty_param(t, b) {
            Err(_) => (Seq::empty(), b),
            Ok((x, q1)) => if adv(t, b, q1) {
                sp_ty_param_tail(t, q1, seq![x])
            } else {
                (Seq::empty(), b)
            },
        };
        let d = skip_ws(t, c);
        if tok_is(t, d, TokenInfo::Gt) {
            (Some(xs), skip_ws(t, d + 1))
        } else {
            (None, q)
        }
    } else {
        (None, q)
    }
}

/// A struct field at `p`: a field visibility (which fails if its setter is more public than its
/// getter), a name, `:` with whitespace after it, a type, and
/// an optional default value; it spans all of it.
#[verifier::opaque]
pub open spec fn sp_struct_field(t: Toks, p: int) -> PRes<Spanned<SpecStructField>>
    decreases t.len() - p, 56nat,
{
    match sp_field_vis_checked(t, p) {
        Err(e) => Err(e),
        Ok((vis, b)) => match sp_ident(t, b) {
            Err(e) => Err(e),
            Ok((name, c)) => if !(0 <= p <= b && adv(t, b, c) && tok_is(t, c, TokenInfo::Colon)) {
                Err(fail_at(t, c))
            } else {
                let d = skip_ws(t, c + 1);
                if !adv(t, c + 1, d) {
                    Err(fail_at(t, d))
                } else {
                    match sp_ty(t, d) {
                        Err(e) => Err(e),
                        Ok((ty, e)) => if !adv(t, d, e) {
                            Err(fail_at(t, e))
                        } else {
                            let (default, f) = sp_value_opt(t, e);
                            Ok(
                                (
                                    Spanned(
                                        SpecStructField { vis, name, ty, default },
                                        range_span(t, p, f),
                                    ),
                                    f,
                                ),
                            )
                        },
                    }
                }
            },
        },
    }
}

/// Zero or more struct fields at `p`, separated by commas; a trailing comma is allowed after at
/// least one.
#[verifier::opaque]
pub open spec fn sp_field_list(t: Toks, p: int) -> (Seq<Spanned<SpecStructField>>, int)
    decreases t.len() - p, 58nat,
{
    if !(0 <= p <= t.len()) {
        (Seq::empty(), p)
    } else {
        match sp_struct_field(t, p) {
            Err(_) => (Seq::empty(), p),
            Ok((x, q)) => if adv(t, p, q) {
                sp_field_list_tail(t, q, seq![x])
            } else {
                (Seq::empty(), p)
            },
        }
    }
}

/// Further struct fields after `q`, appended to `acc`.
#[verifier::opaque]
pub open spec fn sp_field_list_tail(t: Toks, q: int, acc: Seq<Spanned<SpecStructField>>) -> (Seq<
    Spanned<SpecStructField>,
>, int)
    decreases t.len() - q, 57nat,
{
    let c = skip_ws(t, q);
    let d = skip_ws(t, c + 1);
    if 0 <= q && adv(t, q, c) && tok_is(t, c, TokenInfo::Comma) && adv(t, c + 1, d) {
        match sp_struct_field(t, d) {
            Ok((x, e)) => if adv(t, d, e) {
                sp_field_list_tail(t, e, acc.push(x))
            } else {
                (acc, d)
            },
            Err(_) => (acc, d),
        }
    } else {
        (acc, q)
    }
}

/// A struct declaration at `p`: a visibility, `struct`, a name, optional type parameters, an
/// optional extended type after a colon, fields in braces, and an optional `;`. It spans all
/// of it; the whitespace after it is skipped.
#[verifier::opaque]
pub open spec fn sp_struct(t: Toks, p: int) -> PRes<Spanned<SpecNode>>
    decreases t.len() - p, 56nat,
{
    let (vis, b) = sp_item_vis(t, p);
    if !(0 <= p <= b && is_kw(t, b, "struct"@)) {
        Err(fail_at(t, b))
    } else {
        match sp_ident(t, b + 1) {
            Err(e) => Err(e),
            Ok((name, d)) => {
                let (ty_params, e) = sp_ty_params_opt(t, d);
                let (extends, f) = sp_ty_annot(t, e);
                if !(adv(t, b + 1, d) && adv(t, d, e) && adv(t, e, f) && tok_is(
                    t,
                    f,
                    TokenInfo::LeftBrace,
                )) {
                    Err(fail_at(t, f))
                } else {
                    let g = skip_ws(t, f + 1);
                    if !adv(t, f + 1, g) {
                        Err(fail_at(t, g))
                    } else {
                        let (fields, h) = sp_field_list(t, g);
                        let i = skip_ws(t, h);
                        if !(adv(t, g, h) && tok_is(t, i, TokenInfo::RightBrace)) {
                            Err(fail_at(t, i))
                        } else {
                            let j = if tok_is(t, i + 1, TokenInfo::Semicolon) {
                                i + 2
                            } else {
                                i + 1
                            };
                            Ok(
                                (
                                    Spanned(
                                        SpecNode::Struct(
                                            SpecStructDef {
                                                vis,
                                                name,
                                                ty_params: match ty_params {
                                                    Some(xs) => xs,
                                                    None => Seq::empty(),
                                                },
                                                fields,
                                                extends,
                                            },
                                        ),
                                        range_span(t, p, j),
                                    ),
                                    skip_ws(t, j),
                                ),
                            )
                        }
                    }
                }
            },
        }
    }
}

/// An optional label of a control-flow statement at `q`: a block label with whitespace around
/// it.
#[verifier::opaque]
pub open spec fn sp_label_opt_padded(t: Toks, q: int) -> (Option<Spanned<Seq<char>>>, int) {
    let b = skip_ws(t, q);
    match sp_block_label(t, b) {
        Ok((l, c)) => (Some(l), skip_ws(t, c)),
        Err(_) => (None, q),
    }
}

/// An optional expression at `q`.
#[verifier::opaque]
pub open spec fn sp_expr_opt(t: Toks, q: int) -> (Option<Spanned<SpecExpr>>, int)
    decreases t.len() - q, 56nat,
{
    if !(0 <= q <= t.len()) {
        (None, q)
    } else {
        match sp_expr(t, q) {
            Ok((v, r)) => (Some(v), r),
            Err(_) => (None, q),
        }
    }
}

/// An optional condition of a control-flow statement at `q`: `if` with whitespace around it,
/// then an expression.
#[verifier::opaque]
pub open spec fn sp_cond_opt(t: Toks, q: int) -> (Option<Spanned<SpecExpr>>, int)
    decreases t.len() - q, 56nat,
{
    let a = skip_ws(t, q);
    let b = skip_ws(t, a + 1);
    if 0 <= q <= a && is_kw(t, a, "if"@) && adv(t, a + 1, b) {
        match sp_expr(t, b) {
            Ok((c, r)) => (Some(c), r),
            Err(_) => (None, q),
        }
    } else {
        (None, q)
    }
}

/// An optional value, then an optional condition, at `b`.
#[verifier::opaque]
pub open spec fn sp_value_cond(t: Toks, b: int) -> PRes<
    (Option<Spanned<SpecExpr>>, Option<Spanned<SpecExpr>>),
>
    decreases t.len() - b, 57nat,
{
    let (value, c) = sp_expr_opt(t, b);
    if !adv(t, b, c) {
        Err(fail_at(t, c))
    } else {
        let (cond, d) = sp_cond_opt(t, c);
        Ok(((value, cond), d))
    }
}

/// A `break` statement at `p`: `break`, an optional label, an optional value, an optional
/// condition, and `;` right after; the whitespace after it is skipped.
#[verifier::opaque]
pub open spec fn sp_break(t: Toks, p: int) -> PRes<Spanned<SpecNode>>
    decreases t.len() - p, 56nat,
{
    if !is_kw(t, p, "break"@) {
        Err(fail_at(t, p))
    } else {
        let (label, b) = sp_label_opt_padded(t, p + 1);
        if !adv(t, p + 1, b) {
            Err(fail_at(t, b))
        } else {
            match sp_value_cond(t, b) {
                Err(e) => Err(e),
                Ok(((value, cond), d)) => if tok_is(t, d, TokenInfo::Semicolon) {
                    Ok(
                        (
                            Spanned(
                                SpecNode::Break { kw: t[p].1, label, value, cond },
                                range_span(t, p, d + 1),
                            ),
                            skip_ws(t, d + 1),
                        ),
                    )
                } else {
                    Err(fail_at(t, d))
                },
            }
        }
    }
}

/// A `continue` statement at `p`: `continue`, an optional label, an optional condition, and
/// `;` right after; the whitespace after it is skipped.
#[verifier::opaque]
pub open spec fn sp_continue(t: Toks, p: int) -> PRes<Spanned<SpecNode>>
    decreases t.len() - p, 56nat,
{
    if !is_kw(t, p, "continue"@) {
        Err(fail_at(t, p))
    } else {
        let (label, b) = sp_label_opt_padded(t, p + 1);
        if !adv(t, p + 1, b) {
            Err(fail_at(t, b))
        } else {
            let (cond, d) = sp_cond_opt(t, b);
            if tok_is(t, d, TokenInfo::Semicolon) {
                Ok(
                    (
                        Spanned(
                            SpecNode::Continue { kw: t[p].1, label, cond },
                            range_span(t, p, d + 1),
                        ),
                        skip_ws(t, d + 1),
                    ),
                )
            } else {
                Err(fail_at(t, d))
            }
        }
    }
}

/// A `return` statement at `p`: `return`, whitespace, an optional value, an optional
/// condition, and `;` right after; the whitespace after it is skipped.
#[verifier::opaque]
pub open spec fn sp_return(t: Toks, p: int) -> PRes<Spanned<SpecNode>>
    decreases t.len() - p, 56nat,
{
    if !is_kw(t, p, "return"@) {
        Err(fail_at(t, p))
    } else {
        let b = skip_ws(t, p + 1);
        if !adv(t, p + 1, b) {
            Err(fail_at(t, b))
        } else {
            match sp_value_cond(t, b) {
                Err(e) => Err(e),
                Ok(((value, cond), d)) => if tok_is(t, d, TokenInfo::Semicolon) {
                    Ok(
                        (
                            Spanned(
                                SpecNode::Return { kw: t[p].1, value, cond },
                                range_span(t, p, d + 1),
                            ),
                            skip_ws(t, d + 1),
                        ),
                    )
                } else {
                    Err(fail_at(t, d))
                },
            }
        }
    }
}

/// Whether a brace-ending expression that ended at `q` stands as a statement: it does unless
/// the input ends there or a closing brace follows.
pub open spec fn stands_as_stmt(t: Toks, q: int) -> bool {
    0 <= q < t.len() && !tok_is(t, skip_ws(t, q), TokenInfo::RightBrace)
}

/// An expression statement at `p`: an expression followed by `;` (whitespace around it), or a
/// brace-ending expression (an `if`, `while`, `loop` or block) that does not end the body. It
/// spans all of it.
#[verifier::opaque]
pub open spec fn sp_expr_stmt(t: Toks, p: int) -> PRes<Spanned<SpecNode>>
    decreases t.len() - p, 56nat,
{
    let first = match sp_expr(t, p) {
        Err(e) => Err(e),
        Ok((e, b)) => {
            let c = skip_ws(t, b);
            if tok_is(t, c, TokenInfo::Semicolon) {
                Ok((e, skip_ws(t, c + 1)))
            } else {
                Err(fail_at(t, c))
            }
        },
    };
    let chosen = match first {
        Ok(r) => Ok(r),
        Err(e1) => match sp_brace_ending(t, p) {
            Err(e2) => Err(furthest(e1, e2)),
            Ok((e, b)) => if stands_as_stmt(t, b) {
                Ok((e, b))
            } else {
                Err(furthest(e1, fail_at(t, b)))
            },
        },
    };
    match chosen {
        Ok((e, q)) => Ok((Spanned(SpecNode::Expr(e), range_span(t, p, q)), q)),
        Err(e) => Err(e),
    }
}

// ---------------------------------------------------------------------------------------------
// Expressions.

/// An expression at `p`: an assignment chain with whitespace before and after.
#[verifier::opaque]
pub open spec fn sp_expr(t: Toks, p: int) -> PRes<Spanned<SpecExpr>>
    decreases t.len() - p, 30nat,
{
    let a = skip_ws(t, p);
    if !(0 <= p <= a <= t.len()) {
        Err(fail_at(t, a))
    } else {
        match sp_assign(t, a) {
            Ok((e, b)) => Ok((e, skip_ws(t, b))),
            Err(e) => Err(e),
        }
    }
}

/// An assignment chain at `p`: targets each followed by an assignment operator, then a value;
/// `a = b = c` assigns `b = c` to `a`. Without a target it is an unambiguous-or-operator
/// expression.
#[verifier::opaque]
pub open spec fn sp_assign(t: Toks, p: int) -> PRes<Spanned<SpecExpr>>
    decreases t.len() - p, 29nat,
{
    match sp_assign_pair(t, p) {
        Ok((target, op, b)) => if p < b <= t.len() {
            match sp_assign(t, b) {
                Ok((v, c)) => Ok(
                    (
                        Spanned(
                            SpecExpr::Assign { target, op, value: Box::new(v) },
                            spec_merge(target.1, v.1),
                        ),
                        c,
                    ),
                ),
                Err(e) => Err(e),
            }
        } else {
            sp_ambiguous(t, p)
        },
        Err(_) => sp_ambiguous(t, p),
    }
}

/// An assignment target at `p`: a binding pattern that must not be `mut`, or `&` followed by
/// whitespace and an expression.
#[verifier::opaque]
pub open spec fn sp_assign_target(t: Toks, p: int) -> PRes<Spanned<SpecAssignmentTarget>>
    decreases t.len() - p, 27nat,
{
    let first = match sp_pat(t, p) {
        Err(e) => Err(e),
        Ok((pat, b)) => match pat.0 {
            SpecPattern::Ident { ident, mut_kw: Some(s) } => Err(
                SpecError { info: SpecErrorInfo::MutableAssignmentTarget(ident), span: s },
            ),
            _ => Ok((Spanned(SpecAssignmentTarget::Pattern(pat.0), pat.1), b)),
        },
    };
    match first {
        Ok(r) => Ok(r),
        Err(e1) => if !tok_is(t, p, TokenInfo::And) {
            Err(furthest(e1, fail_at(t, p)))
        } else {
            let a = skip_ws(t, p + 1);
            if !adv(t, p + 1, a) {
                Err(furthest(e1, fail_at(t, a)))
            } else {
                match sp_expr(t, a) {
                    Err(e2) => Err(furthest(e1, e2)),
                    Ok((x, c)) => Ok(
                        (
                            Spanned(SpecAssignmentTarget::Pointer(Box::new(x)), range_span(t, p, c)),
                            c,
                        ),
                    ),
                }
            }
        },
    }
}

/// The tokens of an assignment operator at `p`, adjacent, with the operator and its length:
/// three-token operators first, `=` only when no `=` follows.
pub open spec fn assign_op_at(t: Toks, p: int) -> Option<(AssignmentOperator, int)> {
    let k0 = |k: TokenInfo| tok_is(t, p, k);
    let k1 = |k: TokenInfo| tok_is(t, p + 1, k);
    let k2 = |k: TokenInfo| tok_is(t, p + 2, k);
    if k0(TokenInfo::Lt) && k1(TokenInfo::Lt) && k2(TokenInfo::Equals) {
        Some((AssignmentOperator::ShlAssign, 3))
    } else if k0(TokenInfo::Gt) && k1(TokenInfo::Gt) && k2(TokenInfo::Equals) {
        Some((AssignmentOperator::ShrAssign, 3))
    } else if k0(TokenInfo::Asterisk) && k1(TokenInfo::Asterisk) && k2(TokenInfo::Equals) {
        Some((AssignmentOperator::PowAssign, 3))
    } else if k0(TokenInfo::Or) && k1(TokenInfo::Or) && k2(TokenInfo::Equals) {
        Some((AssignmentOperator::LogicalOrAssign, 3))
    } else if k0(TokenInfo::And) && k1(TokenInfo::And) && k2(TokenInfo::Equals) {
        Some((AssignmentOperator::LogicalAndAssign, 3))
    } else if k0(TokenInfo::Plus) && k1(TokenInfo::Equals) {
        Some((AssignmentOperator::AddAssign, 2))
    } else if k0(TokenInfo::Minus) && k1(TokenInfo::Equals) {
        Some((AssignmentOperator::SubAssign, 2))
    } else if k0(TokenInfo::Asterisk) && k1(TokenInfo::Equals) {
        Some((AssignmentOperator::MulAssign, 2))
    } else if k0(TokenInfo::Divide) && k1(TokenInfo::Equals) {
        Some((AssignmentOperator::DivAssign, 2))
    } else if k0(TokenInfo::Modulus) && k1(TokenInfo::Equals) {
        Some((AssignmentOperator::ModAssign, 2))
    } else if k0(TokenInfo::Or) && k1(TokenInfo::Equals) {
        Some((AssignmentOperator::BitOrAssign, 2))
    } else if k0(TokenInfo::And) && k1(TokenInfo::Equals) {
        Some((AssignmentOperator::BitAndAssign, 2))
    } else if k0(TokenInfo::Caret) && k1(TokenInfo::Equals) {
        Some((AssignmentOperator::BitXorAssign, 2))
    } else if k0(TokenInfo::Equals) && !k1(TokenInfo::Equals) {
        Some((AssignmentOperator::Assign, 1))
    } else {
        None
    }
}

/// An assignment target at `p` followed by an assignment operator with whitespace around it;
/// the operator spans its tokens.
#[verifier::opaque]
pub open spec fn sp_assign_pair(t: Toks, p: int) -> Result<
    (Spanned<SpecAssignmentTarget>, Spanned<AssignmentOperator>, int),
    SpecError,
>
    decreases t.len() - p, 28nat,
{
    match sp_assign_target(t, p) {
        Err(e) => Err(e),
        Ok((target, b)) => {
            let c = skip_ws(t, b);
            match assign_op_at(t, c) {
                Some((op, n)) => Ok(
                    (target, Spanned(op, range_span(t, c, c + n)), skip_ws(t, c + n)),
                ),
                None => Err(fail_at(t, c)),
            }
        },
    }
}

/// An expression at `p` that is not an assignment: a brace-ending expression, a ternary `if`,
/// or an operator expression, tried in this order.
#[verifier::opaque]
pub open spec fn sp_ambiguous(t: Toks, p: int) -> PRes<Spanned<SpecExpr>>
    decreases t.len() - p, 27nat,
{
    match sp_brace_ending(t, p) {
        Ok(r) => Ok(r),
        Err(e1) => match sp_ternary(t, p) {
            Ok(r) => Ok(r),
            Err(e2) => match sp_binary(t, p, 5) {
                Ok(r) => Ok(r),
                Err(e3) => Err(furthest(furthest(e1, e2), e3)),
            },
        },
    }
}

/// A ternary `if` at `p`: `if`, a condition, `then`, a value, `else`, a value, with whitespace
/// before and after. The two values become blocks of one implicit return.
#[verifier::opaque]
pub open spec fn sp_ternary(t: Toks, p: int) -> PRes<Spanned<SpecExpr>>
    decreases t.len() - p, 25nat,
{
    let s = skip_ws(t, p);
    if !(0 <= p <= s && is_kw(t, s, "if"@)) {
        Err(fail_at(t, s))
    } else {
        match sp_expr(t, s + 1) {
            Err(e) => Err(e),
            Ok((cond, a)) => if !(adv(t, s + 1, a) && is_kw(t, a, "then"@)) {
                Err(fail_at(t, a))
            } else {
                match sp_expr(t, a + 1) {
                    Err(e) => Err(e),
                    Ok((x, b)) => if !(adv(t, a + 1, b) && is_kw(t, b, "else"@)) {
                        Err(fail_at(t, b))
                    } else {
                        match sp_expr(t, b + 1) {
                            Err(e) => Err(e),
                            Ok((y, c)) => Ok(
                                (
                                    Spanned(
                                        SpecExpr::If {
                                            label: None,
                                            cond: Box::new(cond),
                                            body: as_expr_block(x),
                                            else_if_bodies: Seq::empty(),
                                            else_body: Some(as_expr_block(y)),
                                            ternary: true,
                                        },
                                        range_span(t, s, c),
                                    ),
                                    skip_ws(t, c),
                                ),
                            ),
                        }
                    },
                }
            },
        }
    }
}

// ---------------------------------------------------------------------------------------------
// Brace-ending expressions.

/// A braced body at `p`: `{`, a body, `}`, whitespace allowed inside, before and after; it
/// spans the braces.
#[verifier::opaque]
pub open spec fn sp_braced_body(t: Toks, p: int) -> PRes<SpecBody>
    decreases t.len() - p, 24nat,
{
    let a = skip_ws(t, p);
    if !(0 <= p <= a && tok_is(t, a, TokenInfo::LeftBrace)) {
        Err(fail_at(t, a))
    } else {
        let b = skip_ws(t, a + 1);
        if !adv(t, a + 1, b) {
            Err(fail_at(t, b))
        } else {
            let (nodes, c) = sp_body(t, b);
            let d = skip_ws(t, c);
            if adv(t, b, c) && tok_is(t, d, TokenInfo::RightBrace) {
                Ok((Spanned(nodes, range_span(t, a, d + 1)), skip_ws(t, d + 1)))
            } else {
                Err(fail_at(t, d))
            }
        }
    }
}

/// An optional block label at `p`, with the whitespace after it.
#[verifier::opaque]
pub open spec fn sp_label_opt(t: Toks, p: int) -> (Option<Spanned<Seq<char>>>, int) {
    match sp_block_label(t, p) {
        Ok((l, b)) => (Some(l), skip_ws(t, b)),
        Err(_) => (None, p),
    }
}

/// A brace-ending expression at `p`: a braced `if`, a `while` loop, a `loop`, or a block, tried
/// in this order.
#[verifier::opaque]
pub open spec fn sp_brace_ending(t: Toks, p: int) -> PRes<Spanned<SpecExpr>>
    decreases t.len() - p, 26nat,
{
    match sp_braced_if(t, p) {
        Ok(r) => Ok(r),
        Err(e1) => match sp_while(t, p) {
            Ok(r) => Ok(r),
            Err(e2) => match sp_loop(t, p) {
                Ok(r) => Ok(r),
                Err(e3) => match sp_block(t, p) {
                    Ok(r) => Ok(r),
                    Err(e4) => Err(furthest(furthest(furthest(e1, e2), e3), e4)),
                },
            },
        },
    }
}

/// `else if` branches after `q`, appended to `acc`: `else`, `if` with whitespace around it, a
/// condition and a braced body each.
#[verifier::opaque]
pub open spec fn sp_elif_tail(t: Toks, q: int, acc: Seq<(Spanned<SpecExpr>, SpecBody)>) -> (Seq<
    (Spanned<SpecExpr>, SpecBody),
>, int)
    decreases t.len() - q, 23nat,
{
    let f = skip_ws(t, q + 1);
    let g = skip_ws(t, f + 1);
    if 0 <= q && is_kw(t, q, "else"@) && adv(t, q + 1, f) && is_kw(t, f, "if"@) && adv(
        t,
        f + 1,
        g,
    ) {
        match sp_expr(t, g) {
            Err(_) => (acc, q),
            Ok((c, h)) => if !adv(t, g, h) {
                (acc, q)
            } else {
                match sp_braced_body(t, h) {
                    Err(_) => (acc, q),
                    Ok((b, i)) => if adv(t, h, i) {
                        sp_elif_tail(t, i, acc.push((c, b)))
                    } else {
                        (acc, q)
                    },
                }
            },
        }
    } else {
        (acc, q)
    }
}

/// An optional `else` and braced body at `q`.
#[verifier::opaque]
pub open spec fn sp_else_opt(t: Toks, q: int) -> (Option<SpecBody>, int)
    decreases t.len() - q, 23nat,
{
    if 0 <= q && is_kw(t, q, "else"@) {
        match sp_braced_body(t, q + 1) {
            Ok((b, r)) => (Some(b), r),
            Err(_) => (None, q),
        }
    } else {
        (None, q)
    }
}

/// A braced `if` at `p`: an optional label, `if`, a condition, a braced body, `else if`
/// branches, and an optional `else` branch, with whitespace before and after.
#[verifier::opaque]
pub open spec fn sp_braced_if(t: Toks, p: int) -> PRes<Spanned<SpecExpr>>
    decreases t.len() - p, 25nat,
{
    let s = skip_ws(t, p);
    let (label, a) = sp_label_opt(t, s);
    if !(0 <= p <= s <= a && is_kw(t, a, "if"@)) {
        Err(fail_at(t, a))
    } else {
        match sp_expr(t, a + 1) {
            Err(e) => Err(e),
            Ok((cond, b)) => if !adv(t, a + 1, b) {
                Err(fail_at(t, b))
            } else {
                match sp_braced_body(t, b) {
                    Err(e) => Err(e),
                    Ok((body, c)) => if !adv(t, b, c) {
                        Err(fail_at(t, c))
                    } else {
                        let (elifs, d) = sp_elif_tail(t, c, Seq::empty());
                        if !adv(t, c, d) {
                            Err(fail_at(t, d))
                        } else {
                            let (else_body, e) = sp_else_opt(t, d);
                            Ok(
                                (
                                    Spanned(
                                        SpecExpr::If {
                                            label,
                                            cond: Box::new(cond),
                                            body,
                                            else_if_bodies: elifs,
                                            else_body,
                                            ternary: false,
                                        },
                                        range_span(t, s, e),
                                    ),
                                    skip_ws(t, e),
                                ),
                            )
                        }
                    },
                }
            },
        }
    }
}

/// A `while` loop at `p`: an optional label, `while`, a condition, a braced body, and an
/// optional `else` branch, with whitespace before and after.
#[verifier::opaque]
pub open spec fn sp_while(t: Toks, p: int) -> PRes<Spanned<SpecExpr>>
    decreases t.len() - p, 25nat,
{
    let s = skip_ws(t, p);
    let (label, a) = sp_label_opt(t, s);
    if !(0 <= p <= s <= a && is_kw(t, a, "while"@)) {
        Err(fail_at(t, a))
    } else {
        match sp_expr(t, a + 1) {
            Err(e) => Err(e),
            Ok((cond, b)) => if !adv(t, a + 1, b) {
                Err(fail_at(t, b))
            } else {
                match sp_braced_body(t, b) {
                    Err(e) => Err(e),
                    Ok((body, c)) => if !adv(t, b, c) {
                        Err(fail_at(t, c))
                    } else {
                        let (else_body, d) = sp_else_opt(t, c);
                        Ok(
                            (
                                Spanned(
                                    SpecExpr::While(
                                        SpecWhile { label, cond: Box::new(cond), body, else_body },
                                    ),
                                    range_span(t, s, d),
                                ),
                                skip_ws(t, d),
                            ),
                        )
                    },
                }
            },
        }
    }
}

/// A `loop` at `p`: an optional label, `loop`, and a braced body, with whitespace before and
/// after.
#[verifier::opaque]
pub open spec fn sp_loop(t: Toks, p: int) -> PRes<Spanned<SpecExpr>>
    decreases t.len() - p, 25nat,
{
    let s = skip_ws(t, p);
    let (label, a) = sp_label_opt(t, s);
    if !(0 <= p <= s <= a && is_kw(t, a, "loop"@)) {
        Err(fail_at(t, a))
    } else {
        match sp_braced_body(t, a + 1) {
            Err(e) => Err(e),
            Ok((body, c)) => Ok(
                (Spanned(SpecExpr::Loop { label, body }, range_span(t, s, c)), skip_ws(t, c)),
            ),
        }
    }
}

/// A block at `p`: an optional label and a braced body, with whitespace before and after.
#[verifier::opaque]
pub open spec fn sp_block(t: Toks, p: int) -> PRes<Spanned<SpecExpr>>
    decreases t.len() - p, 25nat,
{
    let s = skip_ws(t, p);
    let (label, a) = sp_label_opt(t, s);
    if !(0 <= p <= s <= a <= t.len()) {
        Err(fail_at(t, a))
    } else {
        match sp_braced_body(t, a) {
            Err(e) => Err(e),
            Ok((body, c)) => Ok(
                (Spanned(SpecExpr::Block { label, body }, range_span(t, s, c)), skip_ws(t, c)),
            ),
        }
    }
}

// ---------------------------------------------------------------------------------------------
// Operator expressions.

/// The binary operator of precedence level `k` at `p` (after whitespace), its span, and the
/// position after it and the whitespace after it. Levels from loosest: `5` bitwise (`&`, `|`,
/// `^`), `4` `||`, `3` `&&`, `2` comparisons, `1` sums, `0` products. A sum operator spans the
/// whitespace around it.
pub open spec fn bin_op_at(t: Toks, p: int, k: nat) -> Option<(Spanned<BinaryOp>, int)> {
    let a = skip_ws(t, p);
    let one = |op: BinaryOp| Some((Spanned(op, t[a].1), skip_ws(t, a + 1)));
    let two = |op: BinaryOp| Some((Spanned(op, range_span(t, a, a + 2)), skip_ws(t, a + 2)));
    if k == 5 {
        if tok_is(t, a, TokenInfo::And) {
            one(BinaryOp::BitAnd)
        } else if tok_is(t, a, TokenInfo::Or) {
            one(BinaryOp::BitOr)
        } else if tok_is(t, a, TokenInfo::Caret) {
            one(BinaryOp::BitXor)
        } else {
            None
        }
    } else if k == 4 {
        if tok_is(t, a, TokenInfo::Or) && tok_is(t, a + 1, TokenInfo::Or) {
            two(BinaryOp::LogicalOr)
        } else {
            None
        }
    } else if k == 3 {
        if tok_is(t, a, TokenInfo::And) && tok_is(t, a + 1, TokenInfo::And) {
            two(BinaryOp::LogicalAnd)
        } else {
            None
        }
    } else if k == 2 {
        if tok_is(t, a, TokenInfo::Equals) && tok_is(t, a + 1, TokenInfo::Equals) {
            two(BinaryOp::Eq)
        } else if tok_is(t, a, TokenInfo::Not) && tok_is(t, a + 1, TokenInfo::Equals) {
            two(BinaryOp::Ne)
        } else if tok_is(t, a, TokenInfo::Lt) && tok_is(t, a + 1, TokenInfo::Equals) {
            two(BinaryOp::Le)
        } else if tok_is(t, a, TokenInfo::Gt) && tok_is(t, a + 1, TokenInfo::Equals) {
            two(BinaryOp::Ge)
        } else if tok_is(t, a, TokenInfo::Lt) {
            one(BinaryOp::Lt)
        } else if tok_is(t, a, TokenInfo::Gt) {
            one(BinaryOp::Gt)
        } else {
            None
        }
    } else if k == 1 {
        let r = skip_ws(t, a + 1);
        if tok_is(t, a, TokenInfo::Plus) {
            Some((Spanned(BinaryOp::Add, range_span(t, p, r)), r))
        } else if tok_is(t, a, TokenInfo::Minus) {
            Some((Spanned(BinaryOp::Sub, range_span(t, p, r)), r))
        } else {
            None
        }
    } else {
        if tok_is(t, a, TokenInfo::Asterisk) {
            one(BinaryOp::Mul)
        } else if tok_is(t, a, TokenInfo::Divide) {
            one(BinaryOp::Div)
        } else if tok_is(t, a, TokenInfo::Modulus) {
            one(BinaryOp::Mod)
        } else {
            None
        }
    }
}

/// The binary operation `left op right`, spanning both operands.
pub open spec fn bin(left: Spanned<SpecExpr>, op: Spanned<BinaryOp>, right: Spanned<SpecExpr>) -> Spanned<SpecExpr> {
    Spanned(
        SpecExpr::BinaryOp { left: Box::new(left), op, right: Box::new(right) },
        spec_merge(left.1, right.1),
    )
}

/// An operand of level `k` at `p`: level `k - 1`, or a power expression below level `0`.
#[verifier::opaque]
pub open spec fn sp_operand(t: Toks, p: int, k: nat) -> PRes<Spanned<SpecExpr>>
    decreases t.len() - p, 2 * k + 13,
{
    if k == 0 {
        sp_pow(t, p)
    } else {
        sp_binary(t, p, (k - 1) as nat)
    }
}

/// A left-associative operator expression of level `k` at `p`: operands joined by operators
/// of that level.
#[verifier::opaque]
pub open spec fn sp_binary(t: Toks, p: int, k: nat) -> PRes<Spanned<SpecExpr>>
    decreases t.len() - p, 2 * k + 14,
{
    match sp_operand(t, p, k) {
        Err(e) => Err(e),
        Ok((x, q)) => if adv(t, p, q) {
            Ok(sp_binary_tail(t, q, x, k))
        } else {
            Err(fail_at(t, q))
        },
    }
}

/// Further operators of level `k` and operands after `q`, folded onto `acc` from the left. An
/// operator without an operand after it is left unconsumed.
#[verifier::opaque]
pub open spec fn sp_binary_tail(t: Toks, q: int, acc: Spanned<SpecExpr>, k: nat) -> (Spanned<SpecExpr>, int)
    decreases t.len() - q, 2 * k + 13,
{
    match bin_op_at(t, q, k) {
        None => (acc, q),
        Some((op, r)) => if !(0 <= q < r <= t.len()) {
            (acc, q)
        } else {
            match sp_operand(t, r, k) {
                Err(_) => (acc, q),
                Ok((y, s)) => if adv(t, r, s) {
                    sp_binary_tail(t, s, bin(acc, op, y), k)
                } else {
                    (acc, q)
                },
            }
        },
    }
}

/// A power expression at `p`: cast expressions joined by `**` (adjacent tokens, whitespace
/// around), right-associative.
#[verifier::opaque]
pub open spec fn sp_pow(t: Toks, p: int) -> PRes<Spanned<SpecExpr>>
    decreases t.len() - p, 12nat,
{
    match sp_cast(t, p) {
        Err(e) => Err(e),
        Ok((h, q)) => {
            let a = skip_ws(t, q);
            let r = skip_ws(t, a + 2);
            if adv(t, p, q) && adv(t, q, a) && tok_is(t, a, TokenInfo::Asterisk) && tok_is(
                t,
                a + 1,
                TokenInfo::Asterisk,
            ) && adv(t, a + 2, r) {
                let op = Spanned(BinaryOp::Pow, range_span(t, a, a + 2));
                match sp_pow(t, r) {
                    Ok((rhs, s)) => Ok((bin(h, op, rhs), s)),
                    Err(_) => Ok((h, q)),
                }
            } else {
                Ok((h, q))
            }
        },
    }
}

/// A cast expression at `p`: a unary expression followed by any number of casts, each `::`
/// (adjacent tokens, whitespace around) and a type.
#[verifier::opaque]
pub open spec fn sp_cast(t: Toks, p: int) -> PRes<Spanned<SpecExpr>>
    decreases t.len() - p, 11nat,
{
    match sp_unary(t, p) {
        Err(e) => Err(e),
        Ok((x, q)) => if adv(t, p, q) {
            Ok(sp_cast_tail(t, q, x))
        } else {
            Err(fail_at(t, q))
        },
    }
}

/// Further casts after `q`, applied to `acc` from the left: each is `::` (two colon tokens)
/// and a type, with whitespace around the `::`.
#[verifier::opaque]
pub open spec fn sp_cast_tail(t: Toks, q: int, acc: Spanned<SpecExpr>) -> (Spanned<SpecExpr>, int)
    decreases t.len() - q, 10nat,
{
    let a = skip_ws(t, q);
    let b = skip_ws(t, a + 2);
    if 0 <= q <= a && tok_is(t, a, TokenInfo::Colon) && tok_is(t, a + 1, TokenInfo::Colon) && adv(
        t,
        a + 2,
        b,
    ) {
        match sp_ty(t, b) {
            Ok((ty, c)) => if adv(t, b, c) {
                sp_cast_tail(
                    t,
                    c,
                    Spanned(SpecExpr::Cast { expr: Box::new(acc), ty }, spec_merge(acc.1, ty.1)),
                )
            } else {
                (acc, q)
            },
            Err(_) => (acc, q),
        }
    } else {
        (acc, q)
    }
}

/// The prefix operator at `p`, if any.
pub open spec fn unary_op_at(t: Toks, p: int) -> Option<UnaryOp> {
    if tok_is(t, p, TokenInfo::Minus) {
        Some(UnaryOp::Minus)
    } else if tok_is(t, p, TokenInfo::Plus) {
        Some(UnaryOp::Plus)
    } else if tok_is(t, p, TokenInfo::Not) {
        Some(UnaryOp::Not)
    } else {
        None
    }
}

/// A unary expression at `p`: prefix operators (`-`, `+`, `!`, whitespace around each) applied
/// from the right to a chain.
#[verifier::opaque]
pub open spec fn sp_unary(t: Toks, p: int) -> PRes<Spanned<SpecExpr>>
    decreases t.len() - p, 9nat,
{
    let a = skip_ws(t, p);
    let r = skip_ws(t, a + 1);
    if 0 <= p <= a && unary_op_at(t, a) is Some && adv(t, a + 1, r) {
        let op = Spanned(unary_op_at(t, a)->Some_0, t[a].1);
        match sp_unary(t, r) {
            Ok((e, s)) => Ok(
                (
                    Spanned(SpecExpr::UnaryOp { op, expr: Box::new(e) }, spec_merge(op.1, e.1)),
                    s,
                ),
            ),
            Err(e) => Err(e),
        }
    } else {
        sp_chain(t, p)
    }
}

/// A chain at `p`: an unambiguous expression followed by attribute accesses, calls and index
/// accesses, applied from the left. A call with a positional argument after a keyword argument
/// makes the chain fail.
#[verifier::opaque]
pub open spec fn sp_chain(t: Toks, p: int) -> PRes<Spanned<SpecExpr>>
    decreases t.len() - p, 8nat,
{
    match sp_unambiguous(t, p) {
        Err(e) => Err(e),
        Ok((x, q)) => if adv(t, p, q) {
            match sp_chain_tail(t, q, Ok(x)) {
                (Ok(y), r) => Ok((y, r)),
                (Err(e), _) => Err(e),
            }
        } else {
            Err(fail_at(t, q))
        },
    }
}

/// Further postfixes after `q`, applied to `acc` from the left.
#[verifier::opaque]
pub open spec fn sp_chain_tail(t: Toks, q: int, acc: Result<Spanned<SpecExpr>, SpecError>) -> (Result<
    Spanned<SpecExpr>,
    SpecError,
>, int)
    decreases t.len() - q, 7nat,
{
    if !(0 <= q <= t.len()) {
        (acc, q)
    } else {
        match sp_postfix(t, q) {
            Err(_) => (acc, q),
            Ok((pf, r)) => if q < r <= t.len() {
                sp_chain_tail(t, r, apply_postfix(acc, pf))
            } else {
                (acc, q)
            },
        }
    }
}

/// The expression a postfix makes of `lhs`, spanning `lhs` and the postfix.
pub open spec fn apply_postfix(acc: Result<Spanned<SpecExpr>, SpecError>, pf: SpecPostfix) -> Result<
    Spanned<SpecExpr>,
    SpecError,
> {
    match acc {
        Err(e) => Err(e),
        Ok(lhs) => match pf {
            SpecPostfix::Attr(dot, attr) => Ok(
                Spanned(
                    SpecExpr::Attr { subject: Box::new(lhs), dot, attr },
                    spec_merge(lhs.1, attr.1),
                ),
            ),
            SpecPostfix::Call(items, span) => match split_call_args(items) {
                Err(e) => Err(e),
                Ok((args, kwargs)) => Ok(
                    Spanned(
                        SpecExpr::Call { func: Box::new(lhs), args, kwargs },
                        spec_merge(lhs.1, span),
                    ),
                ),
            },
            SpecPostfix::Index(ix) => Ok(
                Spanned(
                    SpecExpr::Index { subject: Box::new(lhs), index: Box::new(ix) },
                    spec_merge(lhs.1, ix.1),
                ),
            ),
        },
    }
}

/// The number of leading positional arguments.
pub open spec fn positional_args(items: Seq<SpecCallArg>) -> nat
    decreases items.len(),
{
    if items.len() == 0 || items[0].0 is Some {
        0
    } else {
        1 + positional_args(items.drop_first())
    }
}

/// The keyword arguments of `items`, which must all have a keyword; the first without one
/// gives the error, at its span.
pub open spec fn keyword_args(items: Seq<SpecCallArg>) -> Result<
    Seq<(Seq<char>, Spanned<SpecExpr>)>,
    SpecError,
>
    decreases items.len(),
{
    if items.len() == 0 {
        Ok(Seq::empty())
    } else {
        match keyword_args(items.drop_last()) {
            Err(e) => Err(e),
            Ok(ks) => match items.last().0 {
                Some(n) => Ok(ks.push((n, items.last().1))),
                None => Err(
                    SpecError {
                        info: SpecErrorInfo::UnexpectedPositionalArgument,
                        span: items.last().1.1,
                    },
                ),
            },
        }
    }
}

/// The values of call arguments.
pub open spec fn arg_values(items: Seq<SpecCallArg>) -> Seq<Spanned<SpecExpr>> {
    items.map_values(|i: SpecCallArg| i.1)
}

/// The positional and keyword arguments of a call: the leading arguments without a keyword
/// are positional, and every argument after the first keyword argument must have a keyword.
pub open spec fn split_call_args(items: Seq<SpecCallArg>) -> Result<
    (Seq<Spanned<SpecExpr>>, Seq<(Seq<char>, Spanned<SpecExpr>)>),
    SpecError,
> {
    let k = positional_args(items) as int;
    match keyword_args(items.subrange(k, items.len() as int)) {
        Ok(kws) => Ok((arg_values(items.subrange(0, k)), kws)),
        Err(e) => Err(e),
    }
}

/// A postfix at `q`: `.` and an attribute name right after; call arguments in parentheses
/// right after `q`, with whitespace after them; or an index in brackets, with whitespace
/// before, inside and after.
#[verifier::opaque]
pub open spec fn sp_postfix(t: Toks, q: int) -> PRes<SpecPostfix>
    decreases t.len() - q, 6nat,
{
    if tok_is(t, q, TokenInfo::Dot) && q + 1 < t.len() && t[q + 1].0 is Ident {
        Ok(
            (
                SpecPostfix::Attr(t[q].1, Spanned(t[q + 1].0->Ident_0@, t[q + 1].1)),
                q + 2,
            ),
        )
    } else if tok_is(t, q, TokenInfo::LeftParen) {
        let a = skip_ws(t, q + 1);
        if !adv(t, q + 1, a) {
            Err(fail_at(t, a))
        } else {
            let (items, c) = sp_arg_list(t, a);
            let b = skip_ws(t, c);
            if adv(t, a, c) && tok_is(t, b, TokenInfo::RightParen) {
                Ok(
                    (SpecPostfix::Call(items, range_span(t, q, b + 1)), skip_ws(t, b + 1)),
                )
            } else {
                Err(fail_at(t, b))
            }
        }
    } else {
        let a = skip_ws(t, q);
        let b = skip_ws(t, a + 1);
        if 0 <= q <= a && tok_is(t, a, TokenInfo::LeftBracket) && adv(t, a + 1, b) {
            match sp_expr(t, b) {
                Err(e) => Err(e),
                Ok((ix, c)) => {
                    let d = skip_ws(t, c);
                    if tok_is(t, d, TokenInfo::RightBracket) {
                        Ok((SpecPostfix::Index(ix), skip_ws(t, d + 1)))
                    } else {
                        Err(fail_at(t, d))
                    }
                },
            }
        } else {
            Err(fail_at(t, a))
        }
    }
}

/// A call argument at `p`: an optional keyword (an identifier with `:` right after it) with
/// whitespace around, then an expression.
#[verifier::opaque]
pub open spec fn sp_call_arg(t: Toks, p: int) -> PRes<SpecCallArg>
    decreases t.len() - p, 32nat,
{
    let a = skip_ws(t, p);
    let (name, s) = if 0 <= a < t.len() && t[a].0 is Ident && tok_is(t, a + 1, TokenInfo::Colon) {
        (Some(t[a].0->Ident_0@), skip_ws(t, a + 2))
    } else {
        (None, a)
    };
    if !(0 <= p <= s <= t.len()) {
        Err(fail_at(t, s))
    } else {
        match sp_expr(t, s) {
            Ok((v, e)) => Ok(((name, v), e)),
            Err(e) => Err(e),
        }
    }
}

/// Zero or more call arguments at `p`, separated by commas with whitespace around them; a
/// trailing comma is allowed after at least one.
#[verifier::opaque]
pub open spec fn sp_arg_list(t: Toks, p: int) -> (Seq<SpecCallArg>, int)
    decreases t.len() - p, 34nat,
{
    if !(0 <= p <= t.len()) {
        (Seq::empty(), p)
    } else {
        match sp_call_arg(t, p) {
            Err(_) => (Seq::empty(), p),
            Ok((x, q)) => if adv(t, p, q) {
                sp_arg_list_tail(t, q, seq![x])
            } else {
                (Seq::empty(), p)
            },
        }
    }
}

/// Further call arguments after `q`, appended to `acc`.
#[verifier::opaque]
pub open spec fn sp_arg_list_tail(t: Toks, q: int, acc: Seq<SpecCallArg>) -> (Seq<SpecCallArg>, int)
    decreases t.len() - q, 33nat,
{
    let c = skip_ws(t, q);
    let d = skip_ws(t, c + 1);
    if 0 <= q && adv(t, q, c) && tok_is(t, c, TokenInfo::Comma) && adv(t, c + 1, d) {
        match sp_call_arg(t, d) {
            Ok((x, e)) => if adv(t, d, e) {
                sp_arg_list_tail(t, e, acc.push(x))
            } else {
                (acc, d)
            },
            Err(_) => (acc, d),
        }
    } else {
        (acc, q)
    }
}

/// An unambiguous expression at `p`, with whitespace before and after: an expression in
/// parentheses, a tuple, an array, or an atom, tried in this order.
#[verifier::opaque]
pub open spec fn sp_unambiguous(t: Toks, p: int) -> PRes<Spanned<SpecExpr>>
    decreases t.len() - p, 5nat,
{
    let s = skip_ws(t, p);
    if !(0 <= p <= s <= t.len()) {
        Err(fail_at(t, s))
    } else {
        let chosen = match sp_paren_expr(t, s) {
            Ok(r) => Ok(r),
            Err(e1) => match sp_seq_expr(t, s, true) {
                Ok(r) => Ok(r),
                Err(e2) => match sp_seq_expr(t, s, false) {
                    Ok(r) => Ok(r),
                    Err(e3) => match sp_atom(t, s) {
                        Ok(r) => Ok(r),
                        Err(e4) => Err(furthest(furthest(furthest(e1, e2), e3), e4)),
                    },
                },
            },
        };
        match chosen {
            Ok((x, q)) => Ok((x, skip_ws(t, q))),
            Err(e) => Err(e),
        }
    }
}

/// An expression in parentheses at `p`, whitespace allowed inside; it is the inner expression,
/// with its own span.
#[verifier::opaque]
pub open spec fn sp_paren_expr(t: Toks, p: int) -> PRes<Spanned<SpecExpr>>
    decreases t.len() - p, 4nat,
{
    if !tok_is(t, p, TokenInfo::LeftParen) {
        Err(fail_at(t, p))
    } else {
        let a = skip_ws(t, p + 1);
        if !adv(t, p + 1, a) {
            Err(fail_at(t, a))
        } else {
            match sp_expr(t, a) {
                Err(e) => Err(e),
                Ok((x, b)) => {
                    let c = skip_ws(t, b);
                    if tok_is(t, c, TokenInfo::RightParen) {
                        Ok((x, c + 1))
                    } else {
                        Err(fail_at(t, c))
                    }
                },
            }
        }
    }
}

/// A tuple (`tuple`) or an array at `p`: zero or more expressions separated by commas with an
/// optional trailing comma, in parentheses or brackets, whitespace allowed inside; it spans the
/// delimiters.
#[verifier::opaque]
pub open spec fn sp_seq_expr(t: Toks, p: int, tuple: bool) -> PRes<Spanned<SpecExpr>>
    decreases t.len() - p, 4nat,
{
    let (open, close) = if tuple {
        (TokenInfo::LeftParen, TokenInfo::RightParen)
    } else {
        (TokenInfo::LeftBracket, TokenInfo::RightBracket)
    };
    if !tok_is(t, p, open) {
        Err(fail_at(t, p))
    } else {
        let a = skip_ws(t, p + 1);
        if !adv(t, p + 1, a) {
            Err(fail_at(t, a))
        } else {
            let (xs, b) = sp_expr_list(t, a);
            let c = skip_ws(t, b);
            if adv(t, a, b) && tok_is(t, c, close) {
                let e = if tuple {
                    SpecExpr::Tuple(xs)
                } else {
                    SpecExpr::Array(xs)
                };
                Ok((Spanned(e, range_span(t, p, c + 1)), c + 1))
            } else {
                Err(fail_at(t, c))
            }
        }
    }
}

/// Zero or more expressions at `p`, separated by commas with whitespace around them; a trailing
/// comma is allowed after at least one.
#[verifier::opaque]
pub open spec fn sp_expr_list(t: Toks, p: int) -> (Seq<Spanned<SpecExpr>>, int)
    decreases t.len() - p, 32nat,
{
    if !(0 <= p <= t.len()) {
        (Seq::empty(), p)
    } else {
        match sp_expr(t, p) {
            Err(_) => (Seq::empty(), p),
            Ok((x, q)) => if adv(t, p, q) {
                sp_expr_list_tail(t, q, seq![x])
            } else {
                (Seq::empty(), p)
            },
        }
    }
}

/// Further expressions after `q`, appended to `acc`.
#[verifier::opaque]
pub open spec fn sp_expr_list_tail(t: Toks, q: int, acc: Seq<Spanned<SpecExpr>>) -> (Seq<
    Spanned<SpecExpr>,
>, int)
    decreases t.len() - q, 31nat,
{
    let c = skip_ws(t, q);
    let d = skip_ws(t, c + 1);
    if 0 <= q && adv(t, q, c) && tok_is(t, c, TokenInfo::Comma) && adv(t, c + 1, d) {
        match sp_expr(t, d) {
            Ok((x, e)) => if adv(t, d, e) {
                sp_expr_list_tail(t, e, acc.push(x))
            } else {
                (acc, d)
            },
            Err(_) => (acc, d),
        }
    } else {
        (acc, q)
    }
}

/// The literal atom a token stands for: integer and floating-point literals as written, string
/// literals after resolving escapes, character literals as the first character after resolving
/// escapes; any other token is not a literal.
pub open spec fn literal_atom(t: Toks, p: int) -> Result<SpecAtom, SpecError> {
    match t[p].0 {
        TokenInfo::IntLiteral(v, r) => Ok(SpecAtom::Int(v@, r)),
        TokenInfo::FloatLiteral(v) => Ok(SpecAtom::Float(v@)),
        TokenInfo::StringLiteral(c, f, s) => match spec_resolve_string(c@, f, s) {
            Ok(r) => Ok(SpecAtom::String(r)),
            Err(e) => Err(e),
        },
        TokenInfo::CharLiteral(c, s) => match spec_resolve_string(c@, StringLiteralFlags(0), s) {
            Ok(r) => Ok(SpecAtom::Char(r[0])),
            Err(e) => Err(e),
        },
        _ => Err(fail_at(t, p)),
    }
}

/// The atom an identifier stands for: `true`, `false`, `void`, or the identifier.
pub open spec fn ident_atom(name: Seq<char>) -> SpecAtom {
    if name == "true"@ {
        SpecAtom::Bool(true)
    } else if name == "false"@ {
        SpecAtom::Bool(false)
    } else if name == "void"@ {
        SpecAtom::Void
    } else {
        SpecAtom::Ident(name)
    }
}

/// An atom at `p`: a literal, or else an identifier; it spans its token.
pub open spec fn sp_atom(t: Toks, p: int) -> PRes<Spanned<SpecExpr>> {
    if !(0 <= p < t.len()) {
        Err(fail_at(t, p))
    } else {
        match literal_atom(t, p) {
            Ok(a) => Ok((Spanned(SpecExpr::Atom(a), t[p].1), p + 1)),
            Err(e1) => match t[p].0 {
                TokenInfo::Ident(n, _) => Ok(
                    (Spanned(SpecExpr::Atom(ident_atom(n@)), t[p].1), p + 1),
                ),
                _ => Err(furthest(e1, fail_at(t, p))),
            },
        }
    }
}

} // verus!
