//! The views of the parser's intermediate results, and how sequences of views grow.

use vstd::prelude::*;
use crate::ast::{expr_as_block, Expr, FuncParam, Node, StructField, TyParam};
use crate::error::{Error, SpecError, v_error};
use crate::grammar::{SpecCallArg, SpecParamItem, SpecPostfix, as_block, as_expr_block};
use crate::model::{
    SpecExpr, SpecNode, v_body, v_elifs, v_exprs, v_kwargs, v_name, v_node, v_nodes, v_opt_expr,
    v_opt_ty, v_param, v_params, v_sp_expr, v_struct_field, v_struct_fields, v_ty_params,
};
use crate::pcore::{PRes, vres};
use crate::span::{Span, Spanned};

verus! {

/// View of an expression result.
pub open spec fn vr_expr(r: Result<(Spanned<Expr>, usize), Error>) -> PRes<Spanned<SpecExpr>> {
    vres(r, |x: Spanned<Expr>| v_sp_expr(x))
}

/// View of a statement result.
pub open spec fn vr_node(r: Result<(Spanned<Node>, usize), Error>) -> PRes<Spanned<SpecNode>> {
    match r {
        Ok((x, q)) => Ok((Spanned(v_node(x.0), x.1), q as int)),
        Err(e) => Err(v_error(e)),
    }
}

/// View of a body result.
pub open spec fn vr_body(r: Result<(Spanned<Vec<Spanned<Node>>>, usize), Error>) -> PRes<
    crate::model::SpecBody,
> {
    vres(r, |x: Spanned<Vec<Spanned<Node>>>| v_body(x))
}

/// A call argument as parsed.
pub type CallArg = (Option<String>, Spanned<Expr>);

/// View of a call argument.
pub open spec fn v_call_arg(a: CallArg) -> SpecCallArg {
    (
        match a.0 {
            Some(n) => Some(n@),
            None => None,
        },
        v_sp_expr(a.1),
    )
}

/// View of call arguments.
pub open spec fn v_call_args(s: Seq<CallArg>) -> Seq<SpecCallArg> {
    s.map_values(|a: CallArg| v_call_arg(a))
}

/// An item of a parameter list as parsed.
pub enum ParamItem {
    Sep(Span),
    Param(Spanned<FuncParam>),
}

/// View of a parameter item.
pub open spec fn v_param_item(i: ParamItem) -> SpecParamItem {
    match i {
        ParamItem::Sep(s) => SpecParamItem::Sep(s),
        ParamItem::Param(x) => SpecParamItem::Param(Spanned(v_param(x.0), x.1)),
    }
}

/// View of parameter items.
pub open spec fn v_param_items(s: Seq<ParamItem>) -> Seq<SpecParamItem> {
    s.map_values(|i: ParamItem| v_param_item(i))
}

/// A postfix as parsed.
pub enum Postfix {
    Attr(Span, Spanned<String>),
    Call(Vec<CallArg>, Span),
    Index(Spanned<Expr>),
}

/// View of a postfix.
pub open spec fn v_postfix(p: Postfix) -> SpecPostfix {
    match p {
        Postfix::Attr(d, a) => SpecPostfix::Attr(d, v_name(a)),
        Postfix::Call(args, s) => SpecPostfix::Call(v_call_args(args@), s),
        Postfix::Index(x) => SpecPostfix::Index(v_sp_expr(x)),
    }
}

/// View of an expression or an error.
pub open spec fn v_expr_or_err(r: Result<Spanned<Expr>, Error>) -> Result<Spanned<SpecExpr>, SpecError> {
    match r {
        Ok(x) => Ok(v_sp_expr(x)),
        Err(e) => Err(v_error(e)),
    }
}

pub(crate) proof fn lemma_v_exprs_push(s: Seq<Spanned<Expr>>, x: Spanned<Expr>)
    ensures
        v_exprs(s.push(x)) == v_exprs(s).push(v_sp_expr(x)),
{
    assert(s.push(x).drop_last() =~= s);
}

pub(crate) proof fn lemma_v_nodes_push(s: Seq<Spanned<Node>>, x: Spanned<Node>)
    ensures
        v_nodes(s.push(x)) == v_nodes(s).push(Spanned(v_node(x.0), x.1)),
{
    assert(s.push(x).drop_last() =~= s);
}

pub(crate) proof fn lemma_v_elifs_push(
    s: Seq<(Spanned<Expr>, Spanned<Vec<Spanned<Node>>>)>,
    x: (Spanned<Expr>, Spanned<Vec<Spanned<Node>>>),
)
    ensures
        v_elifs(s.push(x)) == v_elifs(s).push((v_sp_expr(x.0), v_body(x.1))),
{
    assert(s.push(x).drop_last() =~= s);
}

pub(crate) proof fn lemma_v_params_push(s: Seq<Spanned<FuncParam>>, x: Spanned<FuncParam>)
    ensures
        v_params(s.push(x)) == v_params(s).push(Spanned(v_param(x.0), x.1)),
{
    assert(s.push(x).drop_last() =~= s);
}

pub(crate) proof fn lemma_v_struct_fields_push(s: Seq<Spanned<StructField>>, x: Spanned<StructField>)
    ensures
        v_struct_fields(s.push(x)) == v_struct_fields(s).push(Spanned(v_struct_field(x.0), x.1)),
{
    assert(s.push(x).drop_last() =~= s);
}

pub(crate) proof fn lemma_v_ty_params_push(s: Seq<TyParam>, x: TyParam)
    ensures
        v_ty_params(s.push(x)) == v_ty_params(s).push(
            crate::model::SpecTyParam { name: v_name(x.name), bound: v_opt_ty(x.bound) },
        ),
{
    assert(s.push(x).drop_last() =~= s);
}

pub(crate) proof fn lemma_v_kwargs_push(s: Seq<(String, Spanned<Expr>)>, x: (String, Spanned<Expr>))
    ensures
        v_kwargs(s.push(x)) == v_kwargs(s).push((x.0@, v_sp_expr(x.1))),
{
    assert(s.push(x).drop_last() =~= s);
}

/// `expr_as_block`, in the view of the parser's model.
pub(crate) fn expr_as_block_exec(x: Spanned<Expr>) -> (r: Spanned<Vec<Spanned<Node>>>)
    ensures
        v_body(r) == as_block(v_sp_expr(x)),
{
    let ghost gx = x;
    let r = expr_as_block(x);
    proof {
        lemma_v_nodes_push(Seq::empty(), Spanned(Node::ImplicitReturn(gx), gx.1));
        assert(Seq::<Spanned<Node>>::empty().push(Spanned(Node::ImplicitReturn(gx), gx.1)) =~= r.0@);
    }
    r
}

/// The body made of one expression node holding `x`, spanning `x`.
pub(crate) fn expr_node_block_exec(x: Spanned<Expr>) -> (r: Spanned<Vec<Spanned<Node>>>)
    ensures
        v_body(r) == as_expr_block(v_sp_expr(x)),
{
    let ghost gx = x;
    let span = x.1;
    let mut nodes: Vec<Spanned<Node>> = Vec::new();
    nodes.push(Spanned(Node::Expr(x), span));
    proof {
        lemma_v_nodes_push(Seq::empty(), Spanned(Node::Expr(gx), gx.1));
        assert(Seq::<Spanned<Node>>::empty().push(Spanned(Node::Expr(gx), gx.1)) =~= nodes@);
    }
    Spanned(nodes, span)
}

} // verus!
