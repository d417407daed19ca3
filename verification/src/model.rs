//! The mathematical model of the abstract syntax tree: the same shape as the tree in `ast`,
//! with sequences in place of vectors and character sequences in place of strings. The
//! contracts of the parser and of the printers speak of trees through these views.

use vstd::prelude::*;
use crate::ast::{
    AssignmentOperator, AssignmentTarget, Atom, BinaryOp, Expr, FieldVisibility, FuncParam,
    FuncTypeParam, ItemVisibility, MatchPattern, Node, Pattern, StructDef, StructField, TyParam,
    TypeApplication,
    TypeExpr, TypePathSeg, UnaryOp, While,
};
use crate::span::{Span, Spanned};
use crate::token::Radix;

verus! {

broadcast use vstd::std_specs::vec::axiom_vec_decreases_to_view;

/// Model of [`Atom`].
pub enum SpecAtom {
    Int(Seq<char>, Radix),
    Float(Seq<char>),
    String(Seq<char>),
    Char(char),
    Bool(bool),
    Ident(Seq<char>),
    Void,
}

/// Model of [`TypeApplication`].
pub struct SpecTypeApplication {
    pub args: Seq<Spanned<SpecTypeExpr>>,
    pub kwargs: Seq<(Spanned<Seq<char>>, Spanned<SpecTypeExpr>)>,
}

/// Model of [`TypePathSeg`].
pub struct SpecTypePathSeg(pub Spanned<Seq<char>>, pub Option<Spanned<SpecTypeApplication>>);

/// Model of [`TypePath`].
pub struct SpecTypePath(pub Seq<Spanned<SpecTypePathSeg>>);

/// Model of [`FuncTypeParam`].
pub struct SpecFuncTypeParam {
    pub name: Option<Seq<char>>,
    pub ty: SpecTypeExpr,
    pub optional: bool,
}

/// Model of [`TypeExpr`].
pub enum SpecTypeExpr {
    Infer,
    Path(Spanned<SpecTypePath>),
    Tuple(Seq<Spanned<SpecTypeExpr>>),
    Array(Box<Spanned<SpecTypeExpr>>, Option<Spanned<SpecAtom>>),
    Func {
        params: Seq<SpecFuncTypeParam>,
        kw_params: Seq<SpecFuncTypeParam>,
        ret: Option<Box<SpecTypeExpr>>,
    },
    Union(Seq<SpecTypeExpr>),
    And(Seq<SpecTypeExpr>),
    Not(Box<SpecTypeExpr>),
    Mut(Box<SpecTypeExpr>),
    To(Box<SpecTypeExpr>),
}

/// Model of [`MatchPattern`].
pub enum SpecMatchPattern {
    Pattern(SpecPattern),
    Variant(Seq<Spanned<Seq<char>>>),
    Atom(SpecAtom),
    Range { start: Option<Spanned<SpecAtom>>, sep: Span, inclusive: bool, end: Option<Box<SpecAtom>> },
    As(Box<Spanned<SpecMatchPattern>>, Spanned<SpecPattern>),
    OneOf(Seq<Spanned<SpecMatchPattern>>),
}

/// Model of [`Pattern`].
pub enum SpecPattern {
    Ident { ident: Spanned<Seq<char>>, mut_kw: Option<Span> },
    Tuple(Seq<Spanned<Seq<char>>>, Seq<Spanned<SpecPattern>>),
    Fields(Seq<Spanned<Seq<char>>>, Seq<(Spanned<Seq<char>>, Option<Box<Spanned<SpecPattern>>>)>),
    Array(Seq<Spanned<SpecPattern>>),
    As(Box<Spanned<SpecPattern>>, Box<Spanned<SpecPattern>>),
    Wildcard(Option<Box<Spanned<SpecPattern>>>),
}

/// Model of [`AssignmentTarget`].
pub enum SpecAssignmentTarget {
    Pattern(SpecPattern),
    Attr { subject: Box<Spanned<SpecExpr>>, attr: Spanned<Seq<char>> },
    Index { subject: Box<Spanned<SpecExpr>>, index: Box<Spanned<SpecExpr>> },
    Pointer(Box<Spanned<SpecExpr>>),
}

/// Model of a body: a spanned sequence of nodes.
pub type SpecBody = Spanned<Seq<Spanned<SpecNode>>>;

/// Model of [`While`].
pub struct SpecWhile {
    pub label: Option<Spanned<Seq<char>>>,
    pub cond: Box<Spanned<SpecExpr>>,
    pub body: SpecBody,
    pub else_body: Option<SpecBody>,
}

/// Model of [`Expr`].
pub enum SpecExpr {
    Atom(SpecAtom),
    Tuple(Seq<Spanned<SpecExpr>>),
    Array(Seq<Spanned<SpecExpr>>),
    UnaryOp { op: Spanned<UnaryOp>, expr: Box<Spanned<SpecExpr>> },
    BinaryOp { left: Box<Spanned<SpecExpr>>, op: Spanned<BinaryOp>, right: Box<Spanned<SpecExpr>> },
    Attr { subject: Box<Spanned<SpecExpr>>, dot: Span, attr: Spanned<Seq<char>> },
    Ref(Span, Box<Spanned<SpecExpr>>),
    Mut(Span, Box<Spanned<SpecExpr>>),
    Cast { expr: Box<Spanned<SpecExpr>>, ty: Spanned<SpecTypeExpr> },
    Call {
        func: Box<Spanned<SpecExpr>>,
        args: Seq<Spanned<SpecExpr>>,
        kwargs: Seq<(Seq<char>, Spanned<SpecExpr>)>,
    },
    Index { subject: Box<Spanned<SpecExpr>>, index: Box<Spanned<SpecExpr>> },
    Range {
        start: Option<Box<Spanned<SpecExpr>>>,
        sep: Span,
        inclusive: bool,
        end: Option<Box<Spanned<SpecExpr>>>,
    },
    If {
        label: Option<Spanned<Seq<char>>>,
        cond: Box<Spanned<SpecExpr>>,
        body: SpecBody,
        else_if_bodies: Seq<(Spanned<SpecExpr>, SpecBody)>,
        else_body: Option<SpecBody>,
        ternary: bool,
    },
    While(SpecWhile),
    Loop { label: Option<Spanned<Seq<char>>>, body: SpecBody },
    When {
        label: Option<Spanned<Seq<char>>>,
        arms: Seq<(Spanned<SpecExpr>, Spanned<SpecExpr>)>,
        else_value: Option<Box<Spanned<SpecExpr>>>,
    },
    Block { label: Option<Spanned<Seq<char>>>, body: SpecBody },
    Assign {
        target: Spanned<SpecAssignmentTarget>,
        op: Spanned<AssignmentOperator>,
        value: Box<Spanned<SpecExpr>>,
    },
}

/// Model of [`FuncParam`].
pub struct SpecFuncParam {
    pub pat: Spanned<SpecPattern>,
    pub ty: Spanned<SpecTypeExpr>,
    pub default: Option<Spanned<SpecExpr>>,
}

/// Model of [`TyParam`].
pub struct SpecTyParam {
    pub name: Spanned<Seq<char>>,
    pub bound: Option<Spanned<SpecTypeExpr>>,
}

/// Model of [`StructField`].
pub struct SpecStructField {
    pub vis: Spanned<FieldVisibility>,
    pub name: Spanned<Seq<char>>,
    pub ty: Spanned<SpecTypeExpr>,
    pub default: Option<Spanned<SpecExpr>>,
}

/// Model of [`StructDef`].
pub struct SpecStructDef {
    pub vis: ItemVisibility,
    pub name: Spanned<Seq<char>>,
    pub ty_params: Seq<SpecTyParam>,
    pub fields: Seq<Spanned<SpecStructField>>,
    pub extends: Option<Spanned<SpecTypeExpr>>,
}

/// Model of [`Node`].
pub enum SpecNode {
    Expr(Spanned<SpecExpr>),
    Let {
        kw: Span,
        pat: Spanned<SpecPattern>,
        ty: Option<Spanned<SpecTypeExpr>>,
        value: Option<Spanned<SpecExpr>>,
    },
    Const {
        vis: ItemVisibility,
        kw: Span,
        name: Spanned<Seq<char>>,
        ty: Option<Spanned<SpecTypeExpr>>,
        value: Spanned<SpecExpr>,
    },
    Func {
        vis: ItemVisibility,
        name: Spanned<Seq<char>>,
        params: Seq<Spanned<SpecFuncParam>>,
        kw_params: Seq<Spanned<SpecFuncParam>>,
        ret: Option<Spanned<SpecTypeExpr>>,
        body: SpecBody,
    },
    Struct(SpecStructDef),
    Return { kw: Span, value: Option<Spanned<SpecExpr>>, cond: Option<Spanned<SpecExpr>> },
    ImplicitReturn(Spanned<SpecExpr>),
    Break {
        kw: Span,
        label: Option<Spanned<Seq<char>>>,
        value: Option<Spanned<SpecExpr>>,
        cond: Option<Spanned<SpecExpr>>,
    },
    Continue { kw: Span, label: Option<Spanned<Seq<char>>>, cond: Option<Spanned<SpecExpr>> },
}

// ---------------------------------------------------------------------------------------------
// Views of leaves.

/// View of a spanned string.
pub open spec fn v_name(s: Spanned<String>) -> Spanned<Seq<char>> {
    Spanned(s.0@, s.1)
}

/// View of an optional spanned string.
pub open spec fn v_opt_name(s: Option<Spanned<String>>) -> Option<Spanned<Seq<char>>> {
    match s {
        Some(n) => Some(v_name(n)),
        None => None,
    }
}

/// View of a sequence of spanned strings.
pub open spec fn v_names(s: Seq<Spanned<String>>) -> Seq<Spanned<Seq<char>>> {
    s.map_values(|n: Spanned<String>| v_name(n))
}

/// View of an atom.
pub open spec fn v_atom(a: Atom) -> SpecAtom {
    match a {
        Atom::Int(s, r) => SpecAtom::Int(s@, r),
        Atom::Float(s) => SpecAtom::Float(s@),
        Atom::String(s) => SpecAtom::String(s@),
        Atom::Char(c) => SpecAtom::Char(c),
        Atom::Bool(b) => SpecAtom::Bool(b),
        Atom::Ident(s) => SpecAtom::Ident(s@),
        Atom::Void => SpecAtom::Void,
    }
}

// ---------------------------------------------------------------------------------------------
// Views of type expressions.

/// View of a type expression.
pub open spec fn v_ty(t: TypeExpr) -> SpecTypeExpr
    decreases t, 0nat,
{
    match t {
        TypeExpr::Infer => SpecTypeExpr::Infer,
        TypeExpr::Path(p) => SpecTypeExpr::Path(Spanned(SpecTypePath(v_segs((p.0).0@)), p.1)),
        TypeExpr::Tuple(v) => SpecTypeExpr::Tuple(v_sp_tys(v@)),
        TypeExpr::Array(b, n) => SpecTypeExpr::Array(
            Box::new(Spanned(v_ty(b.0), b.1)),
            match n {
                Some(a) => Some(Spanned(v_atom(a.0), a.1)),
                None => None,
            },
        ),
        TypeExpr::Func { params, kw_params, ret } => SpecTypeExpr::Func {
            params: v_fparams(params@),
            kw_params: v_fparams(kw_params@),
            ret: match ret {
                Some(r) => Some(Box::new(v_ty(*r))),
                None => None,
            },
        },
        TypeExpr::Union(v) => SpecTypeExpr::Union(v_tys(v@)),
        TypeExpr::And(v) => SpecTypeExpr::And(v_tys(v@)),
        TypeExpr::Not(b) => SpecTypeExpr::Not(Box::new(v_ty(*b))),
        TypeExpr::Mut(b) => SpecTypeExpr::Mut(Box::new(v_ty(*b))),
        TypeExpr::To(b) => SpecTypeExpr::To(Box::new(v_ty(*b))),
    }
}

/// View of a spanned type expression.
pub open spec fn v_sp_ty(t: Spanned<TypeExpr>) -> Spanned<SpecTypeExpr>
    decreases t, 1nat,
{
    Spanned(v_ty(t.0), t.1)
}

/// View of an optional spanned type expression.
pub open spec fn v_opt_ty(t: Option<Spanned<TypeExpr>>) -> Option<Spanned<SpecTypeExpr>>
    decreases t, 2nat,
{
    match t {
        Some(x) => Some(v_sp_ty(x)),
        None => None,
    }
}

/// View of a sequence of spanned type expressions.
pub open spec fn v_sp_tys(s: Seq<Spanned<TypeExpr>>) -> Seq<Spanned<SpecTypeExpr>>
    decreases s, 0nat,
{
    if s.len() == 0 {
        Seq::empty()
    } else {
        v_sp_tys(s.drop_last()).push(v_sp_ty(s.last()))
    }
}

/// View of a sequence of type expressions.
pub open spec fn v_tys(s: Seq<TypeExpr>) -> Seq<SpecTypeExpr>
    decreases s, 0nat,
{
    if s.len() == 0 {
        Seq::empty()
    } else {
        v_tys(s.drop_last()).push(v_ty(s.last()))
    }
}

/// View of a sequence of function type parameters.
pub open spec fn v_fparams(s: Seq<FuncTypeParam>) -> Seq<SpecFuncTypeParam>
    decreases s, 0nat,
{
    if s.len() == 0 {
        Seq::empty()
    } else {
        let p = s.last();
        v_fparams(s.drop_last()).push(
            SpecFuncTypeParam {
                name: match p.name {
                    Some(n) => Some(n@),
                    None => None,
                },
                ty: v_ty(p.ty),
                optional: p.optional,
            },
        )
    }
}

/// View of a type application.
pub open spec fn v_app(a: TypeApplication) -> SpecTypeApplication
    decreases a, 0nat,
{
    SpecTypeApplication { args: v_sp_tys(a.args@), kwargs: v_ty_kwargs(a.kwargs@) }
}

/// View of the keyword arguments of a type application.
pub open spec fn v_ty_kwargs(s: Seq<(Spanned<String>, Spanned<TypeExpr>)>) -> Seq<
    (Spanned<Seq<char>>, Spanned<SpecTypeExpr>),
>
    decreases s, 0nat,
{
    if s.len() == 0 {
        Seq::empty()
    } else {
        v_ty_kwargs(s.drop_last()).push((v_name(s.last().0), v_sp_ty(s.last().1)))
    }
}

/// View of a path segment.
pub open spec fn v_seg(g: TypePathSeg) -> SpecTypePathSeg
    decreases g, 0nat,
{
    SpecTypePathSeg(
        v_name(g.0),
        match g.1 {
            Some(a) => Some(Spanned(v_app(a.0), a.1)),
            None => None,
        },
    )
}

/// View of the segments of a path.
pub open spec fn v_segs(s: Seq<Spanned<TypePathSeg>>) -> Seq<Spanned<SpecTypePathSeg>>
    decreases s, 0nat,
{
    if s.len() == 0 {
        Seq::empty()
    } else {
        v_segs(s.drop_last()).push(Spanned(v_seg(s.last().0), s.last().1))
    }
}

// ---------------------------------------------------------------------------------------------
// Views of patterns.

/// View of a pattern.
pub open spec fn v_pat(p: Pattern) -> SpecPattern
    decreases p, 0nat,
{
    match p {
        Pattern::Ident { ident, mut_kw } => SpecPattern::Ident { ident: v_name(ident), mut_kw },
        Pattern::Tuple(path, pats) => SpecPattern::Tuple(v_names(path@), v_sp_pats(pats@)),
        Pattern::Fields(path, fields) => SpecPattern::Fields(v_names(path@), v_fields(fields@)),
        Pattern::Array(pats) => SpecPattern::Array(v_sp_pats(pats@)),
        Pattern::As(l, r) => SpecPattern::As(
            Box::new(Spanned(v_pat(l.0), l.1)),
            Box::new(Spanned(v_pat(r.0), r.1)),
        ),
        Pattern::Wildcard(o) => SpecPattern::Wildcard(
            match o {
                Some(b) => Some(Box::new(Spanned(v_pat(b.0), b.1))),
                None => None,
            },
        ),
    }
}

/// View of a spanned pattern.
pub open spec fn v_sp_pat(p: Spanned<Pattern>) -> Spanned<SpecPattern> {
    Spanned(v_pat(p.0), p.1)
}

/// View of a sequence of spanned patterns.
pub open spec fn v_sp_pats(s: Seq<Spanned<Pattern>>) -> Seq<Spanned<SpecPattern>>
    decreases s, 0nat,
{
    if s.len() == 0 {
        Seq::empty()
    } else {
        v_sp_pats(s.drop_last()).push(Spanned(v_pat(s.last().0), s.last().1))
    }
}

/// View of the fields of a field pattern.
pub open spec fn v_fields(s: Seq<(Spanned<String>, Option<Box<Spanned<Pattern>>>)>) -> Seq<
    (Spanned<Seq<char>>, Option<Box<Spanned<SpecPattern>>>),
>
    decreases s, 0nat,
{
    if s.len() == 0 {
        Seq::empty()
    } else {
        let f = s.last();
        v_fields(s.drop_last()).push(
            (
                v_name(f.0),
                match f.1 {
                    Some(b) => Some(Box::new(Spanned(v_pat(b.0), b.1))),
                    None => None,
                },
            ),
        )
    }
}

/// View of a match pattern.
pub open spec fn v_match_pat(p: MatchPattern) -> SpecMatchPattern
    decreases p, 0nat,
{
    match p {
        MatchPattern::Pattern(q) => SpecMatchPattern::Pattern(v_pat(q)),
        MatchPattern::Variant(path) => SpecMatchPattern::Variant(v_names(path@)),
        MatchPattern::Atom(a) => SpecMatchPattern::Atom(v_atom(a)),
        MatchPattern::Range { start, sep, inclusive, end } => SpecMatchPattern::Range {
            start: match start {
                Some(a) => Some(Spanned(v_atom(a.0), a.1)),
                None => None,
            },
            sep,
            inclusive,
            end: match end {
                Some(a) => Some(Box::new(v_atom(*a))),
                None => None,
            },
        },
        MatchPattern::As(l, r) => SpecMatchPattern::As(
            Box::new(Spanned(v_match_pat(l.0), l.1)),
            v_sp_pat(r),
        ),
        MatchPattern::OneOf(v) => SpecMatchPattern::OneOf(v_match_pats(v@)),
    }
}

/// View of a sequence of spanned match patterns.
pub open spec fn v_match_pats(s: Seq<Spanned<MatchPattern>>) -> Seq<Spanned<SpecMatchPattern>>
    decreases s, 0nat,
{
    if s.len() == 0 {
        Seq::empty()
    } else {
        v_match_pats(s.drop_last()).push(Spanned(v_match_pat(s.last().0), s.last().1))
    }
}

// ---------------------------------------------------------------------------------------------
// Views of expressions and nodes.

/// View of an optional boxed spanned expression.
pub open spec fn v_opt_box(o: Option<Box<Spanned<Expr>>>) -> Option<Box<Spanned<SpecExpr>>>
    decreases o, 3nat,
{
    match o {
        Some(b) => Some(Box::new(v_sp_expr(*b))),
        None => None,
    }
}

/// View of an optional spanned expression.
pub open spec fn v_opt_expr(o: Option<Spanned<Expr>>) -> Option<Spanned<SpecExpr>>
    decreases o, 3nat,
{
    match o {
        Some(e) => Some(v_sp_expr(e)),
        None => None,
    }
}

/// View of a spanned expression.
pub open spec fn v_sp_expr(e: Spanned<Expr>) -> Spanned<SpecExpr>
    decreases e, 2nat,
{
    Spanned(v_expr(e.0), e.1)
}

/// View of a body.
pub open spec fn v_body(b: Spanned<Vec<Spanned<Node>>>) -> SpecBody
    decreases b, 2nat,
{
    Spanned(v_nodes(b.0@), b.1)
}

/// View of an optional body.
pub open spec fn v_opt_body(b: Option<Spanned<Vec<Spanned<Node>>>>) -> Option<SpecBody>
    decreases b, 3nat,
{
    match b {
        Some(x) => Some(v_body(x)),
        None => None,
    }
}

/// View of an expression.
pub open spec fn v_expr(e: Expr) -> SpecExpr
    decreases e, 1nat,
{
    match e {
        Expr::Atom(a) => SpecExpr::Atom(v_atom(a)),
        Expr::Tuple(v) => SpecExpr::Tuple(v_exprs(v@)),
        Expr::Array(v) => SpecExpr::Array(v_exprs(v@)),
        Expr::UnaryOp { op, expr } => SpecExpr::UnaryOp { op, expr: Box::new(v_sp_expr(*expr)) },
        Expr::BinaryOp { left, op, right } => SpecExpr::BinaryOp {
            left: Box::new(v_sp_expr(*left)),
            op,
            right: Box::new(v_sp_expr(*right)),
        },
        Expr::Attr { subject, dot, attr } => SpecExpr::Attr {
            subject: Box::new(v_sp_expr(*subject)),
            dot,
            attr: v_name(attr),
        },
        Expr::Ref(s, b) => SpecExpr::Ref(s, Box::new(v_sp_expr(*b))),
        Expr::Mut(s, b) => SpecExpr::Mut(s, Box::new(v_sp_expr(*b))),
        Expr::Cast { expr, ty } => SpecExpr::Cast { expr: Box::new(v_sp_expr(*expr)), ty: v_sp_ty(ty) },
        Expr::Call { func, args, kwargs } => SpecExpr::Call {
            func: Box::new(v_sp_expr(*func)),
            args: v_exprs(args@),
            kwargs: v_kwargs(kwargs@),
        },
        Expr::Index { subject, index } => SpecExpr::Index {
            subject: Box::new(v_sp_expr(*subject)),
            index: Box::new(v_sp_expr(*index)),
        },
        Expr::Range { start, sep, inclusive, end } => SpecExpr::Range {
            start: v_opt_box(start),
            sep,
            inclusive,
            end: v_opt_box(end),
        },
        Expr::If { label, cond, body, else_if_bodies, else_body, ternary } => SpecExpr::If {
            label: v_opt_name(label),
            cond: Box::new(v_sp_expr(*cond)),
            body: v_body(body),
            else_if_bodies: v_elifs(else_if_bodies@),
            else_body: v_opt_body(else_body),
            ternary,
        },
        Expr::While(w) => SpecExpr::While(
            SpecWhile {
                label: v_opt_name(w.label),
                cond: Box::new(v_sp_expr(*w.cond)),
                body: v_body(w.body),
                else_body: v_opt_body(w.else_body),
            },
        ),
        Expr::Loop { label, body } => SpecExpr::Loop { label: v_opt_name(label), body: v_body(body) },
        Expr::When { label, arms, else_value } => SpecExpr::When {
            label: v_opt_name(label),
            arms: v_arms(arms@),
            else_value: v_opt_box(else_value),
        },
        Expr::Block { label, body } => SpecExpr::Block {
            label: v_opt_name(label),
            body: v_body(body),
        },
        Expr::Assign { target, op, value } => SpecExpr::Assign {
            target: Spanned(v_target(target.0), target.1),
            op,
            value: Box::new(v_sp_expr(*value)),
        },
    }
}

/// View of an assignment target.
pub open spec fn v_target(t: AssignmentTarget) -> SpecAssignmentTarget
    decreases t, 1nat,
{
    match t {
        AssignmentTarget::Pattern(p) => SpecAssignmentTarget::Pattern(v_pat(p)),
        AssignmentTarget::Attr { subject, attr } => SpecAssignmentTarget::Attr {
            subject: Box::new(v_sp_expr(*subject)),
            attr: v_name(attr),
        },
        AssignmentTarget::Index { subject, index } => SpecAssignmentTarget::Index {
            subject: Box::new(v_sp_expr(*subject)),
            index: Box::new(v_sp_expr(*index)),
        },
        AssignmentTarget::Pointer(b) => SpecAssignmentTarget::Pointer(Box::new(v_sp_expr(*b))),
    }
}

/// View of a sequence of spanned expressions.
pub open spec fn v_exprs(s: Seq<Spanned<Expr>>) -> Seq<Spanned<SpecExpr>>
    decreases s, 0nat,
{
    if s.len() == 0 {
        Seq::empty()
    } else {
        v_exprs(s.drop_last()).push(v_sp_expr(s.last()))
    }
}

/// View of the keyword arguments of a call.
pub open spec fn v_kwargs(s: Seq<(String, Spanned<Expr>)>) -> Seq<(Seq<char>, Spanned<SpecExpr>)>
    decreases s, 0nat,
{
    if s.len() == 0 {
        Seq::empty()
    } else {
        v_kwargs(s.drop_last()).push((s.last().0@, v_sp_expr(s.last().1)))
    }
}

/// View of the `else if` branches of an if-statement.
pub open spec fn v_elifs(s: Seq<(Spanned<Expr>, Spanned<Vec<Spanned<Node>>>)>) -> Seq<
    (Spanned<SpecExpr>, SpecBody),
>
    decreases s, 0nat,
{
    if s.len() == 0 {
        Seq::empty()
    } else {
        v_elifs(s.drop_last()).push((v_sp_expr(s.last().0), v_body(s.last().1)))
    }
}

/// View of the arms of a when expression.
pub open spec fn v_arms(s: Seq<(Spanned<Expr>, Spanned<Expr>)>) -> Seq<
    (Spanned<SpecExpr>, Spanned<SpecExpr>),
>
    decreases s, 0nat,
{
    if s.len() == 0 {
        Seq::empty()
    } else {
        v_arms(s.drop_last()).push((v_sp_expr(s.last().0), v_sp_expr(s.last().1)))
    }
}

/// View of a node.
pub open spec fn v_node(n: Node) -> SpecNode
    decreases n, 1nat,
{
    match n {
        Node::Expr(e) => SpecNode::Expr(v_sp_expr(e)),
        Node::Let { kw, pat, ty, value } => SpecNode::Let {
            kw,
            pat: v_sp_pat(pat),
            ty: v_opt_ty(ty),
            value: v_opt_expr(value),
        },
        Node::Const { vis, kw, name, ty, value } => SpecNode::Const {
            vis,
            kw,
            name: v_name(name),
            ty: v_opt_ty(ty),
            value: v_sp_expr(value),
        },
        Node::Func { vis, name, params, kw_params, ret, body } => SpecNode::Func {
            vis,
            name: v_name(name),
            params: v_params(params@),
            kw_params: v_params(kw_params@),
            ret: v_opt_ty(ret),
            body: v_body(body),
        },
        Node::Struct(d) => SpecNode::Struct(
            SpecStructDef {
                vis: d.vis,
                name: v_name(d.name),
                ty_params: v_ty_params(d.ty_params@),
                fields: v_struct_fields(d.fields@),
                extends: v_opt_ty(d.extends),
            },
        ),
        Node::Return { kw, value, cond } => SpecNode::Return {
            kw,
            value: v_opt_expr(value),
            cond: v_opt_expr(cond),
        },
        Node::ImplicitReturn(e) => SpecNode::ImplicitReturn(v_sp_expr(e)),
        Node::Break { kw, label, value, cond } => SpecNode::Break {
            kw,
            label: v_opt_name(label),
            value: v_opt_expr(value),
            cond: v_opt_expr(cond),
        },
        Node::Continue { kw, label, cond } => SpecNode::Continue {
            kw,
            label: v_opt_name(label),
            cond: v_opt_expr(cond),
        },
    }
}

/// View of a sequence of spanned nodes.
pub open spec fn v_nodes(s: Seq<Spanned<Node>>) -> Seq<Spanned<SpecNode>>
    decreases s, 0nat,
{
    if s.len() == 0 {
        Seq::empty()
    } else {
        v_nodes(s.drop_last()).push(Spanned(v_node(s.last().0), s.last().1))
    }
}

/// View of a function parameter.
pub open spec fn v_param(p: FuncParam) -> SpecFuncParam
    decreases p, 1nat,
{
    SpecFuncParam { pat: v_sp_pat(p.pat), ty: v_sp_ty(p.ty), default: v_opt_expr(p.default) }
}

/// View of a sequence of spanned function parameters.
pub open spec fn v_params(s: Seq<Spanned<FuncParam>>) -> Seq<Spanned<SpecFuncParam>>
    decreases s, 0nat,
{
    if s.len() == 0 {
        Seq::empty()
    } else {
        v_params(s.drop_last()).push(Spanned(v_param(s.last().0), s.last().1))
    }
}

/// View of a sequence of type parameters.
pub open spec fn v_ty_params(s: Seq<TyParam>) -> Seq<SpecTyParam>
    decreases s, 0nat,
{
    if s.len() == 0 {
        Seq::empty()
    } else {
        v_ty_params(s.drop_last()).push(
            SpecTyParam { name: v_name(s.last().name), bound: v_opt_ty(s.last().bound) },
        )
    }
}

/// View of a struct field.
pub open spec fn v_struct_field(f: StructField) -> SpecStructField
    decreases f, 1nat,
{
    SpecStructField {
        vis: f.vis,
        name: v_name(f.name),
        ty: v_sp_ty(f.ty),
        default: v_opt_expr(f.default),
    }
}

/// View of a sequence of spanned struct fields.
pub open spec fn v_struct_fields(s: Seq<Spanned<StructField>>) -> Seq<Spanned<SpecStructField>>
    decreases s, 0nat,
{
    if s.len() == 0 {
        Seq::empty()
    } else {
        v_struct_fields(s.drop_last()).push(Spanned(v_struct_field(s.last().0), s.last().1))
    }
}

} // verus!
