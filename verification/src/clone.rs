//! Copies of syntax trees. A copy has the same model as the value it was made from.

use vstd::prelude::*;
use crate::ast::{
    AssignmentTarget, Atom, Expr, FuncParam, FuncTypeParam, MatchPattern, Node, Pattern, StructDef,
    StructField, TyParam, TypeApplication, TypeExpr, TypePath, TypePathSeg, While,
};
use crate::model::{
    v_app, v_arms, v_atom, v_body, v_elifs, v_exprs, v_fields, v_fparams, v_kwargs, v_match_pat,
    v_match_pats, v_name, v_names, v_nodes, v_opt_body, v_opt_box, v_opt_expr, v_opt_name,
    v_opt_ty, v_param, v_params, v_pat, v_seg, v_segs, v_sp_expr, v_sp_pat, v_sp_pats, v_sp_ty,
    v_sp_tys, v_struct_field, v_struct_fields, v_target, v_ty, v_ty_kwargs, v_ty_params, v_tys,
    v_expr, v_node,
};
use crate::parse_type::v_fparam;
use crate::span::Spanned;

verus! {

// ---------------------------------------------------------------------------------------------
// Leaves.

fn clone_name(n: &Spanned<String>) -> (r: Spanned<String>)
    ensures
        v_name(r) == v_name(*n),
{
    Spanned(n.0.clone(), n.1)
}

fn clone_opt_name(n: &Option<Spanned<String>>) -> (r: Option<Spanned<String>>)
    ensures
        v_opt_name(r) == v_opt_name(*n),
{
    match n {
        Some(x) => Some(clone_name(x)),
        None => None,
    }
}

fn clone_names(v: &Vec<Spanned<String>>) -> (r: Vec<Spanned<String>>)
    ensures
        v_names(r@) == v_names(v@),
{
    let mut out: Vec<Spanned<String>> = Vec::new();
    let mut i: usize = 0;
    while i < v.len()
        invariant
            i <= v@.len(),
            out@.len() == i,
            forall|j: int| 0 <= j < i ==> v_name(#[trigger] out@[j]) == v_name(v@[j]),
        decreases v@.len() - i,
    {
        out.push(clone_name(&v[i]));
        i = i + 1;
    }
    proof {
        assert(v_names(out@) =~= v_names(v@));
    }
    out
}

fn clone_atom(a: &Atom) -> (r: Atom)
    ensures
        v_atom(r) == v_atom(*a),
{
    match a {
        Atom::Int(s, radix) => Atom::Int(s.clone(), *radix),
        Atom::Float(s) => Atom::Float(s.clone()),
        Atom::String(s) => Atom::String(s.clone()),
        Atom::Char(c) => Atom::Char(*c),
        Atom::Bool(b) => Atom::Bool(*b),
        Atom::Ident(s) => Atom::Ident(s.clone()),
        Atom::Void => Atom::Void,
    }
}

// ---------------------------------------------------------------------------------------------
// Type expressions.

fn clone_ty(t: &TypeExpr) -> (r: TypeExpr)
    ensures
        v_ty(r) == v_ty(*t),
    decreases t,
{
    match t {
        TypeExpr::Infer => TypeExpr::Infer,
        TypeExpr::Path(p) => TypeExpr::Path(Spanned(TypePath(clone_segs(&p.0.0)), p.1)),
        TypeExpr::Tuple(v) => TypeExpr::Tuple(clone_sp_tys(v)),
        TypeExpr::Array(b, n) => TypeExpr::Array(
            Box::new(clone_sp_ty(b)),
            match n {
                Some(a) => Some(Spanned(clone_atom(&a.0), a.1)),
                None => None,
            },
        ),
        TypeExpr::Func { params, kw_params, ret } => TypeExpr::Func {
            params: clone_fparams(params),
            kw_params: clone_fparams(kw_params),
            ret: match ret {
                Some(b) => Some(Box::new(clone_ty(b))),
                None => None,
            },
        },
        TypeExpr::Union(v) => TypeExpr::Union(clone_tys(v)),
        TypeExpr::And(v) => TypeExpr::And(clone_tys(v)),
        TypeExpr::Not(b) => TypeExpr::Not(Box::new(clone_ty(b))),
        TypeExpr::Mut(b) => TypeExpr::Mut(Box::new(clone_ty(b))),
        TypeExpr::To(b) => TypeExpr::To(Box::new(clone_ty(b))),
    }
}

fn clone_sp_ty(t: &Spanned<TypeExpr>) -> (r: Spanned<TypeExpr>)
    ensures
        v_sp_ty(r) == v_sp_ty(*t),
    decreases t,
{
    Spanned(clone_ty(&t.0), t.1)
}

fn clone_opt_ty(t: &Option<Spanned<TypeExpr>>) -> (r: Option<Spanned<TypeExpr>>)
    ensures
        v_opt_ty(r) == v_opt_ty(*t),
{
    match t {
        Some(x) => Some(clone_sp_ty(x)),
        None => None,
    }
}

fn clone_fparam(p: &FuncTypeParam) -> (r: FuncTypeParam)
    ensures
        v_fparam(r) == v_fparam(*p),
    decreases p,
{
    FuncTypeParam {
        name: match &p.name {
            Some(n) => Some(n.clone()),
            None => None,
        },
        ty: clone_ty(&p.ty),
        optional: p.optional,
    }
}

fn clone_app(a: &TypeApplication) -> (r: TypeApplication)
    ensures
        v_app(r) == v_app(*a),
    decreases a,
{
    TypeApplication { args: clone_sp_tys(&a.args), kwargs: clone_ty_kwargs(&a.kwargs) }
}

fn clone_seg(g: &TypePathSeg) -> (r: TypePathSeg)
    ensures
        v_seg(r) == v_seg(*g),
    decreases g,
{
    TypePathSeg(
        clone_name(&g.0),
        match &g.1 {
            Some(a) => Some(Spanned(clone_app(&a.0), a.1)),
            None => None,
        },
    )
}

// ---------------------------------------------------------------------------------------------
// Patterns.

fn clone_pat(p: &Pattern) -> (r: Pattern)
    ensures
        v_pat(r) == v_pat(*p),
    decreases p,
{
    match p {
        Pattern::Ident { ident, mut_kw } => Pattern::Ident { ident: clone_name(ident), mut_kw: *mut_kw },
        Pattern::Tuple(path, pats) => Pattern::Tuple(clone_names(path), clone_sp_pats(pats)),
        Pattern::Fields(path, fields) => Pattern::Fields(clone_names(path), clone_fields(fields)),
        Pattern::Array(pats) => Pattern::Array(clone_sp_pats(pats)),
        Pattern::As(l, r) => Pattern::As(
            Box::new(Spanned(clone_pat(&l.0), l.1)),
            Box::new(Spanned(clone_pat(&r.0), r.1)),
        ),
        Pattern::Wildcard(o) => Pattern::Wildcard(clone_opt_box_pat(o)),
    }
}

fn clone_sp_pat(p: &Spanned<Pattern>) -> (r: Spanned<Pattern>)
    ensures
        v_sp_pat(r) == v_sp_pat(*p),
    decreases p,
{
    Spanned(clone_pat(&p.0), p.1)
}

fn clone_opt_box_pat(o: &Option<Box<Spanned<Pattern>>>) -> (r: Option<Box<Spanned<Pattern>>>)
    ensures
        match (r, *o) {
            (Some(a), Some(b)) => v_sp_pat(*a) == v_sp_pat(*b),
            (None, None) => true,
            _ => false,
        },
    decreases o,
{
    match o {
        Some(b) => Some(Box::new(Spanned(clone_pat(&b.0), b.1))),
        None => None,
    }
}

fn clone_match_pat(p: &MatchPattern) -> (r: MatchPattern)
    ensures
        v_match_pat(r) == v_match_pat(*p),
    decreases p,
{
    match p {
        MatchPattern::Pattern(q) => MatchPattern::Pattern(clone_pat(q)),
        MatchPattern::Variant(path) => MatchPattern::Variant(clone_names(path)),
        MatchPattern::Atom(a) => MatchPattern::Atom(clone_atom(a)),
        MatchPattern::Range { start, sep, inclusive, end } => MatchPattern::Range {
            start: match start {
                Some(a) => Some(Spanned(clone_atom(&a.0), a.1)),
                None => None,
            },
            sep: *sep,
            inclusive: *inclusive,
            end: match end {
                Some(a) => Some(Box::new(clone_atom(a))),
                None => None,
            },
        },
        MatchPattern::As(l, r) => MatchPattern::As(
            Box::new(Spanned(clone_match_pat(&l.0), l.1)),
            clone_sp_pat(r),
        ),
        MatchPattern::OneOf(v) => MatchPattern::OneOf(clone_match_pats(v)),
    }
}

// ---------------------------------------------------------------------------------------------
// Expressions and nodes.

fn clone_expr(e: &Expr) -> (r: Expr)
    ensures
        v_expr(r) == v_expr(*e),
    decreases e,
{
    match e {
        Expr::Atom(a) => Expr::Atom(clone_atom(a)),
        Expr::Tuple(v) => Expr::Tuple(clone_exprs(v)),
        Expr::Array(v) => Expr::Array(clone_exprs(v)),
        Expr::UnaryOp { op, expr } => Expr::UnaryOp { op: Spanned(op.0, op.1), expr: Box::new(clone_sp_expr(expr)) },
        Expr::BinaryOp { left, op, right } => Expr::BinaryOp {
            left: Box::new(clone_sp_expr(left)),
            op: Spanned(op.0, op.1),
            right: Box::new(clone_sp_expr(right)),
        },
        Expr::Attr { subject, dot, attr } => Expr::Attr {
            subject: Box::new(clone_sp_expr(subject)),
            dot: *dot,
            attr: clone_name(attr),
        },
        Expr::Ref(s, b) => Expr::Ref(*s, Box::new(clone_sp_expr(b))),
        Expr::Mut(s, b) => Expr::Mut(*s, Box::new(clone_sp_expr(b))),
        Expr::Cast { expr, ty } => Expr::Cast { expr: Box::new(clone_sp_expr(expr)), ty: clone_sp_ty(ty) },
        Expr::Call { func, args, kwargs } => Expr::Call {
            func: Box::new(clone_sp_expr(func)),
            args: clone_exprs(args),
            kwargs: clone_kwargs(kwargs),
        },
        Expr::Index { subject, index } => Expr::Index {
            subject: Box::new(clone_sp_expr(subject)),
            index: Box::new(clone_sp_expr(index)),
        },
        Expr::Range { start, sep, inclusive, end } => Expr::Range {
            start: clone_opt_box(start),
            sep: *sep,
            inclusive: *inclusive,
            end: clone_opt_box(end),
        },
        Expr::If { label, cond, body, else_if_bodies, else_body, ternary } => Expr::If {
            label: clone_opt_name(label),
            cond: Box::new(clone_sp_expr(cond)),
            body: clone_body(body),
            else_if_bodies: clone_elifs(else_if_bodies),
            else_body: clone_opt_body(else_body),
            ternary: *ternary,
        },
        Expr::While(w) => Expr::While(clone_while(w)),
        Expr::Loop { label, body } => Expr::Loop { label: clone_opt_name(label), body: clone_body(body) },
        Expr::When { label, arms, else_value } => Expr::When {
            label: clone_opt_name(label),
            arms: clone_arms(arms),
            else_value: clone_opt_box(else_value),
        },
        Expr::Block { label, body } => Expr::Block { label: clone_opt_name(label), body: clone_body(body) },
        Expr::Assign { target, op, value } => Expr::Assign {
            target: Spanned(clone_target(&target.0), target.1),
            op: Spanned(op.0, op.1),
            value: Box::new(clone_sp_expr(value)),
        },
    }
}

fn clone_while(w: &While) -> (r: While)
    ensures
        v_opt_name(r.label) == v_opt_name(w.label),
        v_sp_expr(*r.cond) == v_sp_expr(*w.cond),
        v_body(r.body) == v_body(w.body),
        v_opt_body(r.else_body) == v_opt_body(w.else_body),
    decreases w,
{
    While {
        label: clone_opt_name(&w.label),
        cond: Box::new(clone_sp_expr(&w.cond)),
        body: clone_body(&w.body),
        else_body: clone_opt_body(&w.else_body),
    }
}

fn clone_sp_expr(e: &Spanned<Expr>) -> (r: Spanned<Expr>)
    ensures
        v_sp_expr(r) == v_sp_expr(*e),
    decreases e,
{
    Spanned(clone_expr(&e.0), e.1)
}

fn clone_opt_expr(o: &Option<Spanned<Expr>>) -> (r: Option<Spanned<Expr>>)
    ensures
        v_opt_expr(r) == v_opt_expr(*o),
    decreases o,
{
    match o {
        Some(e) => Some(clone_sp_expr(e)),
        None => None,
    }
}

fn clone_opt_box(o: &Option<Box<Spanned<Expr>>>) -> (r: Option<Box<Spanned<Expr>>>)
    ensures
        v_opt_box(r) == v_opt_box(*o),
    decreases o,
{
    match o {
        Some(b) => Some(Box::new(clone_sp_expr(b))),
        None => None,
    }
}

fn clone_body(b: &Spanned<Vec<Spanned<Node>>>) -> (r: Spanned<Vec<Spanned<Node>>>)
    ensures
        v_body(r) == v_body(*b),
    decreases b,
{
    Spanned(clone_nodes(&b.0), b.1)
}

fn clone_opt_body(o: &Option<Spanned<Vec<Spanned<Node>>>>) -> (r: Option<Spanned<Vec<Spanned<Node>>>>)
    ensures
        v_opt_body(r) == v_opt_body(*o),
    decreases o,
{
    match o {
        Some(b) => Some(clone_body(b)),
        None => None,
    }
}

fn clone_target(t: &AssignmentTarget) -> (r: AssignmentTarget)
    ensures
        v_target(r) == v_target(*t),
    decreases t,
{
    match t {
        AssignmentTarget::Pattern(p) => AssignmentTarget::Pattern(clone_pat(p)),
        AssignmentTarget::Attr { subject, attr } => AssignmentTarget::Attr {
            subject: Box::new(clone_sp_expr(subject)),
            attr: clone_name(attr),
        },
        AssignmentTarget::Index { subject, index } => AssignmentTarget::Index {
            subject: Box::new(clone_sp_expr(subject)),
            index: Box::new(clone_sp_expr(index)),
        },
        AssignmentTarget::Pointer(b) => AssignmentTarget::Pointer(Box::new(clone_sp_expr(b))),
    }
}

fn clone_param(p: &FuncParam) -> (r: FuncParam)
    ensures
        v_param(r) == v_param(*p),
    decreases p,
{
    FuncParam { pat: clone_sp_pat(&p.pat), ty: clone_sp_ty(&p.ty), default: clone_opt_expr(&p.default) }
}

fn clone_struct_field(f: &StructField) -> (r: StructField)
    ensures
        v_struct_field(r) == v_struct_field(*f),
    decreases f,
{
    StructField {
        vis: Spanned(f.vis.0, f.vis.1),
        name: clone_name(&f.name),
        ty: clone_sp_ty(&f.ty),
        default: clone_opt_expr(&f.default),
    }
}

fn clone_struct_def(d: &StructDef) -> (r: StructDef)
    ensures
        r.vis == d.vis,
        v_name(r.name) == v_name(d.name),
        v_ty_params(r.ty_params@) == v_ty_params(d.ty_params@),
        v_struct_fields(r.fields@) == v_struct_fields(d.fields@),
        v_opt_ty(r.extends) == v_opt_ty(d.extends),
    decreases d,
{
    StructDef {
        vis: d.vis,
        name: clone_name(&d.name),
        ty_params: clone_ty_params(&d.ty_params),
        fields: clone_struct_fields(&d.fields),
        extends: clone_opt_ty(&d.extends),
    }
}

fn clone_node(n: &Node) -> (r: Node)
    ensures
        v_node(r) == v_node(*n),
    decreases n,
{
    match n {
        Node::Expr(e) => Node::Expr(clone_sp_expr(e)),
        Node::Let { kw, pat, ty, value } => Node::Let {
            kw: *kw,
            pat: clone_sp_pat(pat),
            ty: clone_opt_ty(ty),
            value: clone_opt_expr(value),
        },
        Node::Const { vis, kw, name, ty, value } => Node::Const {
            vis: *vis,
            kw: *kw,
            name: clone_name(name),
            ty: clone_opt_ty(ty),
            value: clone_sp_expr(value),
        },
        Node::Func { vis, name, params, kw_params, ret, body } => Node::Func {
            vis: *vis,
            name: clone_name(name),
            params: clone_params(params),
            kw_params: clone_params(kw_params),
            ret: clone_opt_ty(ret),
            body: clone_body(body),
        },
        Node::Struct(d) => Node::Struct(clone_struct_def(d)),
        Node::Return { kw, value, cond } => Node::Return {
            kw: *kw,
            value: clone_opt_expr(value),
            cond: clone_opt_expr(cond),
        },
        Node::ImplicitReturn(e) => Node::ImplicitReturn(clone_sp_expr(e)),
        Node::Break { kw, label, value, cond } => Node::Break {
            kw: *kw,
            label: clone_opt_name(label),
            value: clone_opt_expr(value),
            cond: clone_opt_expr(cond),
        },
        Node::Continue { kw, label, cond } => Node::Continue {
            kw: *kw,
            label: clone_opt_name(label),
            cond: clone_opt_expr(cond),
        },
    }
}

// ---------------------------------------------------------------------------------------------
// Sequences.

fn clone_sp_tys(v: &Vec<Spanned<TypeExpr>>) -> (r: Vec<Spanned<TypeExpr>>)
    ensures
        v_sp_tys(r@) == v_sp_tys(v@),
    decreases v,
{
    let mut out: Vec<Spanned<TypeExpr>> = Vec::new();
    let mut i: usize = 0;
    while i < v.len()
        invariant
            i <= v@.len(),
            v_sp_tys(out@) == v_sp_tys(v@.take(i as int)),
        decreases v@.len() - i,
    {
        let x = &v[i];
        proof {
            assert(decreases_to!(*v => v[i as int]));
        }
        let c = clone_sp_ty(x);
        proof {
            assert(v@.take(i + 1).drop_last() =~= v@.take(i as int));
            assert(out@.push(c).drop_last() =~= out@);
        }
        out.push(c);
        i = i + 1;
    }
    proof {
        assert(v@.take(v@.len() as int) =~= v@);
    }
    out
}

fn clone_tys(v: &Vec<TypeExpr>) -> (r: Vec<TypeExpr>)
    ensures
        v_tys(r@) == v_tys(v@),
    decreases v,
{
    let mut out: Vec<TypeExpr> = Vec::new();
    let mut i: usize = 0;
    while i < v.len()
        invariant
            i <= v@.len(),
            v_tys(out@) == v_tys(v@.take(i as int)),
        decreases v@.len() - i,
    {
        let x = &v[i];
        proof {
            assert(decreases_to!(*v => v[i as int]));
        }
        let c = clone_ty(x);
        proof {
            assert(v@.take(i + 1).drop_last() =~= v@.take(i as int));
            assert(out@.push(c).drop_last() =~= out@);
        }
        out.push(c);
        i = i + 1;
    }
    proof {
        assert(v@.take(v@.len() as int) =~= v@);
    }
    out
}

fn clone_fparams(v: &Vec<FuncTypeParam>) -> (r: Vec<FuncTypeParam>)
    ensures
        v_fparams(r@) == v_fparams(v@),
    decreases v,
{
    let mut out: Vec<FuncTypeParam> = Vec::new();
    let mut i: usize = 0;
    while i < v.len()
        invariant
            i <= v@.len(),
            v_fparams(out@) == v_fparams(v@.take(i as int)),
        decreases v@.len() - i,
    {
        let x = &v[i];
        proof {
            assert(decreases_to!(*v => v[i as int]));
        }
        let c = clone_fparam(x);
        proof {
            assert(v@.take(i + 1).drop_last() =~= v@.take(i as int));
            assert(out@.push(c).drop_last() =~= out@);
        }
        out.push(c);
        i = i + 1;
    }
    proof {
        assert(v@.take(v@.len() as int) =~= v@);
    }
    out
}

fn clone_ty_kwargs(v: &Vec<(Spanned<String>, Spanned<TypeExpr>)>) -> (r: Vec<(Spanned<String>, Spanned<TypeExpr>)>)
    ensures
        v_ty_kwargs(r@) == v_ty_kwargs(v@),
    decreases v,
{
    let mut out: Vec<(Spanned<String>, Spanned<TypeExpr>)> = Vec::new();
    let mut i: usize = 0;
    while i < v.len()
        invariant
            i <= v@.len(),
            v_ty_kwargs(out@) == v_ty_kwargs(v@.take(i as int)),
        decreases v@.len() - i,
    {
        let x = &v[i];
        proof {
            assert(decreases_to!(*v => v[i as int]));
        }
        let c = (clone_name(&x.0), clone_sp_ty(&x.1));
        proof {
            assert(v@.take(i + 1).drop_last() =~= v@.take(i as int));
            assert(out@.push(c).drop_last() =~= out@);
        }
        out.push(c);
        i = i + 1;
    }
    proof {
        assert(v@.take(v@.len() as int) =~= v@);
    }
    out
}

fn clone_segs(v: &Vec<Spanned<TypePathSeg>>) -> (r: Vec<Spanned<TypePathSeg>>)
    ensures
        v_segs(r@) == v_segs(v@),
    decreases v,
{
    let mut out: Vec<Spanned<TypePathSeg>> = Vec::new();
    let mut i: usize = 0;
    while i < v.len()
        invariant
            i <= v@.len(),
            v_segs(out@) == v_segs(v@.take(i as int)),
        decreases v@.len() - i,
    {
        let x = &v[i];
        proof {
            assert(decreases_to!(*v => v[i as int]));
        }
        let c = Spanned(clone_seg(&x.0), x.1);
        proof {
            assert(v@.take(i + 1).drop_last() =~= v@.take(i as int));
            assert(out@.push(c).drop_last() =~= out@);
        }
        out.push(c);
        i = i + 1;
    }
    proof {
        assert(v@.take(v@.len() as int) =~= v@);
    }
    out
}

fn clone_sp_pats(v: &Vec<Spanned<Pattern>>) -> (r: Vec<Spanned<Pattern>>)
    ensures
        v_sp_pats(r@) == v_sp_pats(v@),
    decreases v,
{
    let mut out: Vec<Spanned<Pattern>> = Vec::new();
    let mut i: usize = 0;
    while i < v.len()
        invariant
            i <= v@.len(),
            v_sp_pats(out@) == v_sp_pats(v@.take(i as int)),
        decreases v@.len() - i,
    {
        let x = &v[i];
        proof {
            assert(decreases_to!(*v => v[i as int]));
        }
        let c = Spanned(clone_pat(&x.0), x.1);
        proof {
            assert(v@.take(i + 1).drop_last() =~= v@.take(i as int));
            assert(out@.push(c).drop_last() =~= out@);
        }
        out.push(c);
        i = i + 1;
    }
    proof {
        assert(v@.take(v@.len() as int) =~= v@);
    }
    out
}

fn clone_fields(v: &Vec<(Spanned<String>, Option<Box<Spanned<Pattern>>>)>) -> (r: Vec<(Spanned<String>, Option<Box<Spanned<Pattern>>>)>)
    ensures
        v_fields(r@) == v_fields(v@),
    decreases v,
{
    let mut out: Vec<(Spanned<String>, Option<Box<Spanned<Pattern>>>)> = Vec::new();
    let mut i: usize = 0;
    while i < v.len()
        invariant
            i <= v@.len(),
            v_fields(out@) == v_fields(v@.take(i as int)),
        decreases v@.len() - i,
    {
        let x = &v[i];
        proof {
            assert(decreases_to!(*v => v[i as int]));
        }
        let c = (clone_name(&x.0), clone_opt_box_pat(&x.1));
        proof {
            assert(v@.take(i + 1).drop_last() =~= v@.take(i as int));
            assert(out@.push(c).drop_last() =~= out@);
        }
        out.push(c);
        i = i + 1;
    }
    proof {
        assert(v@.take(v@.len() as int) =~= v@);
    }
    out
}

fn clone_match_pats(v: &Vec<Spanned<MatchPattern>>) -> (r: Vec<Spanned<MatchPattern>>)
    ensures
        v_match_pats(r@) == v_match_pats(v@),
    decreases v,
{
    let mut out: Vec<Spanned<MatchPattern>> = Vec::new();
    let mut i: usize = 0;
    while i < v.len()
        invariant
            i <= v@.len(),
            v_match_pats(out@) == v_match_pats(v@.take(i as int)),
        decreases v@.len() - i,
    {
        let x = &v[i];
        proof {
            assert(decreases_to!(*v => v[i as int]));
        }
        let c = Spanned(clone_match_pat(&x.0), x.1);
        proof {
            assert(v@.take(i + 1).drop_last() =~= v@.take(i as int));
            assert(out@.push(c).drop_last() =~= out@);
        }
        out.push(c);
        i = i + 1;
    }
    proof {
        assert(v@.take(v@.len() as int) =~= v@);
    }
    out
}

fn clone_exprs(v: &Vec<Spanned<Expr>>) -> (r: Vec<Spanned<Expr>>)
    ensures
        v_exprs(r@) == v_exprs(v@),
    decreases v,
{
    let mut out: Vec<Spanned<Expr>> = Vec::new();
    let mut i: usize = 0;
    while i < v.len()
        invariant
            i <= v@.len(),
            v_exprs(out@) == v_exprs(v@.take(i as int)),
        decreases v@.len() - i,
    {
        let x = &v[i];
        proof {
            assert(decreases_to!(*v => v[i as int]));
        }
        let c = clone_sp_expr(x);
        proof {
            assert(v@.take(i + 1).drop_last() =~= v@.take(i as int));
            assert(out@.push(c).drop_last() =~= out@);
        }
        out.push(c);
        i = i + 1;
    }
    proof {
        assert(v@.take(v@.len() as int) =~= v@);
    }
    out
}

fn clone_kwargs(v: &Vec<(String, Spanned<Expr>)>) -> (r: Vec<(String, Spanned<Expr>)>)
    ensures
        v_kwargs(r@) == v_kwargs(v@),
    decreases v,
{
    let mut out: Vec<(String, Spanned<Expr>)> = Vec::new();
    let mut i: usize = 0;
    while i < v.len()
        invariant
            i <= v@.len(),
            v_kwargs(out@) == v_kwargs(v@.take(i as int)),
        decreases v@.len() - i,
    {
        let x = &v[i];
        proof {
            assert(decreases_to!(*v => v[i as int]));
        }
        let c = (x.0.clone(), clone_sp_expr(&x.1));
        proof {
            assert(v@.take(i + 1).drop_last() =~= v@.take(i as int));
            assert(out@.push(c).drop_last() =~= out@);
        }
        out.push(c);
        i = i + 1;
    }
    proof {
        assert(v@.take(v@.len() as int) =~= v@);
    }
    out
}

fn clone_elifs(v: &Vec<(Spanned<Expr>, Spanned<Vec<Spanned<Node>>>)>) -> (r: Vec<(Spanned<Expr>, Spanned<Vec<Spanned<Node>>>)>)
    ensures
        v_elifs(r@) == v_elifs(v@),
    decreases v,
{
    let mut out: Vec<(Spanned<Expr>, Spanned<Vec<Spanned<Node>>>)> = Vec::new();
    let mut i: usize = 0;
    while i < v.len()
        invariant
            i <= v@.len(),
            v_elifs(out@) == v_elifs(v@.take(i as int)),
        decreases v@.len() - i,
    {
        let x = &v[i];
        proof {
            assert(decreases_to!(*v => v[i as int]));
        }
        let c = (clone_sp_expr(&x.0), clone_body(&x.1));
        proof {
            assert(v@.take(i + 1).drop_last() =~= v@.take(i as int));
            assert(out@.push(c).drop_last() =~= out@);
        }
        out.push(c);
        i = i + 1;
    }
    proof {
        assert(v@.take(v@.len() as int) =~= v@);
    }
    out
}

fn clone_arms(v: &Vec<(Spanned<Expr>, Spanned<Expr>)>) -> (r: Vec<(Spanned<Expr>, Spanned<Expr>)>)
    ensures
        v_arms(r@) == v_arms(v@),
    decreases v,
{
    let mut out: Vec<(Spanned<Expr>, Spanned<Expr>)> = Vec::new();
    let mut i: usize = 0;
    while i < v.len()
        invariant
            i <= v@.len(),
            v_arms(out@) == v_arms(v@.take(i as int)),
        decreases v@.len() - i,
    {
        let x = &v[i];
        proof {
            assert(decreases_to!(*v => v[i as int]));
        }
        let c = (clone_sp_expr(&x.0), clone_sp_expr(&x.1));
        proof {
            assert(v@.take(i + 1).drop_last() =~= v@.take(i as int));
            assert(out@.push(c).drop_last() =~= out@);
        }
        out.push(c);
        i = i + 1;
    }
    proof {
        assert(v@.take(v@.len() as int) =~= v@);
    }
    out
}

fn clone_nodes(v: &Vec<Spanned<Node>>) -> (r: Vec<Spanned<Node>>)
    ensures
        v_nodes(r@) == v_nodes(v@),
    decreases v,
{
    let mut out: Vec<Spanned<Node>> = Vec::new();
    let mut i: usize = 0;
    while i < v.len()
        invariant
            i <= v@.len(),
            v_nodes(out@) == v_nodes(v@.take(i as int)),
        decreases v@.len() - i,
    {
        let x = &v[i];
        proof {
            assert(decreases_to!(*v => v[i as int]));
        }
        let c = Spanned(clone_node(&x.0), x.1);
        proof {
            assert(v@.take(i + 1).drop_last() =~= v@.take(i as int));
            assert(out@.push(c).drop_last() =~= out@);
        }
        out.push(c);
        i = i + 1;
    }
    proof {
        assert(v@.take(v@.len() as int) =~= v@);
    }
    out
}

fn clone_params(v: &Vec<Spanned<FuncParam>>) -> (r: Vec<Spanned<FuncParam>>)
    ensures
        v_params(r@) == v_params(v@),
    decreases v,
{
    let mut out: Vec<Spanned<FuncParam>> = Vec::new();
    let mut i: usize = 0;
    while i < v.len()
        invariant
            i <= v@.len(),
            v_params(out@) == v_params(v@.take(i as int)),
        decreases v@.len() - i,
    {
        let x = &v[i];
        proof {
            assert(decreases_to!(*v => v[i as int]));
        }
        let c = Spanned(clone_param(&x.0), x.1);
        proof {
            assert(v@.take(i + 1).drop_last() =~= v@.take(i as int));
            assert(out@.push(c).drop_last() =~= out@);
        }
        out.push(c);
        i = i + 1;
    }
    proof {
        assert(v@.take(v@.len() as int) =~= v@);
    }
    out
}

fn clone_ty_params(v: &Vec<TyParam>) -> (r: Vec<TyParam>)
    ensures
        v_ty_params(r@) == v_ty_params(v@),
    decreases v,
{
    let mut out: Vec<TyParam> = Vec::new();
    let mut i: usize = 0;
    while i < v.len()
        invariant
            i <= v@.len(),
            v_ty_params(out@) == v_ty_params(v@.take(i as int)),
        decreases v@.len() - i,
    {
        let x = &v[i];
        proof {
            assert(decreases_to!(*v => v[i as int]));
        }
        let c = TyParam { name: clone_name(&x.name), bound: clone_opt_ty(&x.bound) };
        proof {
            assert(v@.take(i + 1).drop_last() =~= v@.take(i as int));
            assert(out@.push(c).drop_last() =~= out@);
        }
        out.push(c);
        i = i + 1;
    }
    proof {
        assert(v@.take(v@.len() as int) =~= v@);
    }
    out
}

fn clone_struct_fields(v: &Vec<Spanned<StructField>>) -> (r: Vec<Spanned<StructField>>)
    ensures
        v_struct_fields(r@) == v_struct_fields(v@),
    decreases v,
{
    let mut out: Vec<Spanned<StructField>> = Vec::new();
    let mut i: usize = 0;
    while i < v.len()
        invariant
            i <= v@.len(),
            v_struct_fields(out@) == v_struct_fields(v@.take(i as int)),
        decreases v@.len() - i,
    {
        let x = &v[i];
        proof {
            assert(decreases_to!(*v => v[i as int]));
        }
        let c = Spanned(clone_struct_field(&x.0), x.1);
        proof {
            assert(v@.take(i + 1).drop_last() =~= v@.take(i as int));
            assert(out@.push(c).drop_last() =~= out@);
        }
        out.push(c);
        i = i + 1;
    }
    proof {
        assert(v@.take(v@.len() as int) =~= v@);
    }
    out
}

// ---------------------------------------------------------------------------------------------
// `Clone`: each copy has the same model as the original.

impl Clone for TypeApplication {
    fn clone(&self) -> (r: Self)
        ensures
            v_app(r) == v_app(*self),
    {
        clone_app(self)
    }
}

impl Clone for TypePathSeg {
    fn clone(&self) -> (r: Self)
        ensures
            v_seg(r) == v_seg(*self),
    {
        clone_seg(self)
    }
}

impl Clone for TypePath {
    fn clone(&self) -> (r: Self)
        ensures
            v_segs(r.0@) == v_segs(self.0@),
    {
        TypePath(clone_segs(&self.0))
    }
}

impl Clone for FuncTypeParam {
    fn clone(&self) -> (r: Self)
        ensures
            v_fparam(r) == v_fparam(*self),
    {
        clone_fparam(self)
    }
}

impl Clone for TypeExpr {
    fn clone(&self) -> (r: Self)
        ensures
            v_ty(r) == v_ty(*self),
    {
        clone_ty(self)
    }
}

impl Clone for Pattern {
    fn clone(&self) -> (r: Self)
        ensures
            v_pat(r) == v_pat(*self),
    {
        clone_pat(self)
    }
}

impl Clone for MatchPattern {
    fn clone(&self) -> (r: Self)
        ensures
            v_match_pat(r) == v_match_pat(*self),
    {
        clone_match_pat(self)
    }
}

impl Clone for AssignmentTarget {
    fn clone(&self) -> (r: Self)
        ensures
            v_target(r) == v_target(*self),
    {
        clone_target(self)
    }
}

impl Clone for While {
    fn clone(&self) -> (r: Self)
        ensures
            v_opt_name(r.label) == v_opt_name(self.label),
            v_sp_expr(*r.cond) == v_sp_expr(*self.cond),
            v_body(r.body) == v_body(self.body),
            v_opt_body(r.else_body) == v_opt_body(self.else_body),
    {
        clone_while(self)
    }
}

impl Clone for Expr {
    fn clone(&self) -> (r: Self)
        ensures
            v_expr(r) == v_expr(*self),
    {
        clone_expr(self)
    }
}

impl Clone for FuncParam {
    fn clone(&self) -> (r: Self)
        ensures
            v_param(r) == v_param(*self),
    {
        clone_param(self)
    }
}

impl Clone for TyParam {
    fn clone(&self) -> (r: Self)
        ensures
            v_name(r.name) == v_name(self.name),
            v_opt_ty(r.bound) == v_opt_ty(self.bound),
    {
        TyParam { name: clone_name(&self.name), bound: clone_opt_ty(&self.bound) }
    }
}

impl Clone for StructField {
    fn clone(&self) -> (r: Self)
        ensures
            v_struct_field(r) == v_struct_field(*self),
    {
        clone_struct_field(self)
    }
}

impl Clone for StructDef {
    fn clone(&self) -> (r: Self)
        ensures
            r.vis == self.vis,
            v_name(r.name) == v_name(self.name),
            v_ty_params(r.ty_params@) == v_ty_params(self.ty_params@),
            v_struct_fields(r.fields@) == v_struct_fields(self.fields@),
            v_opt_ty(r.extends) == v_opt_ty(self.extends),
    {
        clone_struct_def(self)
    }
}

impl Clone for Node {
    fn clone(&self) -> (r: Self)
        ensures
            v_node(r) == v_node(*self),
    {
        clone_node(self)
    }
}

} // verus!
