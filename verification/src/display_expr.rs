//! Writing expressions and statements out as text, as `show` describes.

use vstd::prelude::*;
use crate::ast::{
    AssignmentTarget, Expr, FuncParam, Node, StructDef, StructField, TyParam, TypeExpr,
};
use crate::display::{
    assign_op_str, binary_str, push_str, push_string, unary_str, write_atom, write_indent,
    write_pat, write_ty,
};
use crate::show::{
    arms_text, body_text, elifs_text, expr_text, exprs_text, func_param_text, func_params_text,
    glue, indent, kwargs_text, label_text, node_text, opt_expr_text, struct_field_text,
    struct_fields_text, struct_text, target_text, ty_param_text, ty_params_text, ty_text,
};
use crate::span::Spanned;
use crate::text::string_from_chars;

verus! {

broadcast use vstd::std_specs::vec::axiom_vec_decreases_to_view;

/// Writes the label of a block.
fn write_label(l: &Option<Spanned<String>>, out: &mut Vec<char>)
    ensures
        final(out)@ == old(out)@ + label_text(*l),
{
    match l {
        Some(l) => {
            push_str(out, ":");
            push_string(out, &l.0);
            push_str(out, " ");
            assert(out@ =~= old(out)@ + label_text(Some(*l)));
        },
        None => {
            assert(out@ =~= old(out)@ + label_text(None));
        },
    }
}

/// Writes `pre` and the expression, if there is one.
fn write_opt_expr(pre: &str, o: &Option<Spanned<Expr>>, out: &mut Vec<char>)
    ensures
        final(out)@ == old(out)@ + opt_expr_text(pre@, *o),
    decreases o, 1nat,
{
    match o {
        Some(e) => {
            push_str(out, pre);
            write_expr(&e.0, out);
            assert(out@ =~= old(out)@ + opt_expr_text(pre@, *o));
        },
        None => {
            assert(out@ =~= old(out)@ + opt_expr_text(pre@, *o));
        },
    }
}

/// Writes an `if`: its label, `if`, the condition, the body, the `else if` branches and the
/// `else` branch.
fn write_if(e: &Expr, out: &mut Vec<char>)
    requires
        e is If,
    ensures
        final(out)@ == old(out)@ + expr_text(*e),
    decreases e, 0nat,
{
    let Expr::If { label, cond, body, else_if_bodies, else_body, .. } = e else {
        return;
    };
    write_label(label, out);
    push_str(out, "if ");
    write_expr(&cond.0, out);
    push_str(out, " {\n");
    write_body(&body.0, out);
    push_str(out, "\n}");
    write_elifs(else_if_bodies, out);
    let ghost mid = out@;
    match else_body {
        Some(b) => {
            push_str(out, " else {\n");
            write_body(&b.0, out);
            push_str(out, "\n}");
        },
        None => {},
    }
    assert(out@ =~= old(out)@ + (label_text(*label) + "if "@ + expr_text(cond.0) + " {\n"@
        + body_text(body.0@) + "\n}"@ + elifs_text(else_if_bodies@) + match *else_body {
        Some(b) => " else {\n"@ + body_text(b.0@) + "\n}"@,
        None => Seq::empty(),
    }));
}

/// Writes a `while`: its label, `while`, the condition, the body and the `else` branch.
fn write_while(e: &Expr, out: &mut Vec<char>)
    requires
        e is While,
    ensures
        final(out)@ == old(out)@ + expr_text(*e),
    decreases e, 0nat,
{
    let Expr::While(w) = e else {
        return;
    };
    write_label(&w.label, out);
    push_str(out, "while ");
    write_expr(&w.cond.0, out);
    push_str(out, " {\n");
    write_body(&w.body.0, out);
    push_str(out, "\n}");
    match &w.else_body {
        Some(b) => {
            push_str(out, " else {\n");
            write_body(&b.0, out);
        },
        None => {},
    }
    assert(out@ =~= old(out)@ + (label_text(w.label) + "while "@ + expr_text(w.cond.0) + " {\n"@
        + body_text(w.body.0@) + "\n}"@ + match w.else_body {
        Some(b) => " else {\n"@ + body_text(b.0@),
        None => Seq::empty(),
    }));
}

/// Writes a `when`: its label, `when`, and its arms and `else` value each indented, in braces.
fn write_when(e: &Expr, out: &mut Vec<char>)
    requires
        e is When,
    ensures
        final(out)@ == old(out)@ + expr_text(*e),
    decreases e, 0nat,
{
    let Expr::When { label, arms, else_value } = e else {
        return;
    };
    write_label(label, out);
    push_str(out, "when {\n");
    write_arms(arms, out);
    match else_value {
        Some(v) => {
            let mut tmp: Vec<char> = Vec::new();
            push_str(&mut tmp, "else -> ");
            write_expr(&v.0, &mut tmp);
            assert(tmp@ =~= "else -> "@ + expr_text(v.0));
            write_indent(&tmp, out);
        },
        None => {},
    }
    push_str(out, "\n}");
    assert(out@ =~= old(out)@ + (label_text(*label) + "when {\n"@ + arms_text(arms@) + match *else_value {
        Some(v) => indent("else -> "@ + expr_text(v.0)),
        None => Seq::empty(),
    } + "\n}"@));
}

/// Writes a `loop` or a block: its label, `loop` for a loop, and the body.
fn write_loop_or_block(e: &Expr, out: &mut Vec<char>)
    requires
        e is Loop || e is Block,
    ensures
        final(out)@ == old(out)@ + expr_text(*e),
    decreases e, 0nat,
{
    match e {
        Expr::Loop { label, body } => {
            write_label(label, out);
            push_str(out, "loop {\n");
            write_body(&body.0, out);
            push_str(out, "\n}");
            assert(out@ =~= old(out)@ + (label_text(*label) + "loop {\n"@ + body_text(body.0@)
                + "\n}"@));
        },
        Expr::Block { label, body } => {
            write_label(label, out);
            push_str(out, "{\n");
            write_body(&body.0, out);
            push_str(out, "\n}");
            assert(out@ =~= old(out)@ + (label_text(*label) + "{\n"@ + body_text(body.0@)
                + "\n}"@));
        },
        _ => {},
    }
}

/// Writes an expression.
#[verifier::rlimit(50)]
pub(crate) fn write_expr(e: &Expr, out: &mut Vec<char>)
    ensures
        final(out)@ == old(out)@ + expr_text(*e),
    decreases e, 1nat,
{
    match e {
        Expr::Atom(a) => write_atom(a, out),
        Expr::Tuple(items) => {
            if items.len() == 1 {
                push_str(out, "(");
                write_expr(&items[0].0, out);
                push_str(out, ",)");
            } else {
                push_str(out, "(");
                write_exprs(items, out);
                push_str(out, ")");
            }
        },
        Expr::Array(items) => {
            push_str(out, "[");
            write_exprs(items, out);
            push_str(out, "]");
        },
        Expr::UnaryOp { op, expr } => {
            push_str(out, "(");
            push_str(out, unary_str(op.0));
            write_expr(&expr.0, out);
            push_str(out, ")");
        },
        Expr::BinaryOp { left, op, right } => {
            push_str(out, "(");
            write_expr(&left.0, out);
            push_str(out, " ");
            push_str(out, binary_str(op.0));
            push_str(out, " ");
            write_expr(&right.0, out);
            push_str(out, ")");
        },
        Expr::Attr { subject, attr, .. } => {
            push_str(out, "(");
            write_expr(&subject.0, out);
            push_str(out, ".");
            push_string(out, &attr.0);
            push_str(out, ")");
        },
        Expr::Ref(_, x) => {
            push_str(out, "(ref ");
            write_expr(&x.0, out);
            push_str(out, ")");
        },
        Expr::Mut(_, x) => {
            push_str(out, "(mut ");
            write_expr(&x.0, out);
            push_str(out, ")");
        },
        Expr::Cast { expr, ty } => {
            push_str(out, "(");
            write_expr(&expr.0, out);
            push_str(out, "::");
            write_ty(&ty.0, out);
            push_str(out, ")");
        },
        Expr::Call { func, args, kwargs } => {
            write_expr(&func.0, out);
            push_str(out, "(");
            write_exprs(args, out);
            if args.len() > 0 && kwargs.len() > 0 {
                push_str(out, ", ");
            }
            write_kwargs(kwargs, out);
            push_str(out, ")");
            assert(exprs_text(Seq::empty()) =~= Seq::<char>::empty());
            assert(kwargs_text(Seq::empty()) =~= Seq::<char>::empty());
        },
        Expr::Index { subject, index } => {
            push_str(out, "(");
            write_expr(&subject.0, out);
            push_str(out, "[");
            write_expr(&index.0, out);
            push_str(out, "])");
        },
        Expr::Range { start, inclusive, end, .. } => {
            push_str(out, "(");
            match start {
                Some(x) => write_expr(&x.0, out),
                None => {},
            }
            push_str(out, "..");
            if *inclusive {
                push_str(out, "=");
            }
            match end {
                Some(x) => write_expr(&x.0, out),
                None => {},
            }
            push_str(out, ")");
        },
        Expr::If { .. } => write_if(e, out),
        Expr::While(_) => write_while(e, out),
        Expr::When { .. } => write_when(e, out),
        Expr::Loop { .. } | Expr::Block { .. } => write_loop_or_block(e, out),
        Expr::Assign { target, op, value } => {
            push_str(out, "(");
            write_target(&target.0, out);
            push_str(out, " ");
            push_str(out, assign_op_str(op.0));
            push_str(out, " ");
            write_expr(&value.0, out);
            push_str(out, ")");
        },
    }
    assert(out@ =~= old(out)@ + expr_text(*e));
}

fn write_exprs(s: &Vec<Spanned<Expr>>, out: &mut Vec<char>)
    ensures
        final(out)@ == old(out)@ + exprs_text(s@),
    decreases s, 1nat,
{
    let mut i: usize = 0;
    assert(s@.take(0) =~= Seq::<Spanned<Expr>>::empty());
    while i < s.len()
        invariant
            i <= s@.len(),
            out@ == old(out)@ + exprs_text(s@.take(i as int)),
        decreases s@.len() - i,
    {
        if i > 0 {
            push_str(out, ", ");
        }
        write_expr(&s[i].0, out);
        proof {
            assert(s@.take(i + 1).drop_last() =~= s@.take(i as int));
        }
        i = i + 1;
        assert(out@ =~= old(out)@ + exprs_text(s@.take(i as int)));
    }
    assert(s@.take(i as int) =~= s@);
}

fn write_kwargs(s: &Vec<(String, Spanned<Expr>)>, out: &mut Vec<char>)
    ensures
        final(out)@ == old(out)@ + kwargs_text(s@),
    decreases s, 1nat,
{
    let mut i: usize = 0;
    assert(s@.take(0) =~= Seq::<(String, Spanned<Expr>)>::empty());
    while i < s.len()
        invariant
            i <= s@.len(),
            out@ == old(out)@ + kwargs_text(s@.take(i as int)),
        decreases s@.len() - i,
    {
        if i > 0 {
            push_str(out, ", ");
        }
        push_string(out, &s[i].0);
        push_str(out, ": ");
        write_expr(&s[i].1.0, out);
        proof {
            assert(s@.take(i + 1).drop_last() =~= s@.take(i as int));
        }
        i = i + 1;
        assert(out@ =~= old(out)@ + kwargs_text(s@.take(i as int)));
    }
    assert(s@.take(i as int) =~= s@);
}

fn write_arms(s: &Vec<(Spanned<Expr>, Spanned<Expr>)>, out: &mut Vec<char>)
    ensures
        final(out)@ == old(out)@ + arms_text(s@),
    decreases s, 1nat,
{
    let mut i: usize = 0;
    assert(s@.take(0) =~= Seq::<(Spanned<Expr>, Spanned<Expr>)>::empty());
    while i < s.len()
        invariant
            i <= s@.len(),
            out@ == old(out)@ + arms_text(s@.take(i as int)),
        decreases s@.len() - i,
    {
        let mut tmp: Vec<char> = Vec::new();
        write_expr(&s[i].0.0, &mut tmp);
        push_str(&mut tmp, " -> ");
        write_expr(&s[i].1.0, &mut tmp);
        assert(tmp@ =~= expr_text(s@[i as int].0.0) + " -> "@ + expr_text(s@[i as int].1.0));
        write_indent(&tmp, out);
        proof {
            assert(s@.take(i + 1).drop_last() =~= s@.take(i as int));
        }
        i = i + 1;
        assert(out@ =~= old(out)@ + arms_text(s@.take(i as int)));
    }
    assert(s@.take(i as int) =~= s@);
}

fn write_elifs(s: &Vec<(Spanned<Expr>, Spanned<Vec<Spanned<Node>>>)>, out: &mut Vec<char>)
    ensures
        final(out)@ == old(out)@ + elifs_text(s@),
    decreases s, 1nat,
{
    let mut i: usize = 0;
    assert(s@.take(0) =~= Seq::<(Spanned<Expr>, Spanned<Vec<Spanned<Node>>>)>::empty());
    while i < s.len()
        invariant
            i <= s@.len(),
            out@ == old(out)@ + elifs_text(s@.take(i as int)),
        decreases s@.len() - i,
    {
        push_str(out, " else if ");
        write_expr(&s[i].0.0, out);
        push_str(out, " {\n");
        write_body(&s[i].1.0, out);
        push_str(out, "\n}");
        proof {
            assert(s@.take(i + 1).drop_last() =~= s@.take(i as int));
        }
        i = i + 1;
        assert(out@ =~= old(out)@ + elifs_text(s@.take(i as int)));
    }
    assert(s@.take(i as int) =~= s@);
}

fn write_body(s: &Vec<Spanned<Node>>, out: &mut Vec<char>)
    ensures
        final(out)@ == old(out)@ + body_text(s@),
    decreases s, 1nat,
{
    let mut i: usize = 0;
    assert(s@.take(0) =~= Seq::<Spanned<Node>>::empty());
    while i < s.len()
        invariant
            i <= s@.len(),
            out@ == old(out)@ + body_text(s@.take(i as int)),
        decreases s@.len() - i,
    {
        let mut tmp: Vec<char> = Vec::new();
        write_node(&s[i].0, &mut tmp);
        assert(tmp@ =~= node_text(s@[i as int].0));
        write_indent(&tmp, out);
        proof {
            assert(s@.take(i + 1).drop_last() =~= s@.take(i as int));
        }
        i = i + 1;
        assert(out@ =~= old(out)@ + body_text(s@.take(i as int)));
    }
    assert(s@.take(i as int) =~= s@);
}

fn write_target(t: &AssignmentTarget, out: &mut Vec<char>)
    ensures
        final(out)@ == old(out)@ + target_text(*t),
    decreases t, 1nat,
{
    match t {
        AssignmentTarget::Pattern(p) => write_pat(p, out),
        AssignmentTarget::Attr { subject, attr } => {
            write_expr(&subject.0, out);
            push_str(out, ".");
            push_string(out, &attr.0);
        },
        AssignmentTarget::Index { subject, index } => {
            write_expr(&subject.0, out);
            push_str(out, "[");
            write_expr(&index.0, out);
            push_str(out, "]");
        },
        AssignmentTarget::Pointer(x) => {
            push_str(out, "&");
            write_expr(&x.0, out);
        },
    }
    assert(out@ =~= old(out)@ + target_text(*t));
}

pub(crate) fn write_func_param(p: &FuncParam, out: &mut Vec<char>)
    ensures
        final(out)@ == old(out)@ + func_param_text(*p),
    decreases p, 1nat,
{
    write_pat(&p.pat.0, out);
    push_str(out, ": ");
    write_ty(&p.ty.0, out);
    write_opt_expr(" = ", &p.default, out);
    assert(out@ =~= old(out)@ + func_param_text(*p));
}

fn write_func_params(s: &Vec<Spanned<FuncParam>>, out: &mut Vec<char>)
    ensures
        final(out)@ == old(out)@ + func_params_text(s@),
    decreases s, 1nat,
{
    let mut i: usize = 0;
    assert(s@.take(0) =~= Seq::<Spanned<FuncParam>>::empty());
    while i < s.len()
        invariant
            i <= s@.len(),
            out@ == old(out)@ + func_params_text(s@.take(i as int)),
        decreases s@.len() - i,
    {
        if i > 0 {
            push_str(out, ", ");
        }
        write_func_param(&s[i].0, out);
        proof {
            assert(s@.take(i + 1).drop_last() =~= s@.take(i as int));
        }
        i = i + 1;
        assert(out@ =~= old(out)@ + func_params_text(s@.take(i as int)));
    }
    assert(s@.take(i as int) =~= s@);
}

fn write_ty_param(p: &TyParam, out: &mut Vec<char>)
    ensures
        final(out)@ == old(out)@ + ty_param_text(*p),
{
    push_string(out, &p.name.0);
    match &p.bound {
        Some(b) => {
            push_str(out, ": ");
            write_ty(&b.0, out);
        },
        None => {},
    }
    assert(out@ =~= old(out)@ + ty_param_text(*p));
}

fn write_ty_params(s: &Vec<TyParam>, out: &mut Vec<char>)
    ensures
        final(out)@ == old(out)@ + ty_params_text(s@),
    decreases s@.len(), 1nat,
{
    let mut i: usize = 0;
    assert(s@.take(0) =~= Seq::<TyParam>::empty());
    while i < s.len()
        invariant
            i <= s@.len(),
            out@ == old(out)@ + ty_params_text(s@.take(i as int)),
        decreases s@.len() - i,
    {
        if i > 0 {
            push_str(out, ", ");
        }
        write_ty_param(&s[i], out);
        proof {
            assert(s@.take(i + 1).drop_last() =~= s@.take(i as int));
        }
        i = i + 1;
        assert(out@ =~= old(out)@ + ty_params_text(s@.take(i as int)));
    }
    assert(s@.take(i as int) =~= s@);
}

fn write_struct_field(f: &StructField, out: &mut Vec<char>)
    ensures
        final(out)@ == old(out)@ + struct_field_text(*f),
    decreases f, 1nat,
{
    push_string(out, &f.name.0);
    push_str(out, ": ");
    write_ty(&f.ty.0, out);
    write_opt_expr(" = ", &f.default, out);
    assert(out@ =~= old(out)@ + struct_field_text(*f));
}

fn write_struct_fields(s: &Vec<Spanned<StructField>>, out: &mut Vec<char>)
    ensures
        final(out)@ == old(out)@ + struct_fields_text(s@),
    decreases s, 1nat,
{
    let mut i: usize = 0;
    assert(s@.take(0) =~= Seq::<Spanned<StructField>>::empty());
    while i < s.len()
        invariant
            i <= s@.len(),
            out@ == old(out)@ + struct_fields_text(s@.take(i as int)),
        decreases s@.len() - i,
    {
        if i > 0 {
            push_str(out, ", ");
        }
        write_struct_field(&s[i].0, out);
        proof {
            assert(s@.take(i + 1).drop_last() =~= s@.take(i as int));
        }
        i = i + 1;
        assert(out@ =~= old(out)@ + struct_fields_text(s@.take(i as int)));
    }
    assert(s@.take(i as int) =~= s@);
}

fn write_struct(d: &StructDef, out: &mut Vec<char>)
    ensures
        final(out)@ == old(out)@ + struct_text(*d),
    decreases d, 1nat,
{
    push_str(out, "struct ");
    push_string(out, &d.name.0);
    if d.ty_params.len() > 0 {
        push_str(out, "<");
        write_ty_params(&d.ty_params, out);
        push_str(out, ">");
    }
    match &d.extends {
        Some(t) => {
            push_str(out, ": ");
            write_ty(&t.0, out);
        },
        None => {},
    }
    push_str(out, " {");
    write_struct_fields(&d.fields, out);
    push_str(out, "}");
    assert(out@ =~= old(out)@ + struct_text(*d));
}

/// Writes a function declaration: `func`, its name, its parameters in parentheses (the
/// positional ones, then `*` when there are no keyword parameters, then the keyword ones), its
/// return type, and its body.
fn write_func_decl(n: &Node, out: &mut Vec<char>)
    requires
        n is Func,
    ensures
        final(out)@ == old(out)@ + node_text(*n),
    decreases n, 0nat,
{
    let Node::Func { name, params, kw_params, ret, body, .. } = n else {
        return;
    };
    push_str(out, "func ");
    push_string(out, &name.0);
    push_str(out, "(");
    let ghost before_params = out@;
    write_func_params(params, out);
    if kw_params.len() == 0 {
        if params.len() > 0 {
            push_str(out, ", ");
        }
        push_str(out, "*");
    }
    if params.len() > 0 && kw_params.len() > 0 {
        push_str(out, ", ");
    }
    write_func_params(kw_params, out);
    proof {
        let pt = func_params_text(params@);
        let kt = func_params_text(kw_params@);
        let np = params@.len() > 0;
        let nk = kw_params@.len() > 0;
        if !np {
            assert(params@ =~= Seq::<Spanned<FuncParam>>::empty());
            assert(pt =~= Seq::<char>::empty());
        }
        if !nk {
            assert(kw_params@ =~= Seq::<Spanned<FuncParam>>::empty());
            assert(kt =~= Seq::<char>::empty());
        }
        let outer = glue(glue(pt, np, "*"@, !nk), np || !nk, kt, nk);
        if np && nk {
            assert(outer == pt + ", "@ + kt);
        } else if np {
            assert(outer == pt + ", "@ + "*"@);
        } else if nk {
            assert(outer == kt);
        } else {
            assert(outer == "*"@);
        }
        assert(out@ =~= before_params + outer);
    }
    push_str(out, ")");
    match ret {
        Some(t) => {
            push_str(out, " -> ");
            write_ty(&t.0, out);
        },
        None => {},
    }
    push_str(out, " {\n");
    write_body(&body.0, out);
    push_str(out, "\n}");
    assert(out@ =~= old(out)@ + node_text(*n));
}

/// Writes a statement.
#[verifier::rlimit(50)]
pub(crate) fn write_node(n: &Node, out: &mut Vec<char>)
    ensures
        final(out)@ == old(out)@ + node_text(*n),
    decreases n, 1nat,
{
    match n {
        Node::Expr(e) => {
            write_expr(&e.0, out);
            push_str(out, ";");
        },
        Node::Let { pat, ty, value, .. } => {
            push_str(out, "let ");
            write_pat(&pat.0, out);
            match ty {
                Some(t) => {
                    push_str(out, ": ");
                    write_ty(&t.0, out);
                },
                None => {},
            }
            write_opt_expr(" = ", value, out);
            push_str(out, ";");
        },
        Node::Const { name, ty, value, .. } => {
            push_str(out, "const ");
            push_string(out, &name.0);
            match ty {
                Some(t) => {
                    push_str(out, ": ");
                    write_ty(&t.0, out);
                },
                None => {},
            }
            push_str(out, " = ");
            write_expr(&value.0, out);
            push_str(out, ";");
        },
        Node::Func { .. } => write_func_decl(n, out),
        Node::Struct(d) => write_struct(d, out),
        Node::Return { value, cond, .. } => {
            push_str(out, "return");
            write_opt_expr(" ", value, out);
            write_opt_expr(" if ", cond, out);
            push_str(out, ";");
        },
        Node::ImplicitReturn(e) => write_expr(&e.0, out),
        Node::Break { label, value, cond, .. } => {
            push_str(out, "break");
            match label {
                Some(l) => {
                    push_str(out, " :");
                    push_string(out, &l.0);
                },
                None => {},
            }
            write_opt_expr(" ", value, out);
            write_opt_expr(" if ", cond, out);
            push_str(out, ";");
        },
        Node::Continue { label, cond, .. } => {
            push_str(out, "continue");
            match label {
                Some(l) => {
                    push_str(out, " :");
                    push_string(out, &l.0);
                },
                None => {},
            }
            write_opt_expr(" if ", cond, out);
            push_str(out, ";");
        },
    }
    assert(out@ =~= old(out)@ + node_text(*n));
}


impl Expr {
    /// The text of the expr, as `show` describes.
    pub fn to_string(&self) -> (r: String)
        ensures
            r@ == expr_text(*self),
    {
        let mut out: Vec<char> = Vec::new();
        write_expr(self, &mut out);
        assert(out@ =~= Seq::<char>::empty() + out@);
        string_from_chars(out.as_slice())
    }
}

impl Node {
    /// The text of the node, as `show` describes.
    pub fn to_string(&self) -> (r: String)
        ensures
            r@ == node_text(*self),
    {
        let mut out: Vec<char> = Vec::new();
        write_node(self, &mut out);
        assert(out@ =~= Seq::<char>::empty() + out@);
        string_from_chars(out.as_slice())
    }
}

impl FuncParam {
    /// The text of the funcparam, as `show` describes.
    pub fn to_string(&self) -> (r: String)
        ensures
            r@ == func_param_text(*self),
    {
        let mut out: Vec<char> = Vec::new();
        write_func_param(self, &mut out);
        assert(out@ =~= Seq::<char>::empty() + out@);
        string_from_chars(out.as_slice())
    }
}

} // verus!
