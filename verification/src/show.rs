//! How the syntax tree is written out as text: operators as their symbols, expressions fully
//! parenthesized, and the statements of a block each indented by four spaces.

use vstd::prelude::*;
use crate::ast::{
    AssignmentOperator, AssignmentTarget, Atom, BinaryOp, Delimiter, Expr, FuncParam,
    FuncTypeParam, Node, Pattern, StructDef, StructField, TyParam, TypeApplication, TypeExpr,
    TypePathSeg, UnaryOp,
};
use crate::span::Spanned;
use crate::token::Radix;

verus! {

broadcast use vstd::std_specs::vec::axiom_vec_decreases_to_view;

/// How std's `Debug` writes a string: quoted, with escapes.
pub uninterp spec fn debug_str(s: Seq<char>) -> Seq<char>;

/// How std's `Debug` writes a character: quoted, with escapes.
pub uninterp spec fn debug_char(c: char) -> Seq<char>;

/// The symbol of a prefix operator.
pub open spec fn unary_text(op: UnaryOp) -> Seq<char> {
    match op {
        UnaryOp::Plus => "+"@,
        UnaryOp::Minus => "-"@,
        UnaryOp::Not => "!"@,
        UnaryOp::BitNot => "~"@,
    }
}

/// The symbol of a binary operator.
pub open spec fn binary_text(op: BinaryOp) -> Seq<char> {
    match op {
        BinaryOp::Add => "+"@,
        BinaryOp::Sub => "-"@,
        BinaryOp::Mul => "*"@,
        BinaryOp::Div => "/"@,
        BinaryOp::Mod => "%"@,
        BinaryOp::Pow => "**"@,
        BinaryOp::Eq => "=="@,
        BinaryOp::Ne => "!="@,
        BinaryOp::Lt => "<"@,
        BinaryOp::Le => "<="@,
        BinaryOp::Gt => ">"@,
        BinaryOp::Ge => ">="@,
        BinaryOp::LogicalAnd => "&&"@,
        BinaryOp::LogicalOr => "||"@,
        BinaryOp::BitAnd => "&"@,
        BinaryOp::BitOr => "|"@,
        BinaryOp::BitXor => "^"@,
        BinaryOp::Shl => "<<"@,
        BinaryOp::Shr => ">>"@,
    }
}

/// The symbol of an assignment operator.
pub open spec fn assign_op_text(op: AssignmentOperator) -> Seq<char> {
    match op {
        AssignmentOperator::Assign => "="@,
        AssignmentOperator::AddAssign => "+="@,
        AssignmentOperator::SubAssign => "-="@,
        AssignmentOperator::MulAssign => "*="@,
        AssignmentOperator::DivAssign => "/="@,
        AssignmentOperator::ModAssign => "%="@,
        AssignmentOperator::PowAssign => "**="@,
        AssignmentOperator::BitOrAssign => "|="@,
        AssignmentOperator::BitAndAssign => "&="@,
        AssignmentOperator::BitXorAssign => "^="@,
        AssignmentOperator::ShlAssign => "<<="@,
        AssignmentOperator::ShrAssign => ">>="@,
        AssignmentOperator::LogicalOrAssign => "||="@,
        AssignmentOperator::LogicalAndAssign => "&&="@,
    }
}

/// The name of a delimiter.
pub open spec fn delimiter_text(d: Delimiter) -> Seq<char> {
    match d {
        Delimiter::Paren => "parenthesis"@,
        Delimiter::Bracket => "square bracket"@,
        Delimiter::Brace => "curly bracket"@,
        Delimiter::Angle => "angle bracket"@,
    }
}

/// The prefix an integer literal of a radix is written with.
pub open spec fn radix_prefix(r: Radix) -> Seq<char> {
    match r {
        Radix::Decimal => Seq::empty(),
        Radix::Hexadecimal => "0x"@,
        Radix::Octal => "0o"@,
        Radix::Binary => "0b"@,
    }
}

/// An atom: a literal as written, a string or character quoted with escapes, or a name.
pub open spec fn atom_text(a: Atom) -> Seq<char> {
    match a {
        Atom::Int(s, r) => radix_prefix(r) + s@,
        Atom::Float(s) => s@,
        Atom::String(s) => debug_str(s@),
        Atom::Char(c) => debug_char(c),
        Atom::Bool(b) => if b {
            "true"@
        } else {
            "false"@
        },
        Atom::Ident(s) => s@,
        Atom::Void => "void"@,
    }
}

/// Two texts, with `, ` between them when both stand for some items.
pub open spec fn glue(a: Seq<char>, a_some: bool, b: Seq<char>, b_some: bool) -> Seq<char> {
    if a_some && b_some {
        a + ", "@ + b
    } else if a_some {
        a
    } else {
        b
    }
}

/// The lines of `s` from `i` on, each indented by four spaces, each after the first preceded
/// by a line feed. Lines end at line feeds; a carriage return before a line feed is not part of
/// the line, and a line feed at the very end starts no line.
pub open spec fn indent_from(s: Seq<char>, i: int, first: bool) -> Seq<char>
    decreases s.len() - i,
{
    if !(0 <= i < s.len()) {
        Seq::empty()
    } else {
        let e = line_end(s, i);
        let line = if e < s.len() && e > i && s[e - 1] == '\r' {
            s.subrange(i, e - 1)
        } else {
            s.subrange(i, e)
        };
        let lead = if first {
            "    "@
        } else {
            "\n    "@
        };
        if i <= e < s.len() {
            lead + line + indent_from(s, e + 1, false)
        } else {
            lead + line
        }
    }
}

/// The position of the first line feed at or after `i`, or the end of `s`.
pub open spec fn line_end(s: Seq<char>, i: int) -> int
    decreases s.len() - i,
{
    if 0 <= i < s.len() && s[i] != '\n' {
        line_end(s, i + 1)
    } else {
        i
    }
}

/// Every line of `s` indented by four spaces.
pub open spec fn indent(s: Seq<char>) -> Seq<char> {
    indent_from(s, 0, true)
}

/// Names joined by `sep`.
pub open spec fn names_text(s: Seq<Spanned<String>>, sep: Seq<char>) -> Seq<char>
    decreases s.len(),
{
    if s.len() == 0 {
        Seq::empty()
    } else if s.len() == 1 {
        s[0].0@
    } else {
        names_text(s.drop_last(), sep) + sep + s.last().0@
    }
}

/// A type expression.
pub open spec fn ty_text(t: TypeExpr) -> Seq<char>
    decreases t,
{
    match t {
        TypeExpr::Infer => "_"@,
        TypeExpr::Path(p) => segs_text(p.0.0@),
        TypeExpr::Tuple(tys) => "("@ + sp_tys_text(tys@) + ")"@,
        TypeExpr::Array(ty, size) => ty_text(ty.0) + "["@ + match size {
            Some(a) => atom_text(a.0),
            None => Seq::empty(),
        } + "]"@,
        TypeExpr::Func { params, kw_params, ret } => "("@ + glue(
            ftparams_text(params@),
            params@.len() > 0,
            ftparams_text(kw_params@),
            kw_params@.len() > 0,
        ) + ")"@ + match ret {
            Some(r) => " -> "@ + ty_text(*r),
            None => Seq::empty(),
        },
        TypeExpr::Union(tys) => tys_text(tys@, " | "@),
        TypeExpr::And(tys) => tys_text(tys@, " & "@),
        TypeExpr::Not(ty) => "!"@ + ty_text(*ty),
        TypeExpr::Mut(ty) => "mut "@ + ty_text(*ty),
        TypeExpr::To(ty) => "to "@ + ty_text(*ty),
    }
}

/// Spanned type expressions joined by `, `.
pub open spec fn sp_tys_text(s: Seq<Spanned<TypeExpr>>) -> Seq<char>
    decreases s,
{
    if s.len() == 0 {
        Seq::empty()
    } else if s.len() == 1 {
        ty_text(s[0].0)
    } else {
        sp_tys_text(s.drop_last()) + ", "@ + ty_text(s.last().0)
    }
}

/// Type expressions joined by `sep`.
pub open spec fn tys_text(s: Seq<TypeExpr>, sep: Seq<char>) -> Seq<char>
    decreases s,
{
    if s.len() == 0 {
        Seq::empty()
    } else if s.len() == 1 {
        ty_text(s[0])
    } else {
        tys_text(s.drop_last(), sep) + sep + ty_text(s.last())
    }
}

/// A parameter of a function type: its name, `?` if it is optional, and `: ` before the type
/// when it is named.
pub open spec fn ftparam_text(p: FuncTypeParam) -> Seq<char>
    decreases p,
{
    match p.name {
        Some(n) => n@ + (if p.optional {
            "?"@
        } else {
            Seq::empty()
        }) + ": "@ + ty_text(p.ty),
        None => ty_text(p.ty),
    }
}

/// Parameters of a function type joined by `, `.
pub open spec fn ftparams_text(s: Seq<FuncTypeParam>) -> Seq<char>
    decreases s,
{
    if s.len() == 0 {
        Seq::empty()
    } else if s.len() == 1 {
        ftparam_text(s[0])
    } else {
        ftparams_text(s.drop_last()) + ", "@ + ftparam_text(s.last())
    }
}

/// The segments of a type path joined by `.`.
pub open spec fn segs_text(s: Seq<Spanned<TypePathSeg>>) -> Seq<char>
    decreases s,
{
    if s.len() == 0 {
        Seq::empty()
    } else if s.len() == 1 {
        seg_text(s[0].0)
    } else {
        segs_text(s.drop_last()) + "."@ + seg_text(s.last().0)
    }
}

/// A segment of a type path: its name, then its type arguments in angle brackets.
pub open spec fn seg_text(g: TypePathSeg) -> Seq<char>
    decreases g,
{
    g.0.0@ + match g.1 {
        Some(app) => "<"@ + app_text(app.0) + ">"@,
        None => Seq::empty(),
    }
}

/// Type arguments: the positional ones, then the keyword ones as `name = type`.
pub open spec fn app_text(a: TypeApplication) -> Seq<char>
    decreases a,
{
    glue(sp_tys_text(a.args@), a.args@.len() > 0, kwtys_text(a.kwargs@), a.kwargs@.len() > 0)
}

/// Keyword type arguments joined by `, `.
pub open spec fn kwtys_text(s: Seq<(Spanned<String>, Spanned<TypeExpr>)>) -> Seq<char>
    decreases s,
{
    if s.len() == 0 {
        Seq::empty()
    } else if s.len() == 1 {
        s[0].0.0@ + " = "@ + ty_text(s[0].1.0)
    } else {
        kwtys_text(s.drop_last()) + ", "@ + s.last().0.0@ + " = "@ + ty_text(s.last().1.0)
    }
}

/// A pattern.
pub open spec fn pat_text(p: Pattern) -> Seq<char>
    decreases p,
{
    match p {
        Pattern::Ident { ident, mut_kw } => (if mut_kw is Some {
            "mut "@
        } else {
            Seq::empty()
        }) + ident.0@,
        Pattern::Tuple(path, pats) => names_text(path@, "."@) + "("@ + pats_text(pats@) + ")"@,
        Pattern::Array(pats) => "["@ + pats_text(pats@) + "]"@,
        Pattern::Fields(path, fields) => names_text(path@, "."@) + "{"@ + field_pats_text(fields@)
            + "}"@,
        Pattern::As(l, r) => pat_text(l.0) + " as "@ + pat_text(r.0),
        Pattern::Wildcard(o) => "*"@ + match o {
            Some(b) => pat_text(b.0),
            None => Seq::empty(),
        },
    }
}

/// Patterns joined by `, `.
pub open spec fn pats_text(s: Seq<Spanned<Pattern>>) -> Seq<char>
    decreases s,
{
    if s.len() == 0 {
        Seq::empty()
    } else if s.len() == 1 {
        pat_text(s[0].0)
    } else {
        pats_text(s.drop_last()) + ", "@ + pat_text(s.last().0)
    }
}

/// A field of a field pattern: its name, and `: ` and its pattern when it binds one.
pub open spec fn field_pat_text(f: (Spanned<String>, Option<Box<Spanned<Pattern>>>)) -> Seq<char>
    decreases f,
{
    f.0.0@ + match f.1 {
        Some(b) => ": "@ + pat_text(b.0),
        None => Seq::empty(),
    }
}

/// The fields of a field pattern joined by `, `.
pub open spec fn field_pats_text(s: Seq<(Spanned<String>, Option<Box<Spanned<Pattern>>>)>) -> Seq<
    char,
>
    decreases s,
{
    if s.len() == 0 {
        Seq::empty()
    } else if s.len() == 1 {
        field_pat_text(s[0])
    } else {
        field_pats_text(s.drop_last()) + ", "@ + field_pat_text(s.last())
    }
}

/// The label of a block, as `:label ` before it.
pub open spec fn label_text(l: Option<Spanned<String>>) -> Seq<char> {
    match l {
        Some(l) => ":"@ + l.0@ + " "@,
        None => Seq::empty(),
    }
}

/// An optional part: `pre` and the expression, or nothing.
pub open spec fn opt_expr_text(pre: Seq<char>, o: Option<Spanned<Expr>>) -> Seq<char>
    decreases o,
{
    match o {
        Some(e) => pre + expr_text(e.0),
        None => Seq::empty(),
    }
}

/// An expression, fully parenthesized.
pub open spec fn expr_text(e: Expr) -> Seq<char>
    decreases e,
{
    match e {
        Expr::Atom(a) => atom_text(a),
        Expr::Tuple(items) => if items@.len() == 1 {
            "("@ + expr_text(items@[0].0) + ",)"@
        } else {
            "("@ + exprs_text(items@) + ")"@
        },
        Expr::Array(items) => "["@ + exprs_text(items@) + "]"@,
        Expr::UnaryOp { op, expr } => "("@ + unary_text(op.0) + expr_text(expr.0) + ")"@,
        Expr::BinaryOp { left, op, right } => "("@ + expr_text(left.0) + " "@ + binary_text(op.0)
            + " "@ + expr_text(right.0) + ")"@,
        Expr::Attr { subject, attr, .. } => "("@ + expr_text(subject.0) + "."@ + attr.0@ + ")"@,
        Expr::Ref(_, x) => "(ref "@ + expr_text(x.0) + ")"@,
        Expr::Mut(_, x) => "(mut "@ + expr_text(x.0) + ")"@,
        Expr::Cast { expr, ty } => "("@ + expr_text(expr.0) + "::"@ + ty_text(ty.0) + ")"@,
        Expr::Call { func, args, kwargs } => expr_text(func.0) + "("@ + glue(
            exprs_text(args@),
            args@.len() > 0,
            kwargs_text(kwargs@),
            kwargs@.len() > 0,
        ) + ")"@,
        Expr::Index { subject, index } => "("@ + expr_text(subject.0) + "["@ + expr_text(index.0)
            + "])"@,
        Expr::Range { start, inclusive, end, .. } => "("@ + match start {
            Some(x) => expr_text(x.0),
            None => Seq::empty(),
        } + ".."@ + (if inclusive {
            "="@
        } else {
            Seq::empty()
        }) + match end {
            Some(x) => expr_text(x.0),
            None => Seq::empty(),
        } + ")"@,
        Expr::If { label, cond, body, else_if_bodies, else_body, .. } => label_text(label)
            + "if "@ + expr_text(cond.0) + " {\n"@ + body_text(body.0@) + "\n}"@ + elifs_text(
            else_if_bodies@,
        ) + match else_body {
            Some(b) => " else {\n"@ + body_text(b.0@) + "\n}"@,
            None => Seq::empty(),
        },
        Expr::While(w) => label_text(w.label) + "while "@ + expr_text(w.cond.0) + " {\n"@
            + body_text(w.body.0@) + "\n}"@ + match w.else_body {
            Some(b) => " else {\n"@ + body_text(b.0@),
            None => Seq::empty(),
        },
        Expr::Loop { label, body } => label_text(label) + "loop {\n"@ + body_text(body.0@)
            + "\n}"@,
        Expr::When { label, arms, else_value } => label_text(label) + "when {\n"@ + arms_text(
            arms@,
        ) + match else_value {
            Some(v) => indent("else -> "@ + expr_text(v.0)),
            None => Seq::empty(),
        } + "\n}"@,
        Expr::Block { label, body } => label_text(label) + "{\n"@ + body_text(body.0@) + "\n}"@,
        Expr::Assign { target, op, value } => "("@ + target_text(target.0) + " "@
            + assign_op_text(op.0) + " "@ + expr_text(value.0) + ")"@,
    }
}

/// Expressions joined by `, `.
pub open spec fn exprs_text(s: Seq<Spanned<Expr>>) -> Seq<char>
    decreases s,
{
    if s.len() == 0 {
        Seq::empty()
    } else if s.len() == 1 {
        expr_text(s[0].0)
    } else {
        exprs_text(s.drop_last()) + ", "@ + expr_text(s.last().0)
    }
}

/// Keyword arguments as `name: value`, joined by `, `.
pub open spec fn kwargs_text(s: Seq<(String, Spanned<Expr>)>) -> Seq<char>
    decreases s,
{
    if s.len() == 0 {
        Seq::empty()
    } else if s.len() == 1 {
        s[0].0@ + ": "@ + expr_text(s[0].1.0)
    } else {
        kwargs_text(s.drop_last()) + ", "@ + s.last().0@ + ": "@ + expr_text(s.last().1.0)
    }
}

/// The arms of a `when`, each as `condition -> value` indented.
pub open spec fn arms_text(s: Seq<(Spanned<Expr>, Spanned<Expr>)>) -> Seq<char>
    decreases s,
{
    if s.len() == 0 {
        Seq::empty()
    } else {
        arms_text(s.drop_last()) + indent(expr_text(s.last().0.0) + " -> "@ + expr_text(
            s.last().1.0,
        ))
    }
}

/// The `else if` branches of an `if`.
pub open spec fn elifs_text(s: Seq<(Spanned<Expr>, Spanned<Vec<Spanned<Node>>>)>) -> Seq<char>
    decreases s,
{
    if s.len() == 0 {
        Seq::empty()
    } else {
        elifs_text(s.drop_last()) + " else if "@ + expr_text(s.last().0.0) + " {\n"@ + body_text(
            s.last().1.0@,
        ) + "\n}"@
    }
}

/// The statements of a body, each indented.
pub open spec fn body_text(s: Seq<Spanned<Node>>) -> Seq<char>
    decreases s,
{
    if s.len() == 0 {
        Seq::empty()
    } else {
        body_text(s.drop_last()) + indent(node_text(s.last().0))
    }
}

/// An assignment target.
pub open spec fn target_text(t: AssignmentTarget) -> Seq<char>
    decreases t,
{
    match t {
        AssignmentTarget::Pattern(p) => pat_text(p),
        AssignmentTarget::Attr { subject, attr } => expr_text(subject.0) + "."@ + attr.0@,
        AssignmentTarget::Index { subject, index } => expr_text(subject.0) + "["@ + expr_text(
            index.0,
        ) + "]"@,
        AssignmentTarget::Pointer(x) => "&"@ + expr_text(x.0),
    }
}

/// A function parameter: its pattern, `: ` and its type, and ` = ` and its default value.
pub open spec fn func_param_text(p: FuncParam) -> Seq<char>
    decreases p,
{
    pat_text(p.pat.0) + ": "@ + ty_text(p.ty.0) + opt_expr_text(" = "@, p.default)
}

/// Function parameters joined by `, `.
pub open spec fn func_params_text(s: Seq<Spanned<FuncParam>>) -> Seq<char>
    decreases s,
{
    if s.len() == 0 {
        Seq::empty()
    } else if s.len() == 1 {
        func_param_text(s[0].0)
    } else {
        func_params_text(s.drop_last()) + ", "@ + func_param_text(s.last().0)
    }
}

/// A type parameter: its name, and `: ` and its bound.
pub open spec fn ty_param_text(p: TyParam) -> Seq<char> {
    p.name.0@ + match p.bound {
        Some(b) => ": "@ + ty_text(b.0),
        None => Seq::empty(),
    }
}

/// Type parameters joined by `, `.
pub open spec fn ty_params_text(s: Seq<TyParam>) -> Seq<char>
    decreases s.len(),
{
    if s.len() == 0 {
        Seq::empty()
    } else if s.len() == 1 {
        ty_param_text(s[0])
    } else {
        ty_params_text(s.drop_last()) + ", "@ + ty_param_text(s.last())
    }
}

/// A struct field: its name, `: ` and its type, and ` = ` and its default value.
pub open spec fn struct_field_text(f: StructField) -> Seq<char>
    decreases f,
{
    f.name.0@ + ": "@ + ty_text(f.ty.0) + opt_expr_text(" = "@, f.default)
}

/// Struct fields joined by `, `.
pub open spec fn struct_fields_text(s: Seq<Spanned<StructField>>) -> Seq<char>
    decreases s,
{
    if s.len() == 0 {
        Seq::empty()
    } else if s.len() == 1 {
        struct_field_text(s[0].0)
    } else {
        struct_fields_text(s.drop_last()) + ", "@ + struct_field_text(s.last().0)
    }
}

/// A struct declaration: `struct`, its name, its type parameters in angle brackets, `: ` and
/// the type it extends, and its fields in braces.
pub open spec fn struct_text(d: StructDef) -> Seq<char>
    decreases d,
{
    "struct "@ + d.name.0@ + (if d.ty_params@.len() > 0 {
        "<"@ + ty_params_text(d.ty_params@) + ">"@
    } else {
        Seq::empty()
    }) + match d.extends {
        Some(t) => ": "@ + ty_text(t.0),
        None => Seq::empty(),
    } + " {"@ + struct_fields_text(d.fields@) + "}"@
}

/// A statement.
pub open spec fn node_text(n: Node) -> Seq<char>
    decreases n,
{
    match n {
        Node::Expr(e) => expr_text(e.0) + ";"@,
        Node::Let { pat, ty, value, .. } => "let "@ + pat_text(pat.0) + match ty {
            Some(t) => ": "@ + ty_text(t.0),
            None => Seq::empty(),
        } + opt_expr_text(" = "@, value) + ";"@,
        Node::Const { name, ty, value, .. } => "const "@ + name.0@ + match ty {
            Some(t) => ": "@ + ty_text(t.0),
            None => Seq::empty(),
        } + " = "@ + expr_text(value.0) + ";"@,
        Node::Func { name, params, kw_params, ret, body, .. } => "func "@ + name.0@ + "("@ + glue(
            glue(
                func_params_text(params@),
                params@.len() > 0,
                "*"@,
                kw_params@.len() == 0,
            ),
            params@.len() > 0 || kw_params@.len() == 0,
            func_params_text(kw_params@),
            kw_params@.len() > 0,
        ) + ")"@ + match ret {
            Some(t) => " -> "@ + ty_text(t.0),
            None => Seq::empty(),
        } + " {\n"@ + body_text(body.0@) + "\n}"@,
        Node::Struct(d) => struct_text(d),
        Node::Return { value, cond, .. } => "return"@ + opt_expr_text(" "@, value) + opt_expr_text(
            " if "@,
            cond,
        ) + ";"@,
        Node::ImplicitReturn(e) => expr_text(e.0),
        Node::Break { label, value, cond, .. } => "break"@ + match label {
            Some(l) => " :"@ + l.0@,
            None => Seq::empty(),
        } + opt_expr_text(" "@, value) + opt_expr_text(" if "@, cond) + ";"@,
        Node::Continue { label, cond, .. } => "continue"@ + match label {
            Some(l) => " :"@ + l.0@,
            None => Seq::empty(),
        } + opt_expr_text(" if "@, cond) + ";"@,
    }
}

} // verus!
