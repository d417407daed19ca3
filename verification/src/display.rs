//! Writing the syntax tree out as text, as `show` describes.

use vstd::prelude::*;
use crate::ast::{
    AssignmentOperator, Atom, BinaryOp, Delimiter, FuncTypeParam, Pattern, TypeApplication,
    TypeExpr, TypePathSeg, UnaryOp,
};
use crate::show::{
    app_text, assign_op_text, atom_text, binary_text, debug_char, debug_str, delimiter_text,
    field_pat_text, field_pats_text, ftparam_text, ftparams_text, glue, indent, indent_from,
    kwtys_text, line_end, names_text, pat_text, pats_text, radix_prefix, seg_text, segs_text,
    sp_tys_text, ty_text, tys_text, unary_text,
};
use crate::span::Spanned;
use crate::text::{chars_of, string_from_chars};
use crate::token::Radix;

verus! {

/// How std's `Debug` writes `s`.
///
/// Trusted: formats `s` with `{:?}` (`<str as Debug>::fmt`). The result is named by
/// `debug_str`: it depends on `s` alone, and std's rules for quoting and escaping (which
/// characters are printable) take pages to state.
#[verifier::external_body]
fn debug_string(s: &String) -> (r: String)
    ensures
        r@ == debug_str(s@),
{
    format!("{:?}", s)
}

/// How std's `Debug` writes `c`.
///
/// Trusted: formats `c` with `{:?}` (`<char as Debug>::fmt`). The result is named by
/// `debug_char`: it depends on `c` alone, and std's escaping rules take pages to state.
#[verifier::external_body]
fn debug_character(c: char) -> (r: String)
    ensures
        r@ == debug_char(c),
{
    format!("{:?}", c)
}

/// Appends the characters of `s`.
pub(crate) fn push_str(out: &mut Vec<char>, s: &str)
    ensures
        final(out)@ == old(out)@ + s@,
{
    let cs = chars_of(s);
    push_range(out, &cs, 0, cs.len());
    assert(cs@.subrange(0, cs@.len() as int) =~= cs@);
}

/// Appends the characters `s[a..b]`.
pub(crate) fn push_range(out: &mut Vec<char>, s: &Vec<char>, a: usize, b: usize)
    requires
        a <= b <= s@.len(),
    ensures
        final(out)@ == old(out)@ + s@.subrange(a as int, b as int),
{
    let mut k = a;
    while k < b
        invariant
            a <= k <= b <= s@.len(),
            out@ == old(out)@ + s@.subrange(a as int, k as int),
        decreases b - k,
    {
        out.push(s[k]);
        k = k + 1;
        assert(out@ =~= old(out)@ + s@.subrange(a as int, k as int));
    }
}

/// Appends the characters of `s`.
pub(crate) fn push_string(out: &mut Vec<char>, s: &String)
    ensures
        final(out)@ == old(out)@ + s@,
{
    push_str(out, s.as_str());
}

/// The symbol of a prefix operator.
pub(crate) fn unary_str(op: UnaryOp) -> (r: &'static str)
    ensures
        r@ == unary_text(op),
{
    match op {
        UnaryOp::Plus => "+",
        UnaryOp::Minus => "-",
        UnaryOp::Not => "!",
        UnaryOp::BitNot => "~",
    }
}

/// The symbol of a binary operator.
pub(crate) fn binary_str(op: BinaryOp) -> (r: &'static str)
    ensures
        r@ == binary_text(op),
{
    match op {
        BinaryOp::Add => "+",
        BinaryOp::Sub => "-",
        BinaryOp::Mul => "*",
        BinaryOp::Div => "/",
        BinaryOp::Mod => "%",
        BinaryOp::Pow => "**",
        BinaryOp::Eq => "==",
        BinaryOp::Ne => "!=",
        BinaryOp::Lt => "<",
        BinaryOp::Le => "<=",
        BinaryOp::Gt => ">",
        BinaryOp::Ge => ">=",
        BinaryOp::LogicalAnd => "&&",
        BinaryOp::LogicalOr => "||",
        BinaryOp::BitAnd => "&",
        BinaryOp::BitOr => "|",
        BinaryOp::BitXor => "^",
        BinaryOp::Shl => "<<",
        BinaryOp::Shr => ">>",
    }
}

/// The symbol of an assignment operator.
pub(crate) fn assign_op_str(op: AssignmentOperator) -> (r: &'static str)
    ensures
        r@ == assign_op_text(op),
{
    match op {
        AssignmentOperator::Assign => "=",
        AssignmentOperator::AddAssign => "+=",
        AssignmentOperator::SubAssign => "-=",
        AssignmentOperator::MulAssign => "*=",
        AssignmentOperator::DivAssign => "/=",
        AssignmentOperator::ModAssign => "%=",
        AssignmentOperator::PowAssign => "**=",
        AssignmentOperator::BitOrAssign => "|=",
        AssignmentOperator::BitAndAssign => "&=",
        AssignmentOperator::BitXorAssign => "^=",
        AssignmentOperator::ShlAssign => "<<=",
        AssignmentOperator::ShrAssign => ">>=",
        AssignmentOperator::LogicalOrAssign => "||=",
        AssignmentOperator::LogicalAndAssign => "&&=",
    }
}

/// The name of a delimiter.
pub(crate) fn delimiter_str(d: Delimiter) -> (r: &'static str)
    ensures
        r@ == delimiter_text(d),
{
    match d {
        Delimiter::Paren => "parenthesis",
        Delimiter::Bracket => "square bracket",
        Delimiter::Brace => "curly bracket",
        Delimiter::Angle => "angle bracket",
    }
}

/// Writes an atom.
pub(crate) fn write_atom(a: &Atom, out: &mut Vec<char>)
    ensures
        final(out)@ == old(out)@ + atom_text(*a),
{
    match a {
        Atom::Int(s, r) => {
            match r {
                Radix::Decimal => {},
                Radix::Hexadecimal => push_str(out, "0x"),
                Radix::Octal => push_str(out, "0o"),
                Radix::Binary => push_str(out, "0b"),
            }
            push_string(out, s);
            assert(out@ =~= old(out)@ + atom_text(*a));
        },
        Atom::Float(s) => push_string(out, s),
        Atom::String(s) => {
            let d = debug_string(s);
            push_string(out, &d);
        },
        Atom::Char(c) => {
            let d = debug_character(*c);
            push_string(out, &d);
        },
        Atom::Bool(b) => {
            if *b {
                push_str(out, "true");
            } else {
                push_str(out, "false");
            }
        },
        Atom::Ident(s) => push_string(out, s),
        Atom::Void => push_str(out, "void"),
    }
}

/// The position of the first line feed at or after `i`, or the end of `s`.
fn line_end_exec(s: &Vec<char>, i: usize) -> (r: usize)
    requires
        i <= s@.len(),
    ensures
        r == line_end(s@, i as int),
        i <= r <= s@.len(),
{
    let mut j = i;
    while j < s.len() && s[j] != '\n'
        invariant
            i <= j <= s@.len(),
            line_end(s@, j as int) == line_end(s@, i as int),
        decreases s@.len() - j,
    {
        j = j + 1;
    }
    j
}

/// Writes every line of `s` indented by four spaces.
pub(crate) fn write_indent(s: &Vec<char>, out: &mut Vec<char>)
    ensures
        final(out)@ == old(out)@ + indent(s@),
{
    let mut i: usize = 0;
    let mut first = true;
    while i < s.len()
        invariant
            i <= s@.len(),
            out@ + indent_from(s@, i as int, first) == old(out)@ + indent(s@),
        decreases s@.len() - i,
    {
        let e = line_end_exec(s, i);
        let ghost before = out@;
        if first {
            push_str(out, "    ");
        } else {
            push_str(out, "\n    ");
        }
        let stop = if e < s.len() && e > i && s[e - 1] == '\r' {
            e - 1
        } else {
            e
        };
        push_range(out, s, i, stop);
        if e < s.len() {
            assert(out@ + indent_from(s@, e + 1, false) =~= before + indent_from(s@, i as int, first));
            i = e + 1;
        } else {
            assert(out@ =~= before + indent_from(s@, i as int, first));
            assert(indent_from(s@, s@.len() as int, false) =~= Seq::<char>::empty());
            assert(out@ + indent_from(s@, s@.len() as int, false) =~= out@);
            i = s.len();
        }
        first = false;
    }
    assert(indent_from(s@, i as int, first) =~= Seq::<char>::empty());
    assert(out@ =~= out@ + indent_from(s@, i as int, first));
}

/// Writes a type expression.
pub(crate) fn write_ty(t: &TypeExpr, out: &mut Vec<char>)
    ensures
        final(out)@ == old(out)@ + ty_text(*t),
    decreases t,
{
    match t {
        TypeExpr::Infer => push_str(out, "_"),
        TypeExpr::Path(p) => write_segs(&p.0.0, out),
        TypeExpr::Tuple(tys) => {
            push_str(out, "(");
            write_sp_tys(tys, out);
            push_str(out, ")");
            assert(out@ =~= old(out)@ + ty_text(*t));
        },
        TypeExpr::Array(ty, size) => {
            write_ty(&ty.0, out);
            push_str(out, "[");
            match size {
                Some(a) => write_atom(&a.0, out),
                None => {},
            }
            push_str(out, "]");
            assert(out@ =~= old(out)@ + ty_text(*t));
        },
        TypeExpr::Func { params, kw_params, ret } => {
            push_str(out, "(");
            write_ftparams(params, out);
            if params.len() > 0 && kw_params.len() > 0 {
                push_str(out, ", ");
            }
            write_ftparams(kw_params, out);
            push_str(out, ")");
            match ret {
                Some(r) => {
                    push_str(out, " -> ");
                    write_ty(r, out);
                },
                None => {},
            }
            assert(ftparams_text(Seq::empty()) =~= Seq::<char>::empty());
            assert(out@ =~= old(out)@ + ty_text(*t));
        },
        TypeExpr::Union(tys) => write_tys(tys, " | ", out),
        TypeExpr::And(tys) => write_tys(tys, " & ", out),
        TypeExpr::Not(ty) => {
            push_str(out, "!");
            write_ty(ty, out);
            assert(out@ =~= old(out)@ + ty_text(*t));
        },
        TypeExpr::Mut(ty) => {
            push_str(out, "mut ");
            write_ty(ty, out);
            assert(out@ =~= old(out)@ + ty_text(*t));
        },
        TypeExpr::To(ty) => {
            push_str(out, "to ");
            write_ty(ty, out);
            assert(out@ =~= old(out)@ + ty_text(*t));
        },
    }
}

pub(crate) fn write_sp_tys(s: &Vec<Spanned<TypeExpr>>, out: &mut Vec<char>)
    ensures
        final(out)@ == old(out)@ + sp_tys_text(s@),
    decreases s,
{
    let mut i: usize = 0;
    assert(s@.take(0) =~= Seq::<Spanned<TypeExpr>>::empty());
    while i < s.len()
        invariant
            i <= s@.len(),
            out@ == old(out)@ + sp_tys_text(s@.take(i as int)),
        decreases s@.len() - i,
    {
        let ghost before = out@;
        if i > 0 {
            push_str(out, ", ");
        }
        write_ty(&s[i].0, out);
        proof {
            assert(s@.take(i + 1).drop_last() =~= s@.take(i as int));
        }
        i = i + 1;
        assert(out@ =~= old(out)@ + sp_tys_text(s@.take(i as int)));
    }
    assert(s@.take(i as int) =~= s@);
}

fn write_tys(s: &Vec<TypeExpr>, sep: &str, out: &mut Vec<char>)
    ensures
        final(out)@ == old(out)@ + tys_text(s@, sep@),
    decreases s,
{
    let mut i: usize = 0;
    assert(s@.take(0) =~= Seq::<TypeExpr>::empty());
    while i < s.len()
        invariant
            i <= s@.len(),
            out@ == old(out)@ + tys_text(s@.take(i as int), sep@),
        decreases s@.len() - i,
    {
        let ghost before = out@;
        if i > 0 {
            push_str(out, sep);
        }
        write_ty(&s[i], out);
        proof {
            assert(s@.take(i + 1).drop_last() =~= s@.take(i as int));
        }
        i = i + 1;
        assert(out@ =~= old(out)@ + tys_text(s@.take(i as int), sep@));
    }
    assert(s@.take(i as int) =~= s@);
}

pub(crate) fn write_ftparam(p: &FuncTypeParam, out: &mut Vec<char>)
    ensures
        final(out)@ == old(out)@ + ftparam_text(*p),
    decreases p,
{
    match &p.name {
        Some(n) => {
            push_string(out, n);
            if p.optional {
                push_str(out, "?");
            }
            push_str(out, ": ");
            write_ty(&p.ty, out);
            assert(out@ =~= old(out)@ + ftparam_text(*p));
        },
        None => write_ty(&p.ty, out),
    }
}

fn write_ftparams(s: &Vec<FuncTypeParam>, out: &mut Vec<char>)
    ensures
        final(out)@ == old(out)@ + ftparams_text(s@),
    decreases s,
{
    let mut i: usize = 0;
    assert(s@.take(0) =~= Seq::<FuncTypeParam>::empty());
    while i < s.len()
        invariant
            i <= s@.len(),
            out@ == old(out)@ + ftparams_text(s@.take(i as int)),
        decreases s@.len() - i,
    {
        let ghost before = out@;
        if i > 0 {
            push_str(out, ", ");
        }
        write_ftparam(&s[i], out);
        proof {
            assert(s@.take(i + 1).drop_last() =~= s@.take(i as int));
        }
        i = i + 1;
        assert(out@ =~= old(out)@ + ftparams_text(s@.take(i as int)));
    }
    assert(s@.take(i as int) =~= s@);
}

fn write_segs(s: &Vec<Spanned<TypePathSeg>>, out: &mut Vec<char>)
    ensures
        final(out)@ == old(out)@ + segs_text(s@),
    decreases s,
{
    let mut i: usize = 0;
    assert(s@.take(0) =~= Seq::<Spanned<TypePathSeg>>::empty());
    while i < s.len()
        invariant
            i <= s@.len(),
            out@ == old(out)@ + segs_text(s@.take(i as int)),
        decreases s@.len() - i,
    {
        let ghost before = out@;
        if i > 0 {
            push_str(out, ".");
        }
        write_seg(&s[i].0, out);
        proof {
            assert(s@.take(i + 1).drop_last() =~= s@.take(i as int));
        }
        i = i + 1;
        assert(out@ =~= old(out)@ + segs_text(s@.take(i as int)));
    }
    assert(s@.take(i as int) =~= s@);
}

fn write_seg(g: &TypePathSeg, out: &mut Vec<char>)
    ensures
        final(out)@ == old(out)@ + seg_text(*g),
    decreases g,
{
    push_string(out, &g.0.0);
    match &g.1 {
        Some(app) => {
            push_str(out, "<");
            write_app(&app.0, out);
            push_str(out, ">");
        },
        None => {},
    }
    assert(out@ =~= old(out)@ + seg_text(*g));
}

fn write_app(a: &TypeApplication, out: &mut Vec<char>)
    ensures
        final(out)@ == old(out)@ + app_text(*a),
    decreases a,
{
    write_sp_tys(&a.args, out);
    if a.args.len() > 0 && a.kwargs.len() > 0 {
        push_str(out, ", ");
    }
    write_kwtys(&a.kwargs, out);
    assert(sp_tys_text(Seq::empty()) =~= Seq::<char>::empty());
    assert(kwtys_text(Seq::empty()) =~= Seq::<char>::empty());
    assert(out@ =~= old(out)@ + app_text(*a));
}

fn write_kwtys(s: &Vec<(Spanned<String>, Spanned<TypeExpr>)>, out: &mut Vec<char>)
    ensures
        final(out)@ == old(out)@ + kwtys_text(s@),
    decreases s,
{
    let mut i: usize = 0;
    assert(s@.take(0) =~= Seq::<(Spanned<String>, Spanned<TypeExpr>)>::empty());
    while i < s.len()
        invariant
            i <= s@.len(),
            out@ == old(out)@ + kwtys_text(s@.take(i as int)),
        decreases s@.len() - i,
    {
        let ghost before = out@;
        if i > 0 {
            push_str(out, ", ");
        }
        push_string(out, &s[i].0.0);
        push_str(out, " = ");
        write_ty(&s[i].1.0, out);
        proof {
            assert(s@.take(i + 1).drop_last() =~= s@.take(i as int));
        }
        i = i + 1;
        assert(out@ =~= old(out)@ + kwtys_text(s@.take(i as int)));
    }
    assert(s@.take(i as int) =~= s@);
}


pub(crate) fn write_names(s: &Vec<Spanned<String>>, sep: &str, out: &mut Vec<char>)
    ensures
        final(out)@ == old(out)@ + names_text(s@, sep@),
    decreases s@.len(),
{
    let mut i: usize = 0;
    assert(s@.take(0) =~= Seq::<Spanned<String>>::empty());
    while i < s.len()
        invariant
            i <= s@.len(),
            out@ == old(out)@ + names_text(s@.take(i as int), sep@),
        decreases s@.len() - i,
    {
        if i > 0 {
            push_str(out, sep);
        }
        push_string(out, &s[i].0);
        proof {
            assert(s@.take(i + 1).drop_last() =~= s@.take(i as int));
        }
        i = i + 1;
        assert(out@ =~= old(out)@ + names_text(s@.take(i as int), sep@));
    }
    assert(s@.take(i as int) =~= s@);
}

pub(crate) fn write_pat(p: &Pattern, out: &mut Vec<char>)
    ensures
        final(out)@ == old(out)@ + pat_text(*p),
    decreases p,
{
    match p {
        Pattern::Ident { ident, mut_kw } => {
            if mut_kw.is_some() {
                push_str(out, "mut ");
            }
            push_string(out, &ident.0);
        },
        Pattern::Tuple(path, pats) => {
            write_names(path, ".", out);
            push_str(out, "(");
            write_pats(pats, out);
            push_str(out, ")");
        },
        Pattern::Array(pats) => {
            push_str(out, "[");
            write_pats(pats, out);
            push_str(out, "]");
        },
        Pattern::Fields(path, fields) => {
            write_names(path, ".", out);
            push_str(out, "{");
            write_field_pats(fields, out);
            push_str(out, "}");
        },
        Pattern::As(l, r) => {
            write_pat(&l.0, out);
            push_str(out, " as ");
            write_pat(&r.0, out);
        },
        Pattern::Wildcard(o) => {
            push_str(out, "*");
            match o {
                Some(b) => write_pat(&b.0, out),
                None => {},
            }
        },
    }
    assert(out@ =~= old(out)@ + pat_text(*p));
}

fn write_pats(s: &Vec<Spanned<Pattern>>, out: &mut Vec<char>)
    ensures
        final(out)@ == old(out)@ + pats_text(s@),
    decreases s,
{
    let mut i: usize = 0;
    assert(s@.take(0) =~= Seq::<Spanned<Pattern>>::empty());
    while i < s.len()
        invariant
            i <= s@.len(),
            out@ == old(out)@ + pats_text(s@.take(i as int)),
        decreases s@.len() - i,
    {
        if i > 0 {
            push_str(out, ", ");
        }
        write_pat(&s[i].0, out);
        proof {
            assert(s@.take(i + 1).drop_last() =~= s@.take(i as int));
        }
        i = i + 1;
        assert(out@ =~= old(out)@ + pats_text(s@.take(i as int)));
    }
    assert(s@.take(i as int) =~= s@);
}

fn write_field_pat(f: &(Spanned<String>, Option<Box<Spanned<Pattern>>>), out: &mut Vec<char>)
    ensures
        final(out)@ == old(out)@ + field_pat_text(*f),
    decreases f,
{
    push_string(out, &f.0.0);
    match &f.1 {
        Some(b) => {
            push_str(out, ": ");
            write_pat(&b.0, out);
        },
        None => {},
    }
    assert(out@ =~= old(out)@ + field_pat_text(*f));
}

fn write_field_pats(s: &Vec<(Spanned<String>, Option<Box<Spanned<Pattern>>>)>, out: &mut Vec<char>)
    ensures
        final(out)@ == old(out)@ + field_pats_text(s@),
    decreases s,
{
    let mut i: usize = 0;
    assert(s@.take(0) =~= Seq::<(Spanned<String>, Option<Box<Spanned<Pattern>>>)>::empty());
    while i < s.len()
        invariant
            i <= s@.len(),
            out@ == old(out)@ + field_pats_text(s@.take(i as int)),
        decreases s@.len() - i,
    {
        if i > 0 {
            push_str(out, ", ");
        }
        write_field_pat(&s[i], out);
        proof {
            assert(s@.take(i + 1).drop_last() =~= s@.take(i as int));
        }
        i = i + 1;
        assert(out@ =~= old(out)@ + field_pats_text(s@.take(i as int)));
    }
    assert(s@.take(i as int) =~= s@);
}


impl UnaryOp {
    /// The text of the unaryop, as `show` describes.
    pub fn to_string(&self) -> (r: String)
        ensures
            r@ == unary_text(*self),
    {
        String::from_str(unary_str(*self))
    }
}

impl BinaryOp {
    /// The text of the binaryop, as `show` describes.
    pub fn to_string(&self) -> (r: String)
        ensures
            r@ == binary_text(*self),
    {
        String::from_str(binary_str(*self))
    }
}

impl AssignmentOperator {
    /// The text of the assignmentoperator, as `show` describes.
    pub fn to_string(&self) -> (r: String)
        ensures
            r@ == assign_op_text(*self),
    {
        String::from_str(assign_op_str(*self))
    }
}

impl Delimiter {
    /// The text of the delimiter, as `show` describes.
    pub fn to_string(&self) -> (r: String)
        ensures
            r@ == delimiter_text(*self),
    {
        String::from_str(delimiter_str(*self))
    }
}

impl Atom {
    /// The text of the atom, as `show` describes.
    pub fn to_string(&self) -> (r: String)
        ensures
            r@ == atom_text(*self),
    {
        let mut out: Vec<char> = Vec::new();
        write_atom(self, &mut out);
        assert(out@ =~= Seq::<char>::empty() + out@);
        string_from_chars(out.as_slice())
    }
}

impl TypeExpr {
    /// The text of the typeexpr, as `show` describes.
    pub fn to_string(&self) -> (r: String)
        ensures
            r@ == ty_text(*self),
    {
        let mut out: Vec<char> = Vec::new();
        write_ty(self, &mut out);
        assert(out@ =~= Seq::<char>::empty() + out@);
        string_from_chars(out.as_slice())
    }
}

impl FuncTypeParam {
    /// The text of the functypeparam, as `show` describes.
    pub fn to_string(&self) -> (r: String)
        ensures
            r@ == ftparam_text(*self),
    {
        let mut out: Vec<char> = Vec::new();
        write_ftparam(self, &mut out);
        assert(out@ =~= Seq::<char>::empty() + out@);
        string_from_chars(out.as_slice())
    }
}

impl Pattern {
    /// The text of the pattern, as `show` describes.
    pub fn to_string(&self) -> (r: String)
        ensures
            r@ == pat_text(*self),
    {
        let mut out: Vec<char> = Vec::new();
        write_pat(self, &mut out);
        assert(out@ =~= Seq::<char>::empty() + out@);
        string_from_chars(out.as_slice())
    }
}

} // verus!
