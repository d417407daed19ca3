//! Models representing the abstract syntax tree.

use vstd::prelude::*;
use crate::error::Error;
use crate::span::{Span, Spanned};
use crate::token::{Radix, TokenInfo};

verus! {

/// An enumeration of possible unary operators.
#[derive(Copy, Clone, Debug, PartialEq, Eq, Hash, Structural)]
pub enum UnaryOp {
    /// The `+` operator.
    Plus,
    /// The `-` operator.
    Minus,
    /// The `!` operator.
    Not,
    /// The `~` operator.
    BitNot,
}

/// An enumeration of possible binary operators.
#[derive(Copy, Clone, Debug, PartialEq, Eq, Hash, Structural)]
pub enum BinaryOp {
    /// The `+` operator.
    Add,
    /// The `-` operator.
    Sub,
    /// The `*` operator.
    Mul,
    /// The `/` operator.
    Div,
    /// The `%` operator.
    Mod,
    /// The `**` operator.
    Pow,
    /// The `==` operator.
    Eq,
    /// The `!=` operator.
    Ne,
    /// The `<` operator.
    Lt,
    /// The `<=` operator.
    Le,
    /// The `>` operator.
    Gt,
    /// The `>=` operator.
    Ge,
    /// The `&&` operator.
    LogicalAnd,
    /// The `||` operator.
    LogicalOr,
    /// The `&` operator.
    BitAnd,
    /// The `|` operator.
    BitOr,
    /// The `^` operator.
    BitXor,
    /// The `<<` operator.
    Shl,
    /// The `>>` operator.
    Shr,
}

/// An assignment operator, plain or compound.
#[derive(Copy, Clone, Debug, PartialEq, Eq, Hash, Structural)]
pub enum AssignmentOperator {
    /// `=`
    Assign,
    /// `+=`
    AddAssign,
    /// `-=`
    SubAssign,
    /// `*=`
    MulAssign,
    /// `/=`
    DivAssign,
    /// `%=`
    ModAssign,
    /// `**=`
    PowAssign,
    /// `|=`
    BitOrAssign,
    /// `&=`
    BitAndAssign,
    /// `^=`
    BitXorAssign,
    /// `<<=`
    ShlAssign,
    /// `>>=`
    ShrAssign,
    /// `||=`
    LogicalOrAssign,
    /// `&&=`
    LogicalAndAssign,
}

/// Represents a type of delimiter.
#[derive(Copy, Clone, Debug, PartialEq, Eq, Hash, Structural)]
pub enum Delimiter {
    /// The `(` delimiter.
    Paren,
    /// The `[` delimiter.
    Bracket,
    /// The `{` delimiter.
    Brace,
    /// The `<` delimiter.
    Angle,
}

impl Delimiter {
    /// The opening character of the delimiter.
    pub open spec fn spec_open(self) -> char {
        match self {
            Delimiter::Paren => '(',
            Delimiter::Bracket => '[',
            Delimiter::Brace => '{',
            Delimiter::Angle => '<',
        }
    }

    /// The closing character of the delimiter.
    pub open spec fn spec_close(self) -> char {
        match self {
            Delimiter::Paren => ')',
            Delimiter::Bracket => ']',
            Delimiter::Brace => '}',
            Delimiter::Angle => '>',
        }
    }

    /// The opening token of the delimiter.
    pub open spec fn spec_open_token(self) -> TokenInfo {
        match self {
            Delimiter::Paren => TokenInfo::LeftParen,
            Delimiter::Bracket => TokenInfo::LeftBracket,
            Delimiter::Brace => TokenInfo::LeftBrace,
            Delimiter::Angle => TokenInfo::Lt,
        }
    }

    /// The closing token of the delimiter.
    pub open spec fn spec_close_token(self) -> TokenInfo {
        match self {
            Delimiter::Paren => TokenInfo::RightParen,
            Delimiter::Bracket => TokenInfo::RightBracket,
            Delimiter::Brace => TokenInfo::RightBrace,
            Delimiter::Angle => TokenInfo::Gt,
        }
    }

    /// Returns the opening delimiter.
    pub fn open(self) -> (r: char)
        ensures
            r == self.spec_open(),
    {
        match self {
            Delimiter::Paren => '(',
            Delimiter::Bracket => '[',
            Delimiter::Brace => '{',
            Delimiter::Angle => '<',
        }
    }

    /// Returns the closing delimiter.
    pub fn close(self) -> (r: char)
        ensures
            r == self.spec_close(),
    {
        match self {
            Delimiter::Paren => ')',
            Delimiter::Bracket => ']',
            Delimiter::Brace => '}',
            Delimiter::Angle => '>',
        }
    }

    /// Returns the opening delimiter as a token.
    pub fn open_token(self) -> (r: TokenInfo)
        ensures
            r == self.spec_open_token(),
    {
        match self {
            Delimiter::Paren => TokenInfo::LeftParen,
            Delimiter::Bracket => TokenInfo::LeftBracket,
            Delimiter::Brace => TokenInfo::LeftBrace,
            Delimiter::Angle => TokenInfo::Lt,
        }
    }

    /// Returns the closing delimiter as a token.
    pub fn close_token(self) -> (r: TokenInfo)
        ensures
            r == self.spec_close_token(),
    {
        match self {
            Delimiter::Paren => TokenInfo::RightParen,
            Delimiter::Bracket => TokenInfo::RightBracket,
            Delimiter::Brace => TokenInfo::RightBrace,
            Delimiter::Angle => TokenInfo::Gt,
        }
    }
}

/// The visibility of a top-level item.
#[derive(Copy, Clone, Debug, PartialEq, Eq, Hash, Structural)]
pub enum ItemVisibility {
    /// Visible everywhere (`public`).
    Public,
    /// Visible within the library (`public(lib)`).
    Lib,
    /// Visible within the parent module (`public(super)`).
    Super,
    /// Visible within the current module (`private`, `public(mod)`, or nothing written).
    Mod,
}

/// The visibility of a member (field, method) of a type.
#[derive(Copy, Clone, Debug, PartialEq, Eq, Hash, Structural)]
pub enum MemberVisibility {
    /// `public`
    Public,
    /// `public(lib)`
    Lib,
    /// `public(super)`
    Super,
    /// `public(mod)`, and the default.
    Mod,
    /// `public(sub)`: the type and its extensions.
    Sub,
    /// `private` or `public(private)`: the type alone.
    Private,
}

/// A visibility specifier, which determines the visibility of a declaration or item.
#[derive(Copy, Clone, Debug, PartialEq, Eq, Hash, Structural)]
pub enum Visibility {
    /// This item is visible to everything.
    Public,
    /// This item is visible only to the current library.
    Lib,
    /// This item is visible only to the parent module.
    Parent,
    /// This item is visible only to the current module.
    Mod,
    /// This item is visible only within the definition implementation and extensions.
    Sub,
    /// This item is visible only within the definition implementation.
    Private,
}

impl Default for Visibility {
    /// Items are visible to their module unless said otherwise.
    fn default() -> (r: Visibility)
        ensures
            r == Visibility::Mod,
    {
        Visibility::Mod
    }
}

/// A visibility specifier for struct fields, with separate visibilities (and the spans where
/// they were written, if they were) for the getter and the setter. Fully expanded, it is
/// written `public(VIS get, VIS set)`; `public(VIS)` stands for `public(VIS get, VIS set)`, an
/// accessor written without `VIS` is public, and an accessor not written is private. The setter
/// must be as private as the getter or more, so `public(set)` and `public(mod get, lib set)`
/// are refused.
#[derive(Copy, Clone, Debug, PartialEq, Eq)]
pub struct FieldVisibility {
    /// The visibility of the getter.
    pub get: (MemberVisibility, Option<Span>),
    /// The visibility of the setter.
    pub set: (MemberVisibility, Option<Span>),
}

/// An atom, which is an expression that cannot be further decomposed into other expressions.
#[derive(Clone, Debug, PartialEq, Eq, Hash)]
pub enum Atom {
    /// An integer literal.
    Int(String, Radix),
    /// A floating-point number literal.
    Float(String),
    /// A string literal. This is after resolving escape sequences.
    String(String),
    /// A character literal. This is after resolving escape sequences.
    Char(char),
    /// A boolean literal.
    Bool(bool),
    /// A non-keyword identifier.
    Ident(String),
    /// The `void` literal.
    Void,
}

/// Generic arguments applied to a path segment, e.g. `<A, B, K = C>`.
#[derive(Debug, PartialEq, Eq)]
pub struct TypeApplication {
    /// The positional type arguments.
    pub args: Vec<Spanned<TypeExpr>>,
    /// The associated type (keyword) arguments.
    pub kwargs: Vec<(Spanned<String>, Spanned<TypeExpr>)>,
}

/// A segment of a type path: a name and its optional application.
#[derive(Debug, PartialEq, Eq)]
pub struct TypePathSeg(pub Spanned<String>, pub Option<Spanned<TypeApplication>>);

/// A type path, e.g. `module.Type<A>.Member`.
#[derive(Debug, PartialEq, Eq)]
pub struct TypePath(pub Vec<Spanned<TypePathSeg>>);

/// Parameter of a function type.
#[derive(Debug, PartialEq, Eq)]
pub struct FuncTypeParam {
    /// The name of the parameter if one is given.
    pub name: Option<String>,
    /// The type of the parameter.
    pub ty: TypeExpr,
    /// Whether the parameter is optional.
    pub optional: bool,
}

/// A type expression.
#[derive(Debug, PartialEq, Eq)]
pub enum TypeExpr {
    /// The inferred type `_`.
    Infer,
    /// A type path, e.g. `Type`, `module.Type` or `Type<A, B>`.
    Path(Spanned<TypePath>),
    /// A tuple type, e.g. `(Type, Type)`.
    Tuple(Vec<Spanned<TypeExpr>>),
    /// An array type, e.g. `Type[]`, `Type[5]`, or `Type[CONSTANT]`.
    Array(Box<Spanned<TypeExpr>>, Option<Spanned<Atom>>),
    /// A function type, e.g. `(Type, Type) -> Type`.
    Func {
        /// Positional parameters.
        params: Vec<FuncTypeParam>,
        /// Keyword-only parameters.
        kw_params: Vec<FuncTypeParam>,
        /// The return type.
        ret: Option<Box<TypeExpr>>,
    },
    /// A type union, e.g. `Type | Type`.
    Union(Vec<TypeExpr>),
    /// A product ("and") type, e.g. `Type & Type`.
    And(Vec<TypeExpr>),
    /// A negation ("not") type, e.g. `!Type`.
    Not(Box<TypeExpr>),
    /// The `mut` modifier, e.g. `mut Type`.
    Mut(Box<TypeExpr>),
    /// The `to` modifier, e.g. `to Type`.
    To(Box<TypeExpr>),
}

/// The assignment target of an assignment expression.
#[derive(Debug, PartialEq, Eq)]
pub enum AssignmentTarget {
    /// A pattern match target.
    Pattern(Pattern),
    /// An attribute access.
    Attr {
        /// The subject of the attribute access.
        subject: Box<Spanned<Expr>>,
        /// The name of the attribute.
        attr: Spanned<String>,
    },
    /// An index access.
    Index {
        /// The subject of the index access.
        subject: Box<Spanned<Expr>>,
        /// The index of the index access.
        index: Box<Spanned<Expr>>,
    },
    /// A write through a reference, e.g. `&x = 1`.
    Pointer(Box<Spanned<Expr>>),
}

/// A pattern-match target used when matching values, including in function parameters and in
/// declaration bindings.
#[derive(Debug, PartialEq, Eq)]
pub enum Pattern {
    /// A binding.
    Ident {
        /// The name of the identifier.
        ident: Spanned<String>,
        /// The span of the `mut` keyword if the binding is mutable.
        mut_kw: Option<Span>,
    },
    /// A tuple of patterns, after an optional variant path.
    Tuple(Vec<Spanned<String>>, Vec<Spanned<Pattern>>),
    /// A destructuring of a field-based object, after an optional variant path.
    Fields(Vec<Spanned<String>>, Vec<(Spanned<String>, Option<Box<Spanned<Pattern>>>)>),
    /// An array (like) of patterns.
    Array(Vec<Spanned<Pattern>>),
    /// A binding to any pattern match, `lhs as rhs`.
    As(Box<Spanned<Pattern>>, Box<Spanned<Pattern>>),
    /// The wildcard pattern `*`, optionally binding the rest to a pattern.
    Wildcard(Option<Box<Spanned<Pattern>>>),
}

/// An extended pattern used specifically in a match expression.
#[derive(Debug, PartialEq, Eq)]
pub enum MatchPattern {
    /// A standard pattern.
    Pattern(Pattern),
    /// An enum variant, e.g. `Enum.Variant`.
    Variant(Vec<Spanned<String>>),
    /// A literal atom.
    Atom(Atom),
    /// A pattern that matches within a range, e.g. `1..=10`.
    Range {
        /// The left bound of the range.
        start: Option<Spanned<Atom>>,
        /// The span of the `..` or `..=` token.
        sep: Span,
        /// Whether the range is inclusive.
        inclusive: bool,
        /// The right bound of the range.
        end: Option<Box<Atom>>,
    },
    /// A binding to any match pattern.
    As(Box<Spanned<MatchPattern>>, Spanned<Pattern>),
    /// A pattern that matches one of a set of patterns, e.g. `1 | 2 | 3`.
    OneOf(Vec<Spanned<MatchPattern>>),
}

/// A while-loop.
#[derive(Debug, PartialEq, Eq)]
pub struct While {
    /// The block label given to the while-loop.
    pub label: Option<Spanned<String>>,
    /// The condition of the while-loop.
    pub cond: Box<Spanned<Expr>>,
    /// The body of the while-loop.
    pub body: Spanned<Vec<Spanned<Node>>>,
    /// The body of the else block, run when the loop ends without a break.
    pub else_body: Option<Spanned<Vec<Spanned<Node>>>>,
}

/// An expression that can be evaluated to a value.
#[derive(Debug, PartialEq, Eq)]
pub enum Expr {
    /// An atom represented as an expression.
    Atom(Atom),
    /// A tuple of expressions.
    Tuple(Vec<Spanned<Expr>>),
    /// An array of expressions.
    Array(Vec<Spanned<Expr>>),
    /// A unary operation.
    UnaryOp {
        /// The operator.
        op: Spanned<UnaryOp>,
        /// The operand.
        expr: Box<Spanned<Expr>>,
    },
    /// A binary operation.
    BinaryOp {
        /// The left operand.
        left: Box<Spanned<Expr>>,
        /// The operator.
        op: Spanned<BinaryOp>,
        /// The right operand.
        right: Box<Spanned<Expr>>,
    },
    /// Attribute access via dot notation.
    Attr {
        /// The object being accessed.
        subject: Box<Spanned<Expr>>,
        /// The span of the dot.
        dot: Span,
        /// The attribute being accessed.
        attr: Spanned<String>,
    },
    /// An explicit immutable reference, e.g. `ref x`.
    Ref(Span, Box<Spanned<Expr>>),
    /// A mutable reference, e.g. `mut x`.
    Mut(Span, Box<Spanned<Expr>>),
    /// An explicit cast to a type.
    Cast {
        /// The expression being cast.
        expr: Box<Spanned<Expr>>,
        /// The type being cast to.
        ty: Spanned<TypeExpr>,
    },
    /// A function call.
    Call {
        /// The function being called.
        func: Box<Spanned<Expr>>,
        /// The positional arguments to the function.
        args: Vec<Spanned<Expr>>,
        /// The keyword arguments to the function.
        kwargs: Vec<(String, Spanned<Expr>)>,
    },
    /// An index, sometimes called a "subscript", e.g. `a[b]`.
    Index {
        /// The object being indexed.
        subject: Box<Spanned<Expr>>,
        /// The index being accessed.
        index: Box<Spanned<Expr>>,
    },
    /// A range expression.
    Range {
        /// The start value of the range.
        start: Option<Box<Spanned<Expr>>>,
        /// The span of the `..` or `..=` token.
        sep: Span,
        /// Whether the range is inclusive.
        inclusive: bool,
        /// The end value of the range.
        end: Option<Box<Spanned<Expr>>>,
    },
    /// An if-statement, braced or ternary (`if a then b else c`).
    If {
        /// The block label given to the if-statement.
        label: Option<Spanned<String>>,
        /// The condition of the if-statement.
        cond: Box<Spanned<Expr>>,
        /// The body of the if-statement.
        body: Spanned<Vec<Spanned<Node>>>,
        /// The `else if` branches, each a condition and a body.
        else_if_bodies: Vec<(Spanned<Expr>, Spanned<Vec<Spanned<Node>>>)>,
        /// The body of the else block. This is `None` if there is no else block.
        else_body: Option<Spanned<Vec<Spanned<Node>>>>,
        /// Whether the if-statement is a ternary-if expression (an inline "if-then-else"). If it
        /// is, then `else_body` is `Some`, and both `body` and `else_body` hold exactly one
        /// `Expr` node.
        ternary: bool,
    },
    /// A while-loop.
    While(While),
    /// A loop expression.
    Loop {
        /// The block label given to the loop.
        label: Option<Spanned<String>>,
        /// The body of the loop.
        body: Spanned<Vec<Spanned<Node>>>,
    },
    /// A when expression: a mapping of conditions to values.
    When {
        /// The block label given to the when block.
        label: Option<Spanned<String>>,
        /// The condition-value pairs of the when expression.
        arms: Vec<(Spanned<Expr>, Spanned<Expr>)>,
        /// The else value of the when expression.
        else_value: Option<Box<Spanned<Expr>>>,
    },
    /// A block expression, enclosing a new lexical scope.
    Block {
        /// The block label given to the block.
        label: Option<Spanned<String>>,
        /// The body of the block.
        body: Spanned<Vec<Spanned<Node>>>,
    },
    /// An assignment, e.g. `a = b` or `a += b`.
    Assign {
        /// What is assigned to.
        target: Spanned<AssignmentTarget>,
        /// The assignment operator.
        op: Spanned<AssignmentOperator>,
        /// The value assigned.
        value: Box<Spanned<Expr>>,
    },
}

/// Information about a function parameter.
#[derive(Debug, PartialEq, Eq)]
pub struct FuncParam {
    /// The pattern of the parameter.
    pub pat: Spanned<Pattern>,
    /// The type of the parameter.
    pub ty: Spanned<TypeExpr>,
    /// The default value of the parameter, if it is specified.
    pub default: Option<Spanned<Expr>>,
}

/// A type parameter of a struct, with its optional bound.
#[derive(Debug, PartialEq, Eq)]
pub struct TyParam {
    /// The name of the parameter.
    pub name: Spanned<String>,
    /// The bound of the parameter.
    pub bound: Option<Spanned<TypeExpr>>,
}

/// A field of a struct.
#[derive(Debug, PartialEq, Eq)]
pub struct StructField {
    /// The visibility of the field.
    pub vis: Spanned<FieldVisibility>,
    /// The name of the field.
    pub name: Spanned<String>,
    /// The type of the field.
    pub ty: Spanned<TypeExpr>,
    /// The default value of the field.
    pub default: Option<Spanned<Expr>>,
}

/// A struct declaration.
#[derive(Debug, PartialEq, Eq)]
pub struct StructDef {
    /// The visibility of the struct.
    pub vis: ItemVisibility,
    /// The name of the struct.
    pub name: Spanned<String>,
    /// The type parameters of the struct.
    pub ty_params: Vec<TyParam>,
    /// The fields of the struct.
    pub fields: Vec<Spanned<StructField>>,
    /// The type the struct extends, if any.
    pub extends: Option<Spanned<TypeExpr>>,
}

/// A node in the abstract syntax tree.
#[derive(Debug, PartialEq, Eq)]
pub enum Node {
    /// An expression represented as a statement.
    Expr(Spanned<Expr>),
    /// A `let` declaration.
    Let {
        /// The span of the `let` keyword.
        kw: Span,
        /// The pattern being bound.
        pat: Spanned<Pattern>,
        /// The type of the binding, if specified.
        ty: Option<Spanned<TypeExpr>>,
        /// The value of the binding, if specified.
        value: Option<Spanned<Expr>>,
    },
    /// A `const` declaration.
    Const {
        /// The visibility of the constant.
        vis: ItemVisibility,
        /// The span of the `const` keyword.
        kw: Span,
        /// The name of the constant.
        name: Spanned<String>,
        /// The type of the constant, if specified.
        ty: Option<Spanned<TypeExpr>>,
        /// The value of the constant.
        value: Spanned<Expr>,
    },
    /// A named function declaration.
    Func {
        /// The visibility of the function.
        vis: ItemVisibility,
        /// The name of the function.
        name: Spanned<String>,
        /// The positional parameters of the function.
        params: Vec<Spanned<FuncParam>>,
        /// The keyword parameters of the function.
        kw_params: Vec<Spanned<FuncParam>>,
        /// The return type of the function, if it is specified.
        ret: Option<Spanned<TypeExpr>>,
        /// The body of the function.
        body: Spanned<Vec<Spanned<Node>>>,
    },
    /// A struct declaration.
    Struct(StructDef),
    /// An explicit return statement.
    Return {
        /// The span of the return keyword.
        kw: Span,
        /// The value being returned, if it is specified.
        value: Option<Spanned<Expr>>,
        /// The condition of a `return if` statement.
        cond: Option<Spanned<Expr>>,
    },
    /// An implicit return statement, returning from the closest block.
    ImplicitReturn(Spanned<Expr>),
    /// Break statement.
    Break {
        /// The span of the break keyword.
        kw: Span,
        /// The block label to break out of.
        label: Option<Spanned<String>>,
        /// The value to break with, if specified.
        value: Option<Spanned<Expr>>,
        /// The condition of a `break if` statement.
        cond: Option<Spanned<Expr>>,
    },
    /// Continue statement.
    Continue {
        /// The span of the continue keyword.
        kw: Span,
        /// The block label to continue.
        label: Option<Spanned<String>>,
        /// The condition of a `continue if` statement.
        cond: Option<Spanned<Expr>>,
    },
}

/// Creates a new block that immediately returns a value: the block holds one implicit return
/// of `expr`, and both span `expr`.
pub fn expr_as_block(expr: Spanned<Expr>) -> (r: Spanned<Vec<Spanned<Node>>>)
    ensures
        r.1 == expr.1,
        r.0@ == seq![Spanned(Node::ImplicitReturn(expr), expr.1)],
{
    let span = expr.1;
    let mut v = Vec::new();
    v.push(Spanned(Node::ImplicitReturn(expr), span));
    Spanned(v, span)
}

} // verus!
