//! High-level intermediate representation. This IR is used for type analysis, validating code
//! correctness, and desugaring.

use vstd::prelude::*;
use crate::ast::StructDef;
use internment::Intern;
use std::collections::HashMap;

verus! {

/// An interned value of an outside crate: a pointer to a value that lives as long as the program,
/// shared by all equal values.
#[verifier::external_type_specification]
#[verifier::external_body]
#[verifier::reject_recursive_types(T)]
pub struct ExIntern<T: 'static + ?Sized>(Intern<T>);

/// The characters of the string an interned string points to.
pub uninterp spec fn interned_str(i: Intern<String>) -> Seq<char>;

/// The names of the path an interned path points to.
pub uninterp spec fn interned_path(i: Intern<Vec<String>>) -> Seq<Seq<char>>;

/// The characters of each of the strings.
pub open spec fn strings_view(v: Seq<String>) -> Seq<Seq<char>> {
    v.map_values(|s: String| s@)
}

/// Interns a string.
///
/// Trusted: calls `Intern::new`, which returns a pointer to a value equal to `s`: one interned
/// before, or `s` itself, now interned.
#[verifier::external_body]
fn intern_string(s: String) -> (r: Intern<String>)
    ensures
        interned_str(r) == s@,
{
    Intern::new(s)
}

/// The string an interned string points to.
///
/// Trusted: calls `Intern::as_ref`, which returns the pointer the value holds.
#[verifier::external_body]
fn interned_string(i: Intern<String>) -> (r: &'static String)
    ensures
        r@ == interned_str(i),
{
    i.as_ref()
}

/// Interns a path of names.
///
/// Trusted: calls `Intern::new`, which returns a pointer to a value equal to `v`: one interned
/// before, or `v` itself, now interned.
#[verifier::external_body]
fn intern_path(v: Vec<String>) -> (r: Intern<Vec<String>>)
    ensures
        interned_path(r) == strings_view(v@),
{
    Intern::new(v)
}

/// The path an interned path points to.
///
/// Trusted: calls `Intern::as_ref`, which returns the pointer the value holds.
#[verifier::external_body]
fn interned_names(i: Intern<Vec<String>>) -> (r: &'static Vec<String>)
    ensures
        strings_view(r@) == interned_path(i),
{
    i.as_ref()
}

/// An interned identifier.
#[derive(Copy, Clone, Debug, PartialEq, Eq, Hash)]
pub struct Ident(Intern<String>);

impl View for Ident {
    type V = Seq<char>;

    closed spec fn view(&self) -> Seq<char> {
        interned_str(self.0)
    }
}

impl Ident {
    /// The identifier `name`.
    pub fn new(name: &str) -> (r: Ident)
        ensures
            r@ == name@,
    {
        Ident(intern_string(String::from_str(name)))
    }

    /// The text of the identifier.
    pub fn to_string(&self) -> (r: String)
        ensures
            r@ == self@,
    {
        interned_string(self.0).clone()
    }
}

/// The ID of a module.
#[derive(Copy, Clone, Debug, PartialEq, Eq, Hash)]
pub struct ModuleId(Intern<Vec<String>>);

impl View for ModuleId {
    type V = Seq<Seq<char>>;

    closed spec fn view(&self) -> Seq<Seq<char>> {
        interned_path(self.0)
    }
}

/// Names joined by `.`.
pub open spec fn dotted(names: Seq<Seq<char>>) -> Seq<char>
    decreases names.len(),
{
    if names.len() == 0 {
        Seq::empty()
    } else if names.len() == 1 {
        names[0]
    } else {
        dotted(names.drop_last()) + "."@ + names.last()
    }
}

impl ModuleId {
    /// The module with the path `names`.
    pub fn new(names: Vec<String>) -> (r: ModuleId)
        ensures
            r@ == strings_view(names@),
    {
        ModuleId(intern_path(names))
    }

    /// The path of the module, its names joined by `.`.
    pub fn to_string(&self) -> (r: String)
        ensures
            r@ == dotted(self@),
    {
        let names = interned_names(self.0);
        let mut out = String::new();
        let mut i: usize = 0;
        assert(strings_view(names@).take(0) =~= Seq::<Seq<char>>::empty());
        while i < names.len()
            invariant
                i <= names@.len(),
                strings_view(names@) == self@,
                out@ == dotted(strings_view(names@).take(i as int)),
            decreases names@.len() - i,
        {
            let ghost before = out@;
            if i > 0 {
                out.append(".");
            }
            out.append(names[i].as_str());
            assert(strings_view(names@).take(i + 1).drop_last() =~= strings_view(names@).take(
                i as int,
            ));
            i = i + 1;
            assert(out@ =~= dotted(strings_view(names@).take(i as int)));
        }
        assert(strings_view(names@).take(i as int) =~= strings_view(names@));
        out
    }
}

/// The ID of a top-level item.
#[derive(Clone, Debug, PartialEq, Eq, Hash)]
pub struct ItemId(
    /// The module in which the item is defined.
    ModuleId,
    /// The name of the item, which is unique within the module.
    Ident,
);

/// The ID of a lexical scope.
#[derive(Copy, Clone, Debug, Default, PartialEq, Eq, Hash, Structural)]
pub struct ScopeId(pub usize);

impl ScopeId {
    /// The ID that follows this one.
    pub fn next(&self) -> (r: ScopeId)
        requires
            self.0 < usize::MAX,
        ensures
            r.0 == self.0 + 1,
    {
        ScopeId(self.0 + 1)
    }
}

/// HIR of a Terbium program.
#[derive(Default)]
pub struct Hir {
    /// A mapping of all modules within the program.
    pub modules: HashMap<ModuleId, Vec<Node>>,
    /// A mapping of all top-level functions in the program.
    pub funcs: HashMap<ItemId, Func>,
    /// A mapping of all constants in the program.
    pub consts: HashMap<ItemId, Const>,
    /// A mapping of all raw structs within the program.
    pub structs: HashMap<ItemId, StructDef>,
    /// A mapping of all types within the program.
    pub types: HashMap<ItemId, Ty>,
    /// A mapping of all lexical scopes within the program.
    pub scopes: HashMap<ScopeId, Scope>,
    /// The root scope of the program.
    pub root: ScopeId,
}

/// An HIR node.
#[derive(Debug)]
pub enum Node {
    /// An expression statement.
    Expr(Expr),
    /// A variable declaration.
    Let { pat: Pattern, ty: Ty, value: Option<Expr> },
    /// A constant declaration.
    Const(Const),
    /// A function declaration.
    Func(Func),
    /// A `break`, with its label and value.
    Break(Option<Ident>, Option<Expr>),
    /// A `continue`, with its label.
    Continue(Option<Ident>),
    /// A `return`, with its value.
    Return(Option<Expr>),
}

/// A lexical scope: its label and its statements.
#[derive(Debug)]
pub struct Scope {
    /// The label of the scope.
    pub label: Option<Ident>,
    /// The statements of the scope.
    pub children: Vec<Node>,
}

/// A constant.
#[derive(Debug)]
pub struct Const {
    /// The name of the constant.
    pub name: Ident,
    /// The type of the constant.
    pub ty: Ty,
    /// The value of the constant.
    pub value: Expr,
}

/// A pattern that can be matched against.
#[derive(Debug)]
pub enum Pattern {
    /// A binding, and whether it is mutable.
    Ident { ident: Ident, is_mut: bool },
    /// A tuple of patterns.
    Tuple(Vec<Pattern>),
}

/// Visibility of a top-level item.
#[derive(Copy, Clone, Debug, PartialEq, Eq, Hash, Structural)]
pub enum ItemVisibility {
    /// The item is visible to all other items in the program.
    Public,
    /// The item is visible to all other items in the library.
    Lib,
    /// The item is visible to all items in the parent module and its submodules.
    Super,
    /// The item is only visible to the current module. This is the default visibility.
    Private,
}

/// Visibility of a member of a type.
#[derive(Copy, Clone, Debug, PartialEq, Eq, Hash, Structural)]
pub enum MemberVisibility {
    /// Visible everywhere.
    Public,
    /// Visible within the library.
    Lib,
    /// Visible within the parent module.
    Super,
    /// Visible within the module.
    Mod,
    /// Visible within the type and its extensions.
    Sub,
    /// Visible within the type.
    Private,
}

/// The visibility of the getter and of the setter of a field.
#[derive(Copy, Clone, Debug, PartialEq, Eq, Hash, Structural)]
pub struct FieldVisibility {
    /// The visibility of the getter.
    pub get: MemberVisibility,
    /// The visibility of the setter.
    pub set: MemberVisibility,
}

/// A parameter of a function.
#[derive(Debug)]
pub struct FuncParam {
    /// The pattern of the parameter.
    pub pat: Pattern,
    /// The type of the parameter.
    pub ty: Ty,
    /// The default value of the parameter.
    pub default: Option<Expr>,
}

/// HIR of a top-level function.
#[derive(Debug)]
pub struct Func {
    /// The visibility of the item.
    pub visibility: ItemVisibility,
    /// The name of the function.
    pub name: Ident,
    /// The parameters of the function.
    pub params: Vec<FuncParam>,
    /// The return type of the function.
    pub ret_ty: Ty,
    /// The body of the function.
    pub body: ScopeId,
}

/// The width of an integer type, ordered from the unknown width up to the widest.
#[derive(Copy, Clone, Debug, Default, Eq, PartialEq, Ord, PartialOrd, Structural)]
pub enum IntWidth {
    /// A width not known yet.
    Unknown,
    /// 8 bits.
    Int8,
    /// 16 bits.
    Int16,
    /// 32 bits, the default.
    #[default]
    Int32,
    /// 64 bits.
    Int64,
    /// 128 bits.
    Int128,
}

/// The signedness of an integer type.
#[derive(Copy, Clone, Debug, Eq, PartialEq, Structural)]
pub enum IntSign {
    /// Signed.
    Signed,
    /// Unsigned.
    Unsigned,
}

/// The width of a floating-point type, ordered from the unknown width up to the widest.
#[derive(Copy, Clone, Debug, Default, Eq, PartialEq, Ord, PartialOrd, Structural)]
pub enum FloatWidth {
    /// A width not known yet.
    Unknown,
    /// 32 bits.
    Float32,
    /// 64 bits, the default.
    #[default]
    Float64,
}

impl IntWidth {
    /// The number of bits of the width, if it is known.
    pub fn bits(self) -> (r: Option<u32>)
        ensures
            r == match self {
                IntWidth::Unknown => None,
                IntWidth::Int8 => Some(8u32),
                IntWidth::Int16 => Some(16u32),
                IntWidth::Int32 => Some(32u32),
                IntWidth::Int64 => Some(64u32),
                IntWidth::Int128 => Some(128u32),
            },
    {
        match self {
            IntWidth::Unknown => None,
            IntWidth::Int8 => Some(8),
            IntWidth::Int16 => Some(16),
            IntWidth::Int32 => Some(32),
            IntWidth::Int64 => Some(64),
            IntWidth::Int128 => Some(128),
        }
    }
}

impl FloatWidth {
    /// The number of bits of the width, if it is known.
    pub fn bits(self) -> (r: Option<u32>)
        ensures
            r == match self {
                FloatWidth::Unknown => None,
                FloatWidth::Float32 => Some(32u32),
                FloatWidth::Float64 => Some(64u32),
            },
    {
        match self {
            FloatWidth::Unknown => None,
            FloatWidth::Float32 => Some(32),
            FloatWidth::Float64 => Some(64),
        }
    }
}

/// A primitive type.
#[derive(Copy, Clone, Debug, Eq, PartialEq, Structural)]
pub enum PrimitiveTy {
    /// An integer type: signedness and bit-width are unified as one type since they coerce to
    /// each other.
    Int(IntSign, IntWidth),
    /// A floating-point type.
    Float(FloatWidth),
    /// The boolean type.
    Bool,
    /// The character type.
    Char,
    /// The void type.
    Void,
}

/// A type.
#[derive(Debug)]
pub enum Ty {
    /// A type not known yet.
    Unknown,
    /// A primitive type.
    Primitive(PrimitiveTy),
    /// A type parameter.
    Generic(TyParam),
    /// A tuple type.
    Tuple(Vec<Ty>),
    /// A struct type applied to type arguments.
    Struct(ItemId, Vec<Ty>),
}

/// A type parameter with its bound.
#[derive(Debug)]
pub struct TyParam {
    /// The name of the parameter.
    pub name: Ident,
    /// The bound of the parameter.
    pub bound: Option<Box<Ty>>,
}

/// A field of a struct type.
#[derive(Debug)]
pub struct StructField {
    /// The visibility of the field.
    pub vis: FieldVisibility,
    /// The name of the field.
    pub name: Ident,
    /// The type of the field.
    pub ty: Ty,
    /// The default value of the field.
    pub default: Option<Expr>,
}

/// A struct type.
#[derive(Debug)]
pub struct StructTy {
    /// The visibility of the struct.
    pub vis: ItemVisibility,
    /// The name of the struct.
    pub name: Ident,
    /// The type parameters of the struct.
    pub ty_params: Vec<TyParam>,
    /// The fields of the struct.
    pub fields: Vec<StructField>,
}

/// A literal value. A floating-point literal is held as the bit pattern of its `f64` value.
#[derive(Clone, Debug)]
pub enum Literal {
    /// An unsigned integer.
    UInt(u128),
    /// A signed integer.
    Int(i128),
    /// A floating-point number, as the bits of an `f64`.
    Float(u64),
    /// A boolean.
    Bool(bool),
    /// A character.
    Char(char),
    /// A string.
    String(String),
    /// The void value.
    Void,
}

/// An operation built into the language.
#[derive(Copy, Clone, Debug, Eq, PartialEq, Structural)]
pub enum Intrinsic {
    IntNeg,
    IntAdd,
    IntSub,
    IntMul,
    IntDiv,
    IntPow,
    IntMod,
    IntBitOr,
    IntBitAnd,
    IntBitNot,
    IntBitXor,
    IntShl,
    IntShr,
    IntEq,
    IntLt,
    IntLe,
    IntGt,
    IntGe,
    FloatPos,
    FloatNeg,
    FloatAdd,
    FloatSub,
    FloatMul,
    FloatDiv,
    FloatPow,
    FloatMod,
    FloatEq,
    FloatLt,
    FloatLe,
    FloatGt,
    FloatGe,
    BoolEq,
    BoolNot,
}

/// An operator that a type can implement.
#[derive(Copy, Clone, Debug, Eq, PartialEq, Structural)]
pub enum Op {
    Pos,
    Neg,
    Add,
    AddAssign,
    Sub,
    SubAssign,
    Mul,
    MulAssign,
    Div,
    DivAssign,
    Mod,
    ModAssign,
    Pow,
    PowAssign,
    Eq,
    Lt,
    Le,
    Gt,
    Ge,
    Not,
    BitOr,
    BitOrAssign,
    BitAnd,
    BitAndAssign,
    BitXor,
    BitXorAssign,
    BitNot,
    Shl,
    ShlAssign,
    Shr,
    ShrAssign,
    Index,
    IndexMut,
}

/// An operator on a type rather than on a value.
#[derive(Copy, Clone, Debug, Eq, PartialEq, Structural)]
pub enum StaticOp {
    New,
}

/// An HIR expression.
#[derive(Debug)]
pub enum Expr {
    Literal(Literal),
    Ident(Ident),
    Tuple(Vec<Expr>),
    Intrinsic(Intrinsic, Vec<Expr>),
    Call { callee: Box<Expr>, args: Vec<Expr>, kwargs: Vec<(Ident, Expr)> },
    CallOp(Op, Box<Expr>, Vec<Expr>),
    CallStaticOp(StaticOp, Ty, Vec<Expr>),
    Cast(Box<Expr>, Ty),
    GetAttr(Box<Expr>, Ident),
    SetAttr(Box<Expr>, Ident, Box<Expr>),
    Block(ScopeId),
    If(Box<Expr>, ScopeId, ScopeId),
    While(Box<Expr>, ScopeId, ScopeId),
    Loop(ScopeId),
    Assign(Pattern, Box<Expr>),
}

} // verus!
