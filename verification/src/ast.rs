//! The abstract syntax tree: statements, expressions, declarations,
//! patterns and types, each node carrying the span it was parsed from.
//!
//! The tree is immutable after construction; every node is built with an
//! explicit kind and span, so no "empty" node can leak into analysis.

use vstd::prelude::*;

use crate::span::{Span, Spanned};

verus! {

/// Visibility modifier: where it was written, or absent.
#[derive(Clone, Copy, Debug)]
pub enum Public {
    Yes(Span),
    No,
}

/// Asynchrony modifier: where it was written, or absent.
#[derive(Clone, Copy, Debug)]
pub enum Async {
    Yes(Span),
    No,
}

/// Unsafety modifier: where it was written, or absent.
#[derive(Clone, Copy, Debug)]
pub enum Unsafe {
    Yes(Span),
    No,
}

/// Target-specific modifier: where it was written, or absent.
#[derive(Clone, Copy, Debug)]
pub enum Wasm {
    Yes(Span),
    No,
}

/// Whether a binding may be reassigned.
#[derive(Clone, Copy, Debug)]
pub enum Mutability {
    Yes,
    No,
}

/// A type expression, as far as the front end needs to name one.
#[derive(Clone, Copy, Debug, PartialEq, Eq, Structural)]
pub enum Ty {
    Int,
    Real,
    Bool,
    Str,
    Void,
}

impl Ty {
    /// The name of this type as it is shown in diagnostics.
    pub open spec fn text(self) -> Seq<char> {
        match self {
            Ty::Int => "int"@,
            Ty::Real => "real"@,
            Ty::Bool => "bool"@,
            Ty::Str => "str"@,
            Ty::Void => "void"@,
        }
    }

    pub fn to_text(&self) -> (text: String)
        ensures
            text@ == self.text(),
    {
        match self {
            Ty::Int => String::from_str("int"),
            Ty::Real => String::from_str("real"),
            Ty::Bool => String::from_str("bool"),
            Ty::Str => String::from_str("str"),
            Ty::Void => String::from_str("void"),
        }
    }
}

/// A binding pattern, used in declarations and in parameter lists.
#[derive(Debug)]
pub struct Pattern {
    pub kind: PatternKind,
    pub span: Span,
}

impl Pattern {
    pub fn new(kind: PatternKind, span: Span) -> (pattern: Pattern)
        ensures
            pattern == (Pattern { kind, span }),
    {
        Pattern { kind, span }
    }
}

#[derive(Debug)]
pub enum PatternKind {
    Underscore,
    Identifier(Box<Expr>),
    Lit(Box<Expr>),
}

/// The root of the tree: the ordered top-level statements of one
/// compilation unit.
#[derive(Debug)]
pub struct Program {
    pub stmts: Vec<Box<Stmt>>,
}

impl Program {
    pub fn new(stmts: Vec<Box<Stmt>>) -> (program: Program)
        ensures
            program == (Program { stmts }),
    {
        Program { stmts }
    }
}

/// A top-level statement.
#[derive(Debug)]
pub struct Stmt {
    pub kind: StmtKind,
    pub span: Span,
}

impl Stmt {
    pub fn new(kind: StmtKind, span: Span) -> (stmt: Stmt)
        ensures
            stmt == (Stmt { kind, span }),
    {
        Stmt { kind, span }
    }
}

#[derive(Debug)]
pub enum StmtKind {
    Ext(Box<Ext>),
    TyAlias(Box<TyAlias>),
    Enum(Box<Enum>),
    Struct(Box<Struct>),
    Val(Box<Decl>),
    Fun(Box<Fun>),
    Unit(Box<Unit>),
}

/// An external-function declaration.
#[derive(Debug)]
pub struct Ext {
    pub public: Public,
    pub prototype: Prototype,
    pub body: Option<Box<Block>>,
    pub span: Span,
}

impl Ext {
    pub fn new(public: Public, prototype: Prototype, body: Option<Box<Block>>, span: Span) -> (ext:
        Ext)
        ensures
            ext == (Ext { public, prototype, body, span }),
    {
        Ext { public, prototype, body, span }
    }
}

/// A type alias, either of a single type or of a named group of fields.
#[derive(Debug)]
pub struct TyAlias {
    pub public: Public,
    pub name: Box<Expr>,
    pub kind: TyAliasKind,
    pub span: Span,
}

impl TyAlias {
    pub fn new(public: Public, name: Box<Expr>, kind: TyAliasKind, span: Span) -> (alias: TyAlias)
        ensures
            alias == (TyAlias { public, name, kind, span }),
    {
        TyAlias { public, name, kind, span }
    }
}

#[derive(Debug)]
pub enum TyAliasKind {
    Single(Box<Ty>),
    Group(Vec<Box<TyAliasField>>),
}

#[derive(Debug)]
pub struct TyAliasField {
    pub name: Box<Expr>,
    pub ty: Box<Ty>,
    pub span: Span,
}

impl TyAliasField {
    pub fn new(name: Box<Expr>, ty: Box<Ty>, span: Span) -> (field: TyAliasField)
        ensures
            field == (TyAliasField { name, ty, span }),
    {
        TyAliasField { name, ty, span }
    }
}

/// An enum definition.
#[derive(Debug)]
pub struct Enum {
    pub public: Public,
    pub name: Box<Expr>,
    pub variants: Vec<Box<EnumVariant>>,
    pub span: Span,
}

impl Enum {
    pub fn new(public: Public, name: Box<Expr>, variants: Vec<Box<EnumVariant>>, span: Span) -> (e:
        Enum)
        ensures
            e == (Enum { public, name, variants, span }),
    {
        Enum { public, name, variants, span }
    }
}

#[derive(Debug)]
pub struct EnumVariant {
    pub name: Box<Expr>,
    pub arg: Option<Box<EnumVariantArg>>,
    pub span: Span,
}

impl EnumVariant {
    pub fn new(name: Box<Expr>, arg: Option<Box<EnumVariantArg>>, span: Span) -> (variant:
        EnumVariant)
        ensures
            variant == (EnumVariant { name, arg, span }),
    {
        EnumVariant { name, arg, span }
    }
}

#[derive(Debug)]
pub struct EnumVariantArg {
    pub value: Box<Expr>,
    pub span: Span,
}

impl EnumVariantArg {
    pub fn new(value: Box<Expr>, span: Span) -> (arg: EnumVariantArg)
        ensures
            arg == (EnumVariantArg { value, span }),
    {
        EnumVariantArg { value, span }
    }
}

/// A struct definition.
#[derive(Debug)]
pub struct Struct {
    pub public: Public,
    pub name: Box<Expr>,
    pub kind: StructKind,
    pub span: Span,
}

impl Struct {
    pub fn new(public: Public, name: Box<Expr>, kind: StructKind, span: Span) -> (s: Struct)
        ensures
            s == (Struct { public, name, kind, span }),
    {
        Struct { public, name, kind, span }
    }
}

#[derive(Debug)]
pub enum StructKind {
    Init,
    Decl(Vec<Box<StructDeclField>>),
    Tuple(Vec<Box<StructTupleField>>),
}

#[derive(Debug)]
pub struct StructDeclField {
    pub public: Public,
    pub name: Box<Expr>,
    pub ty: Box<Ty>,
    pub span: Span,
}

impl StructDeclField {
    pub fn new(public: Public, name: Box<Expr>, ty: Box<Ty>, span: Span) -> (field:
        StructDeclField)
        ensures
            field == (StructDeclField { public, name, ty, span }),
    {
        StructDeclField { public, name, ty, span }
    }
}

#[derive(Debug)]
pub struct StructTupleField {
    pub public: Public,
    pub ty: Box<Ty>,
    pub span: Span,
}

impl StructTupleField {
    pub fn new(public: Public, ty: Box<Ty>, span: Span) -> (field: StructTupleField)
        ensures
            field == (StructTupleField { public, ty, span }),
    {
        StructTupleField { public, ty, span }
    }
}

/// A value declaration: a pattern bound to an initializer.
#[derive(Debug)]
pub struct Decl {
    pub mutability: Mutability,
    pub kind: DeclKind,
    pub pattern: Pattern,
    pub ty: Option<Box<Ty>>,
    pub value: Box<Expr>,
    pub span: Span,
}

impl Decl {
    pub fn new(
        mutability: Mutability,
        kind: DeclKind,
        pattern: Pattern,
        ty: Option<Box<Ty>>,
        value: Box<Expr>,
        span: Span,
    ) -> (decl: Decl)
        ensures
            decl == (Decl { mutability, kind, pattern, ty, value, span }),
    {
        Decl { mutability, kind, pattern, ty, value, span }
    }
}

/// How a declaration was introduced: generic value, explicitly immutable,
/// or explicitly mutable.
#[derive(Clone, Copy, Debug)]
pub enum DeclKind {
    Val,
    Imu,
    Mut,
}

/// A function definition.
#[derive(Debug)]
pub struct Fun {
    pub public: Public,
    pub asyncness: Async,
    pub unsafeness: Unsafe,
    pub wasm: Wasm,
    pub prototype: Prototype,
    pub body: Box<Block>,
    pub span: Span,
}

impl Fun {
    pub fn new(
        public: Public,
        asyncness: Async,
        unsafeness: Unsafe,
        wasm: Wasm,
        prototype: Prototype,
        body: Box<Block>,
        span: Span,
    ) -> (fun: Fun)
        ensures
            fun == (Fun { public, asyncness, unsafeness, wasm, prototype, body, span }),
    {
        Fun { public, asyncness, unsafeness, wasm, prototype, body, span }
    }
}

/// A function's name, ordered parameters and return type.
#[derive(Debug)]
pub struct Prototype {
    pub pattern: Box<Expr>,
    pub inputs: Vec<Box<Arg>>,
    pub output: ReturnTy,
    pub span: Span,
}

/// The types of a parameter list, in order.
pub open spec fn input_tys(inputs: Seq<Box<Arg>>) -> Seq<Ty> {
    Seq::new(inputs.len(), |i: int| *inputs[i].ty)
}

impl Prototype {
    pub fn new(pattern: Box<Expr>, inputs: Vec<Box<Arg>>, output: ReturnTy, span: Span) -> (proto:
        Prototype)
        ensures
            proto == (Prototype { pattern, inputs, output, span }),
    {
        Prototype { pattern, inputs, output, span }
    }

    /// The ordered parameter types, as a derived view.
    pub fn as_inputs_tys(&self) -> (tys: Vec<Box<Ty>>)
        ensures
            tys@.len() == self.inputs@.len(),
            forall|i: int| 0 <= i < tys@.len() ==> tys@[i] == input_tys(self.inputs@)[i],
    {
        let mut tys: Vec<Box<Ty>> = Vec::new();
        let mut i: usize = 0;
        while i < self.inputs.len()
            invariant
                0 <= i <= self.inputs@.len(),
                tys@.len() == i as int,
                forall|j: int| 0 <= j < i as int ==> tys@[j] == input_tys(self.inputs@)[j],
            decreases self.inputs@.len() - i,
        {
            let ty: Ty = *self.inputs[i].ty;
            tys.push(Box::new(ty));
            i = i + 1;
        }
        tys
    }
}

/// One parameter: its binding pattern and its type.
#[derive(Debug)]
pub struct Arg {
    pub pattern: Pattern,
    pub ty: Box<Ty>,
    pub span: Span,
}

impl Arg {
    pub fn new(pattern: Pattern, ty: Box<Ty>, span: Span) -> (arg: Arg)
        ensures
            arg == (Arg { pattern, ty, span }),
    {
        Arg { pattern, ty, span }
    }
}

/// A return type: written out, or left to the unit default.
#[derive(Clone, Debug)]
pub enum ReturnTy {
    Default(Span),
    Ty(Box<Ty>),
}

/// A braced sequence of expressions.
#[derive(Debug)]
pub struct Block {
    pub exprs: Vec<Box<Expr>>,
    pub span: Span,
}

impl Block {
    pub fn new(exprs: Vec<Box<Expr>>, span: Span) -> (block: Block)
        ensures
            block == (Block { exprs, span }),
    {
        Block { exprs, span }
    }
}

/// A self-contained test and mocking scope.
#[derive(Debug)]
pub struct Unit {
    pub binds: Vec<Box<Stmt>>,
    pub mocks: Vec<Box<Fun>>,
    pub tests: Vec<Box<Fun>>,
    pub span: Span,
}

impl Unit {
    pub fn new(binds: Vec<Box<Stmt>>, mocks: Vec<Box<Fun>>, tests: Vec<Box<Fun>>, span: Span) -> (unit:
        Unit)
        ensures
            unit == (Unit { binds, mocks, tests, span }),
    {
        Unit { binds, mocks, tests, span }
    }
}

/// An expression.
#[derive(Debug)]
pub struct Expr {
    pub kind: ExprKind,
    pub span: Span,
}

impl Expr {
    pub fn new(kind: ExprKind, span: Span) -> (expr: Expr)
        ensures
            expr == (Expr { kind, span }),
    {
        Expr { kind, span }
    }
}

#[derive(Debug)]
pub enum ExprKind {
    Stmt(Box<Stmt>),
    Decl(Box<Decl>),
    Lit(Box<Lit>),
    Identifier(String),
    UnOp(UnOp, Box<Expr>),
    BinOp(Box<Expr>, BinOp, Box<Expr>),
    Call(Box<Expr>, Vec<Box<Expr>>),
    Assign(Box<Expr>, BinOp, Box<Expr>),
    AssignOp(Box<Expr>, BinOp, Box<Expr>),
    Return(Option<Box<Expr>>),
    Block(Box<Block>),
    Loop(Box<Block>),
    While(Box<Expr>, Box<Block>),
    Until(Box<Expr>, Box<Block>),
    Break(Option<Box<Expr>>),
    Continue,
    Raise(Option<Box<Expr>>),
    When(Box<Expr>, Box<Expr>, Box<Expr>),
    IfElse(Box<Expr>, Box<Expr>, Option<Box<Expr>>),
    Lambda(Vec<Box<Expr>>, Box<Expr>),
    Array(Vec<Box<Expr>>),
    Index(Box<Expr>, Box<Expr>),
    Tuple(Vec<Box<Expr>>),
    TupleAccess(Box<Expr>, Box<Expr>),
    MemberAccess(Box<Expr>, Box<Expr>),
}

/// A literal.
#[derive(Clone, Debug)]
pub struct Lit {
    pub kind: LitKind,
    pub span: Span,
}

impl Lit {
    pub fn new(kind: LitKind, span: Span) -> (lit: Lit)
        ensures
            lit == (Lit { kind, span }),
    {
        Lit { kind, span }
    }
}

/// The value of a literal. A real-number literal keeps the digits it was
/// written with, so the tree carries no machine float.
#[derive(Clone, Debug)]
pub enum LitKind {
    Bool(bool),
    Int(i64),
    Real(String),
    Str(String),
}

pub type UnOp = Spanned<UnOpKind>;

#[derive(Clone, Copy, Debug)]
pub enum UnOpKind {
    Not,
    Neg,
}

pub type BinOp = Spanned<BinOpKind>;

#[derive(Clone, Copy, Debug)]
pub enum BinOpKind {
    Add,
    Sub,
    Mul,
    Div,
    Rem,
    And,
    Or,
    Lt,
    Gt,
    Le,
    Ge,
    Eq,
    Ne,
    Shl,
    Shr,
    BitAnd,
    BitOr,
    BitXor,
    As,
    Range,
}

impl BinOpKind {
    /// Whether this operator may stand in a compound assignment:
    /// the arithmetic and bitwise operators, and no other.
    pub open spec fn spec_is_assign_op(self) -> bool {
        self is Add || self is Sub || self is Mul || self is Div || self is Rem || self is Shl
            || self is Shr || self is BitXor || self is BitAnd || self is BitOr
    }

    pub fn is_assign_op(&self) -> (valid: bool)
        ensures
            valid == self.spec_is_assign_op(),
    {
        matches!(
            self,
            Self::Add
                | Self::Sub
                | Self::Mul
                | Self::Div
                | Self::Rem
                | Self::Shl
                | Self::Shr
                | Self::BitXor
                | Self::BitAnd
                | Self::BitOr
        )
    }
}

} // verus!
