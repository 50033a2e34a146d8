use vstd::prelude::*;

verus! {

/// A byte range in the host program's source text.
#[derive(Clone, Copy, Debug, PartialEq, Eq, Structural)]
pub struct Span {
    pub lo: u32,
    pub hi: u32,
}

/// A literal value in an attribute.
#[derive(Debug)]
pub enum Lit {
    Str(String),
    Int(u64),
    Bool(bool),
    /// Characters, byte strings, floats and every other literal.
    Other,
}

/// What a name/value entry of an attribute list holds.
#[derive(Debug)]
pub enum MetaItemKind {
    /// `name = literal`
    NameValue(String, Lit),
    /// Any other shape (a bare word, a nested list).
    Other,
}

/// One entry of an attribute's parameter list.
#[derive(Debug)]
pub struct MetaItem {
    pub kind: MetaItemKind,
    pub span: Span,
}

/// The value of an attribute after its name.
#[derive(Debug)]
pub enum AttrValue {
    /// `#[name]`
    Word,
    /// `#[name(item, ...)]`
    List(Vec<MetaItem>),
    /// `#[name = literal]`
    NameValue(Lit),
}

/// An attribute attached to the program root or to an item.
/// `id` identifies it to the host's unused-attribute accounting.
#[derive(Debug)]
pub struct Attribute {
    pub id: u32,
    pub name: String,
    pub value: AttrValue,
    pub span: Span,
}

/// The primitive types that the host's type system resolves.
#[derive(Clone, Copy, Debug, PartialEq, Eq, Structural)]
pub enum PrimTy {
    Int,
    Uint,
    Float,
    Bool,
    Char,
    Str,
}

/// A declared type, as the host resolved it.
#[derive(Clone, Copy, Debug, PartialEq, Eq, Structural)]
pub enum TyKind {
    Prim(PrimTy),
    NonPrim,
}

#[derive(Clone, Copy, Debug, PartialEq, Eq, Structural)]
pub struct Ty {
    pub kind: TyKind,
    pub span: Span,
}

/// A parameter's binding pattern.
#[derive(Debug)]
pub enum PatKind {
    Ident(String),
    /// Destructuring, wildcards and every other pattern.
    Other,
}

#[derive(Debug)]
pub struct Pat {
    pub kind: PatKind,
    pub span: Span,
}

/// One parameter of a function.
#[derive(Debug)]
pub struct Arg {
    pub ty: Ty,
    pub pat: Pat,
}

/// A function's signature.
#[derive(Debug)]
pub struct FnDecl {
    pub inputs: Vec<Arg>,
}

/// Binary operators of the source language.
#[derive(Clone, Copy, Debug, PartialEq, Eq, Structural)]
pub enum BinOpKind {
    Add,
    Sub,
    Mul,
    Div,
    Rem,
    And,
    Or,
    BitXor,
    BitAnd,
    BitOr,
    Shl,
    Shr,
    Eq,
    Lt,
    Le,
    Ne,
    Ge,
    Gt,
    /// An operator outside the fixed table (an extension of the host).
    Other,
}

#[derive(Clone, Copy, Debug, PartialEq, Eq, Structural)]
pub struct BinOp {
    pub node: BinOpKind,
    pub span: Span,
}

/// Expression shapes. A path is never empty: it has a first segment.
#[derive(Debug)]
pub enum ExprKind {
    Binary(BinOp, Box<Expr>, Box<Expr>),
    /// A path: its first segment and the segments after it.
    Path(String, Vec<String>),
    /// Any other expression.
    Other,
}

#[derive(Debug)]
pub struct Expr {
    pub kind: ExprKind,
    pub span: Span,
}

/// A statement; its contents are not rendered, only its place is kept.
#[derive(Clone, Copy, Debug, PartialEq, Eq, Structural)]
pub struct Stmt {
    pub span: Span,
}

/// A block: leading statements and an optional trailing expression.
#[derive(Debug)]
pub struct Block {
    pub stmts: Vec<Stmt>,
    pub expr: Option<Expr>,
}

/// A member of an implementation block.
#[derive(Debug)]
pub enum ImplItemKind {
    Method(FnDecl, Block),
    Other,
}

#[derive(Debug)]
pub struct ImplItem {
    pub ident: String,
    pub attrs: Vec<Attribute>,
    pub kind: ImplItemKind,
    pub span: Span,
}

/// Top-level item shapes.
#[derive(Debug)]
pub enum ItemKind {
    Fn(FnDecl, Block),
    Impl(Vec<ImplItem>),
    Other,
}

#[derive(Debug)]
pub struct Item {
    pub ident: String,
    pub attrs: Vec<Attribute>,
    pub kind: ItemKind,
    pub span: Span,
}

/// A parsed program: its root attributes and its top-level items.
#[derive(Debug)]
pub struct Crate {
    pub attrs: Vec<Attribute>,
    pub items: Vec<Item>,
}

} // verus!
