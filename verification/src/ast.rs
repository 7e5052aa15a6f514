//! The syntax model the generator works on.
//!
//! Declarations arrive already parsed; this module holds exactly the shapes
//! the classifiers read: attribute paths and their parsed meta form, type
//! expressions down to pointers and simple named types, argument patterns,
//! literals, enum variants, and the per-kind declaration records handed to a
//! backend. Every other syntactic shape is collapsed into an `Other` variant,
//! which the analyzers treat as unclassified.

use vstd::prelude::*;

verus! {

/// A type expression, as far as the signature analyzer reads it: pointer
/// layers and simple named types; any other shape is unclassified.
#[derive(Debug, PartialEq, Eq)]
pub enum TypeRef {
    /// A raw-pointer type: `mutable` distinguishes pointer-to-mutable from
    /// pointer-to-constant.
    Ptr { mutable: bool, elem: Box<TypeRef> },
    /// A simple path type, e.g. `u8`, `usize`, `c_void`, `FfiResult`.
    Path { name: String },
    /// Any other shape of type expression.
    Other,
}

/// An identifier pattern binding one function argument.
#[derive(Debug, PartialEq, Eq)]
pub struct PatIdent {
    pub ident: String,
}

/// An argument pattern: a plain identifier, or any other pattern shape.
#[derive(Debug, PartialEq, Eq)]
pub enum Pat {
    Ident(PatIdent),
    Other,
}

/// A captured function argument: its pattern and its type.
#[derive(Debug, PartialEq, Eq)]
pub struct ArgCaptured {
    pub pat: Pat,
    pub ty: TypeRef,
}

/// One entry of a function's argument list: a captured `name: Type`
/// argument, or any other shape (receivers, ignored arguments).
#[derive(Debug, PartialEq, Eq)]
pub enum FnArg {
    Captured(ArgCaptured),
    Other,
}

/// One argument of a bare function type: an optional name and a type.
#[derive(Debug, PartialEq, Eq)]
pub struct BareFnArg {
    pub name: Option<String>,
    pub ty: TypeRef,
}

/// A literal value, as far as the analyzers read one.
#[derive(Debug, PartialEq, Eq)]
pub enum Lit {
    Str(String),
    Int(i64),
    Other,
}

/// A literal expression.
#[derive(Debug, PartialEq, Eq)]
pub struct ExprLit {
    pub lit: Lit,
}

/// An expression: a literal, or any other shape (calls, paths, arithmetic).
#[derive(Debug, PartialEq, Eq)]
pub enum Expr {
    Lit(ExprLit),
    Other,
}

/// One variant of an enum declaration, with its optional explicit
/// discriminant expression.
#[derive(Debug, PartialEq, Eq)]
pub struct Variant {
    pub ident: String,
    pub discriminant: Option<Expr>,
}

/// One entry of an attribute's argument list: a nested meta item (of which
/// only the name is read) or a literal.
#[derive(Debug, PartialEq, Eq)]
pub enum NestedMeta {
    Meta { name: String },
    Lit(Lit),
}

/// The parsed form of an attribute's arguments: a bare word, a parenthesized
/// list, or a `name = value` pair.
#[derive(Debug, PartialEq, Eq)]
pub enum Meta {
    Word,
    List { nested: Vec<NestedMeta> },
    NameValue { lit: Lit },
}

/// One attribute attached to a declaration: its path text and its parsed
/// meta form.
#[derive(Debug, PartialEq, Eq)]
pub struct Attribute {
    pub path: String,
    pub meta: Meta,
}

/// A declared external linkage, e.g. `extern "C"`; the calling-convention
/// string may be absent.
#[derive(Debug, PartialEq, Eq)]
pub struct Abi {
    pub name: Option<String>,
}

/// A constant declaration.
#[derive(Debug, PartialEq, Eq)]
pub struct ItemConst {
    pub ident: String,
    pub attrs: Vec<Attribute>,
    pub ty: TypeRef,
    pub expr: Expr,
}

/// A type-alias declaration.
#[derive(Debug, PartialEq, Eq)]
pub struct ItemType {
    pub ident: String,
    pub attrs: Vec<Attribute>,
    pub ty: TypeRef,
}

/// An enum declaration.
#[derive(Debug, PartialEq, Eq)]
pub struct ItemEnum {
    pub ident: String,
    pub attrs: Vec<Attribute>,
    pub variants: Vec<Variant>,
}

/// One named field of a struct declaration.
#[derive(Debug, PartialEq, Eq)]
pub struct Field {
    pub ident: String,
    pub ty: TypeRef,
}

/// A struct declaration.
#[derive(Debug, PartialEq, Eq)]
pub struct ItemStruct {
    pub ident: String,
    pub attrs: Vec<Attribute>,
    pub fields: Vec<Field>,
}

/// A function declaration: attributes, optional external linkage, and the
/// ordered argument list.
#[derive(Debug, PartialEq, Eq)]
pub struct ItemFn {
    pub ident: String,
    pub attrs: Vec<Attribute>,
    pub abi: Option<Abi>,
    pub args: Vec<FnArg>,
}

} // verus!
