//! The declaration tree that one introspection run walks.
//!
//! The collector consumes an already-parsed source file as an abstract tree of
//! typed nodes: every node carries plain values (names, annotation text,
//! rendered type text), so the walk itself is independent of any one source
//! language's parser.

use vstd::prelude::*;

verus! {

/// A declaration's visibility marker.
#[derive(Clone, Copy, Debug, PartialEq, Eq, Structural)]
pub enum Visibility {
    /// Marked externally visible (`pub`).
    Public,
    /// Restricted to some enclosing scope (`pub(crate)` and the like).
    Restricted,
    /// No visibility marker at all.
    Inherited,
}

/// One annotation (attribute or doc comment) attached to a declaration:
/// its path text, and the literal string value when the annotation is a
/// name/value pair with a string literal (a doc comment among them).
#[derive(Clone, Debug, PartialEq)]
pub struct Annotation {
    pub name: String,
    pub value: Option<String>,
}

/// One parameter of a function-like declaration.
#[derive(Clone, Debug, PartialEq)]
pub enum FnArg {
    /// The implicit receiver parameter (`self`, `&self`, `&mut self`).
    Receiver,
    /// An ordinary parameter: rendered pattern text and rendered type text.
    Typed { pat: String, ty: String },
}

/// A function-like declaration's signature.
#[derive(Clone, Debug, PartialEq)]
pub struct FnSig {
    pub ident: String,
    pub is_async: bool,
    pub inputs: Vec<FnArg>,
    /// Rendered return type text, or `None` for the default return type.
    pub output: Option<String>,
}

/// A free function declaration.
#[derive(Clone, Debug, PartialEq)]
pub struct FnDecl {
    pub vis: Visibility,
    pub attrs: Vec<Annotation>,
    pub sig: FnSig,
}

/// A record/struct declaration.
#[derive(Clone, Debug, PartialEq)]
pub struct StructDecl {
    pub vis: Visibility,
    pub attrs: Vec<Annotation>,
    pub ident: String,
}

/// A tagged-union/enum declaration.
#[derive(Clone, Debug, PartialEq)]
pub struct EnumDecl {
    pub vis: Visibility,
    pub attrs: Vec<Annotation>,
    pub ident: String,
}

/// One member function declared directly inside an interface/trait.
#[derive(Clone, Debug, PartialEq)]
pub struct TraitMethod {
    pub attrs: Vec<Annotation>,
    pub sig: FnSig,
}

/// An interface/trait declaration with its member functions.
#[derive(Clone, Debug, PartialEq)]
pub struct TraitDecl {
    pub vis: Visibility,
    pub attrs: Vec<Annotation>,
    pub ident: String,
    pub items: Vec<TraitMethod>,
}

/// A nested module declaration. `content` is `None` for a module declared
/// without an inline body (`mod name;`).
pub struct ModDecl {
    pub vis: Visibility,
    pub ident: String,
    pub content: Option<Vec<Decl>>,
}

/// One top-level or module-level declaration node.
pub enum Decl {
    Function(FnDecl),
    Struct(StructDecl),
    Enum(EnumDecl),
    Trait(TraitDecl),
    Module(ModDecl),
    /// Constants, type aliases, implementation blocks, macros, and every
    /// other node kind outside the taxonomy: contributes no record.
    Other,
}

} // verus!
