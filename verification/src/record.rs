//! The record emitted for one discovered public declaration, and its
//! mathematical view.

use vstd::prelude::*;

verus! {

/// The normalized classification of a declaration. Source-language structs,
/// enums and interfaces/traits all collapse to `Class`; member functions of an
/// interface collapse to `Method`.
#[derive(Clone, Copy, Debug, PartialEq, Eq, Structural)]
pub enum ApiKind {
    Function,
    Class,
    Method,
}

impl ApiKind {
    /// The fixed textual tag of this kind in the serialized report.
    pub fn as_text(&self) -> (r: &'static str)
        ensures
            *self is Function ==> r@ == "function"@,
            *self is Class ==> r@ == "class"@,
            *self is Method ==> r@ == "method"@,
    {
        match self {
            ApiKind::Function => "function",
            ApiKind::Class => "class",
            ApiKind::Method => "method",
        }
    }
}

/// One record of the inventory: a single externally visible declaration with
/// its metadata.
#[derive(Clone, Debug, PartialEq)]
pub struct APIMetadata {
    /// Fully-scoped name: module path and declaration name, `::`-joined.
    pub api: String,
    /// The `::`-joined module nesting at the point of declaration.
    pub module: String,
    /// Normalized classification.
    pub api_type: ApiKind,
    /// The declaration carries an asynchronous marker.
    pub is_async: bool,
    /// At least one documentation annotation is attached.
    pub has_docstring: bool,
    /// The declaration is externally visible; always true for emitted records,
    /// carried through for downstream filtering.
    pub in_all: bool,
    /// A deprecation marker or the deprecation keyword is attached.
    pub is_deprecated: bool,
    /// Rendered parameter/return description, or a fixed tag for non-function
    /// kinds.
    pub signature: String,
}

/// The mathematical view of one record: every text field as a character
/// sequence.
pub struct APIMetadataView {
    pub api: Seq<char>,
    pub module: Seq<char>,
    pub api_type: ApiKind,
    pub is_async: bool,
    pub has_docstring: bool,
    pub in_all: bool,
    pub is_deprecated: bool,
    pub signature: Seq<char>,
}

impl View for APIMetadata {
    type V = APIMetadataView;

    open spec fn view(&self) -> APIMetadataView {
        APIMetadataView {
            api: self.api@,
            module: self.module@,
            api_type: self.api_type,
            is_async: self.is_async,
            has_docstring: self.has_docstring,
            in_all: self.in_all,
            is_deprecated: self.is_deprecated,
            signature: self.signature@,
        }
    }
}

impl DeepView for APIMetadata {
    type V = APIMetadataView;

    open spec fn deep_view(&self) -> APIMetadataView {
        self.view()
    }
}

} // verus!
