//! The input surface: one annotated type declaration, held as plain values.
//! A declaration carries its identifier, its annotation blocks as token
//! sequences of the annotation mini-language, its doc-comment lines, and a
//! syntactic picture of each field type (the last path segment and, where the
//! path has exactly one type argument, that argument).

use vstd::prelude::*;

verus! {

/// A syntactic field type: only the final path segment and a single type
/// argument are kept, which is all the shape classifier inspects.
#[derive(Debug)]
pub enum TypeRepr {
    /// A path type, `last` being the final segment's identifier.
    Path { last: String, arg: Option<Box<TypeRepr>> },
    /// Any non-path type (references, tuples, ...).
    Opaque,
}

/// One token of the annotation mini-language, with the span it came from.
#[derive(Clone, Debug)]
pub enum AttrToken {
    /// An identifier.
    Ident { text: String, span: u64 },
    /// An equals sign.
    Eq { span: u64 },
    /// A string literal; `text` holds its value without quotes.
    LitStr { text: String, span: u64 },
    /// A boolean literal.
    LitBool { val: bool, span: u64 },
    /// Any other expression, kept verbatim as text.
    Expr { text: String, span: u64 },
    /// An opening parenthesis.
    OpenParen { span: u64 },
    /// A closing parenthesis.
    CloseParen { span: u64 },
    /// A comma separating items or arguments.
    Comma { span: u64 },
}

impl AttrToken {
    /// The span of any token.
    pub open spec fn spec_span(&self) -> u64 {
        match *self {
            AttrToken::Ident { span, .. } => span,
            AttrToken::Eq { span } => span,
            AttrToken::LitStr { span, .. } => span,
            AttrToken::LitBool { span, .. } => span,
            AttrToken::Expr { span, .. } => span,
            AttrToken::OpenParen { span } => span,
            AttrToken::CloseParen { span } => span,
            AttrToken::Comma { span } => span,
        }
    }

    /// The span of any token.
    pub fn span(&self) -> (s: u64)
        ensures
            s == self.spec_span(),
    {
        match *self {
            AttrToken::Ident { span, .. } => span,
            AttrToken::Eq { span } => span,
            AttrToken::LitStr { span, .. } => span,
            AttrToken::LitBool { span, .. } => span,
            AttrToken::Expr { span, .. } => span,
            AttrToken::OpenParen { span } => span,
            AttrToken::CloseParen { span } => span,
            AttrToken::Comma { span } => span,
        }
    }
}

/// The tokens inside one annotation block attached to a declaration.
#[derive(Clone, Debug)]
pub struct AttrBlock {
    pub tokens: Vec<AttrToken>,
    pub span: u64,
}

/// A named struct field (or a field of a struct-like variant).
#[derive(Debug)]
pub struct FieldDecl {
    pub name: String,
    pub name_span: u64,
    pub ty: TypeRepr,
    pub attrs: Vec<AttrBlock>,
    pub docs: Vec<String>,
}

/// The data carried by one enum variant.
#[derive(Debug)]
pub enum VariantData {
    /// A unit variant.
    Unit,
    /// A struct-like variant with named fields.
    Fields(Vec<FieldDecl>),
    /// A tuple-like variant wrapping other annotated types; only exactly one
    /// element is accepted by generation.
    Tuple(Vec<TypeRepr>),
}

/// One enum variant.
#[derive(Debug)]
pub struct VariantDecl {
    pub name: String,
    pub name_span: u64,
    pub attrs: Vec<AttrBlock>,
    pub docs: Vec<String>,
    pub data: VariantData,
}

/// The body of a declaration.
#[derive(Debug)]
pub enum TypeData {
    Struct(Vec<FieldDecl>),
    Enum(Vec<VariantDecl>),
}

/// One annotated type declaration.
#[derive(Debug)]
pub struct TypeDecl {
    pub name: String,
    pub name_span: u64,
    pub attrs: Vec<AttrBlock>,
    pub docs: Vec<String>,
    pub data: TypeData,
}

/// The four environment strings that supply defaults for name, version,
/// author and about; an empty string means the value is absent. Injected as a
/// plain configuration value so that generation is a pure function.
#[derive(Clone, Debug)]
pub struct EnvConfig {
    pub pkg_name: String,
    pub pkg_version: String,
    pub pkg_authors: String,
    pub pkg_description: String,
}

/// Mathematical image of an `EnvConfig`.
#[verifier::ext_equal]
pub struct EnvModel {
    pub pkg_name: Seq<char>,
    pub pkg_version: Seq<char>,
    pub pkg_authors: Seq<char>,
    pub pkg_description: Seq<char>,
}

impl EnvModel {
    /// The configuration with every default absent.
    pub open spec fn empty_model() -> EnvModel {
        EnvModel {
            pkg_name: Seq::empty(),
            pkg_version: Seq::empty(),
            pkg_authors: Seq::empty(),
            pkg_description: Seq::empty(),
        }
    }
}

impl View for EnvConfig {
    type V = EnvModel;

    open spec fn view(&self) -> EnvModel {
        EnvModel {
            pkg_name: self.pkg_name@,
            pkg_version: self.pkg_version@,
            pkg_authors: self.pkg_authors@,
            pkg_description: self.pkg_description@,
        }
    }
}

impl EnvConfig {
    /// A configuration with every default absent.
    pub fn empty() -> (r: EnvConfig)
        ensures
            r.pkg_name@ == Seq::<char>::empty(),
            r.pkg_version@ == Seq::<char>::empty(),
            r.pkg_authors@ == Seq::<char>::empty(),
            r.pkg_description@ == Seq::<char>::empty(),
    {
        EnvConfig {
            pkg_name: String::new(),
            pkg_version: String::new(),
            pkg_authors: String::new(),
            pkg_description: String::new(),
        }
    }
}

} // verus!
