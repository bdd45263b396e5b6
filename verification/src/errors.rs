//! Diagnostics: generation aborts with one hard error anchored at the span of
//! the offending token; decoding reports a defensive failure where the matched
//! values disagree with the generated definition.

use vstd::prelude::*;

verus! {

/// What went wrong while resolving annotations or generating the definition.
/// The span carried beside the kind points at the offending token.
#[derive(Copy, Clone, Debug, PartialEq, Eq, Structural)]
pub enum GenErrorKind {
    /// A bare identifier that is not part of the annotation language.
    UnexpectedAttribute,
    /// The annotation tokens do not follow the `name`, `name = value`,
    /// `name(args)` grammar.
    MalformedAttributeSyntax,
    /// `name =` with nothing usable after the equals sign.
    ExpectedValueAfterEq,
    /// `version`/`author`/`about` with an empty string literal: the default is
    /// now automatic, the empty form is rejected.
    EmptyLiteralDeprecated,
    /// A bare `version` annotation: the version comes from the environment.
    BareVersionAttribute,
    /// `raw(...)` with anything but a single boolean literal.
    RawDeprecated,
    /// `parse(...)` must carry exactly one parser specification.
    ParseArity,
    /// A parser kind outside the five recognized ones.
    UnsupportedParser,
    /// `try_from_os_str` has no default conversion, a function is required.
    MissingParserFunction,
    /// The parser function of `parse(kind = f)` must be a plain path.
    ParserFunctionNotPath,
    /// A `rename_all` value naming no known casing style.
    UnsupportedCasing,
    /// A field-only directive (`parse`, `subcommand`, `flatten`, `skip`) on a
    /// struct or enum itself.
    OnlyOnFields,
    /// `subcommand`, `flatten` and `skip` cannot be combined.
    ConflictingKind,
    /// A custom parser on a subcommand or flattened entry.
    InvalidParserForKind,
    /// Builder methods not allowed for this entity kind.
    MethodsNotAllowedForKind,
    /// A shape the entity kind cannot carry, such as a doubly optional type on
    /// a positional argument or on a subcommand.
    InvalidTypeForKind,
    /// `default_value` or `required` on a shape where it means nothing.
    MeaninglessMethodForShape,
    /// More than one field of one struct or variant marked `subcommand`.
    TooManySubcommandFields,
    /// A tuple-style variant with more than one wrapped element.
    TupleVariantArity,
    /// A flattened or subcommand child type that is not in the declaration set.
    UnknownChildType,
    /// Nesting of flattened and subcommand children deeper than the fuel given.
    RecursionLimitExceeded,
}

/// A fatal generation-time diagnostic with the source span it points at.
#[derive(Copy, Clone, Debug, PartialEq, Eq, Structural)]
pub struct GenError {
    pub kind: GenErrorKind,
    pub span: u64,
}

/// A decode-time failure: the matched values do not carry what the generated
/// definition guarantees, or a child type cannot be found.
#[derive(Copy, Clone, Debug, PartialEq, Eq, Structural)]
pub enum DecodeError {
    /// A required argument without a matched value.
    MissingValue,
    /// No subcommand selection where the field's shape demands one.
    MissingSubcommand,
    /// A selection that matches no variant name.
    UnknownSubcommand,
    /// A flattened or subcommand child type that is not in the declaration set.
    UnknownChildType,
    /// A declaration whose annotations do not resolve; generation would have
    /// rejected it, so decoding refuses it as well.
    InvalidDeclaration,
    /// Nesting deeper than the fuel given.
    RecursionLimitExceeded,
}

} // verus!
