//! Casing styles and the name transform. The transforms themselves are the
//! case conversions of the `heck` crate, taken on trust and named; everything
//! that chooses between them is verified.

use vstd::prelude::*;

use crate::errors::{GenError, GenErrorKind};
use crate::strutil::str_eq;

verus! {

/// Casing applied to an identifier to derive the displayed argument name.
#[derive(Copy, Clone, Debug, PartialEq, Eq, Structural)]
pub enum CasingStyle {
    /// Word boundaries as uppercase letters, excluding the first word.
    Camel,
    /// All lowercase, word boundaries as hyphens.
    Kebab,
    /// Word boundaries as uppercase letters, including the first word.
    Pascal,
    /// All uppercase, word boundaries as underscores.
    ScreamingSnake,
    /// All lowercase, word boundaries as underscores.
    Snake,
    /// The identifier as written in the code.
    Verbatim,
}

/// What `heck`'s upper camel case conversion returns.
pub uninterp spec fn camel_of(s: Seq<char>) -> Seq<char>;

/// What `heck`'s mixed (lower camel) case conversion returns.
pub uninterp spec fn mixed_of(s: Seq<char>) -> Seq<char>;

/// What `heck`'s kebab case conversion returns.
pub uninterp spec fn kebab_of(s: Seq<char>) -> Seq<char>;

/// What `heck`'s shouty snake case conversion returns.
pub uninterp spec fn shouty_snake_of(s: Seq<char>) -> Seq<char>;

/// What `heck`'s snake case conversion returns.
pub uninterp spec fn snake_of(s: Seq<char>) -> Seq<char>;

/// What `str::to_lowercase` returns.
pub uninterp spec fn lowercase_of(s: Seq<char>) -> Seq<char>;

/// Relies on `heck::CamelCase::to_camel_case`: upper camel case of the input,
/// a function of the characters alone.
#[verifier::external_body]
fn to_camel(s: &str) -> (r: String)
    ensures
        r@ == camel_of(s@),
{
    heck::CamelCase::to_camel_case(s)
}

/// Relies on `heck::MixedCase::to_mixed_case`: lower camel case of the input,
/// a function of the characters alone.
#[verifier::external_body]
fn to_mixed(s: &str) -> (r: String)
    ensures
        r@ == mixed_of(s@),
{
    heck::MixedCase::to_mixed_case(s)
}

/// Relies on `heck::KebabCase::to_kebab_case`: kebab case of the input, a
/// function of the characters alone.
#[verifier::external_body]
fn to_kebab(s: &str) -> (r: String)
    ensures
        r@ == kebab_of(s@),
{
    heck::KebabCase::to_kebab_case(s)
}

/// Relies on `heck::ShoutySnakeCase::to_shouty_snake_case`: shouty snake case
/// of the input, a function of the characters alone.
#[verifier::external_body]
fn to_shouty_snake(s: &str) -> (r: String)
    ensures
        r@ == shouty_snake_of(s@),
{
    heck::ShoutySnakeCase::to_shouty_snake_case(s)
}

/// Relies on `heck::SnakeCase::to_snake_case`: snake case of the input, a
/// function of the characters alone.
#[verifier::external_body]
fn to_snake(s: &str) -> (r: String)
    ensures
        r@ == snake_of(s@),
{
    heck::SnakeCase::to_snake_case(s)
}

/// Relies on `str::to_lowercase`: the lowercase form of the input, a function
/// of the characters alone.
#[verifier::external_body]
fn to_lowercase_str(s: &str) -> (r: String)
    ensures
        r@ == lowercase_of(s@),
{
    s.to_lowercase()
}

/// The name transform a casing style stands for; `Verbatim` keeps the input.
pub open spec fn spec_translate(cs: CasingStyle, s: Seq<char>) -> Seq<char> {
    match cs {
        CasingStyle::Pascal => camel_of(s),
        CasingStyle::Kebab => kebab_of(s),
        CasingStyle::Camel => mixed_of(s),
        CasingStyle::ScreamingSnake => shouty_snake_of(s),
        CasingStyle::Snake => snake_of(s),
        CasingStyle::Verbatim => s,
    }
}

impl CasingStyle {
    /// Applies the casing style's name transform to an identifier.
    pub fn translate(&self, input: &str) -> (r: String)
        ensures
            r@ == spec_translate(*self, input@),
    {
        match *self {
            CasingStyle::Pascal => to_camel(input),
            CasingStyle::Kebab => to_kebab(input),
            CasingStyle::Camel => to_mixed(input),
            CasingStyle::ScreamingSnake => to_shouty_snake(input),
            CasingStyle::Snake => to_snake(input),
            CasingStyle::Verbatim => String::from_str(input),
        }
    }

    /// The casing style a `rename_all` literal names. The literal is accepted
    /// in any spelling whose normal form (camel case, then lowercased) is one
    /// of the twelve keys recognized here.
    pub fn from_lit(lit: &str, span: u64) -> (r: Result<CasingStyle, GenError>)
        ensures
            match r {
                Ok(cs) => spec_casing_from_key(lowercase_of(camel_of(lit@))) == Some(cs),
                Err(e) => {
                    &&& spec_casing_from_key(lowercase_of(camel_of(lit@))) is None
                    &&& e == (GenError { kind: GenErrorKind::UnsupportedCasing, span })
                },
            },
    {
        let normalized = to_lowercase_str(to_camel(lit).as_str());
        match casing_from_key(normalized.as_str()) {
            Some(cs) => Ok(cs),
            None => Err(GenError { kind: GenErrorKind::UnsupportedCasing, span }),
        }
    }
}

/// The casing style named by a normalized key, if any.
pub open spec fn spec_casing_from_key(s: Seq<char>) -> Option<CasingStyle> {
    if s == "camel"@ || s == "camelcase"@ {
        Some(CasingStyle::Camel)
    } else if s == "kebab"@ || s == "kebabcase"@ {
        Some(CasingStyle::Kebab)
    } else if s == "pascal"@ || s == "pascalcase"@ {
        Some(CasingStyle::Pascal)
    } else if s == "screamingsnake"@ || s == "screamingsnakecase"@ {
        Some(CasingStyle::ScreamingSnake)
    } else if s == "snake"@ || s == "snakecase"@ {
        Some(CasingStyle::Snake)
    } else if s == "verbatim"@ || s == "verbatimcase"@ {
        Some(CasingStyle::Verbatim)
    } else {
        None
    }
}

/// The casing style named by a normalized key, if any.
pub fn casing_from_key(key: &str) -> (r: Option<CasingStyle>)
    ensures
        r == spec_casing_from_key(key@),
{
    if str_eq(key, "camel") || str_eq(key, "camelcase") {
        Some(CasingStyle::Camel)
    } else if str_eq(key, "kebab") || str_eq(key, "kebabcase") {
        Some(CasingStyle::Kebab)
    } else if str_eq(key, "pascal") || str_eq(key, "pascalcase") {
        Some(CasingStyle::Pascal)
    } else if str_eq(key, "screamingsnake") || str_eq(key, "screamingsnakecase") {
        Some(CasingStyle::ScreamingSnake)
    } else if str_eq(key, "snake") || str_eq(key, "snakecase") {
        Some(CasingStyle::Snake)
    } else if str_eq(key, "verbatim") || str_eq(key, "verbatimcase") {
        Some(CasingStyle::Verbatim)
    } else {
        None
    }
}

} // verus!
