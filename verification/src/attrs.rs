//! The attribute resolver: combines the shape classifier, the grammar
//! parser's directives, and the defaulting and casing rules into one
//! normalized record per entity. Both the builder generator and the decoder
//! consume this one record, which is what keeps them consistent.

use vstd::prelude::*;

use crate::ast::{EnvConfig, EnvModel, FieldDecl, TypeRepr};
use crate::casing::{camel_of, lowercase_of, spec_casing_from_key, spec_translate, CasingStyle};
use crate::errors::{GenError, GenErrorKind};
use crate::parse::{
    spec_parse_blocks, ClapAttr, ClapAttrModel, MethodArg, MethodArgModel, ParserSpecModel,
};
use crate::strutil::{
    spec_join, spec_replace_colons, spec_split, spec_trim, spec_trim_end_matches,
};

verus! {

/// Argument shape derived from a field's declared type: cardinality and
/// optionality of the command-line argument the field becomes.
#[derive(Copy, Clone, Debug, PartialEq, Eq, Structural)]
pub enum Ty {
    /// `bool`: a presence flag.
    Boolean,
    /// `Vec<T>`: zero or more values.
    List,
    /// `Option<T>`: zero or one value.
    Optional,
    /// `Option<Option<T>>`: absent, present without value, or present with a
    /// value.
    OptionalOptional,
    /// `Option<Vec<T>>`: absent, or present with zero or more values.
    OptionalList,
    /// Any other type: a single required value.
    Other,
}

/// The value-parsing strategy attached to an entity.
#[derive(Copy, Clone, Debug, PartialEq, Eq, Structural)]
pub enum Parser {
    /// An infallible `fn(&str) -> T`.
    FromStr,
    /// A fallible `fn(&str) -> Result<T, E>`; the default strategy.
    TryFromStr,
    /// An infallible `fn(&OsStr) -> T`.
    FromOsStr,
    /// A fallible `fn(&OsStr) -> Result<T, OsString>`; has no default
    /// function, one must be named.
    TryFromOsStr,
    /// The occurrence count of the argument, not a value.
    FromOccurrences,
}

/// What an entity is to the parser tree: a plain argument, a subcommand slot,
/// a flattened sub-structure, or skipped entirely.
#[derive(Copy, Clone, Debug, PartialEq, Eq, Structural)]
pub enum Kind {
    Arg(Ty),
    Subcommand(Ty),
    FlattenStruct,
    Skip,
}

/// One builder-method call to replay onto the parser definition.
#[derive(Clone, Debug)]
pub struct Method {
    pub name: String,
    pub args: Vec<MethodArg>,
}

/// Mathematical image of a `Method`.
#[verifier::ext_equal]
pub struct MethodModel {
    pub name: Seq<char>,
    pub args: Seq<MethodArgModel>,
}

impl View for Method {
    type V = MethodModel;

    open spec fn view(&self) -> MethodModel {
        MethodModel { name: self.name@, args: self.args@.map_values(|a: MethodArg| a@) }
    }
}

/// The normalized per-entity record: resolved display name, cased name,
/// casing style, ordered builder-method calls, parser strategy and entity
/// kind. Immutable once resolution is done.
#[derive(Debug)]
pub struct Attrs {
    pub name: String,
    pub cased_name: String,
    pub casing: CasingStyle,
    pub methods: Vec<Method>,
    pub parser: Parser,
    pub parse_func: String,
    pub parser_span: u64,
    pub has_custom_parser: bool,
    pub kind: Kind,
    pub kind_span: u64,
}

/// Mathematical image of an `Attrs` record.
#[verifier::ext_equal]
pub struct AttrsModel {
    pub name: Seq<char>,
    pub cased_name: Seq<char>,
    pub casing: CasingStyle,
    pub methods: Seq<MethodModel>,
    pub parser: Parser,
    pub parse_func: Seq<char>,
    pub parser_span: u64,
    pub has_custom_parser: bool,
    pub kind: Kind,
    pub kind_span: u64,
}

impl View for Attrs {
    type V = AttrsModel;

    open spec fn view(&self) -> AttrsModel {
        AttrsModel {
            name: self.name@,
            cased_name: self.cased_name@,
            casing: self.casing,
            methods: self.methods@.map_values(|m: Method| m@),
            parser: self.parser,
            parse_func: self.parse_func@,
            parser_span: self.parser_span,
            has_custom_parser: self.has_custom_parser,
            kind: self.kind,
            kind_span: self.kind_span,
        }
    }
}

/// With a custom parser the `Boolean` special case (and every other scalar
/// shape) collapses to a plain required value; only the container shapes
/// `Optional` and `List` keep their cardinality.
pub open spec fn spec_convert_with_custom_parse(cur_type: Ty) -> Ty {
    match cur_type {
        Ty::Optional => Ty::Optional,
        Ty::List => Ty::List,
        _ => Ty::Other,
    }
}

/// Shape kept by a custom parser: the container shapes survive, everything
/// else becomes a plain value.
pub fn convert_with_custom_parse(cur_type: Ty) -> (t: Ty)
    ensures
        t == spec_convert_with_custom_parse(cur_type),
{
    match cur_type {
        Ty::Optional => Ty::Optional,
        Ty::List => Ty::List,
        _ => Ty::Other,
    }
}

/// The shape of a declared type. Purely syntactic: only the final path
/// segment is inspected, and one `Option` layer is unwrapped to promote
/// `Option<Option<T>>` and `Option<Vec<T>>`.
pub open spec fn spec_ty_of(t: TypeRepr) -> Ty
    decreases t,
{
    match t {
        TypeRepr::Opaque => Ty::Other,
        TypeRepr::Path { last, arg } => {
            if last@ == "bool"@ {
                Ty::Boolean
            } else if last@ == "Vec"@ {
                Ty::List
            } else if last@ == "Option"@ {
                match arg {
                    Option::None => Ty::Optional,
                    Option::Some(b) => {
                        let inner = spec_ty_of(*b);
                        if inner is Optional {
                            Ty::OptionalOptional
                        } else if inner is List {
                            Ty::OptionalList
                        } else {
                            Ty::Optional
                        }
                    },
                }
            } else {
                Ty::Other
            }
        },
    }
}

/// Classifies a declared type into its argument shape.
pub fn ty_from_field(t: &TypeRepr) -> (r: Ty)
    ensures
        r == spec_ty_of(*t),
    decreases *t,
{
    match t {
        TypeRepr::Opaque => Ty::Other,
        TypeRepr::Path { last, arg } => {
            if crate::strutil::string_eq_str(last, "bool") {
                Ty::Boolean
            } else if crate::strutil::string_eq_str(last, "Vec") {
                Ty::List
            } else if crate::strutil::string_eq_str(last, "Option") {
                match arg {
                    Option::None => Ty::Optional,
                    Option::Some(b) => {
                        let inner = ty_from_field(&**b);
                        if inner == Ty::Optional {
                            Ty::OptionalOptional
                        } else if inner == Ty::List {
                            Ty::OptionalList
                        } else {
                            Ty::Optional
                        }
                    },
                }
            } else {
                Ty::Other
            }
        },
    }
}

/// Index of the first method with the given name, or `-1`.
pub open spec fn spec_find_method(ms: Seq<MethodModel>, name: Seq<char>) -> int
    decreases ms.len(),
{
    if ms.len() == 0 {
        -1
    } else if ms[0].name == name {
        0
    } else {
        let r = spec_find_method(ms.drop_first(), name);
        if r < 0 {
            -1
        } else {
            r + 1
        }
    }
}

pub proof fn lemma_find_method_none(ms: Seq<MethodModel>, name: Seq<char>)
    requires
        forall|k: int| 0 <= k < ms.len() ==> ms[k].name != name,
    ensures
        spec_find_method(ms, name) == -1,
    decreases ms.len(),
{
    if ms.len() > 0 {
        lemma_find_method_none(ms.drop_first(), name);
    }
}

pub proof fn lemma_find_method_is(ms: Seq<MethodModel>, name: Seq<char>, i: int)
    requires
        0 <= i < ms.len(),
        ms[i].name == name,
        forall|k: int| 0 <= k < i ==> ms[k].name != name,
    ensures
        spec_find_method(ms, name) == i,
    decreases ms.len(),
{
    if i > 0 {
        lemma_find_method_is(ms.drop_first(), name, i - 1);
    }
}

/// The default casing for generated argument names.
pub open spec fn spec_default_casing() -> CasingStyle {
    CasingStyle::Kebab
}

/// A freshly seeded record: cased name derived from the identifier by the
/// inherited casing, no methods, the default fallible string parser, and a
/// plain-argument kind.
pub open spec fn spec_new_attrs(name: Seq<char>, casing: CasingStyle) -> AttrsModel {
    AttrsModel {
        name,
        cased_name: spec_translate(casing, name),
        casing,
        methods: Seq::empty(),
        parser: Parser::TryFromStr,
        parse_func: "::std::str::FromStr::from_str"@,
        parser_span: 0,
        has_custom_parser: false,
        kind: Kind::Arg(Ty::Other),
        kind_span: 0,
    }
}

/// A method list with the named method overwritten in place, or pushed at the
/// end if it was not present.
pub open spec fn spec_set_method(
    ms: Seq<MethodModel>,
    name: Seq<char>,
    args: Seq<MethodArgModel>,
) -> Seq<MethodModel> {
    let i = spec_find_method(ms, name);
    if 0 <= i < ms.len() {
        ms.update(i, MethodModel { name, args })
    } else {
        ms.push(MethodModel { name, args })
    }
}

/// The string-valued method rule: an empty `about`/`version`/`author` removes
/// the method entirely; `name` overrides the display name verbatim, bypassing
/// the casing; anything else is pushed with the overwrite-on-same-name rule.
pub open spec fn spec_push_str_method(
    m: AttrsModel,
    name: Seq<char>,
    arg: Seq<char>,
) -> AttrsModel {
    if (name == "about"@ || name == "version"@ || name == "author"@) && arg.len() == 0 {
        AttrsModel { methods: m.methods.filter(|mm: MethodModel| mm.name != name), ..m }
    } else if name == "name"@ {
        AttrsModel { name: arg, cased_name: arg, ..m }
    } else {
        AttrsModel {
            methods: spec_set_method(
                m.methods,
                name,
                Seq::empty().push(MethodArgModel::AStr(arg)),
            ),
            ..m
        }
    }
}

/// Setting the entity kind: only the default plain-argument kind can be
/// replaced; a second non-argument kind is a conflict.
pub open spec fn spec_set_kind(m: AttrsModel, kind: Kind, span: u64) -> Result<
    AttrsModel,
    GenError,
> {
    if m.kind is Arg {
        Ok(AttrsModel { kind, kind_span: span, ..m })
    } else {
        Err(GenError { kind: GenErrorKind::ConflictingKind, span })
    }
}

/// The parser strategy a `parse(...)` kind identifier names.
pub open spec fn spec_parser_kind(kind: Seq<char>) -> Option<Parser> {
    if kind == "from_str"@ {
        Option::Some(Parser::FromStr)
    } else if kind == "try_from_str"@ {
        Option::Some(Parser::TryFromStr)
    } else if kind == "from_os_str"@ {
        Option::Some(Parser::FromOsStr)
    } else if kind == "try_from_os_str"@ {
        Option::Some(Parser::TryFromOsStr)
    } else if kind == "from_occurrences"@ {
        Option::Some(Parser::FromOccurrences)
    } else {
        Option::None
    }
}

/// The ambient conversion used when `parse(kind)` names no function.
pub open spec fn spec_default_func(p: Parser) -> Seq<char> {
    match p {
        Parser::FromStr => "::std::convert::From::from"@,
        Parser::TryFromStr => "::std::str::FromStr::from_str"@,
        Parser::FromOsStr => "::std::convert::From::from"@,
        Parser::TryFromOsStr => Seq::empty(),
        Parser::FromOccurrences => "|v| v as _"@,
    }
}

/// Whether a character may appear in a plain function path.
pub open spec fn spec_is_path_char(c: char) -> bool {
    ('a' <= c && c <= 'z') || ('A' <= c && c <= 'Z') || ('0' <= c && c <= '9') || c == '_' || c
        == ':' || c == '<' || c == '>' || c == ' '
}

/// Whether a text is shaped like a function path.
pub open spec fn spec_is_path_text(s: Seq<char>) -> bool {
    s.len() > 0 && (forall|i: int| 0 <= i < s.len() ==> spec_is_path_char(#[trigger] s[i]))
}

/// Resolving one `parse(...)` directive onto the record.
pub open spec fn spec_apply_parse(
    m: AttrsModel,
    span: u64,
    ps: ParserSpecModel,
) -> Result<AttrsModel, GenError> {
    match spec_parser_kind(ps.kind) {
        Option::None => Err(GenError { kind: GenErrorKind::UnsupportedParser, span: ps.kind_span }),
        Option::Some(p) => match ps.parse_func {
            Option::None => {
                if p is TryFromOsStr {
                    Err(GenError { kind: GenErrorKind::MissingParserFunction, span: ps.kind_span })
                } else {
                    Ok(
                        AttrsModel {
                            parser: p,
                            parse_func: spec_default_func(p),
                            parser_span: span,
                            has_custom_parser: true,
                            ..m
                        },
                    )
                }
            },
            Option::Some(f) => {
                if f.is_str_lit || !spec_is_path_text(f.text) {
                    Err(GenError { kind: GenErrorKind::ParserFunctionNotPath, span: f.span })
                } else {
                    Ok(
                        AttrsModel {
                            parser: p,
                            parse_func: f.text,
                            parser_span: span,
                            has_custom_parser: true,
                            ..m
                        },
                    )
                }
            },
        },
    }
}

/// Folding one directive into the record.
pub open spec fn spec_push_attr(
    m: AttrsModel,
    d: ClapAttrModel,
    env: EnvModel,
) -> Result<AttrsModel, GenError> {
    match d {
        ClapAttrModel::Short { .. } => Ok(spec_push_str_method(m, "short"@, m.cased_name)),
        ClapAttrModel::Long { .. } => Ok(spec_push_str_method(m, "long"@, m.cased_name)),
        ClapAttrModel::Subcommand { span } => spec_set_kind(m, Kind::Subcommand(Ty::Other), span),
        ClapAttrModel::Flatten { span } => spec_set_kind(m, Kind::FlattenStruct, span),
        ClapAttrModel::Skip { span } => spec_set_kind(m, Kind::Skip, span),
        ClapAttrModel::NoVersion { .. } => Ok(spec_push_str_method(m, "version"@, Seq::empty())),
        ClapAttrModel::About { value: Option::Some(v), .. } => Ok(
            spec_push_str_method(m, "about"@, v),
        ),
        ClapAttrModel::About { value: Option::None, .. } => Ok(
            spec_push_str_method(m, "about"@, env.pkg_description),
        ),
        ClapAttrModel::Author { value: Option::Some(v), .. } => Ok(
            spec_push_str_method(m, "author"@, v),
        ),
        ClapAttrModel::Author { value: Option::None, .. } => Ok(
            spec_push_str_method(m, "author"@, spec_replace_colons(env.pkg_authors)),
        ),
        ClapAttrModel::Version { value, .. } => Ok(spec_push_str_method(m, "version"@, value)),
        ClapAttrModel::RenameAll { value, value_span, .. } => {
            match spec_casing_from_key(lowercase_of(camel_of(value))) {
                Option::Some(cs) => Ok(
                    AttrsModel {
                        casing: cs,
                        cased_name: spec_translate(cs, m.name),
                        ..m
                    },
                ),
                Option::None => Err(
                    GenError { kind: GenErrorKind::UnsupportedCasing, span: value_span },
                ),
            }
        },
        ClapAttrModel::NameLitStr { name, value, .. } => Ok(spec_push_str_method(m, name, value)),
        ClapAttrModel::NameExpr { name, expr, .. } => Ok(
            AttrsModel {
                methods: m.methods.push(
                    MethodModel { name, args: Seq::empty().push(MethodArgModel::ARaw(expr)) },
                ),
                ..m
            },
        ),
        ClapAttrModel::MethodCall { name, args, .. } => Ok(
            AttrsModel { methods: m.methods.push(MethodModel { name, args }), ..m },
        ),
        ClapAttrModel::Parse { span, parser } => spec_apply_parse(m, span, parser),
    }
}

/// Folding a directive list into the record, left to right, stopping at the
/// first error.
pub open spec fn spec_fold_attrs(
    m: AttrsModel,
    ds: Seq<ClapAttrModel>,
    env: EnvModel,
) -> Result<AttrsModel, GenError>
    decreases ds.len(),
{
    if ds.len() == 0 {
        Ok(m)
    } else {
        match spec_push_attr(m, ds[0], env) {
            Err(e) => Err(e),
            Ok(m2) => spec_fold_attrs(m2, ds.drop_first(), env),
        }
    }
}

/// A single space, as a sequence.
pub open spec fn one_space() -> Seq<char> {
    Seq::empty().push(' ')
}

/// A single newline, as a sequence.
pub open spec fn one_newline() -> Seq<char> {
    Seq::empty().push('\n')
}

/// The blank-line marker a doc comment's empty line becomes.
pub open spec fn two_newlines() -> Seq<char> {
    Seq::empty().push('\n').push('\n')
}

/// One doc line prepared for merging: trimmed, with an empty line turned into
/// the blank-line marker.
pub open spec fn spec_doc_mark(d: Seq<char>) -> Seq<char> {
    if spec_trim(d).len() == 0 {
        two_newlines()
    } else {
        spec_trim(d)
    }
}

/// The merged doc text: marks joined with spaces, re-split at newlines, each
/// line trimmed, and joined back with newlines.
pub open spec fn spec_merged_lines(marks: Seq<Seq<char>>) -> Seq<char> {
    spec_join(
        spec_split(spec_join(marks, one_space()), '\n').map_values(|l: Seq<char>| spec_trim(l)),
        one_newline(),
    )
}

/// Folding a doc comment into the record as a `help`/`about` method call.
/// When the second line is blank and more follow, the text splits: the full
/// merged text goes to `long_<name>`, and the first line, trailing periods
/// stripped, becomes the short `<name>` text.
pub open spec fn spec_push_doc(
    m: AttrsModel,
    docs: Seq<Seq<char>>,
    name: Seq<char>,
) -> AttrsModel {
    if docs.len() == 0 {
        m
    } else {
        let marks = docs.map_values(|d: Seq<char>| spec_doc_mark(d));
        let merged = spec_merged_lines(marks);
        let split = docs.len() > 2 && marks[1] == two_newlines();
        if split {
            let short = spec_trim_end_matches(spec_trim(marks[0]), '.');
            AttrsModel {
                methods: m.methods.push(
                    MethodModel {
                        name: "long_"@ + name,
                        args: Seq::empty().push(MethodArgModel::AStr(merged)),
                    },
                ).push(
                    MethodModel { name, args: Seq::empty().push(MethodArgModel::AStr(short)) },
                ),
                ..m
            }
        } else {
            AttrsModel {
                methods: m.methods.push(
                    MethodModel { name, args: Seq::empty().push(MethodArgModel::AStr(merged)) },
                ),
                ..m
            }
        }
    }
}

/// The record of a struct or enum declaration: environment defaults for
/// version and author first (explicit directives then silently override
/// them), the doc comment as the default `about`, then the directives; a
/// custom parser or a field-only kind is rejected here.
pub open spec fn spec_from_struct(
    attrs: Seq<crate::ast::AttrBlock>,
    docs: Seq<Seq<char>>,
    name: Seq<char>,
    casing: CasingStyle,
    env: EnvModel,
) -> Result<AttrsModel, GenError> {
    match spec_parse_blocks(attrs) {
        Err(e) => Err(e),
        Ok(ds) => {
            let m0 = spec_new_attrs(name, casing);
            let m1 = if env.pkg_version.len() > 0 {
                spec_push_str_method(m0, "version"@, env.pkg_version)
            } else {
                m0
            };
            let m2 = if env.pkg_authors.len() > 0 {
                spec_push_str_method(m1, "author"@, spec_replace_colons(env.pkg_authors))
            } else {
                m1
            };
            let m3 = spec_push_doc(m2, docs, "about"@);
            match spec_fold_attrs(m3, ds, env) {
                Err(e) => Err(e),
                Ok(m4) => {
                    if m4.has_custom_parser {
                        Err(GenError { kind: GenErrorKind::OnlyOnFields, span: m4.parser_span })
                    } else if !(m4.kind is Arg) {
                        Err(GenError { kind: GenErrorKind::OnlyOnFields, span: m4.kind_span })
                    } else {
                        Ok(m4)
                    }
                },
            }
        },
    }
}

/// Whether some method of the record has the given name.
pub open spec fn spec_has_method(m: AttrsModel, name: Seq<char>) -> bool {
    spec_find_method(m.methods, name) >= 0
}

/// Whether the record carries a method other than `help`.
pub open spec fn spec_has_nonhelp_method(m: AttrsModel) -> bool {
    exists|k: int| 0 <= k < m.methods.len() && (#[trigger] m.methods[k].name) != "help"@
}

/// The cross-validation of a field's resolved kind against its type shape,
/// and the final kind refinement; mirrors the per-kind rules of the resolver.
pub open spec fn spec_validate_field(m: AttrsModel, f: FieldDecl) -> Result<AttrsModel, GenError> {
    match m.kind {
        Kind::FlattenStruct => {
            if m.has_custom_parser {
                Err(GenError { kind: GenErrorKind::InvalidParserForKind, span: m.parser_span })
            } else if m.methods.len() > 0 {
                Err(GenError { kind: GenErrorKind::MethodsNotAllowedForKind, span: m.kind_span })
            } else {
                Ok(m)
            }
        },
        Kind::Subcommand(_) => {
            if m.has_custom_parser {
                Err(GenError { kind: GenErrorKind::InvalidParserForKind, span: m.parser_span })
            } else if spec_has_nonhelp_method(m) {
                Err(GenError { kind: GenErrorKind::MethodsNotAllowedForKind, span: m.kind_span })
            } else {
                let ty = spec_ty_of(f.ty);
                if ty is OptionalOptional || ty is OptionalList {
                    Err(GenError { kind: GenErrorKind::InvalidTypeForKind, span: f.name_span })
                } else {
                    Ok(AttrsModel { kind: Kind::Subcommand(ty), ..m })
                }
            }
        },
        Kind::Skip => {
            if spec_has_nonhelp_method(m) {
                Err(GenError { kind: GenErrorKind::MethodsNotAllowedForKind, span: m.kind_span })
            } else {
                Ok(m)
            }
        },
        Kind::Arg(_) => {
            let ty0 = spec_ty_of(f.ty);
            let ty = if m.has_custom_parser {
                spec_convert_with_custom_parse(ty0)
            } else {
                ty0
            };
            if (ty is Boolean || ty is Optional) && spec_has_method(m, "default_value"@) {
                Err(GenError { kind: GenErrorKind::MeaninglessMethodForShape, span: f.name_span })
            } else if (ty is Boolean || ty is Optional) && spec_has_method(m, "required"@) {
                Err(GenError { kind: GenErrorKind::MeaninglessMethodForShape, span: f.name_span })
            } else if (ty is OptionalOptional || ty is OptionalList) && !(spec_has_method(
                m,
                "long"@,
            ) || spec_has_method(m, "short"@)) {
                Err(GenError { kind: GenErrorKind::InvalidTypeForKind, span: f.name_span })
            } else {
                Ok(AttrsModel { kind: Kind::Arg(ty), ..m })
            }
        },
    }
}

/// The record of one field: seeded from the identifier with the struct's
/// casing, the doc comment as the default `help`, the directives folded in,
/// and the kind/shape cross-validation applied. Fields get no environment
/// defaults.
pub open spec fn spec_from_field(f: FieldDecl, struct_casing: CasingStyle) -> Result<
    AttrsModel,
    GenError,
> {
    match spec_parse_blocks(f.attrs@) {
        Err(e) => Err(e),
        Ok(ds) => {
            let m0 = spec_new_attrs(f.name@, struct_casing);
            let m1 = spec_push_doc(m0, f.docs@.map_values(|s: String| s@), "help"@);
            match spec_fold_attrs(m1, ds, EnvModel::empty_model()) {
                Err(e) => Err(e),
                Ok(m2) => spec_validate_field(m2, f),
            }
        },
    }
}

/// Whether a text is shaped like a function path.
pub fn is_path_text(s: &String) -> (r: bool)
    ensures
        r == spec_is_path_text(s@),
{
    let cs = crate::strutil::chars_of(s.as_str());
    if cs.len() == 0 {
        return false;
    }
    let mut i: usize = 0;
    while i < cs.len()
        invariant
            cs@ == s@,
            i <= cs@.len(),
            forall|k: int| 0 <= k < i ==> spec_is_path_char(#[trigger] cs@[k]),
        decreases cs@.len() - i,
    {
        let c = cs[i];
        let ok = ('a' <= c && c <= 'z') || ('A' <= c && c <= 'Z') || ('0' <= c && c <= '9') || c
            == '_' || c == ':' || c == '<' || c == '>' || c == ' ';
        if !ok {
            return false;
        }
        i = i + 1;
    }
    true
}

/// Overwrites the first method of this name, or pushes a new one.
#[verifier::loop_isolation(false)]
fn set_method(ms: &mut Vec<Method>, name: String, arg: String)
    ensures
        final(ms)@.map_values(|m: Method| m@) == spec_set_method(
            old(ms)@.map_values(|m: Method| m@),
            name@,
            Seq::empty().push(MethodArgModel::AStr(arg@)),
        ),
{
    let ghost msm = ms@.map_values(|m: Method| m@);
    let ghost namev = name@;
    let ghost argv = arg@;
    let mut args: Vec<MethodArg> = Vec::new();
    args.push(MethodArg::Str(arg));
    let new_method = Method { name, args };
    proof {
        assert(new_method@.args =~= Seq::empty().push(MethodArgModel::AStr(argv)));
        assert(new_method@ == (MethodModel {
            name: namev,
            args: Seq::empty().push(MethodArgModel::AStr(argv)),
        }));
    }
    let mut i: usize = 0;
    while i < ms.len()
        invariant
            msm == ms@.map_values(|m: Method| m@),
            i <= ms@.len(),
            forall|k: int| 0 <= k < i ==> (#[trigger] msm[k]).name != namev,
        decreases ms@.len() - i,
    {
        if crate::strutil::string_eq_str(&ms[i].name, new_method.name.as_str()) {
            proof {
                assert(msm[i as int] == ms@[i as int]@);
                lemma_find_method_is(msm, namev, i as int);
            }
            vstd::pervasive::VecAdditionalExecFns::set(ms, i, new_method);
            proof {
                assert(ms@.map_values(|m: Method| m@) =~= msm.update(
                    i as int,
                    MethodModel {
                        name: namev,
                        args: Seq::empty().push(MethodArgModel::AStr(argv)),
                    },
                ));
            }
            return ;
        }
        proof {
            assert(msm[i as int] == ms@[i as int]@);
        }
        i = i + 1;
    }
    proof {
        lemma_find_method_none(msm, namev);
    }
    ms.push(new_method);
    proof {
        assert(ms@.map_values(|m: Method| m@) =~= msm.push(
            MethodModel { name: namev, args: Seq::empty().push(MethodArgModel::AStr(argv)) },
        ));
    }
}

/// Removes every method with this name.
fn remove_methods_named(ms: &mut Vec<Method>, name: &str)
    ensures
        final(ms)@.map_values(|m: Method| m@) == old(ms)@.map_values(|m: Method| m@).filter(
            |mm: MethodModel| mm.name != name@,
        ),
{
    let ghost msm = old(ms)@.map_values(|m: Method| m@);
    let ghost pred = |mm: MethodModel| mm.name != name@;
    let n = ms.len();
    let mut out: Vec<Method> = Vec::new();
    let mut i: usize = 0;
    proof {
        assert(msm.take(0) =~= Seq::<MethodModel>::empty());
        reveal(Seq::filter);
    }
    while i < n
        invariant
            n == ms@.len(),
            msm == ms@.map_values(|m: Method| m@),
            i <= n,
            out@.map_values(|m: Method| m@) == msm.take(i as int).filter(pred),
            pred == (|mm: MethodModel| mm.name != name@),
        decreases n - i,
    {
        let ghost outm = out@.map_values(|m: Method| m@);
        let keep = !crate::strutil::string_eq_str(&ms[i].name, name);
        if keep {
            let m = Method {
                name: ms[i].name.clone(),
                args: clone_args(&ms[i].args),
            };
            proof {
                assert(m@ == msm[i as int]);
            }
            out.push(m);
        }
        proof {
            reveal(Seq::filter);
            assert(msm.take(i + 1).drop_last() =~= msm.take(i as int));
            assert(msm.take(i + 1).last() == msm[i as int]);
            assert(msm[i as int] == ms@[i as int]@);
            if keep {
                assert(out@.map_values(|m: Method| m@) =~= outm.push(msm[i as int]));
            }
        }
        i = i + 1;
    }
    proof {
        assert(msm.take(n as int) =~= msm);
    }
    *ms = out;
}

/// A copy of a method-argument list.
pub(crate) fn clone_args(args: &Vec<MethodArg>) -> (r: Vec<MethodArg>)
    ensures
        r@.map_values(|a: MethodArg| a@) == args@.map_values(|a: MethodArg| a@),
{
    let mut r: Vec<MethodArg> = Vec::new();
    let mut i: usize = 0;
    while i < args.len()
        invariant
            i <= args@.len(),
            r@.map_values(|a: MethodArg| a@) == args@.take(i as int).map_values(
                |a: MethodArg| a@,
            ),
        decreases args@.len() - i,
    {
        let ghost rm = r@.map_values(|a: MethodArg| a@);
        let a = match &args[i] {
            MethodArg::Str(s) => MethodArg::Str(s.clone()),
            MethodArg::Raw(s) => MethodArg::Raw(s.clone()),
        };
        proof {
            assert(a@ == args@[i as int]@);
        }
        r.push(a);
        proof {
            assert(r@.map_values(|x: MethodArg| x@) =~= rm.push(args@[i as int]@));
            assert(args@.take(i + 1).map_values(|x: MethodArg| x@) =~= args@.take(
                i as int,
            ).map_values(|x: MethodArg| x@).push(args@[i as int]@));
        }
        i = i + 1;
    }
    proof {
        assert(args@.take(args@.len() as int) =~= args@);
    }
    r
}

/// The parser strategy a `parse(...)` kind identifier names.
fn parser_kind_of(kind: &String) -> (r: Option<Parser>)
    ensures
        r == spec_parser_kind(kind@),
{
    if crate::strutil::string_eq_str(kind, "from_str") {
        Option::Some(Parser::FromStr)
    } else if crate::strutil::string_eq_str(kind, "try_from_str") {
        Option::Some(Parser::TryFromStr)
    } else if crate::strutil::string_eq_str(kind, "from_os_str") {
        Option::Some(Parser::FromOsStr)
    } else if crate::strutil::string_eq_str(kind, "try_from_os_str") {
        Option::Some(Parser::TryFromOsStr)
    } else if crate::strutil::string_eq_str(kind, "from_occurrences") {
        Option::Some(Parser::FromOccurrences)
    } else {
        Option::None
    }
}

/// The ambient conversion used when `parse(kind)` names no function.
fn default_func_of(p: Parser) -> (r: String)
    ensures
        r@ == spec_default_func(p),
{
    match p {
        Parser::FromStr => String::from_str("::std::convert::From::from"),
        Parser::TryFromStr => String::from_str("::std::str::FromStr::from_str"),
        Parser::FromOsStr => String::from_str("::std::convert::From::from"),
        Parser::TryFromOsStr => String::new(),
        Parser::FromOccurrences => String::from_str("|v| v as _"),
    }
}

/// A copy of a method list.
pub(crate) fn clone_methods(ms: &Vec<Method>) -> (r: Vec<Method>)
    ensures
        r@.map_values(|m: Method| m@) == ms@.map_values(|m: Method| m@),
{
    let mut r: Vec<Method> = Vec::new();
    let mut i: usize = 0;
    while i < ms.len()
        invariant
            i <= ms@.len(),
            r@.map_values(|m: Method| m@) == ms@.take(i as int).map_values(|m: Method| m@),
        decreases ms@.len() - i,
    {
        let ghost rm = r@.map_values(|m: Method| m@);
        let m = Method { name: ms[i].name.clone(), args: clone_args(&ms[i].args) };
        proof {
            assert(m@ == ms@[i as int]@);
        }
        r.push(m);
        proof {
            assert(r@.map_values(|x: Method| x@) =~= rm.push(ms@[i as int]@));
            assert(ms@.take(i + 1).map_values(|x: Method| x@) =~= ms@.take(i as int).map_values(
                |x: Method| x@,
            ).push(ms@[i as int]@));
        }
        i = i + 1;
    }
    proof {
        assert(ms@.take(ms@.len() as int) =~= ms@);
    }
    r
}

impl Attrs {
    /// A freshly seeded record for an identifier under the inherited casing.
    pub fn new(name: String, casing: CasingStyle) -> (a: Attrs)
        ensures
            a@ == spec_new_attrs(name@, casing),
    {
        let cased_name = casing.translate(name.as_str());
        let a = Attrs {
            name,
            cased_name,
            casing,
            methods: Vec::new(),
            parser: Parser::TryFromStr,
            parse_func: String::from_str("::std::str::FromStr::from_str"),
            parser_span: 0,
            has_custom_parser: false,
            kind: Kind::Arg(Ty::Other),
            kind_span: 0,
        };
        proof {
            assert(a@.methods =~= Seq::<MethodModel>::empty());
        }
        a
    }

    /// Applies the string-valued method rule to this record.
    fn push_str_method(&mut self, name: &str, arg: String)
        ensures
            final(self)@ == spec_push_str_method(old(self)@, name@, arg@),
    {
        let is_removable = crate::strutil::str_eq(name, "about") || crate::strutil::str_eq(
            name,
            "version",
        ) || crate::strutil::str_eq(name, "author");
        if is_removable && arg.as_str().unicode_len() == 0 {
            remove_methods_named(&mut self.methods, name);
        } else if crate::strutil::str_eq(name, "name") {
            self.cased_name = arg.clone();
            self.name = arg;
        } else {
            set_method(&mut self.methods, String::from_str(name), arg);
        }
    }

    /// Replaces the default plain-argument kind; errors on a second
    /// non-argument kind.
    fn set_kind(&mut self, kind: Kind, span: u64) -> (r: Result<(), GenError>)
        ensures
            match r {
                Ok(_) => spec_set_kind(old(self)@, kind, span) == Ok::<AttrsModel, GenError>(
                    final(self)@,
                ),
                Err(e) => spec_set_kind(old(self)@, kind, span) == Err::<AttrsModel, GenError>(e),
            },
    {
        match self.kind {
            Kind::Arg(_) => {
                self.kind = kind;
                self.kind_span = span;
                Ok(())
            },
            _ => Err(GenError { kind: GenErrorKind::ConflictingKind, span }),
        }
    }

    /// Folds one directive into this record.
    fn apply_attr(&mut self, d: &ClapAttr, env: &EnvConfig) -> (r: Result<(), GenError>)
        ensures
            match r {
                Ok(_) => spec_push_attr(old(self)@, d@, env@) == Ok::<AttrsModel, GenError>(
                    final(self)@,
                ),
                Err(e) => spec_push_attr(old(self)@, d@, env@) == Err::<AttrsModel, GenError>(e),
            },
    {
        match d {
            ClapAttr::Short { .. } => {
                let arg = self.cased_name.clone();
                self.push_str_method("short", arg);
                Ok(())
            },
            ClapAttr::Long { .. } => {
                let arg = self.cased_name.clone();
                self.push_str_method("long", arg);
                Ok(())
            },
            ClapAttr::Subcommand { span } => self.set_kind(Kind::Subcommand(Ty::Other), *span),
            ClapAttr::Flatten { span } => self.set_kind(Kind::FlattenStruct, *span),
            ClapAttr::Skip { span } => self.set_kind(Kind::Skip, *span),
            ClapAttr::NoVersion { .. } => {
                self.push_str_method("version", String::new());
                Ok(())
            },
            ClapAttr::About { value, .. } => {
                match value {
                    Option::Some(v) => self.push_str_method("about", v.clone()),
                    Option::None => self.push_str_method("about", env.pkg_description.clone()),
                }
                Ok(())
            },
            ClapAttr::Author { value, .. } => {
                match value {
                    Option::Some(v) => self.push_str_method("author", v.clone()),
                    Option::None => {
                        let formatted = crate::strutil::replace_colons(env.pkg_authors.as_str());
                        self.push_str_method("author", formatted);
                    },
                }
                Ok(())
            },
            ClapAttr::Version { value, .. } => {
                self.push_str_method("version", value.clone());
                Ok(())
            },
            ClapAttr::RenameAll { value, value_span, .. } => {
                match CasingStyle::from_lit(value.as_str(), *value_span) {
                    Err(e) => Err(e),
                    Ok(cs) => {
                        self.casing = cs;
                        self.cased_name = cs.translate(self.name.as_str());
                        Ok(())
                    },
                }
            },
            ClapAttr::NameLitStr { name, value, .. } => {
                self.push_str_method(name.as_str(), value.clone());
                Ok(())
            },
            ClapAttr::NameExpr { name, expr, .. } => {
                let ghost msm = self@.methods;
                let mut args: Vec<MethodArg> = Vec::new();
                args.push(MethodArg::Raw(expr.clone()));
                let m = Method { name: name.clone(), args };
                proof {
                    assert(m@.args =~= Seq::empty().push(MethodArgModel::ARaw(expr@)));
                }
                self.methods.push(m);
                proof {
                    assert(self@.methods =~= msm.push(
                        MethodModel {
                            name: name@,
                            args: Seq::empty().push(MethodArgModel::ARaw(expr@)),
                        },
                    ));
                }
                Ok(())
            },
            ClapAttr::MethodCall { name, args, .. } => {
                let ghost msm = self@.methods;
                let m = Method { name: name.clone(), args: clone_args(args) };
                proof {
                    assert(m@ == (MethodModel {
                        name: name@,
                        args: args@.map_values(|a: MethodArg| a@),
                    }));
                }
                self.methods.push(m);
                proof {
                    assert(self@.methods =~= msm.push(
                        MethodModel { name: name@, args: args@.map_values(|a: MethodArg| a@) },
                    ));
                }
                Ok(())
            },
            ClapAttr::Parse { span, parser } => {
                match parser_kind_of(&parser.kind) {
                    Option::None => Err(
                        GenError {
                            kind: GenErrorKind::UnsupportedParser,
                            span: parser.kind_span,
                        },
                    ),
                    Option::Some(p) => {
                        match &parser.parse_func {
                            Option::None => {
                                if p == Parser::TryFromOsStr {
                                    Err(
                                        GenError {
                                            kind: GenErrorKind::MissingParserFunction,
                                            span: parser.kind_span,
                                        },
                                    )
                                } else {
                                    self.parser = p;
                                    self.parse_func = default_func_of(p);
                                    self.parser_span = *span;
                                    self.has_custom_parser = true;
                                    Ok(())
                                }
                            },
                            Option::Some(f) => {
                                if f.is_str_lit || !is_path_text(&f.text) {
                                    Err(
                                        GenError {
                                            kind: GenErrorKind::ParserFunctionNotPath,
                                            span: f.span,
                                        },
                                    )
                                } else {
                                    self.parser = p;
                                    self.parse_func = f.text.clone();
                                    self.parser_span = *span;
                                    self.has_custom_parser = true;
                                    Ok(())
                                }
                            },
                        }
                    },
                }
            },
        }
    }

    /// Folds a directive list into this record, stopping at the first error.
    #[verifier::loop_isolation(false)]
    fn push_attrs(&mut self, ds: &Vec<ClapAttr>, env: &EnvConfig) -> (r: Result<(), GenError>)
        ensures
            match r {
                Ok(_) => spec_fold_attrs(old(self)@, ds@.map_values(|d: ClapAttr| d@), env@)
                    == Ok::<AttrsModel, GenError>(final(self)@),
                Err(e) => spec_fold_attrs(old(self)@, ds@.map_values(|d: ClapAttr| d@), env@)
                    == Err::<AttrsModel, GenError>(e),
            },
    {
        let ghost dsm = ds@.map_values(|d: ClapAttr| d@);
        let ghost m0 = self@;
        proof {
            assert(dsm.skip(0) =~= dsm);
        }
        let mut i: usize = 0;
        while i < ds.len()
            invariant
                dsm == ds@.map_values(|d: ClapAttr| d@),
                i <= ds@.len(),
                spec_fold_attrs(self@, dsm.skip(i as int), env@) == spec_fold_attrs(
                    m0,
                    dsm,
                    env@,
                ),
            decreases ds@.len() - i,
        {
            proof {
                assert(dsm.skip(i as int)[0] == dsm[i as int]);
                assert(dsm[i as int] == ds@[i as int]@);
                assert(dsm.skip(i as int).drop_first() =~= dsm.skip(i + 1));
            }
            match self.apply_attr(&ds[i], env) {
                Err(e) => {
                    return Err(e);
                },
                Ok(_) => {},
            }
            i = i + 1;
        }
        proof {
            assert(dsm.skip(ds@.len() as int) =~= Seq::<ClapAttrModel>::empty());
        }
        Ok(())
    }

    /// Folds the doc-comment lines into this record as its default `help` or
    /// `about` text, splitting into a short and a long form when the second
    /// line is blank.
    #[verifier::loop_isolation(false)]
    fn push_doc_comment(&mut self, docs: &Vec<String>, name: &str)
        ensures
            final(self)@ == spec_push_doc(
                old(self)@,
                docs@.map_values(|s: String| s@),
                name@,
            ),
    {
        let ghost docsm = docs@.map_values(|s: String| s@);
        if docs.len() == 0 {
            return ;
        }
        let ghost marksm = docsm.map_values(|d: Seq<char>| spec_doc_mark(d));
        let mut marks: Vec<Vec<char>> = Vec::new();
        let mut i: usize = 0;
        proof {
            assert(marks@.map_values(|p: Vec<char>| p@) =~= docsm.take(0).map_values(
                |d: Seq<char>| spec_doc_mark(d),
            ));
        }
        while i < docs.len()
            invariant
                i <= docs@.len(),
                marks@.map_values(|p: Vec<char>| p@) == docsm.take(i as int).map_values(
                    |d: Seq<char>| spec_doc_mark(d),
                ),
            decreases docs@.len() - i,
        {
            let ghost mm = marks@.map_values(|p: Vec<char>| p@);
            let cs = crate::strutil::chars_of(docs[i].as_str());
            let t = crate::strutil::trim_chars(&cs);
            let mark = if t.len() == 0 {
                let mut m: Vec<char> = Vec::new();
                m.push('\n');
                m.push('\n');
                m
            } else {
                t
            };
            proof {
                assert(mark@ =~= spec_doc_mark(docsm[i as int]));
            }
            marks.push(mark);
            proof {
                assert(marks@.map_values(|p: Vec<char>| p@) =~= mm.push(
                    spec_doc_mark(docsm[i as int]),
                ));
                assert(docsm.take(i + 1).map_values(|d: Seq<char>| spec_doc_mark(d))
                    =~= docsm.take(i as int).map_values(|d: Seq<char>| spec_doc_mark(d)).push(
                    spec_doc_mark(docsm[i as int]),
                ));
            }
            i = i + 1;
        }
        proof {
            assert(docsm.take(docsm.len() as int) =~= docsm);
            assert(marks@.map_values(|p: Vec<char>| p@) == marksm);
        }
        let mut space: Vec<char> = Vec::new();
        space.push(' ');
        proof {
            assert(space@ =~= one_space());
        }
        let joined = crate::strutil::join_chars(&marks, &space);
        let lines = crate::strutil::split_chars(&joined, '\n');
        let ghost linesm = lines@.map_values(|p: Vec<char>| p@);
        let mut trimmed: Vec<Vec<char>> = Vec::new();
        let mut j: usize = 0;
        proof {
            assert(trimmed@.map_values(|p: Vec<char>| p@) =~= linesm.take(0).map_values(
                |l: Seq<char>| spec_trim(l),
            ));
        }
        while j < lines.len()
            invariant
                j <= lines@.len(),
                linesm == lines@.map_values(|p: Vec<char>| p@),
                trimmed@.map_values(|p: Vec<char>| p@) == linesm.take(j as int).map_values(
                    |l: Seq<char>| spec_trim(l),
                ),
            decreases lines@.len() - j,
        {
            let ghost tm = trimmed@.map_values(|p: Vec<char>| p@);
            let t = crate::strutil::trim_chars(&lines[j]);
            proof {
                assert(t@ == spec_trim(linesm[j as int]));
            }
            trimmed.push(t);
            proof {
                assert(trimmed@.map_values(|p: Vec<char>| p@) =~= tm.push(
                    spec_trim(linesm[j as int]),
                ));
                assert(linesm.take(j + 1).map_values(|l: Seq<char>| spec_trim(l)) =~= linesm.take(
                    j as int,
                ).map_values(|l: Seq<char>| spec_trim(l)).push(spec_trim(linesm[j as int])));
            }
            j = j + 1;
        }
        proof {
            assert(linesm.take(linesm.len() as int) =~= linesm);
        }
        let mut nl: Vec<char> = Vec::new();
        nl.push('\n');
        proof {
            assert(nl@ =~= one_newline());
        }
        let merged_chars = crate::strutil::join_chars(&trimmed, &nl);
        let merged = crate::strutil::string_of(&merged_chars);
        proof {
            assert(merged@ == spec_merged_lines(marksm));
        }
        let is_split = marks.len() > 2 && marks[1].len() == 2 && marks[1][0] == '\n' && marks[1][1]
            == '\n';
        proof {
            if marks.len() > 2 {
                assert(marksm[1] == marks@[1]@);
                if marksm[1] == two_newlines() {
                    assert(marks@[1]@.len() == 2 && marks@[1]@[0] == '\n' && marks@[1]@[1] == '\n');
                } else {
                    if marks@[1]@.len() == 2 && marks@[1]@[0] == '\n' && marks@[1]@[1] == '\n' {
                        assert(marks@[1]@ =~= two_newlines());
                        assert(false);
                    }
                }
            }
            assert(is_split == (docsm.len() > 2 && marksm[1] == two_newlines()));
        }
        let ghost m_before = self@;
        if is_split {
            let short_t0 = crate::strutil::trim_chars(&marks[0]);
            let short_chars = crate::strutil::trim_end_matches_char(&short_t0, '.');
            let short = crate::strutil::string_of(&short_chars);
            proof {
                assert(marksm[0] == marks@[0]@);
                assert(short@ == spec_trim_end_matches(spec_trim(marksm[0]), '.'));
            }
            let mut long_name = String::from_str("long_");
            long_name.append(name);
            let mut args1: Vec<MethodArg> = Vec::new();
            args1.push(MethodArg::Str(merged));
            let m1 = Method { name: long_name, args: args1 };
            let mut args2: Vec<MethodArg> = Vec::new();
            args2.push(MethodArg::Str(short));
            let m2 = Method { name: String::from_str(name), args: args2 };
            proof {
                assert(m1@.args =~= Seq::empty().push(
                    MethodArgModel::AStr(spec_merged_lines(marksm)),
                ));
                assert(m2@.args =~= Seq::empty().push(
                    MethodArgModel::AStr(spec_trim_end_matches(spec_trim(marksm[0]), '.')),
                ));
            }
            self.methods.push(m1);
            self.methods.push(m2);
            proof {
                assert(self@.methods =~= m_before.methods.push(
                    MethodModel {
                        name: "long_"@ + name@,
                        args: Seq::empty().push(MethodArgModel::AStr(spec_merged_lines(marksm))),
                    },
                ).push(
                    MethodModel {
                        name: name@,
                        args: Seq::empty().push(
                            MethodArgModel::AStr(
                                spec_trim_end_matches(spec_trim(marksm[0]), '.'),
                            ),
                        ),
                    },
                ));
            }
        } else {
            let mut args1: Vec<MethodArg> = Vec::new();
            args1.push(MethodArg::Str(merged));
            let m1 = Method { name: String::from_str(name), args: args1 };
            proof {
                assert(m1@.args =~= Seq::empty().push(
                    MethodArgModel::AStr(spec_merged_lines(marksm)),
                ));
            }
            self.methods.push(m1);
            proof {
                assert(self@.methods =~= m_before.methods.push(
                    MethodModel {
                        name: name@,
                        args: Seq::empty().push(MethodArgModel::AStr(spec_merged_lines(marksm))),
                    },
                ));
            }
        }
    }

    /// Whether this record carries a method other than `help`.
    fn has_nonhelp_method(&self) -> (r: bool)
        ensures
            r == spec_has_nonhelp_method(self@),
    {
        let ghost msm = self@.methods;
        let mut i: usize = 0;
        while i < self.methods.len()
            invariant
                msm == self.methods@.map_values(|m: Method| m@),
                i <= self.methods@.len(),
                forall|k: int| 0 <= k < i ==> (#[trigger] msm[k]).name == "help"@,
            decreases self.methods@.len() - i,
        {
            proof {
                assert(msm[i as int] == self.methods@[i as int]@);
            }
            if !crate::strutil::string_eq_str(&self.methods[i].name, "help") {
                proof {
                    assert(spec_has_nonhelp_method(self@)) by {
                        assert(0 <= i < self@.methods.len() && (self@.methods[i as int]).name
                            != "help"@);
                    }
                }
                return true;
            }
            i = i + 1;
        }
        proof {
            assert(!spec_has_nonhelp_method(self@)) by {
                assert forall|k: int| 0 <= k < self@.methods.len() implies (#[trigger] self@
                    .methods[k]).name == "help"@ by {
                    assert(msm[k].name == "help"@);
                }
            }
        }
        false
    }

    /// Resolves the record of a struct or enum declaration: environment
    /// defaults for version and author are seeded first so that explicit
    /// directives silently override them; the doc comment becomes the default
    /// `about`; a custom parser or a field-only kind is rejected.
    pub fn from_struct(
        attrs: &Vec<crate::ast::AttrBlock>,
        docs: &Vec<String>,
        name: String,
        argument_casing: CasingStyle,
        env: &EnvConfig,
    ) -> (r: Result<Attrs, GenError>)
        ensures
            attrs_result_matches_model(
                r,
                spec_from_struct(
                    attrs@,
                    docs@.map_values(|s: String| s@),
                    name@,
                    argument_casing,
                    env@,
                ),
            ),
    {
        let ds = match crate::parse::parse_clap_attributes(attrs) {
            Err(e) => {
                return Err(e);
            },
            Ok(ds) => ds,
        };
        let mut a = Attrs::new(name, argument_casing);
        if env.pkg_version.as_str().unicode_len() > 0 {
            a.push_str_method("version", env.pkg_version.clone());
        }
        if env.pkg_authors.as_str().unicode_len() > 0 {
            let formatted = crate::strutil::replace_colons(env.pkg_authors.as_str());
            a.push_str_method("author", formatted);
        }
        a.push_doc_comment(docs, "about");
        match a.push_attrs(&ds, env) {
            Err(e) => {
                return Err(e);
            },
            Ok(_) => {},
        }
        if a.has_custom_parser {
            return Err(GenError { kind: GenErrorKind::OnlyOnFields, span: a.parser_span });
        }
        match a.kind {
            Kind::Arg(_) => Ok(a),
            _ => Err(GenError { kind: GenErrorKind::OnlyOnFields, span: a.kind_span }),
        }
    }

    /// Resolves the record of one field: the identifier cased by the struct's
    /// casing, the doc comment as default `help`, the directives folded in,
    /// and the kind/shape cross-validation applied.
    pub fn from_field(field: &FieldDecl, struct_casing: CasingStyle) -> (r: Result<Attrs, GenError>)
        ensures
            attrs_result_matches_model(r, spec_from_field(*field, struct_casing)),
    {
        let ds = match crate::parse::parse_clap_attributes(&field.attrs) {
            Err(e) => {
                return Err(e);
            },
            Ok(ds) => ds,
        };
        let mut a = Attrs::new(field.name.clone(), struct_casing);
        a.push_doc_comment(&field.docs, "help");
        let env = EnvConfig::empty();
        proof {
            assert(env@ == EnvModel::empty_model());
        }
        match a.push_attrs(&ds, &env) {
            Err(e) => {
                return Err(e);
            },
            Ok(_) => {},
        }
        match a.kind {
            Kind::FlattenStruct => {
                if a.has_custom_parser {
                    Err(GenError { kind: GenErrorKind::InvalidParserForKind, span: a.parser_span })
                } else if a.methods.len() > 0 {
                    Err(
                        GenError {
                            kind: GenErrorKind::MethodsNotAllowedForKind,
                            span: a.kind_span,
                        },
                    )
                } else {
                    Ok(a)
                }
            },
            Kind::Subcommand(_) => {
                if a.has_custom_parser {
                    Err(GenError { kind: GenErrorKind::InvalidParserForKind, span: a.parser_span })
                } else if a.has_nonhelp_method() {
                    Err(
                        GenError {
                            kind: GenErrorKind::MethodsNotAllowedForKind,
                            span: a.kind_span,
                        },
                    )
                } else {
                    let ty = ty_from_field(&field.ty);
                    if ty == Ty::OptionalOptional || ty == Ty::OptionalList {
                        Err(GenError { kind: GenErrorKind::InvalidTypeForKind, span: field.name_span })
                    } else {
                        a.kind = Kind::Subcommand(ty);
                        Ok(a)
                    }
                }
            },
            Kind::Skip => {
                if a.has_nonhelp_method() {
                    Err(
                        GenError {
                            kind: GenErrorKind::MethodsNotAllowedForKind,
                            span: a.kind_span,
                        },
                    )
                } else {
                    Ok(a)
                }
            },
            Kind::Arg(_) => {
                let ty0 = ty_from_field(&field.ty);
                let ty = if a.has_custom_parser {
                    convert_with_custom_parse(ty0)
                } else {
                    ty0
                };
                if (ty == Ty::Boolean || ty == Ty::Optional) && a.has_method("default_value") {
                    Err(
                        GenError {
                            kind: GenErrorKind::MeaninglessMethodForShape,
                            span: field.name_span,
                        },
                    )
                } else if (ty == Ty::Boolean || ty == Ty::Optional) && a.has_method("required") {
                    Err(
                        GenError {
                            kind: GenErrorKind::MeaninglessMethodForShape,
                            span: field.name_span,
                        },
                    )
                } else if (ty == Ty::OptionalOptional || ty == Ty::OptionalList) && !(a.has_method(
                    "long",
                ) || a.has_method("short")) {
                    Err(GenError { kind: GenErrorKind::InvalidTypeForKind, span: field.name_span })
                } else {
                    a.kind = Kind::Arg(ty);
                    Ok(a)
                }
            },
        }
    }

    /// Whether some method of this record has the given name.
    pub fn has_method(&self, name: &str) -> (r: bool)
        ensures
            r == spec_has_method(self@, name@),
    {
        match self.find_method(name) {
            Option::Some(_) => true,
            Option::None => false,
        }
    }

    /// The first method with the given name, if any.
    pub fn find_method(&self, name: &str) -> (r: Option<&Method>)
        ensures
            match r {
                Option::Some(m) => {
                    &&& spec_find_method(self@.methods, name@) >= 0
                    &&& m@ == self@.methods[spec_find_method(self@.methods, name@)]
                },
                Option::None => spec_find_method(self@.methods, name@) == -1,
            },
    {
        let ghost msm = self@.methods;
        let mut i: usize = 0;
        while i < self.methods.len()
            invariant
                msm == self.methods@.map_values(|m: Method| m@),
                i <= self.methods@.len(),
                forall|k: int| 0 <= k < i ==> (#[trigger] msm[k]).name != name@,
            decreases self.methods@.len() - i,
        {
            proof {
                assert(msm[i as int] == self.methods@[i as int]@);
            }
            if crate::strutil::string_eq_str(&self.methods[i].name, name) {
                proof {
                    lemma_find_method_is(msm, name@, i as int);
                }
                return Option::Some(&self.methods[i]);
            }
            i = i + 1;
        }
        proof {
            lemma_find_method_none(msm, name@);
        }
        Option::None
    }

    /// The ordered builder-method calls of this record.
    pub fn methods(&self) -> (r: &Vec<Method>)
        ensures
            r@.map_values(|m: Method| m@) == self@.methods,
    {
        &self.methods
    }

    /// The resolved displayed/matched name.
    pub fn cased_name(&self) -> (r: &String)
        ensures
            r@ == self@.cased_name,
    {
        &self.cased_name
    }

    /// The resolved parser strategy.
    pub fn parser(&self) -> (r: Parser)
        ensures
            r == self@.parser,
    {
        self.parser
    }

    /// The conversion function the strategy applies.
    pub fn parse_func(&self) -> (r: &String)
        ensures
            r@ == self@.parse_func,
    {
        &self.parse_func
    }

    /// The resolved entity kind.
    pub fn kind(&self) -> (r: Kind)
        ensures
            r == self@.kind,
    {
        self.kind
    }

    /// The casing style in force for this entity.
    pub fn casing(&self) -> (r: CasingStyle)
        ensures
            r == self@.casing,
    {
        self.casing
    }
}

/// Whether a resolved record and a resolution outcome agree.
pub open spec fn attrs_result_matches_model(
    r: Result<Attrs, GenError>,
    m: Result<AttrsModel, GenError>,
) -> bool {
    match (r, m) {
        (Ok(a), Ok(am)) => a@ == am,
        (Err(e), Err(me)) => e == me,
        _ => false,
    }
}

} // verus!
