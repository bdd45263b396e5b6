//! Generation-time behavior: attribute resolution, casing, doc comments, and
//! the diagnostics for contradictory annotations.

use clap_derive::ast::{AttrBlock, AttrToken, EnvConfig, FieldDecl, TypeData, TypeDecl, TypeRepr, VariantData};
use clap_derive::attrs::{ty_from_field, Attrs, Kind, Parser, Ty};
use clap_derive::builder::gen_app_spec;
use clap_derive::casing::CasingStyle;
use clap_derive::errors::GenErrorKind;
use clap_derive::parse::MethodArg;

fn ident(t: &str) -> AttrToken {
    AttrToken::Ident { text: t.to_string(), span: 0 }
}

fn ident_at(t: &str, span: u64) -> AttrToken {
    AttrToken::Ident { text: t.to_string(), span }
}

fn eq() -> AttrToken {
    AttrToken::Eq { span: 0 }
}

fn lit(t: &str) -> AttrToken {
    AttrToken::LitStr { text: t.to_string(), span: 0 }
}

fn comma() -> AttrToken {
    AttrToken::Comma { span: 0 }
}

fn openp() -> AttrToken {
    AttrToken::OpenParen { span: 0 }
}

fn closep() -> AttrToken {
    AttrToken::CloseParen { span: 0 }
}

fn nv(name: &str, value: &str) -> Vec<AttrToken> {
    vec![ident(name), eq(), lit(value)]
}

fn bare(name: &str) -> Vec<AttrToken> {
    vec![ident(name)]
}

fn block(items: Vec<Vec<AttrToken>>) -> AttrBlock {
    let mut tokens = Vec::new();
    for (i, item) in items.into_iter().enumerate() {
        if i > 0 {
            tokens.push(comma());
        }
        tokens.extend(item);
    }
    AttrBlock { tokens, span: 0 }
}

fn ty(last: &str) -> TypeRepr {
    TypeRepr::Path { last: last.to_string(), arg: None }
}

fn ty1(last: &str, inner: TypeRepr) -> TypeRepr {
    TypeRepr::Path { last: last.to_string(), arg: Some(Box::new(inner)) }
}

fn field(name: &str, t: TypeRepr, attrs: Vec<AttrBlock>, docs: Vec<&str>) -> FieldDecl {
    FieldDecl {
        name: name.to_string(),
        name_span: 0,
        ty: t,
        attrs,
        docs: docs.into_iter().map(|d| d.to_string()).collect(),
    }
}

fn method_str(a: &Attrs, name: &str) -> String {
    let m = a.find_method(name).unwrap();
    match &m.args[0] {
        MethodArg::Str(s) => s.clone(),
        MethodArg::Raw(s) => s.clone(),
    }
}

#[test]
fn kebab_casing_by_default() {
    let f = field("dry_run", ty("bool"), vec![block(vec![bare("long")])], vec![]);
    let a = Attrs::from_field(&f, CasingStyle::Kebab).unwrap();
    assert_eq!(a.cased_name().as_str(), "dry-run");
    assert_eq!(method_str(&a, "long"), "dry-run");
}

#[test]
fn verbatim_casing_keeps_identifier() {
    let f = field(
        "dry_run",
        ty("bool"),
        vec![block(vec![nv("rename_all", "verbatim"), bare("long")])],
        vec![],
    );
    let a = Attrs::from_field(&f, CasingStyle::Kebab).unwrap();
    assert_eq!(a.cased_name().as_str(), "dry_run");
    assert_eq!(method_str(&a, "long"), "dry_run");
}

#[test]
fn doc_comment_splits_into_short_and_long() {
    let f = field("input", ty("String"), vec![], vec!["Short.", "", "Long text."]);
    let a = Attrs::from_field(&f, CasingStyle::Kebab).unwrap();
    assert_eq!(method_str(&a, "help"), "Short");
    assert_eq!(method_str(&a, "long_help"), "Short.\n\nLong text.");
}

#[test]
fn doc_comment_single_paragraph_merges() {
    let f = field("input", ty("String"), vec![], vec!["One line", "and another"]);
    let a = Attrs::from_field(&f, CasingStyle::Kebab).unwrap();
    assert_eq!(method_str(&a, "help"), "One line and another");
}

#[test]
fn shapes_classified_syntactically() {
    assert_eq!(ty_from_field(&ty("bool")), Ty::Boolean);
    assert_eq!(ty_from_field(&ty1("Vec", ty("String"))), Ty::List);
    assert_eq!(ty_from_field(&ty1("Option", ty("u8"))), Ty::Optional);
    assert_eq!(ty_from_field(&ty1("Option", ty1("Option", ty("u8")))), Ty::OptionalOptional);
    assert_eq!(ty_from_field(&ty1("Option", ty1("Vec", ty("u8")))), Ty::OptionalList);
    assert_eq!(ty_from_field(&ty("String")), Ty::Other);
}

#[test]
fn custom_parser_collapses_bool() {
    let f = field(
        "flag",
        ty("bool"),
        vec![block(vec![
            vec![ident("short"), eq(), lit("f")],
            vec![ident("parse"), openp(), ident("from_str"), closep()],
        ])],
        vec![],
    );
    let a = Attrs::from_field(&f, CasingStyle::Kebab).unwrap();
    assert_eq!(a.kind(), Kind::Arg(Ty::Other));
    assert_eq!(a.parser(), Parser::FromStr);
}

#[test]
fn empty_version_literal_rejected() {
    let f = field("x", ty("bool"), vec![block(vec![nv("version", "")])], vec![]);
    let e = Attrs::from_field(&f, CasingStyle::Kebab).unwrap_err();
    assert_eq!(e.kind, GenErrorKind::EmptyLiteralDeprecated);
}

#[test]
fn bare_version_rejected() {
    let f = field("x", ty("bool"), vec![block(vec![bare("version")])], vec![]);
    let e = Attrs::from_field(&f, CasingStyle::Kebab).unwrap_err();
    assert_eq!(e.kind, GenErrorKind::BareVersionAttribute);
}

#[test]
fn unexpected_attribute_rejected() {
    let f = field("x", ty("bool"), vec![block(vec![vec![ident_at("mystery", 7)]])], vec![]);
    let e = Attrs::from_field(&f, CasingStyle::Kebab).unwrap_err();
    assert_eq!(e.kind, GenErrorKind::UnexpectedAttribute);
    assert_eq!(e.span, 7);
}

#[test]
fn parse_needs_exactly_one_argument() {
    let f = field(
        "x",
        ty("u32"),
        vec![block(vec![vec![
            ident("parse"),
            openp(),
            ident("from_str"),
            comma(),
            ident("try_from_str"),
            closep(),
        ]])],
        vec![],
    );
    let e = Attrs::from_field(&f, CasingStyle::Kebab).unwrap_err();
    assert_eq!(e.kind, GenErrorKind::ParseArity);
}

#[test]
fn try_from_os_str_needs_function() {
    let f = field(
        "x",
        ty("u32"),
        vec![block(vec![vec![ident("parse"), openp(), ident("try_from_os_str"), closep()]])],
        vec![],
    );
    let e = Attrs::from_field(&f, CasingStyle::Kebab).unwrap_err();
    assert_eq!(e.kind, GenErrorKind::MissingParserFunction);
}

#[test]
fn unsupported_parser_rejected() {
    let f = field(
        "x",
        ty("u32"),
        vec![block(vec![vec![ident("parse"), openp(), ident("from_thin_air"), closep()]])],
        vec![],
    );
    let e = Attrs::from_field(&f, CasingStyle::Kebab).unwrap_err();
    assert_eq!(e.kind, GenErrorKind::UnsupportedParser);
}

#[test]
fn conflicting_kinds_rejected() {
    let f = field("x", ty("Inner"), vec![block(vec![bare("subcommand"), bare("flatten")])], vec![]);
    let e = Attrs::from_field(&f, CasingStyle::Kebab).unwrap_err();
    assert_eq!(e.kind, GenErrorKind::ConflictingKind);
}

#[test]
fn default_value_meaningless_for_bool() {
    let f = field(
        "x",
        ty("bool"),
        vec![block(vec![bare("long"), nv("default_value", "true")])],
        vec![],
    );
    let e = Attrs::from_field(&f, CasingStyle::Kebab).unwrap_err();
    assert_eq!(e.kind, GenErrorKind::MeaninglessMethodForShape);
}

#[test]
fn doubly_optional_positional_rejected() {
    let f = field("x", ty1("Option", ty1("Option", ty("u8"))), vec![], vec![]);
    let e = Attrs::from_field(&f, CasingStyle::Kebab).unwrap_err();
    assert_eq!(e.kind, GenErrorKind::InvalidTypeForKind);
}

#[test]
fn two_subcommand_fields_rejected_at_generation() {
    let child = TypeDecl {
        name: "Cmd".to_string(),
        name_span: 0,
        attrs: vec![],
        docs: vec![],
        data: TypeData::Enum(vec![]),
    };
    let decl = TypeDecl {
        name: "Opt".to_string(),
        name_span: 0,
        attrs: vec![],
        docs: vec![],
        data: TypeData::Struct(vec![
            field("a", ty("Cmd"), vec![block(vec![bare("subcommand")])], vec![]),
            field("b", ty("Cmd"), vec![block(vec![bare("subcommand")])], vec![]),
        ]),
    };
    let reg = vec![child];
    let env = EnvConfig::empty();
    let e = gen_app_spec(&decl, &reg, &env, 16).unwrap_err();
    assert_eq!(e.kind, GenErrorKind::TooManySubcommandFields);
}

#[test]
fn tuple_variant_needs_exactly_one_element() {
    let bad = TypeDecl {
        name: "Cmd".to_string(),
        name_span: 0,
        attrs: vec![],
        docs: vec![],
        data: TypeData::Enum(vec![clap_derive::ast::VariantDecl {
            name: "Pair".to_string(),
            name_span: 0,
            attrs: vec![],
            docs: vec![],
            data: VariantData::Tuple(vec![ty("A"), ty("B")]),
        }]),
    };
    let reg = Vec::new();
    let env = EnvConfig::empty();
    let e = gen_app_spec(&bad, &reg, &env, 16).unwrap_err();
    assert_eq!(e.kind, GenErrorKind::TupleVariantArity);
}

#[test]
fn author_colons_become_commas() {
    let decl_attrs: Vec<AttrBlock> = vec![];
    let docs: Vec<String> = vec![];
    let env = EnvConfig {
        pkg_name: "tool".to_string(),
        pkg_version: "0.1".to_string(),
        pkg_authors: "Ada:Grace".to_string(),
        pkg_description: String::new(),
    };
    let a = Attrs::from_struct(&decl_attrs, &docs, "tool".to_string(), CasingStyle::Kebab, &env)
        .unwrap();
    assert_eq!(method_str(&a, "author"), "Ada, Grace");
    assert_eq!(method_str(&a, "version"), "0.1");
}

#[test]
fn explicit_version_overrides_environment() {
    let decl_attrs = vec![block(vec![nv("version", "2.0")])];
    let docs: Vec<String> = vec![];
    let env = EnvConfig {
        pkg_name: "tool".to_string(),
        pkg_version: "1.0".to_string(),
        pkg_authors: String::new(),
        pkg_description: String::new(),
    };
    let a = Attrs::from_struct(&decl_attrs, &docs, "tool".to_string(), CasingStyle::Kebab, &env)
        .unwrap();
    assert_eq!(method_str(&a, "version"), "2.0");
    let versions = a.methods().iter().filter(|m| m.name == "version").count();
    assert_eq!(versions, 1);
}

#[test]
fn no_version_removes_the_default() {
    let decl_attrs = vec![block(vec![bare("no_version")])];
    let docs: Vec<String> = vec![];
    let env = EnvConfig {
        pkg_name: "tool".to_string(),
        pkg_version: "1.0".to_string(),
        pkg_authors: String::new(),
        pkg_description: String::new(),
    };
    let a = Attrs::from_struct(&decl_attrs, &docs, "tool".to_string(), CasingStyle::Kebab, &env)
        .unwrap();
    assert!(a.find_method("version").is_none());
}

#[test]
fn subcommand_directive_on_struct_rejected() {
    let decl_attrs = vec![block(vec![bare("subcommand")])];
    let docs: Vec<String> = vec![];
    let env = EnvConfig::empty();
    let e = Attrs::from_struct(&decl_attrs, &docs, "tool".to_string(), CasingStyle::Kebab, &env)
        .unwrap_err();
    assert_eq!(e.kind, GenErrorKind::OnlyOnFields);
}

#[test]
fn valid_values_error_lists_variants() {
    let variants = vec!["Foo".to_string(), "Bar".to_string()];
    let e = clap_derive::arg_enum::arg_enum_from_str(&variants, "Qux", true).unwrap_err();
    assert_eq!(e, "valid values: Foo, Bar");
}
