//! End-to-end behavior: the generated parser definition is handed to the real
//! argument-parsing runtime, whose matched values are decoded back through
//! the library.

use clap::{App, AppSettings, Arg, SubCommand};

use clap_derive::ast::{AttrBlock, AttrToken, EnvConfig, FieldDecl, TypeData, TypeDecl, TypeRepr, VariantData, VariantDecl};
use clap_derive::builder::{gen_app_spec, AppSpec};
use clap_derive::decode::{ArgOccur, DecodedField, DecodedNode, DecodedTree, FieldValue, Matches, SubMatch};
use clap_derive::parse::MethodArg;
use clap_derive::attrs::Method;

const FUEL: u64 = 16;

type Validator = (&'static str, fn(String) -> Result<(), String>);

// ---- declaration building helpers ----

fn ident(t: &str) -> AttrToken {
    AttrToken::Ident { text: t.to_string(), span: 0 }
}

fn eq() -> AttrToken {
    AttrToken::Eq { span: 0 }
}

fn lit(t: &str) -> AttrToken {
    AttrToken::LitStr { text: t.to_string(), span: 0 }
}

fn expr(t: &str) -> AttrToken {
    AttrToken::Expr { text: t.to_string(), span: 0 }
}

fn comma() -> AttrToken {
    AttrToken::Comma { span: 0 }
}

fn openp() -> AttrToken {
    AttrToken::OpenParen { span: 0 }
}

fn closep() -> AttrToken {
    AttrToken::CloseParen { span: 0 }
}

/// One `name = "value"` item.
fn nv(name: &str, value: &str) -> Vec<AttrToken> {
    vec![ident(name), eq(), lit(value)]
}

/// One bare item.
fn bare(name: &str) -> Vec<AttrToken> {
    vec![ident(name)]
}

/// One `parse(kind)` item.
fn parse_kind(kind: &str) -> Vec<AttrToken> {
    vec![ident("parse"), openp(), ident(kind), closep()]
}

/// One `parse(kind = func)` item.
fn parse_with(kind: &str, func: &str) -> Vec<AttrToken> {
    vec![ident("parse"), openp(), ident(kind), eq(), expr(func), closep()]
}

/// An annotation block from comma-separated items.
fn block(items: Vec<Vec<AttrToken>>) -> AttrBlock {
    let mut tokens = Vec::new();
    for (i, item) in items.into_iter().enumerate() {
        if i > 0 {
            tokens.push(comma());
        }
        tokens.extend(item);
    }
    AttrBlock { tokens, span: 0 }
}

fn ty(last: &str) -> TypeRepr {
    TypeRepr::Path { last: last.to_string(), arg: None }
}

fn ty1(last: &str, inner: TypeRepr) -> TypeRepr {
    TypeRepr::Path { last: last.to_string(), arg: Some(Box::new(inner)) }
}

fn field(name: &str, t: TypeRepr, attrs: Vec<AttrBlock>, docs: Vec<&str>) -> FieldDecl {
    FieldDecl {
        name: name.to_string(),
        name_span: 0,
        ty: t,
        attrs,
        docs: docs.into_iter().map(|d| d.to_string()).collect(),
    }
}

fn struct_decl(name: &str, attrs: Vec<AttrBlock>, docs: Vec<&str>, fields: Vec<FieldDecl>) -> TypeDecl {
    TypeDecl {
        name: name.to_string(),
        name_span: 0,
        attrs,
        docs: docs.into_iter().map(|d| d.to_string()).collect(),
        data: TypeData::Struct(fields),
    }
}

fn variant(name: &str, attrs: Vec<AttrBlock>, docs: Vec<&str>, data: VariantData) -> VariantDecl {
    VariantDecl {
        name: name.to_string(),
        name_span: 0,
        attrs,
        docs: docs.into_iter().map(|d| d.to_string()).collect(),
        data,
    }
}

fn enum_decl(name: &str, attrs: Vec<AttrBlock>, variants: Vec<VariantDecl>) -> TypeDecl {
    TypeDecl {
        name: name.to_string(),
        name_span: 0,
        attrs,
        docs: Vec::new(),
        data: TypeData::Enum(variants),
    }
}

// ---- glue: the parser definition handed to the runtime ----

fn method_arg(m: &Method, i: usize) -> &str {
    match &m.args[i] {
        MethodArg::Str(v) => v.as_str(),
        MethodArg::Raw(v) => v.as_str(),
    }
}

fn apply_arg_method<'a>(arg: Arg<'a, 'a>, m: &'a Method) -> Arg<'a, 'a> {
    match m.name.as_str() {
        "short" => arg.short(method_arg(m, 0)),
        "long" => arg.long(method_arg(m, 0)),
        "help" => arg.help(method_arg(m, 0)),
        "long_help" => arg.long_help(method_arg(m, 0)),
        "default_value" => arg.default_value(method_arg(m, 0)),
        "required" => arg.required(method_arg(m, 0) == "true"),
        _ => arg,
    }
}

fn apply_app_method<'a>(app: App<'a, 'a>, m: &'a Method) -> App<'a, 'a> {
    match m.name.as_str() {
        "version" => app.version(method_arg(m, 0)),
        "author" => app.author(method_arg(m, 0)),
        "about" => app.about(method_arg(m, 0)),
        "long_about" => app.long_about(method_arg(m, 0)),
        "help" => app.about(method_arg(m, 0)),
        "long_help" => app.long_about(method_arg(m, 0)),
        _ => app,
    }
}

fn build_arg<'a>(a: &'a clap_derive::builder::ArgSpec, validators: &[Validator]) -> Arg<'a, 'a> {
    let mut arg = Arg::with_name(a.name.as_str())
        .takes_value(a.takes_value)
        .multiple(a.multiple)
        .required(a.required);
    if let Some(n) = a.min_values {
        arg = arg.min_values(n);
    }
    if let Some(n) = a.max_values {
        arg = arg.max_values(n);
    }
    for m in &a.methods {
        arg = apply_arg_method(arg, m);
    }
    if a.validator.is_some() {
        if let Some((_, f)) = validators.iter().find(|(n, _)| *n == a.validator_func.as_str()) {
            let f = *f;
            arg = arg.validator(move |s| f(s));
        }
    }
    arg
}

fn build_node<'a>(spec: &'a AppSpec, idx: usize, validators: &[Validator]) -> App<'a, 'a> {
    let node = &spec.nodes[idx];
    let mut app = if idx == 0 {
        App::new(node.name.as_str())
    } else {
        SubCommand::with_name(node.name.as_str())
    };
    for m in &node.methods {
        app = apply_app_method(app, m);
    }
    if node.required_subcommand {
        app = app.setting(AppSettings::SubcommandRequiredElseHelp);
    }
    for a in &node.args {
        app = app.arg(build_arg(a, validators));
    }
    for (j, child) in spec.nodes.iter().enumerate() {
        if j != 0 && j != idx && child.parent == idx {
            app = app.subcommand(build_node(spec, j, validators));
        }
    }
    app
}

fn build_clap<'a>(spec: &'a AppSpec, validators: &[Validator]) -> App<'a, 'a> {
    build_node(spec, 0, validators)
}

// ---- glue: the matched values handed back to the decoder ----

fn level_args(spec: &AppSpec, idx: usize, m: &clap::ArgMatches) -> Vec<ArgOccur> {
    spec.nodes[idx]
        .args
        .iter()
        .map(|a| ArgOccur {
            name: a.name.clone(),
            occurs: m.occurrences_of(a.name.as_str()),
            values: m
                .values_of(a.name.as_str())
                .map(|v| v.map(|s| s.to_string()).collect())
                .unwrap_or_default(),
        })
        .collect()
}

fn to_matches(spec: &AppSpec, m: &clap::ArgMatches) -> Matches {
    let mut result = Matches { args: level_args(spec, 0, m), subs: Vec::new() };
    let mut idx = 0usize;
    let mut cur = m.clone();
    loop {
        let (name, subm) = cur.subcommand();
        let name = name.to_string();
        let subm = match subm {
            Some(s) => s.clone(),
            None => break,
        };
        let child = spec
            .nodes
            .iter()
            .enumerate()
            .find(|(j, n)| *j != 0 && n.parent == idx && n.name == name)
            .map(|(j, _)| j);
        let child = match child {
            Some(c) => c,
            None => break,
        };
        result.subs.push(SubMatch { name, args: level_args(spec, child, &subm) });
        idx = child;
        cur = subm;
    }
    result
}

/// Generates, parses and decodes in one step.
fn run(
    decl: &TypeDecl,
    reg: &Vec<TypeDecl>,
    argv: Vec<&str>,
    validators: &[Validator],
) -> Result<(DecodedTree, usize), String> {
    let env = EnvConfig::empty();
    let spec = gen_app_spec(decl, reg, &env, FUEL).map_err(|e| format!("{:?}", e))?;
    let app = build_clap(&spec, validators);
    let m = app.get_matches_from_safe(argv).map_err(|e| e.message)?;
    let matches = to_matches(&spec, &m);
    clap_derive::decode::from_argmatches(decl, reg, &matches, FUEL).map_err(|e| format!("{:?}", e))
}

fn fields_of(tree: &DecodedTree, idx: usize) -> &Vec<DecodedField> {
    match &tree.nodes[idx] {
        DecodedNode::Struct { fields } => fields,
        _ => panic!("expected a struct node"),
    }
}

fn enum_of(tree: &DecodedTree, idx: usize) -> (&str, usize) {
    match &tree.nodes[idx] {
        DecodedNode::Enum { variant, inner } => (variant.as_str(), *inner),
        _ => panic!("expected an enum node"),
    }
}

fn val<'a>(fields: &'a [DecodedField], name: &str) -> &'a FieldValue {
    &fields.iter().find(|f| f.name == name).unwrap().value
}

fn flag(fields: &[DecodedField], name: &str) -> bool {
    match val(fields, name) {
        FieldValue::Flag(b) => *b,
        v => panic!("expected a flag, got {:?}", v),
    }
}

fn count(fields: &[DecodedField], name: &str) -> u64 {
    match val(fields, name) {
        FieldValue::Count(n) => *n,
        v => panic!("expected a count, got {:?}", v),
    }
}

fn single<'a>(fields: &'a [DecodedField], name: &str) -> &'a str {
    match val(fields, name) {
        FieldValue::Single(s) => s.as_str(),
        v => panic!("expected a single value, got {:?}", v),
    }
}

fn many<'a>(fields: &'a [DecodedField], name: &str) -> Vec<&'a str> {
    match val(fields, name) {
        FieldValue::Many(vs) => vs.iter().map(|s| s.as_str()).collect(),
        v => panic!("expected a list, got {:?}", v),
    }
}

// ---- the shared fixture of the basic application ----

fn my_app_decl() -> TypeDecl {
    struct_decl(
        "MyApp",
        vec![block(vec![nv("name", "myapp"), nv("version", "1.0")])],
        vec!["A basic example of a CLI for myapp"],
        vec![
            field("debug", ty("bool"), vec![block(vec![nv("short", "d"), nv("long", "debug")])], vec!["Activate debug mode"]),
            field(
                "verbose",
                ty("u64"),
                vec![block(vec![nv("short", "v"), nv("long", "verbose"), parse_kind("from_occurrences")])],
                vec!["Verbose mode"],
            ),
            field(
                "speed",
                ty("f64"),
                vec![block(vec![nv("short", "s"), nv("long", "speed"), nv("default_value", "42")])],
                vec!["Set speed"],
            ),
            field(
                "output",
                ty1("Option", ty("String")),
                vec![block(vec![nv("short", "o"), nv("long", "output")])],
                vec!["Output file"],
            ),
            field("car", ty1("Option", ty("i32")), vec![block(vec![nv("short", "c"), nv("long", "car")])], vec!["Number of car"]),
            field("files", ty1("Vec", ty("String")), vec![block(vec![nv("name", "FILE")])], vec!["Files to process"]),
        ],
    )
}

#[test]
fn basic_clap() {
    let decl = my_app_decl();
    let reg = Vec::new();
    let (tree, root) = run(&decl, &reg, vec!["myapp", "-vvv", "--speed=20", "some", "files"], &[]).unwrap();
    let fs = fields_of(&tree, root);
    assert!(!flag(fs, "debug"));
    assert_eq!(count(fs, "verbose"), 3);
    assert_eq!(single(fs, "speed").parse::<f64>().unwrap(), 20.0);
    assert_eq!(many(fs, "files"), vec!["some", "files"]);
}

#[test]
fn clapapp() {
    let decl = my_app_decl();
    let reg = Vec::new();
    let (tree, root) = run(&decl, &reg, vec!["myapp", "-v", "--speed=20", "some", "files"], &[]).unwrap();
    let fs = fields_of(&tree, root);
    assert!(!flag(fs, "debug"));
    assert!(count(fs, "verbose") == 1);
    assert_eq!(single(fs, "speed").parse::<f64>().unwrap(), 20.0);
    assert_eq!(many(fs, "files"), vec!["some", "files"]);
}

#[test]
fn from_argmatches() {
    let decl = my_app_decl();
    let reg = Vec::new();
    let (tree, root) = run(&decl, &reg, vec!["myapp", "-v", "--speed=20", "some", "files"], &[]).unwrap();
    let fs = fields_of(&tree, root);
    assert!(!flag(fs, "debug"));
    assert!(count(fs, "verbose") == 1);
    assert_eq!(single(fs, "speed").parse::<f64>().unwrap(), 20.0);
    assert_eq!(many(fs, "files"), vec!["some", "files"]);
}

#[test]
fn into_app() {
    let decl = my_app_decl();
    let reg = Vec::new();
    let env = EnvConfig::empty();
    let spec = gen_app_spec(&decl, &reg, &env, FUEL).unwrap();
    let _app: App = build_clap(&spec, &[]);
}

// ---- custom string parsers ----

fn parse_hex(src: &str) -> Result<u32, std::num::ParseIntError> {
    u32::from_str_radix(src.trim_start_matches("0x"), 16)
}

fn hex_validator(s: String) -> Result<(), String> {
    parse_hex(&s).map(|_| ()).map_err(|e| e.to_string())
}

fn hex_reader_decl(parser_item: Vec<AttrToken>) -> TypeDecl {
    struct_decl(
        "HexReader",
        vec![block(vec![nv("name", "hexreader")])],
        vec![],
        vec![field("number", ty("u32"), vec![block(vec![nv("short", "n"), parser_item])], vec![])],
    )
}

#[test]
fn custom_try_from_str() {
    let decl = hex_reader_decl(parse_with("try_from_str", "custom_try_from_str"));
    let reg = Vec::new();
    let vals: &[Validator] = &[("custom_try_from_str", hex_validator)];
    let (tree, root) = run(&decl, &reg, vec!["hexreader", "-n", "0x28"], vals).unwrap();
    let fs = fields_of(&tree, root);
    assert_eq!(parse_hex(single(fs, "number")).unwrap(), 40);
}

#[test]
fn custom_try_from_str_fail() {
    let decl = hex_reader_decl(parse_with("try_from_str", "custom_try_from_str"));
    let reg = Vec::new();
    let vals: &[Validator] = &[("custom_try_from_str", hex_validator)];
    let res = run(&decl, &reg, vec!["hexreader", "-n", "0xzz"], vals);
    assert!(res.is_err());
}

#[test]
fn custom_from_str() {
    let decl = hex_reader_decl(parse_with("from_str", "custom_from_str"));
    let reg = Vec::new();
    let (tree, root) = run(&decl, &reg, vec!["hexreader", "-n", "0x28"], &[]).unwrap();
    let fs = fields_of(&tree, root);
    assert_eq!(parse_hex(single(fs, "number")).unwrap(), 40);
}

#[test]
fn custom_from_str_fail() {
    let decl = hex_reader_decl(parse_with("from_str", "custom_from_str"));
    let reg = Vec::new();
    let (tree, root) = run(&decl, &reg, vec!["hexreader", "-n", "0xzz"], &[]).unwrap();
    let fs = fields_of(&tree, root);
    // an infallible parser registers no validator: the raw value reaches the
    // conversion, which is where it fails
    let res = parse_hex(single(fs, "number"));
    assert!(res.is_err());
}

#[test]
fn custom_try_from_os_str() {
    let decl = hex_reader_decl(parse_with("try_from_os_str", "custom_try_from_os_str"));
    let reg = Vec::new();
    let vals: &[Validator] = &[("custom_try_from_os_str", hex_validator)];
    let (tree, root) = run(&decl, &reg, vec!["hexreader", "-n", "0x28"], vals).unwrap();
    let fs = fields_of(&tree, root);
    assert_eq!(parse_hex(single(fs, "number")).unwrap(), 40);
}

#[test]
fn custom_try_from_os_str_fail() {
    let decl = hex_reader_decl(parse_with("try_from_os_str", "custom_try_from_os_str"));
    let reg = Vec::new();
    let vals: &[Validator] = &[("custom_try_from_os_str", hex_validator)];
    let res = run(&decl, &reg, vec!["hexreader", "-n", "0xzz"], vals);
    assert!(res.is_err());
}

#[test]
fn custom_from_os_str() {
    let decl = hex_reader_decl(parse_with("from_os_str", "custom_from_os_str"));
    let reg = Vec::new();
    let (tree, root) = run(&decl, &reg, vec!["hexreader", "-n", "0x28"], &[]).unwrap();
    let fs = fields_of(&tree, root);
    assert_eq!(parse_hex(single(fs, "number")).unwrap(), 40);
}

#[test]
fn custom_from_os_str_fail() {
    let decl = hex_reader_decl(parse_with("from_os_str", "custom_from_os_str"));
    let reg = Vec::new();
    let (tree, root) = run(&decl, &reg, vec!["hexreader", "-n", "0xzz"], &[]).unwrap();
    let fs = fields_of(&tree, root);
    let res = parse_hex(single(fs, "number"));
    assert!(res.is_err());
}

// ---- skipped fields ----

#[test]
fn skip_1() {
    let decl = struct_decl(
        "Opt",
        vec![],
        vec![],
        vec![
            field("x", ty("u32"), vec![block(vec![bare("short")])], vec![]),
            field("s", ty("u32"), vec![block(vec![bare("skip")])], vec![]),
        ],
    );
    let reg = Vec::new();
    assert!(run(&decl, &reg, vec!["test", "-x", "10", "20"], &[]).is_err());
    let (tree, root) = run(&decl, &reg, vec!["test", "-x", "10"], &[]).unwrap();
    let fs = fields_of(&tree, root);
    assert_eq!(single(fs, "x").parse::<u32>().unwrap(), 10);
    assert_eq!(*val(fs, "s"), FieldValue::FromDefault);
    assert_eq!(u32::default(), 0);
}

#[test]
fn skip_2() {
    let decl = struct_decl(
        "Opt",
        vec![],
        vec![],
        vec![
            field("x", ty("u32"), vec![block(vec![bare("short")])], vec![]),
            field("ss", ty("String"), vec![block(vec![bare("skip")])], vec![]),
            field("sn", ty("u8"), vec![block(vec![bare("skip")])], vec![]),
            field("y", ty("u32"), vec![], vec![]),
            field("sz", ty("u16"), vec![block(vec![bare("skip")])], vec![]),
            field("t", ty("u32"), vec![], vec![]),
        ],
    );
    let reg = Vec::new();
    let (tree, root) = run(&decl, &reg, vec!["test", "-x", "10", "20", "30"], &[]).unwrap();
    let fs = fields_of(&tree, root);
    assert_eq!(single(fs, "x").parse::<u32>().unwrap(), 10);
    assert_eq!(*val(fs, "ss"), FieldValue::FromDefault);
    assert_eq!(String::default(), String::from(""));
    assert_eq!(*val(fs, "sn"), FieldValue::FromDefault);
    assert_eq!(u8::default(), 0);
    assert_eq!(single(fs, "y").parse::<u32>().unwrap(), 20);
    assert_eq!(*val(fs, "sz"), FieldValue::FromDefault);
    assert_eq!(single(fs, "t").parse::<u32>().unwrap(), 30);
}

#[test]
fn skip_enum() {
    #[derive(Debug, PartialEq)]
    #[allow(unused)]
    enum Kind {
        A,
        B,
    }

    impl Default for Kind {
        fn default() -> Self {
            Kind::B
        }
    }

    let decl = struct_decl(
        "Opt",
        vec![block(vec![nv("name", "a")])],
        vec![],
        vec![
            field("number", ty("u32"), vec![block(vec![bare("long"), bare("short")])], vec![]),
            field("k", ty("Kind"), vec![block(vec![bare("skip")])], vec![]),
            field("v", ty1("Vec", ty("u32")), vec![block(vec![bare("skip")])], vec![]),
        ],
    );
    let reg = Vec::new();
    let (tree, root) = run(&decl, &reg, vec!["test", "-n", "10"], &[]).unwrap();
    let fs = fields_of(&tree, root);
    assert_eq!(single(fs, "number").parse::<u32>().unwrap(), 10);
    assert_eq!(*val(fs, "k"), FieldValue::FromDefault);
    assert_eq!(Kind::default(), Kind::B);
    assert_eq!(*val(fs, "v"), FieldValue::FromDefault);
    assert_eq!(Vec::<u32>::default(), Vec::<u32>::new());
}

// ---- explicit names are kept verbatim ----

#[test]
fn explicit_short_long_no_rename() {
    let decl = struct_decl(
        "Opt",
        vec![],
        vec![],
        vec![field("foo", ty1("Vec", ty("String")), vec![block(vec![nv("short", "."), nv("long", ".foo")])], vec![])],
    );
    let reg = Vec::new();
    let (tree, root) = run(&decl, &reg, vec!["test", "-.", "short", "--.foo", "long"], &[]).unwrap();
    let fs = fields_of(&tree, root);
    assert_eq!(many(fs, "foo"), vec!["short", "long"]);
}

#[test]
fn explicit_name_no_rename() {
    let decl = struct_decl(
        "Opt",
        vec![],
        vec![],
        vec![field("foo", ty1("Vec", ty("String")), vec![block(vec![nv("name", ".options")])], vec![])],
    );
    let reg = Vec::new();
    let env = EnvConfig::empty();
    let spec = gen_app_spec(&decl, &reg, &env, FUEL).unwrap();
    let mut app = build_clap(&spec, &[]);
    let mut output: Vec<u8> = Vec::new();
    app.write_long_help(&mut output).unwrap();
    let help = String::from_utf8(output).unwrap();
    assert!(help.contains("[.options]..."));
}

// ---- subcommands ----

fn git_cmd_enum() -> TypeDecl {
    enum_decl(
        "GitCmd",
        vec![],
        vec![
            variant(
                "Add",
                vec![block(vec![nv("name", "add")])],
                vec!["Add changes to be commited"],
                VariantData::Fields(vec![
                    field("interactive", ty("bool"), vec![block(vec![nv("short", "i")])], vec![]),
                    field("patch", ty("bool"), vec![block(vec![nv("short", "p")])], vec![]),
                    field("files", ty1("Vec", ty("String")), vec![], vec![]),
                ]),
            ),
            variant(
                "Fetch",
                vec![block(vec![nv("name", "fetch")])],
                vec!["Fetch remote repos"],
                VariantData::Fields(vec![
                    field("dry_run", ty("bool"), vec![block(vec![nv("long", "dry-run")])], vec![]),
                    field("all", ty("bool"), vec![block(vec![nv("long", "all")])], vec![]),
                ]),
            ),
            variant(
                "Commit",
                vec![block(vec![nv("name", "commit")])],
                vec!["Commit changes"],
                VariantData::Fields(vec![
                    field("message", ty1("Option", ty("String")), vec![block(vec![nv("short", "m")])], vec![]),
                    field("all", ty("bool"), vec![block(vec![nv("short", "a")])], vec![]),
                ]),
            ),
        ],
    )
}

#[test]
fn top_level_enum() {
    let decl = enum_decl(
        "Git",
        vec![block(vec![nv("name", "git"), nv("about", "the stupid content tracker")])],
        vec![
            variant(
                "Add",
                vec![block(vec![nv("name", "add")])],
                vec![],
                VariantData::Fields(vec![
                    field("interactive", ty("bool"), vec![block(vec![nv("short", "i")])], vec![]),
                    field("patch", ty("bool"), vec![block(vec![nv("short", "p")])], vec![]),
                    field("files", ty1("Vec", ty("String")), vec![], vec![]),
                ]),
            ),
            variant(
                "Fetch",
                vec![block(vec![nv("name", "fetch")])],
                vec![],
                VariantData::Fields(vec![
                    field("dry_run", ty("bool"), vec![block(vec![nv("long", "dry-run")])], vec![]),
                    field("all", ty("bool"), vec![block(vec![nv("long", "all")])], vec![]),
                    field("repository", ty1("Option", ty("String")), vec![], vec![]),
                ]),
            ),
            variant(
                "Commit",
                vec![block(vec![nv("name", "commit")])],
                vec![],
                VariantData::Fields(vec![
                    field("message", ty1("Option", ty("String")), vec![block(vec![nv("short", "m")])], vec![]),
                    field("all", ty("bool"), vec![block(vec![nv("short", "a")])], vec![]),
                ]),
            ),
        ],
    );
    let reg = Vec::new();
    let (tree, root) = run(&decl, &reg, vec!["git", "add", "-i", "file1", "file2"], &[]).unwrap();
    let (vname, inner) = enum_of(&tree, root);
    match vname {
        "add" => {
            let fs = fields_of(&tree, inner);
            assert!(!flag(fs, "patch"));
            assert!(flag(fs, "interactive"));
            assert_eq!(many(fs, "files"), vec!["file1", "file2"]);
        }
        _ => panic!("Wrong subcommand was found in tests/subcommands.rs:top_level_enum"),
    }
}

#[test]
fn top_level_struct() {
    let decl = struct_decl(
        "Git",
        vec![block(vec![nv("name", "git")])],
        vec![],
        vec![
            field("verbose", ty("bool"), vec![block(vec![nv("long", "verbose")])], vec![]),
            field("cmd", ty("GitCmd"), vec![block(vec![bare("subcommand")])], vec![]),
        ],
    );
    let reg = vec![git_cmd_enum()];
    let (tree, root) = run(&decl, &reg, vec!["git", "add", "-i", "file1", "file2"], &[]).unwrap();
    let fs = fields_of(&tree, root);
    let sub = match val(fs, "cmd") {
        FieldValue::SubSome(i) => *i,
        v => panic!("expected a subcommand, got {:?}", v),
    };
    let (vname, inner) = enum_of(&tree, sub);
    match vname {
        "add" => {
            let afs = fields_of(&tree, inner);
            assert!(!flag(afs, "patch"));
            assert!(flag(afs, "interactive"));
            assert_eq!(many(afs, "files"), vec!["file1", "file2"]);
        }
        _ => panic!("Wrong subcommand was found in tests/subcommands.rs:top_level_enum"),
    }
}

#[test]
fn top_level_struct_no_subcmd_provided_fail() {
    let decl = struct_decl(
        "Git",
        vec![block(vec![nv("name", "git")])],
        vec![],
        vec![
            field("verbose", ty("bool"), vec![block(vec![nv("long", "verbose")])], vec![]),
            field("cmd", ty("GitCmd"), vec![block(vec![bare("subcommand")])], vec![]),
        ],
    );
    let reg = vec![git_cmd_enum()];
    let res = run(&decl, &reg, vec!["git"], &[]);
    assert!(res.is_err());
}

#[test]
fn top_level_struct_nested_subcmds() {
    let fetch_cmd = enum_decl(
        "FetchCmd",
        vec![],
        vec![
            variant(
                "Remote",
                vec![block(vec![nv("name", "remote")])],
                vec!["Handle fetching remote repos"],
                VariantData::Fields(vec![field("url", ty("String"), vec![], vec![])]),
            ),
            variant(
                "Local",
                vec![block(vec![nv("name", "local")])],
                vec!["Handle fetching local repos"],
                VariantData::Fields(vec![field("dir", ty("String"), vec![block(vec![nv("default_value", ".")])], vec![])]),
            ),
        ],
    );
    let git_cmd = enum_decl(
        "GitCmd",
        vec![],
        vec![
            variant(
                "Add",
                vec![block(vec![nv("name", "add")])],
                vec![],
                VariantData::Fields(vec![
                    field("interactive", ty("bool"), vec![block(vec![nv("short", "i")])], vec![]),
                    field("patch", ty("bool"), vec![block(vec![nv("short", "p")])], vec![]),
                    field("files", ty1("Vec", ty("String")), vec![], vec![]),
                ]),
            ),
            variant(
                "Fetch",
                vec![block(vec![nv("name", "fetch")])],
                vec![],
                VariantData::Fields(vec![
                    field("dry_run", ty("bool"), vec![block(vec![nv("long", "dry-run")])], vec![]),
                    field("all", ty("bool"), vec![block(vec![nv("long", "all")])], vec![]),
                    field("repo_cmd", ty1("Option", ty("FetchCmd")), vec![block(vec![bare("subcommand")])], vec![]),
                ]),
            ),
            variant(
                "Commit",
                vec![block(vec![nv("name", "commit")])],
                vec![],
                VariantData::Fields(vec![
                    field("message", ty1("Option", ty("String")), vec![block(vec![nv("short", "m")])], vec![]),
                    field("all", ty("bool"), vec![block(vec![nv("short", "a")])], vec![]),
                ]),
            ),
        ],
    );
    let decl = struct_decl(
        "Git",
        vec![block(vec![nv("name", "git")])],
        vec![],
        vec![
            field("verbose", ty("bool"), vec![block(vec![nv("short", "v"), nv("long", "verbose")])], vec![]),
            field("cmd", ty("GitCmd"), vec![block(vec![bare("subcommand")])], vec![]),
        ],
    );
    let reg = vec![git_cmd, fetch_cmd];
    let (tree, root) = run(&decl, &reg, vec!["git", "-v", "fetch", "--all", "remote", "someurl"], &[]).unwrap();
    let fs = fields_of(&tree, root);
    assert!(flag(fs, "verbose"));
    let sub = match val(fs, "cmd") {
        FieldValue::SubSome(i) => *i,
        v => panic!("expected a subcommand, got {:?}", v),
    };
    let (vname, inner) = enum_of(&tree, sub);
    match vname {
        "fetch" => {
            let ffs = fields_of(&tree, inner);
            assert!(flag(ffs, "all"));
            let rsub = match val(ffs, "repo_cmd") {
                FieldValue::SubSome(i) => *i,
                v => panic!("expected a subcommand, got {:?}", v),
            };
            let (rname, rinner) = enum_of(&tree, rsub);
            match rname {
                "remote" => {
                    let rfs = fields_of(&tree, rinner);
                    assert_eq!(single(rfs, "url"), "someurl");
                }
                _ => panic!("Wrong subcommand was found in tests/subcommands.rs:top_level_enum"),
            }
        }
        _ => panic!("Wrong subcommand was found in tests/subcommands.rs:top_level_enum"),
    }
}

#[test]
fn all_separate_structs() {
    let add = struct_decl(
        "Add",
        vec![],
        vec!["Add changes to be commited"],
        vec![
            field("interactive", ty("bool"), vec![block(vec![nv("short", "i")])], vec![]),
            field("patch", ty("bool"), vec![block(vec![nv("short", "p")])], vec![]),
            field("files", ty1("Vec", ty("String")), vec![], vec![]),
        ],
    );
    let fetch = struct_decl(
        "Fetch",
        vec![],
        vec!["Fetch remote repos"],
        vec![
            field("dry_run", ty("bool"), vec![block(vec![nv("long", "dry-run")])], vec![]),
            field("all", ty("bool"), vec![block(vec![nv("long", "all")])], vec![]),
            field("repo_cmd", ty1("Option", ty("FetchCmd")), vec![block(vec![bare("subcommand")])], vec![]),
        ],
    );
    let commit = struct_decl(
        "Commit",
        vec![],
        vec!["Commit changes"],
        vec![
            field("message", ty1("Option", ty("String")), vec![block(vec![nv("short", "m")])], vec![]),
            field("all", ty("bool"), vec![block(vec![nv("short", "a")])], vec![]),
        ],
    );
    let remote = struct_decl(
        "Remote",
        vec![],
        vec!["Handle fetching remote repos"],
        vec![field("url", ty("String"), vec![], vec![])],
    );
    let local = struct_decl(
        "Local",
        vec![],
        vec!["Handle fetching local repos"],
        vec![field("dir", ty("String"), vec![block(vec![nv("default_value", ".")])], vec![])],
    );
    let fetch_cmd = enum_decl(
        "FetchCmd",
        vec![],
        vec![
            variant("Remote", vec![], vec![], VariantData::Tuple(vec![ty("Remote")])),
            variant("Local", vec![], vec![], VariantData::Tuple(vec![ty("Local")])),
        ],
    );
    let git_cmd = enum_decl(
        "GitCmd",
        vec![],
        vec![
            variant("Add", vec![], vec![], VariantData::Tuple(vec![ty("Add")])),
            variant("Fetch", vec![], vec![], VariantData::Tuple(vec![ty("Fetch")])),
            variant("Commit", vec![], vec![], VariantData::Tuple(vec![ty("Commit")])),
        ],
    );
    let decl = struct_decl(
        "Git",
        vec![block(vec![nv("name", "git")])],
        vec![],
        vec![
            field("verbose", ty("bool"), vec![block(vec![nv("short", "v"), nv("long", "verbose")])], vec![]),
            field("cmd", ty("GitCmd"), vec![block(vec![bare("subcommand")])], vec![]),
        ],
    );
    let reg = vec![git_cmd, fetch_cmd, add, fetch, commit, remote, local];
    let (tree, root) = run(&decl, &reg, vec!["git", "-v", "fetch", "--all", "remote", "someurl"], &[]).unwrap();
    let fs = fields_of(&tree, root);
    assert!(flag(fs, "verbose"));
    let sub = match val(fs, "cmd") {
        FieldValue::SubSome(i) => *i,
        v => panic!("expected a subcommand, got {:?}", v),
    };
    let (vname, inner) = enum_of(&tree, sub);
    match vname {
        "fetch" => {
            let ffs = fields_of(&tree, inner);
            assert!(flag(ffs, "all"));
            let rsub = match val(ffs, "repo_cmd") {
                FieldValue::SubSome(i) => *i,
                v => panic!("expected a subcommand, got {:?}", v),
            };
            let (rname, rinner) = enum_of(&tree, rsub);
            match rname {
                "remote" => {
                    let rfs = fields_of(&tree, rinner);
                    assert_eq!(single(rfs, "url"), "someurl");
                }
                _ => panic!("Wrong subcommand was found in tests/subcommands.rs:top_level_enum"),
            }
        }
        _ => panic!("Wrong subcommand was found in tests/subcommands.rs:top_level_enum"),
    }
}

// ---- argument enums ----

#[test]
fn argenum() {
    let decl = enum_decl(
        "ArgChoice",
        vec![],
        vec![
            variant("Foo", vec![], vec![], VariantData::Unit),
            variant("Bar", vec![], vec![], VariantData::Unit),
            variant("Baz", vec![], vec![], VariantData::Unit),
        ],
    );
    let variants = clap_derive::arg_enum::derive_arg_enum(&decl).unwrap();
    let refs: Vec<&str> = variants.iter().map(|s| s.as_str()).collect();
    let matches = App::new("foo")
        .arg(Arg::with_name("arg").required(true).takes_value(true).possible_values(&refs))
        .get_matches_from(vec!["foo", "Bar"]);
    let value = matches.value_of("arg").unwrap();
    let t = clap_derive::arg_enum::arg_enum_from_str(&variants, value, true).unwrap();
    assert_eq!(variants[t].as_str(), "Bar");
}

#[test]
fn argenum_case_insensitive() {
    let decl = enum_decl(
        "ArgChoice",
        vec![],
        vec![
            variant("Foo", vec![], vec![], VariantData::Unit),
            variant("Bar", vec![], vec![], VariantData::Unit),
            variant("Baz", vec![], vec![], VariantData::Unit),
        ],
    );
    let variants = clap_derive::arg_enum::derive_arg_enum(&decl).unwrap();
    let refs: Vec<&str> = variants.iter().map(|s| s.as_str()).collect();
    let matches = App::new("foo")
        .arg(
            Arg::with_name("arg")
                .required(true)
                .takes_value(true)
                .case_insensitive(true)
                .possible_values(&refs),
        )
        .get_matches_from(vec!["foo", "bar"]);
    let value = matches.value_of("arg").unwrap();
    let t = clap_derive::arg_enum::arg_enum_from_str(&variants, value, false).unwrap();
    assert_eq!(variants[t].as_str(), "Bar");
}

// ---- shape scenarios ----

#[test]
fn list_round_trip() {
    let decl = struct_decl(
        "Opt",
        vec![],
        vec![],
        vec![field("files", ty1("Vec", ty("String")), vec![block(vec![nv("long", "file")])], vec![])],
    );
    let reg = Vec::new();
    let (tree, root) = run(&decl, &reg, vec!["test", "--file", "v1", "--file", "v2"], &[]).unwrap();
    assert_eq!(many(fields_of(&tree, root), "files"), vec!["v1", "v2"]);
    let (tree2, root2) = run(&decl, &reg, vec!["test"], &[]).unwrap();
    assert_eq!(many(fields_of(&tree2, root2), "files"), Vec::<&str>::new());
}

#[test]
fn optional_presence() {
    let decl = struct_decl(
        "Opt",
        vec![],
        vec![],
        vec![field("out", ty1("Option", ty("String")), vec![block(vec![nv("long", "out")])], vec![])],
    );
    let reg = Vec::new();
    let (tree, root) = run(&decl, &reg, vec!["test"], &[]).unwrap();
    assert_eq!(*val(fields_of(&tree, root), "out"), FieldValue::OptSingle(None));
    let (tree2, root2) = run(&decl, &reg, vec!["test", "--out", "x"], &[]).unwrap();
    assert_eq!(*val(fields_of(&tree2, root2), "out"), FieldValue::OptSingle(Some("x".to_string())));
}

#[test]
fn optional_optional_three_way() {
    let decl = struct_decl(
        "Opt",
        vec![],
        vec![],
        vec![field("flag", ty1("Option", ty1("Option", ty("String"))), vec![block(vec![nv("long", "flag")])], vec![])],
    );
    let reg = Vec::new();
    let (t0, r0) = run(&decl, &reg, vec!["test"], &[]).unwrap();
    assert_eq!(*val(fields_of(&t0, r0), "flag"), FieldValue::OptOptSingle(None));
    let (t1, r1) = run(&decl, &reg, vec!["test", "--flag"], &[]).unwrap();
    assert_eq!(*val(fields_of(&t1, r1), "flag"), FieldValue::OptOptSingle(Some(None)));
    let (t2, r2) = run(&decl, &reg, vec!["test", "--flag", "value"], &[]).unwrap();
    assert_eq!(
        *val(fields_of(&t2, r2), "flag"),
        FieldValue::OptOptSingle(Some(Some("value".to_string())))
    );
}
