//! The annotation grammar parser: turns the token sequence of one annotation
//! block into the ordered list of recognized directives. The grammar, per
//! item `name <rest>`, is: a bare identifier from the reserved set; `name =
//! <string literal>` with special handling for `rename_all`, `version`,
//! `author` and `about`; `name = <expression>` kept verbatim; `name(<args>)`
//! with `parse(...)` and the legacy `raw(...)` toggle special-cased. Parsing
//! is predictive and single-pass; every failure is a hard diagnostic.

use vstd::prelude::*;

use crate::ast::AttrBlock;
use crate::ast::AttrToken;
use crate::errors::{GenError, GenErrorKind};
use crate::strutil::string_eq_str;

verus! {

/// One argument of a builder-method call.
#[derive(Clone, Debug)]
pub enum MethodArg {
    /// The value of a string literal.
    Str(String),
    /// Verbatim expression text, spliced as written.
    Raw(String),
}

/// Mathematical image of a `MethodArg`.
#[verifier::ext_equal]
pub enum MethodArgModel {
    AStr(Seq<char>),
    ARaw(Seq<char>),
}

impl View for MethodArg {
    type V = MethodArgModel;

    open spec fn view(&self) -> MethodArgModel {
        match *self {
            MethodArg::Str(s) => MethodArgModel::AStr(s@),
            MethodArg::Raw(s) => MethodArgModel::ARaw(s@),
        }
    }
}

/// The conversion function named inside `parse(kind = f)`.
#[derive(Clone, Debug)]
pub struct FuncRef {
    /// Whether the function was written as a string literal (which the
    /// resolver rejects: it wants a plain path).
    pub is_str_lit: bool,
    pub text: String,
    pub span: u64,
}

/// Mathematical image of a `FuncRef`.
#[verifier::ext_equal]
pub struct FuncRefModel {
    pub is_str_lit: bool,
    pub text: Seq<char>,
    pub span: u64,
}

impl View for FuncRef {
    type V = FuncRefModel;

    open spec fn view(&self) -> FuncRefModel {
        FuncRefModel { is_str_lit: self.is_str_lit, text: self.text@, span: self.span }
    }
}

/// One `kind [= function]` specification inside `parse(...)`.
#[derive(Clone, Debug)]
pub struct ParserSpec {
    pub kind: String,
    pub kind_span: u64,
    pub parse_func: Option<FuncRef>,
}

/// Mathematical image of a `ParserSpec`.
#[verifier::ext_equal]
pub struct ParserSpecModel {
    pub kind: Seq<char>,
    pub kind_span: u64,
    pub parse_func: Option<FuncRefModel>,
}

impl View for ParserSpec {
    type V = ParserSpecModel;

    open spec fn view(&self) -> ParserSpecModel {
        ParserSpecModel {
            kind: self.kind@,
            kind_span: self.kind_span,
            parse_func: match self.parse_func {
                Option::None => Option::None,
                Option::Some(f) => Option::Some(f@),
            },
        }
    }
}

/// One recognized directive of the annotation mini-language.
#[derive(Clone, Debug)]
pub enum ClapAttr {
    Short { span: u64 },
    Long { span: u64 },
    Flatten { span: u64 },
    Subcommand { span: u64 },
    Skip { span: u64 },
    NoVersion { span: u64 },
    About { span: u64, value: Option<String> },
    Author { span: u64, value: Option<String> },
    Version { span: u64, value: String },
    RenameAll { span: u64, value: String, value_span: u64 },
    NameLitStr { span: u64, name: String, value: String },
    NameExpr { span: u64, name: String, expr: String },
    MethodCall { span: u64, name: String, args: Vec<MethodArg> },
    Parse { span: u64, parser: ParserSpec },
}

/// Mathematical image of a `ClapAttr`.
#[verifier::ext_equal]
pub enum ClapAttrModel {
    Short { span: u64 },
    Long { span: u64 },
    Flatten { span: u64 },
    Subcommand { span: u64 },
    Skip { span: u64 },
    NoVersion { span: u64 },
    About { span: u64, value: Option<Seq<char>> },
    Author { span: u64, value: Option<Seq<char>> },
    Version { span: u64, value: Seq<char> },
    RenameAll { span: u64, value: Seq<char>, value_span: u64 },
    NameLitStr { span: u64, name: Seq<char>, value: Seq<char> },
    NameExpr { span: u64, name: Seq<char>, expr: Seq<char> },
    MethodCall { span: u64, name: Seq<char>, args: Seq<MethodArgModel> },
    Parse { span: u64, parser: ParserSpecModel },
}

impl View for ClapAttr {
    type V = ClapAttrModel;

    open spec fn view(&self) -> ClapAttrModel {
        match *self {
            ClapAttr::Short { span } => ClapAttrModel::Short { span },
            ClapAttr::Long { span } => ClapAttrModel::Long { span },
            ClapAttr::Flatten { span } => ClapAttrModel::Flatten { span },
            ClapAttr::Subcommand { span } => ClapAttrModel::Subcommand { span },
            ClapAttr::Skip { span } => ClapAttrModel::Skip { span },
            ClapAttr::NoVersion { span } => ClapAttrModel::NoVersion { span },
            ClapAttr::About { span, value: Option::None } => ClapAttrModel::About {
                span,
                value: Option::None,
            },
            ClapAttr::About { span, value: Option::Some(v) } => ClapAttrModel::About {
                span,
                value: Option::Some(v@),
            },
            ClapAttr::Author { span, value: Option::None } => ClapAttrModel::Author {
                span,
                value: Option::None,
            },
            ClapAttr::Author { span, value: Option::Some(v) } => ClapAttrModel::Author {
                span,
                value: Option::Some(v@),
            },
            ClapAttr::Version { span, value } => ClapAttrModel::Version { span, value: value@ },
            ClapAttr::RenameAll { span, value, value_span } => ClapAttrModel::RenameAll {
                span,
                value: value@,
                value_span,
            },
            ClapAttr::NameLitStr { span, name, value } => ClapAttrModel::NameLitStr {
                span,
                name: name@,
                value: value@,
            },
            ClapAttr::NameExpr { span, name, expr } => ClapAttrModel::NameExpr {
                span,
                name: name@,
                expr: expr@,
            },
            ClapAttr::MethodCall { span, name, args } => ClapAttrModel::MethodCall {
                span,
                name: name@,
                args: args@.map_values(|a: MethodArg| a@),
            },
            ClapAttr::Parse { span, parser } => ClapAttrModel::Parse { span, parser: parser@ },
        }
    }
}

/// A token read as one method-call argument, if it can be one.
pub open spec fn spec_atom_arg(t: AttrToken) -> Option<MethodArgModel> {
    match t {
        AttrToken::LitStr { text, .. } => Option::Some(MethodArgModel::AStr(text@)),
        AttrToken::LitBool { val, .. } => Option::Some(
            MethodArgModel::ARaw(
                if val {
                    "true"@
                } else {
                    "false"@
                },
            ),
        ),
        AttrToken::Ident { text, .. } => Option::Some(MethodArgModel::ARaw(text@)),
        AttrToken::Expr { text, .. } => Option::Some(MethodArgModel::ARaw(text@)),
        _ => Option::None,
    }
}

/// A token read as the function of a parser specification, if it can be one.
pub open spec fn spec_func_ref(t: AttrToken) -> Option<FuncRefModel> {
    match t {
        AttrToken::LitStr { text, span } => Option::Some(
            FuncRefModel { is_str_lit: true, text: text@, span },
        ),
        AttrToken::LitBool { val, span } => Option::Some(
            FuncRefModel {
                is_str_lit: false,
                text: if val {
                    "true"@
                } else {
                    "false"@
                },
                span,
            },
        ),
        AttrToken::Ident { text, span } => Option::Some(
            FuncRefModel { is_str_lit: false, text: text@, span },
        ),
        AttrToken::Expr { text, span } => Option::Some(
            FuncRefModel { is_str_lit: false, text: text@, span },
        ),
        _ => Option::None,
    }
}

/// A comma-separated argument list, trailing comma allowed.
pub open spec fn spec_parse_args(toks: Seq<AttrToken>) -> Result<Seq<MethodArgModel>, GenError>
    decreases toks.len(),
{
    if toks.len() == 0 {
        Ok(Seq::empty())
    } else {
        match spec_atom_arg(toks[0]) {
            Option::None => Err(
                GenError {
                    kind: GenErrorKind::MalformedAttributeSyntax,
                    span: toks[0].spec_span(),
                },
            ),
            Option::Some(a) => {
                if toks.len() == 1 {
                    Ok(Seq::empty().push(a))
                } else if toks[1] is Comma {
                    match spec_parse_args(toks.skip(2)) {
                        Ok(rest) => Ok(Seq::empty().push(a) + rest),
                        Err(e) => Err(e),
                    }
                } else {
                    Err(
                        GenError {
                            kind: GenErrorKind::MalformedAttributeSyntax,
                            span: toks[1].spec_span(),
                        },
                    )
                }
            },
        }
    }
}

/// A comma-separated list of `kind [= function]` parser specifications.
pub open spec fn spec_parser_specs(toks: Seq<AttrToken>) -> Result<Seq<ParserSpecModel>, GenError>
    decreases toks.len(),
{
    if toks.len() == 0 {
        Ok(Seq::empty())
    } else {
        match toks[0] {
            AttrToken::Ident { text: kind, span: kind_span } => {
                let head = ParserSpecModel {
                    kind: kind@,
                    kind_span,
                    parse_func: Option::None,
                };
                if toks.len() == 1 {
                    Ok(Seq::empty().push(head))
                } else if toks[1] is Comma {
                    match spec_parser_specs(toks.skip(2)) {
                        Ok(rest) => Ok(Seq::empty().push(head) + rest),
                        Err(e) => Err(e),
                    }
                } else if toks[1] is Eq {
                    if toks.len() == 2 {
                        Err(
                            GenError {
                                kind: GenErrorKind::MalformedAttributeSyntax,
                                span: toks[1].spec_span(),
                            },
                        )
                    } else {
                        match spec_func_ref(toks[2]) {
                            Option::None => Err(
                                GenError {
                                    kind: GenErrorKind::MalformedAttributeSyntax,
                                    span: toks[2].spec_span(),
                                },
                            ),
                            Option::Some(f) => {
                                let full = ParserSpecModel {
                                    kind: kind@,
                                    kind_span,
                                    parse_func: Option::Some(f),
                                };
                                if toks.len() == 3 {
                                    Ok(Seq::empty().push(full))
                                } else if toks[3] is Comma {
                                    match spec_parser_specs(toks.skip(4)) {
                                        Ok(rest) => Ok(Seq::empty().push(full) + rest),
                                        Err(e) => Err(e),
                                    }
                                } else {
                                    Err(
                                        GenError {
                                            kind: GenErrorKind::MalformedAttributeSyntax,
                                            span: toks[3].spec_span(),
                                        },
                                    )
                                }
                            },
                        }
                    }
                } else {
                    Err(
                        GenError {
                            kind: GenErrorKind::MalformedAttributeSyntax,
                            span: toks[1].spec_span(),
                        },
                    )
                }
            },
            _ => Err(
                GenError {
                    kind: GenErrorKind::MalformedAttributeSyntax,
                    span: toks[0].spec_span(),
                },
            ),
        }
    }
}

/// The directive a bare identifier stands for.
pub open spec fn spec_bare(name: Seq<char>, span: u64) -> Result<ClapAttrModel, GenError> {
    if name == "long"@ {
        Ok(ClapAttrModel::Long { span })
    } else if name == "short"@ {
        Ok(ClapAttrModel::Short { span })
    } else if name == "flatten"@ {
        Ok(ClapAttrModel::Flatten { span })
    } else if name == "subcommand"@ {
        Ok(ClapAttrModel::Subcommand { span })
    } else if name == "skip"@ {
        Ok(ClapAttrModel::Skip { span })
    } else if name == "no_version"@ {
        Ok(ClapAttrModel::NoVersion { span })
    } else if name == "about"@ {
        Ok(ClapAttrModel::About { span, value: Option::None })
    } else if name == "author"@ {
        Ok(ClapAttrModel::Author { span, value: Option::None })
    } else if name == "version"@ {
        Err(GenError { kind: GenErrorKind::BareVersionAttribute, span })
    } else {
        Err(GenError { kind: GenErrorKind::UnexpectedAttribute, span })
    }
}

/// The directive of `name = <value token>`.
pub open spec fn spec_item_from_eq(
    name: Seq<char>,
    nspan: u64,
    eq_span: u64,
    val: AttrToken,
) -> Result<ClapAttrModel, GenError> {
    match val {
        AttrToken::LitStr { text, span: vspan } => {
            if name == "rename_all"@ {
                Ok(ClapAttrModel::RenameAll { span: nspan, value: text@, value_span: vspan })
            } else if name == "version"@ {
                if text@.len() == 0 {
                    Err(GenError { kind: GenErrorKind::EmptyLiteralDeprecated, span: vspan })
                } else {
                    Ok(ClapAttrModel::Version { span: nspan, value: text@ })
                }
            } else if name == "author"@ {
                if text@.len() == 0 {
                    Err(GenError { kind: GenErrorKind::EmptyLiteralDeprecated, span: vspan })
                } else {
                    Ok(ClapAttrModel::Author { span: nspan, value: Option::Some(text@) })
                }
            } else if name == "about"@ {
                if text@.len() == 0 {
                    Err(GenError { kind: GenErrorKind::EmptyLiteralDeprecated, span: vspan })
                } else {
                    Ok(ClapAttrModel::About { span: nspan, value: Option::Some(text@) })
                }
            } else {
                Ok(ClapAttrModel::NameLitStr { span: nspan, name, value: text@ })
            }
        },
        AttrToken::LitBool { val: b, .. } => Ok(
            ClapAttrModel::NameExpr {
                span: nspan,
                name,
                expr: if b {
                    "true"@
                } else {
                    "false"@
                },
            },
        ),
        AttrToken::Ident { text, .. } => Ok(
            ClapAttrModel::NameExpr { span: nspan, name, expr: text@ },
        ),
        AttrToken::Expr { text, .. } => Ok(
            ClapAttrModel::NameExpr { span: nspan, name, expr: text@ },
        ),
        _ => Err(GenError { kind: GenErrorKind::ExpectedValueAfterEq, span: eq_span }),
    }
}

/// Index of the first closing parenthesis at or after `from`, or `-1`.
pub open spec fn spec_find_close(toks: Seq<AttrToken>, from: int) -> int
    decreases toks.len() - from,
{
    if !(0 <= from < toks.len()) {
        -1
    } else if toks[from] is CloseParen {
        from
    } else {
        spec_find_close(toks, from + 1)
    }
}

proof fn lemma_find_close_bounds(toks: Seq<AttrToken>, from: int)
    requires
        0 <= from,
    ensures
        spec_find_close(toks, from) == -1 || (from <= spec_find_close(toks, from) < toks.len()),
    decreases toks.len() - from,
{
    if 0 <= from < toks.len() && !(toks[from] is CloseParen) {
        lemma_find_close_bounds(toks, from + 1);
    }
}

/// One item `name <rest>`: the directive it parses to, with the number of
/// tokens consumed.
pub open spec fn spec_item(toks: Seq<AttrToken>) -> Result<(ClapAttrModel, int), GenError> {
    if toks.len() == 0 {
        Err(GenError { kind: GenErrorKind::MalformedAttributeSyntax, span: 0 })
    } else {
        match toks[0] {
            AttrToken::Ident { text: name, span: nspan } => {
                if toks.len() >= 2 && toks[1] is Eq {
                    if toks.len() == 2 {
                        Err(
                            GenError {
                                kind: GenErrorKind::ExpectedValueAfterEq,
                                span: toks[1].spec_span(),
                            },
                        )
                    } else {
                        match spec_item_from_eq(name@, nspan, toks[1].spec_span(), toks[2]) {
                            Ok(d) => Ok((d, 3)),
                            Err(e) => Err(e),
                        }
                    }
                } else if toks.len() >= 2 && toks[1] is OpenParen {
                    let ci = spec_find_close(toks, 2);
                    if !(2 <= ci < toks.len()) {
                        Err(
                            GenError {
                                kind: GenErrorKind::MalformedAttributeSyntax,
                                span: toks[1].spec_span(),
                            },
                        )
                    } else {
                        let inner = toks.subrange(2, ci);
                        if name@ == "parse"@ {
                            match spec_parser_specs(inner) {
                                Err(e) => Err(e),
                                Ok(specs) => {
                                    if specs.len() == 1 {
                                        Ok(
                                            (
                                                ClapAttrModel::Parse {
                                                    span: nspan,
                                                    parser: specs[0],
                                                },
                                                ci + 1,
                                            ),
                                        )
                                    } else {
                                        Err(GenError { kind: GenErrorKind::ParseArity, span: nspan })
                                    }
                                },
                            }
                        } else if name@ == "raw"@ {
                            if inner.len() == 1 && inner[0] is LitBool {
                                match spec_atom_arg(inner[0]) {
                                    Option::Some(a) => Ok(
                                        (
                                            ClapAttrModel::MethodCall {
                                                span: nspan,
                                                name: name@,
                                                args: Seq::empty().push(a),
                                            },
                                            ci + 1,
                                        ),
                                    ),
                                    Option::None => Err(
                                        GenError { kind: GenErrorKind::RawDeprecated, span: nspan },
                                    ),
                                }
                            } else {
                                Err(GenError { kind: GenErrorKind::RawDeprecated, span: nspan })
                            }
                        } else {
                            match spec_parse_args(inner) {
                                Err(e) => Err(e),
                                Ok(args) => Ok(
                                    (
                                        ClapAttrModel::MethodCall {
                                            span: nspan,
                                            name: name@,
                                            args,
                                        },
                                        ci + 1,
                                    ),
                                ),
                            }
                        }
                    }
                } else {
                    match spec_bare(name@, nspan) {
                        Ok(d) => Ok((d, 1)),
                        Err(e) => Err(e),
                    }
                }
            },
            _ => Err(
                GenError {
                    kind: GenErrorKind::MalformedAttributeSyntax,
                    span: toks[0].spec_span(),
                },
            ),
        }
    }
}

/// A whole annotation block: items separated by commas.
pub open spec fn spec_items(toks: Seq<AttrToken>) -> Result<Seq<ClapAttrModel>, GenError>
    decreases toks.len(),
{
    if toks.len() == 0 {
        Ok(Seq::empty())
    } else {
        match spec_item(toks) {
            Err(e) => Err(e),
            Ok((d, n)) => {
                if n == toks.len() {
                    Ok(Seq::empty().push(d))
                } else if 1 <= n < toks.len() {
                    if toks[n] is Comma {
                        match spec_items(toks.skip(n + 1)) {
                            Ok(ds) => Ok(Seq::empty().push(d) + ds),
                            Err(e) => Err(e),
                        }
                    } else {
                        Err(
                            GenError {
                                kind: GenErrorKind::MalformedAttributeSyntax,
                                span: toks[n].spec_span(),
                            },
                        )
                    }
                } else {
                    Err(GenError { kind: GenErrorKind::MalformedAttributeSyntax, span: 0 })
                }
            },
        }
    }
}

/// The directives of a sequence of annotation blocks, concatenated in order;
/// the first failing block aborts the whole parse.
pub open spec fn spec_parse_blocks(blocks: Seq<AttrBlock>) -> Result<Seq<ClapAttrModel>, GenError>
    decreases blocks.len(),
{
    if blocks.len() == 0 {
        Ok(Seq::empty())
    } else {
        match spec_items(blocks[0].tokens@) {
            Err(e) => Err(e),
            Ok(ds) => {
                match spec_parse_blocks(blocks.drop_first()) {
                    Err(e) => Err(e),
                    Ok(rest) => Ok(ds + rest),
                }
            },
        }
    }
}

proof fn lemma_find_close_skip(toks: Seq<AttrToken>, i: int, from: int)
    requires
        0 <= i <= from,
        i <= toks.len(),
    ensures
        spec_find_close(toks.skip(i), from - i) == (if spec_find_close(toks, from) == -1 {
            -1
        } else {
            spec_find_close(toks, from) - i
        }),
    decreases toks.len() - from,
{
    if from >= toks.len() {
    } else {
        assert(toks.skip(i)[from - i] == toks[from]);
        if toks[from] is CloseParen {
        } else {
            lemma_find_close_skip(toks, i, from + 1);
        }
    }
}

/// "true" or "false" as text.
fn bool_text(b: bool) -> (r: String)
    ensures
        b ==> r@ == "true"@,
        !b ==> r@ == "false"@,
{
    if b {
        String::from_str("true")
    } else {
        String::from_str("false")
    }
}

/// Reads a token as a method-call argument.
fn atom_arg(t: &AttrToken) -> (r: Option<MethodArg>)
    ensures
        match r {
            Option::Some(a) => spec_atom_arg(*t) == Option::Some(a@),
            Option::None => spec_atom_arg(*t) is None,
        },
{
    match t {
        AttrToken::LitStr { text, .. } => Option::Some(MethodArg::Str(text.clone())),
        AttrToken::LitBool { val, .. } => Option::Some(MethodArg::Raw(bool_text(*val))),
        AttrToken::Ident { text, .. } => Option::Some(MethodArg::Raw(text.clone())),
        AttrToken::Expr { text, .. } => Option::Some(MethodArg::Raw(text.clone())),
        _ => Option::None,
    }
}

/// Reads a token as the function of a parser specification.
fn func_ref_of(t: &AttrToken) -> (r: Option<FuncRef>)
    ensures
        match r {
            Option::Some(f) => spec_func_ref(*t) == Option::Some(f@),
            Option::None => spec_func_ref(*t) is None,
        },
{
    match t {
        AttrToken::LitStr { text, span } => Option::Some(
            FuncRef { is_str_lit: true, text: text.clone(), span: *span },
        ),
        AttrToken::LitBool { val, span } => Option::Some(
            FuncRef { is_str_lit: false, text: bool_text(*val), span: *span },
        ),
        AttrToken::Ident { text, span } => Option::Some(
            FuncRef { is_str_lit: false, text: text.clone(), span: *span },
        ),
        AttrToken::Expr { text, span } => Option::Some(
            FuncRef { is_str_lit: false, text: text.clone(), span: *span },
        ),
        _ => Option::None,
    }
}

/// Index of the first closing parenthesis at or after `from`, if any.
fn find_close(toks: &Vec<AttrToken>, from: usize) -> (r: Option<usize>)
    requires
        from <= toks@.len(),
    ensures
        match r {
            Option::Some(j) => from <= j < toks@.len() && spec_find_close(toks@, from as int)
                == j as int,
            Option::None => spec_find_close(toks@, from as int) == -1,
        },
{
    let mut j = from;
    while j < toks.len()
        invariant
            from <= j <= toks@.len(),
            spec_find_close(toks@, from as int) == spec_find_close(toks@, j as int),
        decreases toks@.len() - j,
    {
        let found = match &toks[j] {
            AttrToken::CloseParen { .. } => true,
            _ => false,
        };
        if found {
            return Option::Some(j);
        }
        j = j + 1;
    }
    Option::None
}

/// Whether an argument list and its parse outcome agree.
pub open spec fn args_result_matches(
    r: Result<Vec<MethodArg>, GenError>,
    m: Result<Seq<MethodArgModel>, GenError>,
) -> bool {
    match (r, m) {
        (Ok(v), Ok(ms)) => v@.map_values(|a: MethodArg| a@) == ms,
        (Err(e), Err(me)) => e == me,
        _ => false,
    }
}

/// Parses the comma-separated method arguments in `toks[from..to]`.
fn parse_args_range(toks: &Vec<AttrToken>, from: usize, to: usize) -> (r: Result<
    Vec<MethodArg>,
    GenError,
>)
    requires
        from <= to <= toks@.len(),
    ensures
        args_result_matches(r, spec_parse_args(toks@.subrange(from as int, to as int))),
    decreases to - from,
{
    let ghost sub = toks@.subrange(from as int, to as int);
    if from == to {
        let v: Vec<MethodArg> = Vec::new();
        proof {
            assert(v@.map_values(|a: MethodArg| a@) =~= Seq::<MethodArgModel>::empty());
        }
        Ok(v)
    } else {
        proof {
            assert(sub[0] == toks@[from as int]);
        }
        match atom_arg(&toks[from]) {
            Option::None => Err(
                GenError { kind: GenErrorKind::MalformedAttributeSyntax, span: toks[from].span() },
            ),
            Option::Some(a) => {
                let ghost am = a@;
                if from + 1 == to {
                    let mut v: Vec<MethodArg> = Vec::new();
                    v.push(a);
                    proof {
                        assert(v@.map_values(|x: MethodArg| x@) =~= Seq::empty().push(am));
                    }
                    Ok(v)
                } else {
                    proof {
                        assert(sub[1] == toks@[from + 1]);
                    }
                    let is_comma = match &toks[from + 1] {
                        AttrToken::Comma { .. } => true,
                        _ => false,
                    };
                    if is_comma {
                        proof {
                            assert(sub.skip(2) =~= toks@.subrange(from + 2, to as int));
                        }
                        match parse_args_range(toks, from + 2, to) {
                            Err(e) => Err(e),
                            Ok(mut rest) => {
                                let ghost restm = rest@.map_values(|x: MethodArg| x@);
                                let mut v: Vec<MethodArg> = Vec::new();
                                v.push(a);
                                v.append(&mut rest);
                                proof {
                                    assert(v@.map_values(|x: MethodArg| x@) =~= Seq::empty().push(
                                        am,
                                    ) + restm);
                                }
                                Ok(v)
                            },
                        }
                    } else {
                        Err(
                            GenError {
                                kind: GenErrorKind::MalformedAttributeSyntax,
                                span: toks[from + 1].span(),
                            },
                        )
                    }
                }
            },
        }
    }
}

/// Whether a parser-specification list and its parse outcome agree.
pub open spec fn specs_result_matches(
    r: Result<Vec<ParserSpec>, GenError>,
    m: Result<Seq<ParserSpecModel>, GenError>,
) -> bool {
    match (r, m) {
        (Ok(v), Ok(ms)) => v@.map_values(|s: ParserSpec| s@) == ms,
        (Err(e), Err(me)) => e == me,
        _ => false,
    }
}

/// Parses the comma-separated parser specifications in `toks[from..to]`.
fn parse_parser_specs_range(toks: &Vec<AttrToken>, from: usize, to: usize) -> (r: Result<
    Vec<ParserSpec>,
    GenError,
>)
    requires
        from <= to <= toks@.len(),
    ensures
        specs_result_matches(r, spec_parser_specs(toks@.subrange(from as int, to as int))),
    decreases to - from,
{
    let ghost sub = toks@.subrange(from as int, to as int);
    if from == to {
        let v: Vec<ParserSpec> = Vec::new();
        proof {
            assert(v@.map_values(|s: ParserSpec| s@) =~= Seq::<ParserSpecModel>::empty());
        }
        Ok(v)
    } else {
        proof {
            assert(sub[0] == toks@[from as int]);
        }
        let (kind, kind_span, is_ident) = match &toks[from] {
            AttrToken::Ident { text, span } => (text.clone(), *span, true),
            _ => (String::new(), 0u64, false),
        };
        if !is_ident {
            return Err(
                GenError { kind: GenErrorKind::MalformedAttributeSyntax, span: toks[from].span() },
            );
        }
        let head = ParserSpec { kind, kind_span, parse_func: Option::None };
        let ghost headm = head@;
        if from + 1 == to {
            let mut v: Vec<ParserSpec> = Vec::new();
            v.push(head);
            proof {
                assert(v@.map_values(|s: ParserSpec| s@) =~= Seq::empty().push(headm));
            }
            return Ok(v);
        }
        proof {
            assert(sub[1] == toks@[from + 1]);
        }
        let next_comma = match &toks[from + 1] {
            AttrToken::Comma { .. } => true,
            _ => false,
        };
        let next_eq = match &toks[from + 1] {
            AttrToken::Eq { .. } => true,
            _ => false,
        };
        if next_comma {
            proof {
                assert(sub.skip(2) =~= toks@.subrange(from + 2, to as int));
            }
            match parse_parser_specs_range(toks, from + 2, to) {
                Err(e) => Err(e),
                Ok(mut rest) => {
                    let ghost restm = rest@.map_values(|x: ParserSpec| x@);
                    let mut v: Vec<ParserSpec> = Vec::new();
                    v.push(head);
                    v.append(&mut rest);
                    proof {
                        assert(v@.map_values(|x: ParserSpec| x@) =~= Seq::empty().push(headm)
                            + restm);
                    }
                    Ok(v)
                },
            }
        } else if next_eq {
            if from + 2 == to {
                return Err(
                    GenError {
                        kind: GenErrorKind::MalformedAttributeSyntax,
                        span: toks[from + 1].span(),
                    },
                );
            }
            proof {
                assert(sub[2] == toks@[from + 2]);
            }
            match func_ref_of(&toks[from + 2]) {
                Option::None => Err(
                    GenError {
                        kind: GenErrorKind::MalformedAttributeSyntax,
                        span: toks[from + 2].span(),
                    },
                ),
                Option::Some(f) => {
                    let full = ParserSpec {
                        kind: head.kind,
                        kind_span,
                        parse_func: Option::Some(f),
                    };
                    let ghost fullm = full@;
                    if from + 3 == to {
                        let mut v: Vec<ParserSpec> = Vec::new();
                        v.push(full);
                        proof {
                            assert(v@.map_values(|s: ParserSpec| s@) =~= Seq::empty().push(fullm));
                        }
                        Ok(v)
                    } else {
                        proof {
                            assert(sub[3] == toks@[from + 3]);
                        }
                        let third_comma = match &toks[from + 3] {
                            AttrToken::Comma { .. } => true,
                            _ => false,
                        };
                        if third_comma {
                            proof {
                                assert(sub.skip(4) =~= toks@.subrange(from + 4, to as int));
                            }
                            match parse_parser_specs_range(toks, from + 4, to) {
                                Err(e) => Err(e),
                                Ok(mut rest) => {
                                    let ghost restm = rest@.map_values(|x: ParserSpec| x@);
                                    let mut v: Vec<ParserSpec> = Vec::new();
                                    v.push(full);
                                    v.append(&mut rest);
                                    proof {
                                        assert(v@.map_values(|x: ParserSpec| x@)
                                            =~= Seq::empty().push(fullm) + restm);
                                    }
                                    Ok(v)
                                },
                            }
                        } else {
                            Err(
                                GenError {
                                    kind: GenErrorKind::MalformedAttributeSyntax,
                                    span: toks[from + 3].span(),
                                },
                            )
                        }
                    }
                },
            }
        } else {
            Err(
                GenError {
                    kind: GenErrorKind::MalformedAttributeSyntax,
                    span: toks[from + 1].span(),
                },
            )
        }
    }
}

/// Whether an executable directive list and a parse outcome agree.
pub open spec fn attrs_result_matches(
    r: Result<Vec<ClapAttr>, GenError>,
    m: Result<Seq<ClapAttrModel>, GenError>,
) -> bool {
    match (r, m) {
        (Ok(v), Ok(ms)) => v@.map_values(|d: ClapAttr| d@) == ms,
        (Err(e), Err(me)) => e == me,
        _ => false,
    }
}

/// The directive a bare identifier stands for.
fn bare_directive(name: &String, span: u64) -> (r: Result<ClapAttr, GenError>)
    ensures
        match r {
            Ok(d) => spec_bare(name@, span) == Ok::<ClapAttrModel, GenError>(d@),
            Err(e) => spec_bare(name@, span) == Err::<ClapAttrModel, GenError>(e),
        },
{
    if string_eq_str(name, "long") {
        Ok(ClapAttr::Long { span })
    } else if string_eq_str(name, "short") {
        Ok(ClapAttr::Short { span })
    } else if string_eq_str(name, "flatten") {
        Ok(ClapAttr::Flatten { span })
    } else if string_eq_str(name, "subcommand") {
        Ok(ClapAttr::Subcommand { span })
    } else if string_eq_str(name, "skip") {
        Ok(ClapAttr::Skip { span })
    } else if string_eq_str(name, "no_version") {
        Ok(ClapAttr::NoVersion { span })
    } else if string_eq_str(name, "about") {
        Ok(ClapAttr::About { span, value: Option::None })
    } else if string_eq_str(name, "author") {
        Ok(ClapAttr::Author { span, value: Option::None })
    } else if string_eq_str(name, "version") {
        Err(GenError { kind: GenErrorKind::BareVersionAttribute, span })
    } else {
        Err(GenError { kind: GenErrorKind::UnexpectedAttribute, span })
    }
}

/// The directive of `name = <value token>`.
fn item_from_eq(name: &String, nspan: u64, eq_span: u64, val: &AttrToken) -> (r: Result<
    ClapAttr,
    GenError,
>)
    ensures
        match r {
            Ok(d) => spec_item_from_eq(name@, nspan, eq_span, *val) == Ok::<
                ClapAttrModel,
                GenError,
            >(d@),
            Err(e) => spec_item_from_eq(name@, nspan, eq_span, *val) == Err::<
                ClapAttrModel,
                GenError,
            >(e),
        },
{
    match val {
        AttrToken::LitStr { text, span: vspan } => {
            if string_eq_str(name, "rename_all") {
                Ok(
                    ClapAttr::RenameAll {
                        span: nspan,
                        value: text.clone(),
                        value_span: *vspan,
                    },
                )
            } else if string_eq_str(name, "version") {
                if text.as_str().unicode_len() == 0 {
                    Err(GenError { kind: GenErrorKind::EmptyLiteralDeprecated, span: *vspan })
                } else {
                    Ok(ClapAttr::Version { span: nspan, value: text.clone() })
                }
            } else if string_eq_str(name, "author") {
                if text.as_str().unicode_len() == 0 {
                    Err(GenError { kind: GenErrorKind::EmptyLiteralDeprecated, span: *vspan })
                } else {
                    Ok(ClapAttr::Author { span: nspan, value: Option::Some(text.clone()) })
                }
            } else if string_eq_str(name, "about") {
                if text.as_str().unicode_len() == 0 {
                    Err(GenError { kind: GenErrorKind::EmptyLiteralDeprecated, span: *vspan })
                } else {
                    Ok(ClapAttr::About { span: nspan, value: Option::Some(text.clone()) })
                }
            } else {
                Ok(
                    ClapAttr::NameLitStr {
                        span: nspan,
                        name: name.clone(),
                        value: text.clone(),
                    },
                )
            }
        },
        AttrToken::LitBool { val: b, .. } => Ok(
            ClapAttr::NameExpr { span: nspan, name: name.clone(), expr: bool_text(*b) },
        ),
        AttrToken::Ident { text, .. } => Ok(
            ClapAttr::NameExpr { span: nspan, name: name.clone(), expr: text.clone() },
        ),
        AttrToken::Expr { text, .. } => Ok(
            ClapAttr::NameExpr { span: nspan, name: name.clone(), expr: text.clone() },
        ),
        _ => Err(GenError { kind: GenErrorKind::ExpectedValueAfterEq, span: eq_span }),
    }
}

/// Parses one item starting at index `i`; on success also returns the index
/// just past the item.
fn parse_item(toks: &Vec<AttrToken>, i: usize) -> (r: Result<(ClapAttr, usize), GenError>)
    requires
        i < toks@.len(),
    ensures
        match r {
            Ok(p) => i < p.1 <= toks@.len() && spec_item(toks@.skip(i as int)) == Ok::<
                (ClapAttrModel, int),
                GenError,
            >((p.0@, p.1 - i as int)),
            Err(e) => spec_item(toks@.skip(i as int)) == Err::<(ClapAttrModel, int), GenError>(e),
        },
{
    let ghost sub = toks@.skip(i as int);
    proof {
        assert(sub[0] == toks@[i as int]);
    }
    let (name, nspan, is_ident) = match &toks[i] {
        AttrToken::Ident { text, span } => (text.clone(), *span, true),
        _ => (String::new(), 0u64, false),
    };
    if !is_ident {
        return Err(
            GenError { kind: GenErrorKind::MalformedAttributeSyntax, span: toks[i].span() },
        );
    }
    let n = toks.len();
    let next_eq = if i + 1 < n {
        proof {
            assert(sub[1] == toks@[i + 1]);
        }
        match &toks[i + 1] {
            AttrToken::Eq { .. } => true,
            _ => false,
        }
    } else {
        false
    };
    let next_paren = if i + 1 < n {
        match &toks[i + 1] {
            AttrToken::OpenParen { .. } => true,
            _ => false,
        }
    } else {
        false
    };
    if next_eq {
        if i + 2 == n {
            Err(GenError { kind: GenErrorKind::ExpectedValueAfterEq, span: toks[i + 1].span() })
        } else {
            proof {
                assert(sub[2] == toks@[i + 2]);
            }
            match item_from_eq(&name, nspan, toks[i + 1].span(), &toks[i + 2]) {
                Ok(d) => Ok((d, i + 3)),
                Err(e) => Err(e),
            }
        }
    } else if next_paren {
        proof {
            lemma_find_close_skip(toks@, i as int, i + 2);
        }
        match find_close(toks, i + 2) {
            Option::None => Err(
                GenError {
                    kind: GenErrorKind::MalformedAttributeSyntax,
                    span: toks[i + 1].span(),
                },
            ),
            Option::Some(ci) => {
                let ghost inner = sub.subrange(2, ci - i as int);
                proof {
                    assert(inner =~= toks@.subrange(i + 2, ci as int));
                }
                if string_eq_str(&name, "parse") {
                    match parse_parser_specs_range(toks, i + 2, ci) {
                        Err(e) => Err(e),
                        Ok(mut specs) => {
                            if specs.len() == 1 {
                                let ghost sm = specs@.map_values(|s: ParserSpec| s@);
                                let ps = match specs.pop() {
                                    Option::Some(p) => p,
                                    Option::None => {
                                        proof {
                                            assert(false);
                                        }
                                        ParserSpec {
                                            kind: String::new(),
                                            kind_span: 0,
                                            parse_func: Option::None,
                                        }
                                    },
                                };
                                proof {
                                    assert(sm[0] == ps@);
                                }
                                Ok((ClapAttr::Parse { span: nspan, parser: ps }, ci + 1))
                            } else {
                                Err(GenError { kind: GenErrorKind::ParseArity, span: nspan })
                            }
                        },
                    }
                } else if string_eq_str(&name, "raw") {
                    let one_inner = i + 3 == ci;
                    let lit_bool = if one_inner {
                        proof {
                            assert(inner[0] == toks@[i + 2]);
                        }
                        match &toks[i + 2] {
                            AttrToken::LitBool { .. } => true,
                            _ => false,
                        }
                    } else {
                        false
                    };
                    if one_inner && lit_bool {
                        let b = match &toks[i + 2] {
                            AttrToken::LitBool { val, .. } => *val,
                            _ => false,
                        };
                        let mut args: Vec<MethodArg> = Vec::new();
                        args.push(MethodArg::Raw(bool_text(b)));
                        proof {
                            assert(args@.map_values(|a: MethodArg| a@) =~= Seq::empty().push(
                                spec_atom_arg(inner[0])->0,
                            ));
                        }
                        Ok((ClapAttr::MethodCall { span: nspan, name, args }, ci + 1))
                    } else {
                        Err(GenError { kind: GenErrorKind::RawDeprecated, span: nspan })
                    }
                } else {
                    match parse_args_range(toks, i + 2, ci) {
                        Err(e) => Err(e),
                        Ok(args) => Ok((ClapAttr::MethodCall { span: nspan, name, args }, ci + 1)),
                    }
                }
            },
        }
    } else {
        match bare_directive(&name, nspan) {
            Ok(d) => Ok((d, i + 1)),
            Err(e) => Err(e),
        }
    }
}

/// Parses the items of one annotation block starting at index `i`.
fn parse_items(toks: &Vec<AttrToken>, i: usize) -> (r: Result<Vec<ClapAttr>, GenError>)
    requires
        i <= toks@.len(),
    ensures
        attrs_result_matches(r, spec_items(toks@.skip(i as int))),
    decreases toks@.len() - i,
{
    let ghost sub = toks@.skip(i as int);
    if i == toks.len() {
        let v: Vec<ClapAttr> = Vec::new();
        proof {
            assert(v@.map_values(|d: ClapAttr| d@) =~= Seq::<ClapAttrModel>::empty());
        }
        Ok(v)
    } else {
        match parse_item(toks, i) {
            Err(e) => Err(e),
            Ok((d, j)) => {
                let ghost dm = d@;
                let ghost nn = j - i as int;
                if j == toks.len() {
                    let mut v: Vec<ClapAttr> = Vec::new();
                    v.push(d);
                    proof {
                        assert(v@.map_values(|x: ClapAttr| x@) =~= Seq::empty().push(dm));
                    }
                    Ok(v)
                } else {
                    proof {
                        assert(sub[nn] == toks@[j as int]);
                    }
                    let is_comma = match &toks[j] {
                        AttrToken::Comma { .. } => true,
                        _ => false,
                    };
                    if is_comma {
                        proof {
                            assert(sub.skip(nn + 1) =~= toks@.skip(j + 1));
                        }
                        match parse_items(toks, j + 1) {
                            Err(e) => Err(e),
                            Ok(mut rest) => {
                                let ghost restm = rest@.map_values(|x: ClapAttr| x@);
                                let mut v: Vec<ClapAttr> = Vec::new();
                                v.push(d);
                                v.append(&mut rest);
                                proof {
                                    assert(v@.map_values(|x: ClapAttr| x@) =~= Seq::empty().push(
                                        dm,
                                    ) + restm);
                                }
                                Ok(v)
                            },
                        }
                    } else {
                        Err(
                            GenError {
                                kind: GenErrorKind::MalformedAttributeSyntax,
                                span: toks[j].span(),
                            },
                        )
                    }
                }
            },
        }
    }
}

/// Parses the annotation blocks of one declaration, concatenating their
/// directives in order; the first failure aborts the whole parse.
fn parse_blocks_from(all_attrs: &Vec<AttrBlock>, i: usize) -> (r: Result<Vec<ClapAttr>, GenError>)
    requires
        i <= all_attrs@.len(),
    ensures
        attrs_result_matches(r, spec_parse_blocks(all_attrs@.skip(i as int))),
    decreases all_attrs@.len() - i,
{
    let ghost sub = all_attrs@.skip(i as int);
    if i == all_attrs.len() {
        let v: Vec<ClapAttr> = Vec::new();
        proof {
            assert(v@.map_values(|d: ClapAttr| d@) =~= Seq::<ClapAttrModel>::empty());
        }
        Ok(v)
    } else {
        proof {
            assert(sub[0] == all_attrs@[i as int]);
            assert(all_attrs@[i as int].tokens@.skip(0) =~= all_attrs@[i as int].tokens@);
        }
        match parse_items(&all_attrs[i].tokens, 0) {
            Err(e) => Err(e),
            Ok(mut ds) => {
                proof {
                    assert(sub.drop_first() =~= all_attrs@.skip(i + 1));
                }
                match parse_blocks_from(all_attrs, i + 1) {
                    Err(e) => Err(e),
                    Ok(mut rest) => {
                        let ghost dsm = ds@.map_values(|x: ClapAttr| x@);
                        let ghost restm = rest@.map_values(|x: ClapAttr| x@);
                        ds.append(&mut rest);
                        proof {
                            assert(ds@.map_values(|x: ClapAttr| x@) =~= dsm + restm);
                        }
                        Ok(ds)
                    },
                }
            },
        }
    }
}

/// Parses every annotation block attached to one declaration into the ordered
/// list of its directives.
pub fn parse_clap_attributes(all_attrs: &Vec<AttrBlock>) -> (r: Result<Vec<ClapAttr>, GenError>)
    ensures
        attrs_result_matches(r, spec_parse_blocks(all_attrs@)),
{
    proof {
        assert(all_attrs@.skip(0) =~= all_attrs@);
    }
    parse_blocks_from(all_attrs, 0)
}

} // verus!
