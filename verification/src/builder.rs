//! The builder-tree generator: walks a struct's fields (or an enum's
//! variants) and emits one parser-definition entry per entity, threading
//! "required unless a default exists", "takes a value", "multiple
//! occurrences" and validator hooks, and composing flattened and subcommand
//! children into one tree.
//!
//! The tree is held as a flat arena: `nodes[0]` is the root command, every
//! other node is a subcommand whose `parent` names its enclosing node. The
//! children of a node are the later nodes that name it as parent, in order.

use vstd::prelude::*;

use crate::ast::{EnvConfig, EnvModel, FieldDecl, TypeData, TypeDecl, TypeRepr, VariantData, VariantDecl};
use crate::attrs::{
    spec_from_field, spec_from_struct, spec_has_method, Attrs, AttrsModel, Kind,
    Method, MethodModel, Parser, Ty,
};
use crate::casing::CasingStyle;
use crate::errors::{GenError, GenErrorKind};

verus! {

/// One argument entry of the parser definition.
#[derive(Debug)]
pub struct ArgSpec {
    /// The name the argument is registered and matched under.
    pub name: String,
    pub takes_value: bool,
    pub multiple: bool,
    pub required: bool,
    /// Minimum number of values, where the shape constrains it.
    pub min_values: Option<u64>,
    /// Maximum number of values, where the shape constrains it.
    pub max_values: Option<u64>,
    /// The strategy whose conversion doubles as the validator, for the
    /// fallible strategies; `None` otherwise.
    pub validator: Option<Parser>,
    /// The conversion function the validator runs.
    pub validator_func: String,
    /// Builder-method calls to replay onto the argument.
    pub methods: Vec<Method>,
}

/// Mathematical image of an `ArgSpec`.
#[verifier::ext_equal]
pub struct ArgSpecModel {
    pub name: Seq<char>,
    pub takes_value: bool,
    pub multiple: bool,
    pub required: bool,
    pub min_values: Option<u64>,
    pub max_values: Option<u64>,
    pub validator: Option<Parser>,
    pub validator_func: Seq<char>,
    pub methods: Seq<MethodModel>,
}

impl View for ArgSpec {
    type V = ArgSpecModel;

    open spec fn view(&self) -> ArgSpecModel {
        ArgSpecModel {
            name: self.name@,
            takes_value: self.takes_value,
            multiple: self.multiple,
            required: self.required,
            min_values: self.min_values,
            max_values: self.max_values,
            validator: self.validator,
            validator_func: self.validator_func@,
            methods: self.methods@.map_values(|m: Method| m@),
        }
    }
}

/// One command node of the parser definition.
#[derive(Debug)]
pub struct Node {
    /// Index of the enclosing node; the root names itself.
    pub parent: usize,
    pub name: String,
    /// Builder-method calls to replay onto the command.
    pub methods: Vec<Method>,
    pub args: Vec<ArgSpec>,
    /// Whether this node demands that exactly one of its subcommands be
    /// selected, else help is shown and parsing fails.
    pub required_subcommand: bool,
}

/// Mathematical image of a `Node`.
#[verifier::ext_equal]
pub struct NodeModel {
    pub parent: int,
    pub name: Seq<char>,
    pub methods: Seq<MethodModel>,
    pub args: Seq<ArgSpecModel>,
    pub required_subcommand: bool,
}

impl View for Node {
    type V = NodeModel;

    open spec fn view(&self) -> NodeModel {
        NodeModel {
            parent: self.parent as int,
            name: self.name@,
            methods: self.methods@.map_values(|m: Method| m@),
            args: self.args@.map_values(|a: ArgSpec| a@),
            required_subcommand: self.required_subcommand,
        }
    }
}

/// A parser-definition tree, held as a flat arena of command nodes.
#[derive(Debug)]
pub struct AppSpec {
    pub nodes: Vec<Node>,
}

/// Mathematical image of an `AppSpec`.
#[verifier::ext_equal]
pub struct AppSpecModel {
    pub nodes: Seq<NodeModel>,
}

impl View for AppSpec {
    type V = AppSpecModel;

    open spec fn view(&self) -> AppSpecModel {
        AppSpecModel { nodes: self.nodes@.map_values(|n: Node| n@) }
    }
}

/// The argument entry a resolved plain-argument record generates: the
/// modifier table of the shapes, the required rule for plain values, and the
/// validator hook for the fallible strategies.
pub open spec fn spec_arg_of(a: AttrsModel) -> ArgSpecModel {
    let ty = match a.kind {
        Kind::Arg(t) => t,
        _ => Ty::Other,
    };
    let fallible = a.parser is TryFromStr || a.parser is TryFromOsStr;
    let validator = if fallible {
        Option::Some(a.parser)
    } else {
        Option::<Parser>::None
    };
    let vfunc = if fallible {
        a.parse_func
    } else {
        Seq::<char>::empty()
    };
    let base = ArgSpecModel {
        name: a.cased_name,
        takes_value: false,
        multiple: false,
        required: false,
        min_values: Option::None,
        max_values: Option::None,
        validator: Option::None,
        validator_func: Seq::empty(),
        methods: a.methods,
    };
    match ty {
        Ty::Boolean => base,
        Ty::Other => {
            if a.parser is FromOccurrences {
                ArgSpecModel { multiple: true, ..base }
            } else {
                ArgSpecModel {
                    takes_value: true,
                    required: !spec_has_method(a, "default_value"@),
                    validator,
                    validator_func: vfunc,
                    ..base
                }
            }
        },
        Ty::Optional => ArgSpecModel {
            takes_value: true,
            validator,
            validator_func: vfunc,
            ..base
        },
        Ty::List => ArgSpecModel {
            takes_value: true,
            multiple: true,
            validator,
            validator_func: vfunc,
            ..base
        },
        Ty::OptionalOptional => ArgSpecModel {
            takes_value: true,
            min_values: Option::Some(0u64),
            max_values: Option::Some(1u64),
            validator,
            validator_func: vfunc,
            ..base
        },
        Ty::OptionalList => ArgSpecModel {
            takes_value: true,
            multiple: true,
            min_values: Option::Some(0u64),
            validator,
            validator_func: vfunc,
            ..base
        },
    }
}

/// Index of the first declaration with this name, or `-1`.
pub open spec fn spec_find_decl(reg: Seq<TypeDecl>, name: Seq<char>) -> int
    decreases reg.len(),
{
    if reg.len() == 0 {
        -1
    } else if reg[0].name@ == name {
        0
    } else {
        let r = spec_find_decl(reg.drop_first(), name);
        if r < 0 {
            -1
        } else {
            r + 1
        }
    }
}

pub proof fn lemma_find_decl_none(reg: Seq<TypeDecl>, name: Seq<char>)
    requires
        forall|k: int| 0 <= k < reg.len() ==> (#[trigger] reg[k]).name@ != name,
    ensures
        spec_find_decl(reg, name) == -1,
    decreases reg.len(),
{
    if reg.len() > 0 {
        lemma_find_decl_none(reg.drop_first(), name);
    }
}

pub proof fn lemma_find_decl_is(reg: Seq<TypeDecl>, name: Seq<char>, i: int)
    requires
        0 <= i < reg.len(),
        reg[i].name@ == name,
        forall|k: int| 0 <= k < i ==> (#[trigger] reg[k]).name@ != name,
    ensures
        spec_find_decl(reg, name) == i,
    decreases reg.len(),
{
    if i > 0 {
        lemma_find_decl_is(reg.drop_first(), name, i - 1);
    }
}

/// The name of the child type a flattened or subcommand field refers to: for
/// an `Optional` subcommand the type inside the `Option`, otherwise the
/// field's own type; `None` where the type has no usable path.
pub open spec fn spec_child_type_name(t: TypeRepr, shape: Ty) -> Option<Seq<char>> {
    match t {
        TypeRepr::Opaque => Option::None,
        TypeRepr::Path { last, arg } => {
            if shape is Optional {
                match arg {
                    Option::Some(b) => match *b {
                        TypeRepr::Path { last: inner_last, .. } => Option::Some(inner_last@),
                        TypeRepr::Opaque => Option::None,
                    },
                    Option::None => Option::Some(last@),
                }
            } else {
                Option::Some(last@)
            }
        },
    }
}

/// The name of the single type a tuple variant wraps.
pub open spec fn spec_tuple_type_name(t: TypeRepr) -> Option<Seq<char>> {
    match t {
        TypeRepr::Opaque => Option::None,
        TypeRepr::Path { last, .. } => Option::Some(last@),
    }
}

/// Whether a declaration composes as a subcommand set (an enum) rather than
/// as a flat argument list (a struct).
pub open spec fn spec_is_subcommand_decl(d: TypeDecl) -> bool {
    d.data is Enum
}

/// The resolved records of a field list, in order, first error first.
pub open spec fn spec_resolve_fields(fields: Seq<FieldDecl>, casing: CasingStyle) -> Result<
    Seq<AttrsModel>,
    GenError,
>
    decreases fields.len(),
{
    if fields.len() == 0 {
        Ok(Seq::empty())
    } else {
        match spec_from_field(fields[0], casing) {
            Err(e) => Err(e),
            Ok(a) => match spec_resolve_fields(fields.drop_first(), casing) {
                Err(e) => Err(e),
                Ok(rest) => Ok(Seq::empty().push(a) + rest),
            },
        }
    }
}

/// Resolves every field of a list, in order.
pub(crate) fn resolve_fields(fields: &Vec<FieldDecl>, casing: CasingStyle) -> (r: Result<
    Vec<Attrs>,
    GenError,
>)
    ensures
        match r {
            Ok(v) => spec_resolve_fields(fields@, casing) == Ok::<Seq<AttrsModel>, GenError>(
                v@.map_values(|a: Attrs| a@),
            ) && v@.len() == fields@.len(),
            Err(e) => spec_resolve_fields(fields@, casing) == Err::<Seq<AttrsModel>, GenError>(e),
        },
{
    proof {
        assert(fields@.skip(0) =~= fields@);
        lemma_resolve_fields_len(fields@, casing);
    }
    resolve_fields_from(fields, 0, casing)
}

/// How many of the resolved records carry the subcommand kind.
pub open spec fn spec_count_subcommands(rs: Seq<AttrsModel>) -> int
    decreases rs.len(),
{
    if rs.len() == 0 {
        0int
    } else {
        (if rs[0].kind is Subcommand {
            1int
        } else {
            0int
        }) + spec_count_subcommands(rs.drop_first())
    }
}

/// An arena with one node's argument list extended.
pub open spec fn spec_push_arg(m: AppSpecModel, cur: int, arg: ArgSpecModel) -> AppSpecModel {
    AppSpecModel {
        nodes: m.nodes.update(
            cur,
            NodeModel { args: m.nodes[cur].args.push(arg), ..m.nodes[cur] },
        ),
    }
}

/// An arena with one node's required-subcommand constraint set.
pub open spec fn spec_set_required_sub(m: AppSpecModel, cur: int) -> AppSpecModel {
    AppSpecModel {
        nodes: m.nodes.update(cur, NodeModel { required_subcommand: true, ..m.nodes[cur] }),
    }
}

/// Phase one of augmenting a node from a field list: every plain argument
/// adds its entry in declaration order, a flattened child is spliced in
/// place (marking the node as demanding a subcommand when the child is an
/// enum), and skipped or subcommand entities add nothing here.
pub open spec fn spec_fields_args(
    m: AppSpecModel,
    cur: int,
    fields: Seq<FieldDecl>,
    rs: Seq<AttrsModel>,
    reg: Seq<TypeDecl>,
    env: EnvModel,
    fuel: nat,
) -> Result<AppSpecModel, GenError>
    decreases fuel, 1nat, fields.len(),
{
    if fields.len() == 0 || rs.len() != fields.len() {
        Ok(m)
    } else {
        let f = fields[0];
        let a = rs[0];
        let step: Result<AppSpecModel, GenError> = match a.kind {
            Kind::Skip => Ok(m),
            Kind::Subcommand(_) => Ok(m),
            Kind::Arg(_) => Ok(spec_push_arg(m, cur, spec_arg_of(a))),
            Kind::FlattenStruct => {
                match spec_child_type_name(f.ty, Ty::Other) {
                    Option::None => Err(
                        GenError { kind: GenErrorKind::UnknownChildType, span: f.name_span },
                    ),
                    Option::Some(cn) => {
                        let di = spec_find_decl(reg, cn);
                        if !(0 <= di < reg.len()) {
                            Err(GenError { kind: GenErrorKind::UnknownChildType, span: f.name_span })
                        } else if fuel == 0 {
                            Err(
                                GenError {
                                    kind: GenErrorKind::RecursionLimitExceeded,
                                    span: f.name_span,
                                },
                            )
                        } else {
                            match spec_augment_decl(m, cur, reg[di], reg, env, (fuel - 1) as nat) {
                                Err(e) => Err(e),
                                Ok(m2) => {
                                    if spec_is_subcommand_decl(reg[di]) {
                                        Ok(spec_set_required_sub(m2, cur))
                                    } else {
                                        Ok(m2)
                                    }
                                },
                            }
                        }
                    },
                }
            },
        };
        match step {
            Err(e) => Err(e),
            Ok(m2) => spec_fields_args(
                m2,
                cur,
                fields.drop_first(),
                rs.drop_first(),
                reg,
                env,
                fuel,
            ),
        }
    }
}

/// Phase two: the (at most one) subcommand field composes its child enum's
/// variants into the node, and, unless its shape is `Optional`, marks the
/// node as demanding a subcommand.
pub open spec fn spec_fields_subcmd(
    m: AppSpecModel,
    cur: int,
    fields: Seq<FieldDecl>,
    rs: Seq<AttrsModel>,
    reg: Seq<TypeDecl>,
    env: EnvModel,
    fuel: nat,
) -> Result<AppSpecModel, GenError>
    decreases fuel, 1nat, fields.len(),
{
    if fields.len() == 0 || rs.len() != fields.len() {
        Ok(m)
    } else {
        let f = fields[0];
        let a = rs[0];
        match a.kind {
            Kind::Subcommand(ty) => {
                match spec_child_type_name(f.ty, ty) {
                    Option::None => Err(
                        GenError { kind: GenErrorKind::UnknownChildType, span: f.name_span },
                    ),
                    Option::Some(cn) => {
                        let di = spec_find_decl(reg, cn);
                        if !(0 <= di < reg.len()) {
                            Err(GenError { kind: GenErrorKind::UnknownChildType, span: f.name_span })
                        } else if fuel == 0 {
                            Err(
                                GenError {
                                    kind: GenErrorKind::RecursionLimitExceeded,
                                    span: f.name_span,
                                },
                            )
                        } else {
                            match spec_augment_decl(m, cur, reg[di], reg, env, (fuel - 1) as nat) {
                                Err(e) => Err(e),
                                Ok(m2) => {
                                    let m3 = if !(ty is Optional) {
                                        spec_set_required_sub(m2, cur)
                                    } else {
                                        m2
                                    };
                                    spec_fields_subcmd(
                                        m3,
                                        cur,
                                        fields.drop_first(),
                                        rs.drop_first(),
                                        reg,
                                        env,
                                        fuel,
                                    )
                                },
                            }
                        }
                    },
                }
            },
            _ => spec_fields_subcmd(
                m,
                cur,
                fields.drop_first(),
                rs.drop_first(),
                reg,
                env,
                fuel,
            ),
        }
    }
}

/// Augmenting a node with everything one field list contributes: resolution,
/// the one-subcommand rule, then the two phases.
pub open spec fn spec_augment_fields(
    m: AppSpecModel,
    cur: int,
    fields: Seq<FieldDecl>,
    casing: CasingStyle,
    err_span: u64,
    reg: Seq<TypeDecl>,
    env: EnvModel,
    fuel: nat,
) -> Result<AppSpecModel, GenError>
    decreases fuel, 2nat, 0nat,
{
    match spec_resolve_fields(fields, casing) {
        Err(e) => Err(e),
        Ok(rs) => {
            if spec_count_subcommands(rs) > 1 {
                Err(GenError { kind: GenErrorKind::TooManySubcommandFields, span: err_span })
            } else {
                match spec_fields_args(m, cur, fields, rs, reg, env, fuel) {
                    Err(e) => Err(e),
                    Ok(m2) => spec_fields_subcmd(m2, cur, fields, rs, reg, env, fuel),
                }
            }
        },
    }
}

/// Augmenting a node with an enum's variants, each becoming one subcommand
/// node named by the variant's resolved cased name.
pub open spec fn spec_augment_variants(
    m: AppSpecModel,
    cur: int,
    vs: Seq<VariantDecl>,
    casing: CasingStyle,
    reg: Seq<TypeDecl>,
    env: EnvModel,
    fuel: nat,
) -> Result<AppSpecModel, GenError>
    decreases fuel, 3nat, vs.len(),
{
    if vs.len() == 0 {
        Ok(m)
    } else {
        let v = vs[0];
        match spec_from_struct(
            v.attrs@,
            v.docs@.map_values(|s: String| s@),
            v.name@,
            casing,
            EnvModel::empty_model(),
        ) {
            Err(e) => Err(e),
            Ok(va) => {
                let node = NodeModel {
                    parent: cur,
                    name: va.cased_name,
                    methods: va.methods,
                    args: Seq::empty(),
                    required_subcommand: false,
                };
                let ni = m.nodes.len() as int;
                let m1 = AppSpecModel { nodes: m.nodes.push(node) };
                let after: Result<AppSpecModel, GenError> = match v.data {
                    VariantData::Unit => Ok(m1),
                    VariantData::Fields(fs) => spec_augment_fields(
                        m1,
                        ni,
                        fs@,
                        va.casing,
                        v.name_span,
                        reg,
                        env,
                        fuel,
                    ),
                    VariantData::Tuple(ts) => {
                        if ts@.len() != 1 {
                            Err(GenError { kind: GenErrorKind::TupleVariantArity, span: v.name_span })
                        } else {
                            match spec_tuple_type_name(ts@[0]) {
                                Option::None => Err(
                                    GenError {
                                        kind: GenErrorKind::UnknownChildType,
                                        span: v.name_span,
                                    },
                                ),
                                Option::Some(cn) => {
                                    let di = spec_find_decl(reg, cn);
                                    if !(0 <= di < reg.len()) {
                                        Err(
                                            GenError {
                                                kind: GenErrorKind::UnknownChildType,
                                                span: v.name_span,
                                            },
                                        )
                                    } else if fuel == 0 {
                                        Err(
                                            GenError {
                                                kind: GenErrorKind::RecursionLimitExceeded,
                                                span: v.name_span,
                                            },
                                        )
                                    } else {
                                        match spec_augment_decl(
                                            m1,
                                            ni,
                                            reg[di],
                                            reg,
                                            env,
                                            (fuel - 1) as nat,
                                        ) {
                                            Err(e) => Err(e),
                                            Ok(m2) => {
                                                if spec_is_subcommand_decl(reg[di]) {
                                                    Ok(spec_set_required_sub(m2, ni))
                                                } else {
                                                    Ok(m2)
                                                }
                                            },
                                        }
                                    }
                                },
                            }
                        }
                    },
                };
                match after {
                    Err(e) => Err(e),
                    Ok(m2) => spec_augment_variants(
                        m2,
                        cur,
                        vs.drop_first(),
                        casing,
                        reg,
                        env,
                        fuel,
                    ),
                }
            },
        }
    }
}

/// Everything one declaration contributes to a node: a struct its argument
/// list, an enum its variants as subcommands; the declaration's own
/// annotations are resolved first for validity and for the casing its
/// entities inherit.
pub open spec fn spec_augment_decl(
    m: AppSpecModel,
    cur: int,
    d: TypeDecl,
    reg: Seq<TypeDecl>,
    env: EnvModel,
    fuel: nat,
) -> Result<AppSpecModel, GenError>
    decreases fuel, 4nat, 0nat,
{
    match spec_from_struct(
        d.attrs@,
        d.docs@.map_values(|s: String| s@),
        d.name@,
        crate::attrs::spec_default_casing(),
        EnvModel::empty_model(),
    ) {
        Err(e) => Err(e),
        Ok(da) => match d.data {
            TypeData::Struct(fs) => spec_augment_fields(
                m,
                cur,
                fs@,
                da.casing,
                d.name_span,
                reg,
                env,
                fuel,
            ),
            TypeData::Enum(vs) => spec_augment_variants(m, cur, vs@, da.casing, reg, env, fuel),
        },
    }
}

/// The full parser definition of one annotated declaration: a root command
/// named and furnished from the declaration's annotations (the environment
/// supplying name, version and author defaults), augmented with everything
/// the declaration contributes; an enum root demands a subcommand.
pub open spec fn spec_gen_app(
    d: TypeDecl,
    reg: Seq<TypeDecl>,
    env: EnvModel,
    fuel: nat,
) -> Result<AppSpecModel, GenError> {
    match spec_from_struct(
        d.attrs@,
        d.docs@.map_values(|s: String| s@),
        env.pkg_name,
        crate::attrs::spec_default_casing(),
        env,
    ) {
        Err(e) => Err(e),
        Ok(da) => {
            let root = NodeModel {
                parent: 0,
                name: da.name,
                methods: da.methods,
                args: Seq::empty(),
                required_subcommand: spec_is_subcommand_decl(d),
            };
            let m0 = AppSpecModel { nodes: Seq::empty().push(root) };
            spec_augment_decl(m0, 0, d, reg, env, fuel)
        },
    }
}

/// Whether a generated definition and a generation outcome agree.
pub open spec fn app_result_matches(
    r: Result<AppSpec, GenError>,
    m: Result<AppSpecModel, GenError>,
) -> bool {
    match (r, m) {
        (Ok(app), Ok(mm)) => app@ == mm,
        (Err(e), Err(me)) => e == me,
        _ => false,
    }
}

pub proof fn lemma_resolve_fields_len(fields: Seq<FieldDecl>, casing: CasingStyle)
    ensures
        spec_resolve_fields(fields, casing) matches Ok(rs) ==> rs.len() == fields.len(),
    decreases fields.len(),
{
    if fields.len() > 0 {
        lemma_resolve_fields_len(fields.drop_first(), casing);
    }
}

/// The default casing for generated argument names.
pub fn default_casing() -> (r: CasingStyle)
    ensures
        r == crate::attrs::spec_default_casing(),
{
    CasingStyle::Kebab
}

/// The argument entry a resolved plain-argument record generates.
fn arg_spec_of(a: &Attrs) -> (r: ArgSpec)
    ensures
        r@ == spec_arg_of(a@),
{
    let ty = match a.kind {
        Kind::Arg(t) => t,
        _ => Ty::Other,
    };
    let fallible = a.parser == Parser::TryFromStr || a.parser == Parser::TryFromOsStr;
    let validator = if fallible {
        Option::Some(a.parser)
    } else {
        Option::<Parser>::None
    };
    let vfunc = if fallible {
        a.parse_func.clone()
    } else {
        String::new()
    };
    let methods = crate::attrs::clone_methods(&a.methods);
    let name = a.cased_name.clone();
    let r = match ty {
        Ty::Boolean => ArgSpec {
            name,
            takes_value: false,
            multiple: false,
            required: false,
            min_values: Option::None,
            max_values: Option::None,
            validator: Option::None,
            validator_func: String::new(),
            methods,
        },
        Ty::Other => {
            if a.parser == Parser::FromOccurrences {
                ArgSpec {
                    name,
                    takes_value: false,
                    multiple: true,
                    required: false,
                    min_values: Option::None,
                    max_values: Option::None,
                    validator: Option::None,
                    validator_func: String::new(),
                    methods,
                }
            } else {
                ArgSpec {
                    name,
                    takes_value: true,
                    multiple: false,
                    required: !a.has_method("default_value"),
                    min_values: Option::None,
                    max_values: Option::None,
                    validator,
                    validator_func: vfunc,
                    methods,
                }
            }
        },
        Ty::Optional => ArgSpec {
            name,
            takes_value: true,
            multiple: false,
            required: false,
            min_values: Option::None,
            max_values: Option::None,
            validator,
            validator_func: vfunc,
            methods,
        },
        Ty::List => ArgSpec {
            name,
            takes_value: true,
            multiple: true,
            required: false,
            min_values: Option::None,
            max_values: Option::None,
            validator,
            validator_func: vfunc,
            methods,
        },
        Ty::OptionalOptional => ArgSpec {
            name,
            takes_value: true,
            multiple: false,
            required: false,
            min_values: Option::Some(0u64),
            max_values: Option::Some(1u64),
            validator,
            validator_func: vfunc,
            methods,
        },
        Ty::OptionalList => ArgSpec {
            name,
            takes_value: true,
            multiple: true,
            required: false,
            min_values: Option::Some(0u64),
            max_values: Option::None,
            validator,
            validator_func: vfunc,
            methods,
        },
    };
    r
}

/// Appends an argument entry to one node of the arena.
fn push_arg(app: &mut AppSpec, cur: usize, arg: ArgSpec)
    requires
        cur < old(app)@.nodes.len(),
    ensures
        final(app)@ == spec_push_arg(old(app)@, cur as int, arg@),
        final(app)@.nodes.len() == old(app)@.nodes.len(),
{
    let ghost m0 = app@;
    let ghost argm = arg@;
    let mut node = app.nodes.remove(cur);
    node.args.push(arg);
    app.nodes.insert(cur, node);
    proof {
        assert(app@.nodes =~~= m0.nodes.update(
            cur as int,
            NodeModel { args: m0.nodes[cur as int].args.push(argm), ..m0.nodes[cur as int] },
        ));
    }
}

/// Marks one node of the arena as demanding a subcommand.
fn set_required_sub(app: &mut AppSpec, cur: usize)
    requires
        cur < old(app)@.nodes.len(),
    ensures
        final(app)@ == spec_set_required_sub(old(app)@, cur as int),
        final(app)@.nodes.len() == old(app)@.nodes.len(),
{
    let ghost m0 = app@;
    let mut node = app.nodes.remove(cur);
    node.required_subcommand = true;
    app.nodes.insert(cur, node);
    proof {
        assert(app@.nodes =~~= m0.nodes.update(
            cur as int,
            NodeModel { required_subcommand: true, ..m0.nodes[cur as int] },
        ));
    }
}

/// Appends a fresh node to the arena.
fn push_node(app: &mut AppSpec, node: Node)
    ensures
        final(app)@.nodes == old(app)@.nodes.push(node@),
{
    let ghost m0 = app@;
    let ghost nm = node@;
    app.nodes.push(node);
    proof {
        assert(app@.nodes =~~= m0.nodes.push(nm));
    }
}

/// Index of the first declaration with this name, if any.
pub(crate) fn find_decl(reg: &Vec<TypeDecl>, name: &String) -> (r: Option<usize>)
    ensures
        match r {
            Option::Some(j) => j < reg@.len() && spec_find_decl(reg@, name@) == j as int,
            Option::None => spec_find_decl(reg@, name@) == -1,
        },
{
    let mut i: usize = 0;
    while i < reg.len()
        invariant
            i <= reg@.len(),
            forall|k: int| 0 <= k < i ==> (#[trigger] reg@[k]).name@ != name@,
        decreases reg@.len() - i,
    {
        if crate::strutil::string_eq_str(&reg[i].name, name.as_str()) {
            proof {
                lemma_find_decl_is(reg@, name@, i as int);
            }
            return Option::Some(i);
        }
        i = i + 1;
    }
    proof {
        lemma_find_decl_none(reg@, name@);
    }
    Option::None
}

/// The name of the child type a flattened or subcommand field refers to.
pub(crate) fn child_type_name(t: &TypeRepr, shape: Ty) -> (r: Option<String>)
    ensures
        match r {
            Option::Some(s) => spec_child_type_name(*t, shape) == Option::Some(s@),
            Option::None => spec_child_type_name(*t, shape) is None,
        },
{
    match t {
        TypeRepr::Opaque => Option::None,
        TypeRepr::Path { last, arg } => {
            if shape == Ty::Optional {
                match arg {
                    Option::Some(b) => match &**b {
                        TypeRepr::Path { last: inner_last, .. } => Option::Some(inner_last.clone()),
                        TypeRepr::Opaque => Option::None,
                    },
                    Option::None => Option::Some(last.clone()),
                }
            } else {
                Option::Some(last.clone())
            }
        },
    }
}

/// The name of the single type a tuple variant wraps.
pub(crate) fn tuple_type_name(t: &TypeRepr) -> (r: Option<String>)
    ensures
        match r {
            Option::Some(s) => spec_tuple_type_name(*t) == Option::Some(s@),
            Option::None => spec_tuple_type_name(*t) is None,
        },
{
    match t {
        TypeRepr::Opaque => Option::None,
        TypeRepr::Path { last, .. } => Option::Some(last.clone()),
    }
}

/// Whether a declaration composes as a subcommand set.
pub fn is_subcommand_decl(d: &TypeDecl) -> (r: bool)
    ensures
        r == spec_is_subcommand_decl(*d),
{
    match &d.data {
        TypeData::Enum(_) => true,
        TypeData::Struct(_) => false,
    }
}

/// Resolves every field of a list, in order, first error first.
fn resolve_fields_from(fields: &Vec<FieldDecl>, i: usize, casing: CasingStyle) -> (r: Result<
    Vec<Attrs>,
    GenError,
>)
    requires
        i <= fields@.len(),
    ensures
        match r {
            Ok(v) => spec_resolve_fields(fields@.skip(i as int), casing) == Ok::<
                Seq<AttrsModel>,
                GenError,
            >(v@.map_values(|a: Attrs| a@)),
            Err(e) => spec_resolve_fields(fields@.skip(i as int), casing) == Err::<
                Seq<AttrsModel>,
                GenError,
            >(e),
        },
    decreases fields@.len() - i,
{
    let ghost sub = fields@.skip(i as int);
    if i == fields.len() {
        let v: Vec<Attrs> = Vec::new();
        proof {
            assert(v@.map_values(|a: Attrs| a@) =~= Seq::<AttrsModel>::empty());
        }
        Ok(v)
    } else {
        proof {
            assert(sub[0] == fields@[i as int]);
            assert(sub.drop_first() =~= fields@.skip(i + 1));
        }
        match Attrs::from_field(&fields[i], casing) {
            Err(e) => Err(e),
            Ok(a) => {
                let ghost am = a@;
                match resolve_fields_from(fields, i + 1, casing) {
                    Err(e) => Err(e),
                    Ok(mut rest) => {
                        let ghost restm = rest@.map_values(|x: Attrs| x@);
                        let mut v: Vec<Attrs> = Vec::new();
                        v.push(a);
                        v.append(&mut rest);
                        proof {
                            assert(v@.map_values(|x: Attrs| x@) =~= Seq::empty().push(am) + restm);
                        }
                        Ok(v)
                    },
                }
            },
        }
    }
}

/// How many of the resolved records carry the subcommand kind.
#[verifier::loop_isolation(false)]
fn count_subcommands(rs: &Vec<Attrs>) -> (r: usize)
    ensures
        r as int == spec_count_subcommands(rs@.map_values(|a: Attrs| a@)),
{
    let ghost rsm = rs@.map_values(|a: Attrs| a@);
    let mut count: usize = 0;
    let mut i: usize = 0;
    proof {
        assert(rsm.skip(0) =~= rsm);
    }
    while i < rs.len()
        invariant
            i <= rs@.len(),
            count <= i,
            count as int + spec_count_subcommands(rsm.skip(i as int)) == spec_count_subcommands(
                rsm,
            ),
        decreases rs@.len() - i,
    {
        proof {
            assert(rsm.skip(i as int)[0] == rsm[i as int]);
            assert(rsm[i as int] == rs@[i as int]@);
            assert(rsm.skip(i as int).drop_first() =~= rsm.skip(i + 1));
        }
        let is_sub = match rs[i].kind {
            Kind::Subcommand(_) => true,
            _ => false,
        };
        if is_sub {
            count = count + 1;
        }
        i = i + 1;
    }
    proof {
        assert(rsm.skip(rs@.len() as int) =~= Seq::<AttrsModel>::empty());
    }
    count
}

/// Phase one over a field list: plain arguments in declaration order,
/// flattened children spliced in place.
#[verifier::loop_isolation(false)]
fn fields_args(
    app: &mut AppSpec,
    cur: usize,
    fields: &Vec<FieldDecl>,
    rs: &Vec<Attrs>,
    reg: &Vec<TypeDecl>,
    env: &EnvConfig,
    fuel: u64,
) -> (r: Result<(), GenError>)
    requires
        cur < old(app)@.nodes.len(),
        rs@.len() == fields@.len(),
    ensures
        match r {
            Ok(_) => ({
                &&& spec_fields_args(
                    old(app)@,
                    cur as int,
                    fields@,
                    rs@.map_values(|a: Attrs| a@),
                    reg@,
                    env@,
                    fuel as nat,
                ) == Ok::<AppSpecModel, GenError>(final(app)@)
                &&& old(app)@.nodes.len() <= final(app)@.nodes.len()
            }),
            Err(e) => spec_fields_args(
                old(app)@,
                cur as int,
                fields@,
                rs@.map_values(|a: Attrs| a@),
                reg@,
                env@,
                fuel as nat,
            ) == Err::<AppSpecModel, GenError>(e),
        },
    decreases fuel, 1nat,
{
    let ghost rsm = rs@.map_values(|a: Attrs| a@);
    let ghost m0 = app@;
    proof {
        assert(fields@.skip(0) =~= fields@);
        assert(rsm.skip(0) =~= rsm);
    }
    let mut i: usize = 0;
    while i < fields.len()
        invariant
            i <= fields@.len(),
            cur < app@.nodes.len(),
            m0.nodes.len() <= app@.nodes.len(),
            spec_fields_args(
                app@,
                cur as int,
                fields@.skip(i as int),
                rsm.skip(i as int),
                reg@,
                env@,
                fuel as nat,
            ) == spec_fields_args(m0, cur as int, fields@, rsm, reg@, env@, fuel as nat),
        decreases fields@.len() - i,
    {
        proof {
            assert(fields@.skip(i as int)[0] == fields@[i as int]);
            assert(rsm.skip(i as int)[0] == rsm[i as int]);
            assert(fields@.skip(i as int).drop_first() =~= fields@.skip(i + 1));
            assert(rsm.skip(i as int).drop_first() =~= rsm.skip(i + 1));
            assert(rsm[i as int] == rs@[i as int]@);
        }
        match rs[i].kind {
            Kind::Skip => {},
            Kind::Subcommand(_) => {},
            Kind::Arg(_) => {
                let arg = arg_spec_of(&rs[i]);
                push_arg(app, cur, arg);
            },
            Kind::FlattenStruct => {
                match child_type_name(&fields[i].ty, Ty::Other) {
                    Option::None => {
                        return Err(
                            GenError {
                                kind: GenErrorKind::UnknownChildType,
                                span: fields[i].name_span,
                            },
                        );
                    },
                    Option::Some(cn) => {
                        match find_decl(reg, &cn) {
                            Option::None => {
                                return Err(
                                    GenError {
                                        kind: GenErrorKind::UnknownChildType,
                                        span: fields[i].name_span,
                                    },
                                );
                            },
                            Option::Some(di) => {
                                if fuel == 0 {
                                    return Err(
                                        GenError {
                                            kind: GenErrorKind::RecursionLimitExceeded,
                                            span: fields[i].name_span,
                                        },
                                    );
                                }
                                proof {
                                    assert(reg@[di as int] == reg@[spec_find_decl(
                                        reg@,
                                        cn@,
                                    )]);
                                }
                                match augment_decl(app, cur, &reg[di], reg, env, fuel - 1) {
                                    Err(e) => {
                                        return Err(e);
                                    },
                                    Ok(_) => {},
                                }
                                if is_subcommand_decl(&reg[di]) {
                                    set_required_sub(app, cur);
                                }
                            },
                        }
                    },
                }
            },
        }
        i = i + 1;
    }
    proof {
        assert(fields@.skip(fields@.len() as int) =~= Seq::<FieldDecl>::empty());
    }
    Ok(())
}

/// Phase two over a field list: the subcommand field composes its child
/// enum into the node.
#[verifier::loop_isolation(false)]
fn fields_subcmd(
    app: &mut AppSpec,
    cur: usize,
    fields: &Vec<FieldDecl>,
    rs: &Vec<Attrs>,
    reg: &Vec<TypeDecl>,
    env: &EnvConfig,
    fuel: u64,
) -> (r: Result<(), GenError>)
    requires
        cur < old(app)@.nodes.len(),
        rs@.len() == fields@.len(),
    ensures
        match r {
            Ok(_) => ({
                &&& spec_fields_subcmd(
                    old(app)@,
                    cur as int,
                    fields@,
                    rs@.map_values(|a: Attrs| a@),
                    reg@,
                    env@,
                    fuel as nat,
                ) == Ok::<AppSpecModel, GenError>(final(app)@)
                &&& old(app)@.nodes.len() <= final(app)@.nodes.len()
            }),
            Err(e) => spec_fields_subcmd(
                old(app)@,
                cur as int,
                fields@,
                rs@.map_values(|a: Attrs| a@),
                reg@,
                env@,
                fuel as nat,
            ) == Err::<AppSpecModel, GenError>(e),
        },
    decreases fuel, 1nat,
{
    let ghost rsm = rs@.map_values(|a: Attrs| a@);
    let ghost m0 = app@;
    proof {
        assert(fields@.skip(0) =~= fields@);
        assert(rsm.skip(0) =~= rsm);
    }
    let mut i: usize = 0;
    while i < fields.len()
        invariant
            i <= fields@.len(),
            cur < app@.nodes.len(),
            m0.nodes.len() <= app@.nodes.len(),
            spec_fields_subcmd(
                app@,
                cur as int,
                fields@.skip(i as int),
                rsm.skip(i as int),
                reg@,
                env@,
                fuel as nat,
            ) == spec_fields_subcmd(m0, cur as int, fields@, rsm, reg@, env@, fuel as nat),
        decreases fields@.len() - i,
    {
        proof {
            assert(fields@.skip(i as int)[0] == fields@[i as int]);
            assert(rsm.skip(i as int)[0] == rsm[i as int]);
            assert(fields@.skip(i as int).drop_first() =~= fields@.skip(i + 1));
            assert(rsm.skip(i as int).drop_first() =~= rsm.skip(i + 1));
            assert(rsm[i as int] == rs@[i as int]@);
        }
        let sub_ty = match rs[i].kind {
            Kind::Subcommand(t) => Option::Some(t),
            _ => Option::<Ty>::None,
        };
        match sub_ty {
            Option::None => {},
            Option::Some(ty) => {
                match child_type_name(&fields[i].ty, ty) {
                    Option::None => {
                        return Err(
                            GenError {
                                kind: GenErrorKind::UnknownChildType,
                                span: fields[i].name_span,
                            },
                        );
                    },
                    Option::Some(cn) => {
                        match find_decl(reg, &cn) {
                            Option::None => {
                                return Err(
                                    GenError {
                                        kind: GenErrorKind::UnknownChildType,
                                        span: fields[i].name_span,
                                    },
                                );
                            },
                            Option::Some(di) => {
                                if fuel == 0 {
                                    return Err(
                                        GenError {
                                            kind: GenErrorKind::RecursionLimitExceeded,
                                            span: fields[i].name_span,
                                        },
                                    );
                                }
                                match augment_decl(app, cur, &reg[di], reg, env, fuel - 1) {
                                    Err(e) => {
                                        return Err(e);
                                    },
                                    Ok(_) => {},
                                }
                                if !(ty == Ty::Optional) {
                                    set_required_sub(app, cur);
                                }
                            },
                        }
                    },
                }
            },
        }
        i = i + 1;
    }
    proof {
        assert(fields@.skip(fields@.len() as int) =~= Seq::<FieldDecl>::empty());
    }
    Ok(())
}

/// Everything one field list contributes to a node: resolution, the
/// one-subcommand rule, then arguments and the subcommand composition.
fn augment_fields(
    app: &mut AppSpec,
    cur: usize,
    fields: &Vec<FieldDecl>,
    casing: CasingStyle,
    err_span: u64,
    reg: &Vec<TypeDecl>,
    env: &EnvConfig,
    fuel: u64,
) -> (r: Result<(), GenError>)
    requires
        cur < old(app)@.nodes.len(),
    ensures
        match r {
            Ok(_) => ({
                &&& spec_augment_fields(
                    old(app)@,
                    cur as int,
                    fields@,
                    casing,
                    err_span,
                    reg@,
                    env@,
                    fuel as nat,
                ) == Ok::<AppSpecModel, GenError>(final(app)@)
                &&& old(app)@.nodes.len() <= final(app)@.nodes.len()
            }),
            Err(e) => spec_augment_fields(
                old(app)@,
                cur as int,
                fields@,
                casing,
                err_span,
                reg@,
                env@,
                fuel as nat,
            ) == Err::<AppSpecModel, GenError>(e),
        },
    decreases fuel, 2nat,
{
    proof {
        assert(fields@.skip(0) =~= fields@);
        lemma_resolve_fields_len(fields@, casing);
    }
    let rs = match resolve_fields_from(fields, 0, casing) {
        Err(e) => {
            return Err(e);
        },
        Ok(rs) => rs,
    };
    let c = count_subcommands(&rs);
    if c > 1 {
        return Err(GenError { kind: GenErrorKind::TooManySubcommandFields, span: err_span });
    }
    match fields_args(app, cur, fields, &rs, reg, env, fuel) {
        Err(e) => {
            return Err(e);
        },
        Ok(_) => {},
    }
    match fields_subcmd(app, cur, fields, &rs, reg, env, fuel) {
        Err(e) => {
            return Err(e);
        },
        Ok(_) => {},
    }
    Ok(())
}

/// Adds one subcommand node per variant, each named by the variant's
/// resolved cased name and filled from the variant's own entities.
#[verifier::loop_isolation(false)]
fn augment_variants(
    app: &mut AppSpec,
    cur: usize,
    vs: &Vec<VariantDecl>,
    casing: CasingStyle,
    reg: &Vec<TypeDecl>,
    env: &EnvConfig,
    fuel: u64,
) -> (r: Result<(), GenError>)
    requires
        cur < old(app)@.nodes.len(),
    ensures
        match r {
            Ok(_) => ({
                &&& spec_augment_variants(
                    old(app)@,
                    cur as int,
                    vs@,
                    casing,
                    reg@,
                    env@,
                    fuel as nat,
                ) == Ok::<AppSpecModel, GenError>(final(app)@)
                &&& old(app)@.nodes.len() <= final(app)@.nodes.len()
            }),
            Err(e) => spec_augment_variants(
                old(app)@,
                cur as int,
                vs@,
                casing,
                reg@,
                env@,
                fuel as nat,
            ) == Err::<AppSpecModel, GenError>(e),
        },
    decreases fuel, 3nat,
{
    let ghost m0 = app@;
    proof {
        assert(vs@.skip(0) =~= vs@);
    }
    let mut i: usize = 0;
    while i < vs.len()
        invariant
            i <= vs@.len(),
            cur < app@.nodes.len(),
            m0.nodes.len() <= app@.nodes.len(),
            spec_augment_variants(
                app@,
                cur as int,
                vs@.skip(i as int),
                casing,
                reg@,
                env@,
                fuel as nat,
            ) == spec_augment_variants(m0, cur as int, vs@, casing, reg@, env@, fuel as nat),
        decreases vs@.len() - i,
    {
        proof {
            assert(vs@.skip(i as int)[0] == vs@[i as int]);
            assert(vs@.skip(i as int).drop_first() =~= vs@.skip(i + 1));
        }
        let empty_env = EnvConfig::empty();
        proof {
            assert(empty_env@ =~= EnvModel::empty_model());
        }
        let va = match Attrs::from_struct(
            &vs[i].attrs,
            &vs[i].docs,
            vs[i].name.clone(),
            casing,
            &empty_env,
        ) {
            Err(e) => {
                return Err(e);
            },
            Ok(va) => va,
        };
        let vcasing = va.casing;
        let node = Node {
            parent: cur,
            name: va.cased_name,
            methods: va.methods,
            args: Vec::new(),
            required_subcommand: false,
        };
        let ni = app.nodes.len();
        proof {
            assert(node@.args =~= Seq::<ArgSpecModel>::empty());
        }
        push_node(app, node);
        match &vs[i].data {
            VariantData::Unit => {},
            VariantData::Fields(fs) => {
                match augment_fields(app, ni, fs, vcasing, vs[i].name_span, reg, env, fuel) {
                    Err(e) => {
                        return Err(e);
                    },
                    Ok(_) => {},
                }
            },
            VariantData::Tuple(ts) => {
                if ts.len() != 1 {
                    return Err(
                        GenError { kind: GenErrorKind::TupleVariantArity, span: vs[i].name_span },
                    );
                }
                match tuple_type_name(&ts[0]) {
                    Option::None => {
                        return Err(
                            GenError {
                                kind: GenErrorKind::UnknownChildType,
                                span: vs[i].name_span,
                            },
                        );
                    },
                    Option::Some(cn) => {
                        match find_decl(reg, &cn) {
                            Option::None => {
                                return Err(
                                    GenError {
                                        kind: GenErrorKind::UnknownChildType,
                                        span: vs[i].name_span,
                                    },
                                );
                            },
                            Option::Some(di) => {
                                if fuel == 0 {
                                    return Err(
                                        GenError {
                                            kind: GenErrorKind::RecursionLimitExceeded,
                                            span: vs[i].name_span,
                                        },
                                    );
                                }
                                match augment_decl(app, ni, &reg[di], reg, env, fuel - 1) {
                                    Err(e) => {
                                        return Err(e);
                                    },
                                    Ok(_) => {},
                                }
                                if is_subcommand_decl(&reg[di]) {
                                    set_required_sub(app, ni);
                                }
                            },
                        }
                    },
                }
            },
        }
        i = i + 1;
    }
    proof {
        assert(vs@.skip(vs@.len() as int) =~= Seq::<VariantDecl>::empty());
    }
    Ok(())
}

/// Everything one declaration contributes to a node.
fn augment_decl(
    app: &mut AppSpec,
    cur: usize,
    d: &TypeDecl,
    reg: &Vec<TypeDecl>,
    env: &EnvConfig,
    fuel: u64,
) -> (r: Result<(), GenError>)
    requires
        cur < old(app)@.nodes.len(),
    ensures
        match r {
            Ok(_) => ({
                &&& spec_augment_decl(old(app)@, cur as int, *d, reg@, env@, fuel as nat) == Ok::<
                    AppSpecModel,
                    GenError,
                >(final(app)@)
                &&& old(app)@.nodes.len() <= final(app)@.nodes.len()
            }),
            Err(e) => spec_augment_decl(old(app)@, cur as int, *d, reg@, env@, fuel as nat)
                == Err::<AppSpecModel, GenError>(e),
        },
    decreases fuel, 4nat,
{
    let empty_env = EnvConfig::empty();
    proof {
        assert(empty_env@ =~= EnvModel::empty_model());
    }
    let da = match Attrs::from_struct(
        &d.attrs,
        &d.docs,
        d.name.clone(),
        default_casing(),
        &empty_env,
    ) {
        Err(e) => {
            return Err(e);
        },
        Ok(da) => da,
    };
    match &d.data {
        TypeData::Struct(fs) => augment_fields(
            app,
            cur,
            fs,
            da.casing,
            d.name_span,
            reg,
            env,
            fuel,
        ),
        TypeData::Enum(vs) => augment_variants(app, cur, vs, da.casing, reg, env, fuel),
    }
}

/// The full parser definition of one annotated declaration: a root command
/// named and furnished from the declaration's annotations, with the
/// environment supplying the name and the version/author defaults, then
/// augmented with everything the declaration contributes. An enum root
/// demands that a subcommand be selected.
pub fn gen_app_spec(d: &TypeDecl, reg: &Vec<TypeDecl>, env: &EnvConfig, fuel: u64) -> (r: Result<
    AppSpec,
    GenError,
>)
    ensures
        app_result_matches(r, spec_gen_app(*d, reg@, env@, fuel as nat)),
{
    let da = match Attrs::from_struct(
        &d.attrs,
        &d.docs,
        env.pkg_name.clone(),
        default_casing(),
        env,
    ) {
        Err(e) => {
            return Err(e);
        },
        Ok(da) => da,
    };
    let root = Node {
        parent: 0,
        name: da.name,
        methods: da.methods,
        args: Vec::new(),
        required_subcommand: is_subcommand_decl(d),
    };
    let mut app = AppSpec { nodes: Vec::new() };
    proof {
        assert(app@.nodes =~= Seq::<NodeModel>::empty());
        assert(root@.args =~= Seq::<ArgSpecModel>::empty());
    }
    push_node(&mut app, root);
    match augment_decl(&mut app, 0, d, reg, env, fuel) {
        Err(e) => Err(e),
        Ok(_) => Ok(app),
    }
}

} // verus!
