//! The decoder: the mirror image of the builder. Given the matched values a
//! successful parse produced, it reconstructs each field's value using the
//! same resolved records the builder consumed: skipped fields fall back to
//! their type's default, flattened children decode recursively against the
//! same level, and the subcommand field dispatches on the selected name
//! through the enum's resolved variant names.
//!
//! Matched values are held as a chain: the root level's argument occurrences,
//! then one entry per selected subcommand, outermost first. Decoded values
//! are held as a flat arena of nodes; a field refers to its child node by
//! index.

use vstd::prelude::*;

use crate::ast::{EnvConfig, EnvModel, FieldDecl, TypeData, TypeDecl, VariantData, VariantDecl};
use crate::attrs::{spec_from_struct, Attrs, AttrsModel, Kind, Parser, Ty};
use crate::builder::{
    spec_child_type_name, spec_find_decl, spec_resolve_fields, spec_tuple_type_name,
};
use crate::casing::CasingStyle;
use crate::errors::DecodeError;

verus! {

/// One argument's matched occurrences at one command level: how often it was
/// given, and its values in the order they appeared.
#[derive(Clone, Debug)]
pub struct ArgOccur {
    pub name: String,
    pub occurs: u64,
    pub values: Vec<String>,
}

/// Mathematical image of an `ArgOccur`.
#[verifier::ext_equal]
pub struct ArgOccurModel {
    pub name: Seq<char>,
    pub occurs: u64,
    pub values: Seq<Seq<char>>,
}

impl View for ArgOccur {
    type V = ArgOccurModel;

    open spec fn view(&self) -> ArgOccurModel {
        ArgOccurModel {
            name: self.name@,
            occurs: self.occurs,
            values: self.values@.map_values(|s: String| s@),
        }
    }
}

/// One selected subcommand with its level's occurrences.
#[derive(Clone, Debug)]
pub struct SubMatch {
    pub name: String,
    pub args: Vec<ArgOccur>,
}

/// Mathematical image of a `SubMatch`.
#[verifier::ext_equal]
pub struct SubMatchModel {
    pub name: Seq<char>,
    pub args: Seq<ArgOccurModel>,
}

impl View for SubMatch {
    type V = SubMatchModel;

    open spec fn view(&self) -> SubMatchModel {
        SubMatchModel { name: self.name@, args: self.args@.map_values(|a: ArgOccur| a@) }
    }
}

/// The matched-values structure of one successful parse: the root level, then
/// the chain of selected subcommands, outermost first.
#[derive(Clone, Debug)]
pub struct Matches {
    pub args: Vec<ArgOccur>,
    pub subs: Vec<SubMatch>,
}

/// Mathematical image of a `Matches`.
#[verifier::ext_equal]
pub struct MatchesModel {
    pub args: Seq<ArgOccurModel>,
    pub subs: Seq<SubMatchModel>,
}

impl View for Matches {
    type V = MatchesModel;

    open spec fn view(&self) -> MatchesModel {
        MatchesModel {
            args: self.args@.map_values(|a: ArgOccur| a@),
            subs: self.subs@.map_values(|s: SubMatch| s@),
        }
    }
}

/// A decoded field value, still at the string level: the value-parsing
/// strategy of the entity says how the consumer turns each string into the
/// typed value.
#[derive(Clone, Debug, PartialEq, Eq)]
pub enum FieldValue {
    /// A `Boolean` shape: whether the flag was present.
    Flag(bool),
    /// An occurrence-counted entity: how often it was given.
    Count(u64),
    /// A required single value.
    Single(String),
    /// An `Optional` shape: the value if one was given.
    OptSingle(Option<String>),
    /// An `Optional-Optional` shape: absent, present without a value, or
    /// present with one.
    OptOptSingle(Option<Option<String>>),
    /// A `List` shape: every value, in the order given.
    Many(Vec<String>),
    /// An `Optional-List` shape: absent, or present with its values.
    OptMany(Option<Vec<String>>),
    /// A skipped entity: the consumer takes the type's default value.
    FromDefault,
    /// A flattened or wrapped child, decoded into the node at this index.
    Nested(usize),
    /// A selected subcommand, decoded into the node at this index.
    SubSome(usize),
    /// An optional subcommand with nothing selected.
    SubNone,
}

/// Mathematical image of a `FieldValue`.
#[verifier::ext_equal]
pub enum FieldValueModel {
    Flag(bool),
    Count(u64),
    Single(Seq<char>),
    OptSingle(Option<Seq<char>>),
    OptOptSingle(Option<Option<Seq<char>>>),
    Many(Seq<Seq<char>>),
    OptMany(Option<Seq<Seq<char>>>),
    FromDefault,
    Nested(int),
    SubSome(int),
    SubNone,
}

impl View for FieldValue {
    type V = FieldValueModel;

    open spec fn view(&self) -> FieldValueModel {
        match *self {
            FieldValue::Flag(b) => FieldValueModel::Flag(b),
            FieldValue::Count(n) => FieldValueModel::Count(n),
            FieldValue::Single(s) => FieldValueModel::Single(s@),
            FieldValue::OptSingle(Option::None) => FieldValueModel::OptSingle(Option::None),
            FieldValue::OptSingle(Option::Some(s)) => FieldValueModel::OptSingle(
                Option::Some(s@),
            ),
            FieldValue::OptOptSingle(Option::None) => FieldValueModel::OptOptSingle(Option::None),
            FieldValue::OptOptSingle(Option::Some(Option::None)) => FieldValueModel::OptOptSingle(
                Option::Some(Option::None),
            ),
            FieldValue::OptOptSingle(Option::Some(Option::Some(s))) => {
                FieldValueModel::OptOptSingle(Option::Some(Option::Some(s@)))
            },
            FieldValue::Many(vs) => FieldValueModel::Many(vs@.map_values(|s: String| s@)),
            FieldValue::OptMany(Option::None) => FieldValueModel::OptMany(Option::None),
            FieldValue::OptMany(Option::Some(vs)) => FieldValueModel::OptMany(
                Option::Some(vs@.map_values(|s: String| s@)),
            ),
            FieldValue::FromDefault => FieldValueModel::FromDefault,
            FieldValue::Nested(i) => FieldValueModel::Nested(i as int),
            FieldValue::SubSome(i) => FieldValueModel::SubSome(i as int),
            FieldValue::SubNone => FieldValueModel::SubNone,
        }
    }
}

/// One decoded field.
#[derive(Clone, Debug, PartialEq, Eq)]
pub struct DecodedField {
    pub name: String,
    pub value: FieldValue,
}

/// Mathematical image of a `DecodedField`.
#[verifier::ext_equal]
pub struct DecodedFieldModel {
    pub name: Seq<char>,
    pub value: FieldValueModel,
}

impl View for DecodedField {
    type V = DecodedFieldModel;

    open spec fn view(&self) -> DecodedFieldModel {
        DecodedFieldModel { name: self.name@, value: self.value@ }
    }
}

/// One decoded value node: a struct's fields, or an enum with its selected
/// variant and that variant's content node.
#[derive(Clone, Debug, PartialEq, Eq)]
pub enum DecodedNode {
    Struct { fields: Vec<DecodedField> },
    Enum { variant: String, inner: usize },
}

/// Mathematical image of a `DecodedNode`.
#[verifier::ext_equal]
pub enum DecodedNodeModel {
    Struct { fields: Seq<DecodedFieldModel> },
    Enum { variant: Seq<char>, inner: int },
}

impl View for DecodedNode {
    type V = DecodedNodeModel;

    open spec fn view(&self) -> DecodedNodeModel {
        match *self {
            DecodedNode::Struct { fields } => DecodedNodeModel::Struct {
                fields: fields@.map_values(|f: DecodedField| f@),
            },
            DecodedNode::Enum { variant, inner } => DecodedNodeModel::Enum {
                variant: variant@,
                inner: inner as int,
            },
        }
    }
}

/// The decoded values of one parse, as a flat arena of nodes.
#[derive(Clone, Debug, PartialEq, Eq)]
pub struct DecodedTree {
    pub nodes: Vec<DecodedNode>,
}

impl View for DecodedTree {
    type V = Seq<DecodedNodeModel>;

    open spec fn view(&self) -> Seq<DecodedNodeModel> {
        self.nodes@.map_values(|n: DecodedNode| n@)
    }
}

/// Index of the first occurrence record with this name, or `-1`.
pub open spec fn spec_find_occur(args: Seq<ArgOccurModel>, name: Seq<char>) -> int
    decreases args.len(),
{
    if args.len() == 0 {
        -1
    } else if args[0].name == name {
        0
    } else {
        let r = spec_find_occur(args.drop_first(), name);
        if r < 0 {
            -1
        } else {
            r + 1
        }
    }
}

proof fn lemma_find_occur_none(args: Seq<ArgOccurModel>, name: Seq<char>)
    requires
        forall|k: int| 0 <= k < args.len() ==> (#[trigger] args[k]).name != name,
    ensures
        spec_find_occur(args, name) == -1,
    decreases args.len(),
{
    if args.len() > 0 {
        lemma_find_occur_none(args.drop_first(), name);
    }
}

proof fn lemma_find_occur_is(args: Seq<ArgOccurModel>, name: Seq<char>, i: int)
    requires
        0 <= i < args.len(),
        args[i].name == name,
        forall|k: int| 0 <= k < i ==> (#[trigger] args[k]).name != name,
    ensures
        spec_find_occur(args, name) == i,
    decreases args.len(),
{
    if i > 0 {
        lemma_find_occur_is(args.drop_first(), name, i - 1);
    }
}

/// The argument occurrences of the level at this depth of the chain.
pub open spec fn spec_args_at(m: MatchesModel, depth: int) -> Seq<ArgOccurModel> {
    if depth == 0 {
        m.args
    } else {
        m.subs[depth - 1].args
    }
}

/// The subcommand selected at this depth, if any.
pub open spec fn spec_selection_at(m: MatchesModel, depth: int) -> Option<SubMatchModel> {
    if 0 <= depth < m.subs.len() {
        Option::Some(m.subs[depth])
    } else {
        Option::None
    }
}

/// The occurrence count of a name at one level; zero when absent.
pub open spec fn spec_occurs_of(args: Seq<ArgOccurModel>, name: Seq<char>) -> u64 {
    let i = spec_find_occur(args, name);
    if 0 <= i < args.len() {
        args[i].occurs
    } else {
        0u64
    }
}

/// The matched values of a name at one level, in the order given; empty when
/// absent.
pub open spec fn spec_values_of(args: Seq<ArgOccurModel>, name: Seq<char>) -> Seq<Seq<char>> {
    let i = spec_find_occur(args, name);
    if 0 <= i < args.len() {
        args[i].values
    } else {
        Seq::empty()
    }
}

/// Whether a name was present at one level: it occurred, or carries a value
/// (a default value counts as present).
pub open spec fn spec_present(args: Seq<ArgOccurModel>, name: Seq<char>) -> bool {
    spec_occurs_of(args, name) > 0 || spec_values_of(args, name).len() > 0
}

/// The decoded value of one plain argument: the shape-specific extraction
/// rule of the decoder.
pub open spec fn spec_arg_value(a: AttrsModel, args: Seq<ArgOccurModel>) -> Result<
    FieldValueModel,
    DecodeError,
> {
    let ty = match a.kind {
        Kind::Arg(t) => t,
        _ => Ty::Other,
    };
    let occurs = spec_occurs_of(args, a.cased_name);
    let values = spec_values_of(args, a.cased_name);
    let present = spec_present(args, a.cased_name);
    match ty {
        Ty::Boolean => Ok(FieldValueModel::Flag(occurs > 0)),
        Ty::Other => {
            if a.parser is FromOccurrences {
                Ok(FieldValueModel::Count(occurs))
            } else if values.len() > 0 {
                Ok(FieldValueModel::Single(values[0]))
            } else {
                Err(DecodeError::MissingValue)
            }
        },
        Ty::Optional => Ok(
            FieldValueModel::OptSingle(
                if values.len() > 0 {
                    Option::Some(values[0])
                } else {
                    Option::None
                },
            ),
        ),
        Ty::OptionalOptional => Ok(
            FieldValueModel::OptOptSingle(
                if present {
                    Option::Some(
                        if values.len() > 0 {
                            Option::Some(values[0])
                        } else {
                            Option::None
                        },
                    )
                } else {
                    Option::None
                },
            ),
        ),
        Ty::List => Ok(FieldValueModel::Many(values)),
        Ty::OptionalList => Ok(
            FieldValueModel::OptMany(
                if present {
                    Option::Some(values)
                } else {
                    Option::None
                },
            ),
        ),
    }
}

/// One field's decoding step: the value it takes and the arena with whatever
/// child nodes the step appended.
pub open spec fn spec_decode_field_step(
    nodes: Seq<DecodedNodeModel>,
    f: FieldDecl,
    a: AttrsModel,
    m: MatchesModel,
    depth: int,
    reg: Seq<TypeDecl>,
    fuel: nat,
) -> Result<(Seq<DecodedNodeModel>, FieldValueModel), DecodeError>
    decreases fuel, 0nat, 0nat,
{
    match a.kind {
            Kind::Skip => Ok((nodes, FieldValueModel::FromDefault)),
            Kind::Arg(_) => match spec_arg_value(a, spec_args_at(m, depth)) {
                Ok(v) => Ok((nodes, v)),
                Err(e) => Err(e),
            },
            Kind::FlattenStruct => {
                match spec_child_type_name(f.ty, Ty::Other) {
                    Option::None => Err(DecodeError::UnknownChildType),
                    Option::Some(cn) => {
                        let di = spec_find_decl(reg, cn);
                        if !(0 <= di < reg.len()) {
                            Err(DecodeError::UnknownChildType)
                        } else if fuel == 0 {
                            Err(DecodeError::RecursionLimitExceeded)
                        } else {
                            match spec_decode_decl(nodes, reg[di], m, depth, reg, (fuel - 1) as nat) {
                                Err(e) => Err(e),
                                Ok((nodes2, idx)) => Ok((nodes2, FieldValueModel::Nested(idx))),
                            }
                        }
                    },
                }
            },
            Kind::Subcommand(ty) => {
                match spec_child_type_name(f.ty, ty) {
                    Option::None => Err(DecodeError::UnknownChildType),
                    Option::Some(cn) => {
                        let di = spec_find_decl(reg, cn);
                        if !(0 <= di < reg.len()) {
                            Err(DecodeError::UnknownChildType)
                        } else if fuel == 0 {
                            Err(DecodeError::RecursionLimitExceeded)
                        } else {
                            match spec_selection_at(m, depth) {
                                Option::None => {
                                    if ty is Optional {
                                        Ok((nodes, FieldValueModel::SubNone))
                                    } else {
                                        Err(DecodeError::MissingSubcommand)
                                    }
                                },
                                Option::Some(sub) => {
                                    match spec_decode_enum_sel(
                                        nodes,
                                        reg[di],
                                        sub.name,
                                        m,
                                        depth,
                                        reg,
                                        (fuel - 1) as nat,
                                    ) {
                                        Err(e) => Err(e),
                                        Ok((nodes2, Option::Some(idx))) => Ok(
                                            (nodes2, FieldValueModel::SubSome(idx)),
                                        ),
                                        Ok((nodes2, Option::None)) => {
                                            if ty is Optional {
                                                Ok((nodes2, FieldValueModel::SubNone))
                                            } else {
                                                Err(DecodeError::UnknownSubcommand)
                                            }
                                        },
                                    }
                                },
                            }
                        }
                    },
                }
            },
    }
}

/// Decoding a field list at one level: one value per field, in declaration
/// order, with child nodes appended to the arena as they are decoded.
pub open spec fn spec_decode_fields(
    nodes: Seq<DecodedNodeModel>,
    fields: Seq<FieldDecl>,
    rs: Seq<AttrsModel>,
    m: MatchesModel,
    depth: int,
    reg: Seq<TypeDecl>,
    fuel: nat,
) -> Result<(Seq<DecodedNodeModel>, Seq<DecodedFieldModel>), DecodeError>
    decreases fuel, 1nat, fields.len(),
{
    if fields.len() == 0 || rs.len() != fields.len() {
        Ok((nodes, Seq::empty()))
    } else {
        let f = fields[0];
        let a = rs[0];
        match spec_decode_field_step(nodes, f, a, m, depth, reg, fuel) {
            Err(e) => Err(e),
            Ok((nodes2, v)) => {
                match spec_decode_fields(
                    nodes2,
                    fields.drop_first(),
                    rs.drop_first(),
                    m,
                    depth,
                    reg,
                    fuel,
                ) {
                    Err(e) => Err(e),
                    Ok((nodes3, rest)) => Ok(
                        (
                            nodes3,
                            Seq::empty().push(
                                DecodedFieldModel { name: f.name@, value: v },
                            ) + rest,
                        ),
                    ),
                }
            },
        }
    }
}

/// Looking the selected name up among an enum's variants: the first variant
/// whose resolved cased name equals the selection decodes; no match yields
/// nothing.
pub open spec fn spec_decode_variants(
    nodes: Seq<DecodedNodeModel>,
    vs: Seq<VariantDecl>,
    casing: CasingStyle,
    selname: Seq<char>,
    m: MatchesModel,
    depth: int,
    reg: Seq<TypeDecl>,
    fuel: nat,
) -> Result<(Seq<DecodedNodeModel>, Option<int>), DecodeError>
    decreases fuel, 2nat, vs.len(),
{
    if vs.len() == 0 {
        Ok((nodes, Option::None))
    } else {
        let v = vs[0];
        match spec_from_struct(
            v.attrs@,
            v.docs@.map_values(|s: String| s@),
            v.name@,
            casing,
            EnvModel::empty_model(),
        ) {
            Err(_) => Err(DecodeError::InvalidDeclaration),
            Ok(va) => {
                if va.cased_name == selname {
                    let content: Result<(Seq<DecodedNodeModel>, int), DecodeError> = match v.data {
                        VariantData::Unit => Ok(
                            (
                                nodes.push(DecodedNodeModel::Struct { fields: Seq::empty() }),
                                nodes.len() as int,
                            ),
                        ),
                        VariantData::Fields(fs) => {
                            match spec_resolve_fields(fs@, va.casing) {
                                Err(_) => Err(DecodeError::InvalidDeclaration),
                                Ok(rs) => {
                                    match spec_decode_fields(
                                        nodes,
                                        fs@,
                                        rs,
                                        m,
                                        depth + 1,
                                        reg,
                                        fuel,
                                    ) {
                                        Err(e) => Err(e),
                                        Ok((nodes2, dfs)) => Ok(
                                            (
                                                nodes2.push(
                                                    DecodedNodeModel::Struct { fields: dfs },
                                                ),
                                                nodes2.len() as int,
                                            ),
                                        ),
                                    }
                                },
                            }
                        },
                        VariantData::Tuple(ts) => {
                            if ts@.len() != 1 {
                                Err(DecodeError::InvalidDeclaration)
                            } else {
                                match spec_tuple_type_name(ts@[0]) {
                                    Option::None => Err(DecodeError::UnknownChildType),
                                    Option::Some(cn) => {
                                        let di = spec_find_decl(reg, cn);
                                        if !(0 <= di < reg.len()) {
                                            Err(DecodeError::UnknownChildType)
                                        } else if fuel == 0 {
                                            Err(DecodeError::RecursionLimitExceeded)
                                        } else {
                                            spec_decode_decl(
                                                nodes,
                                                reg[di],
                                                m,
                                                depth + 1,
                                                reg,
                                                (fuel - 1) as nat,
                                            )
                                        }
                                    },
                                }
                            }
                        },
                    };
                    match content {
                        Err(e) => Err(e),
                        Ok((nodes2, inner)) => Ok(
                            (
                                nodes2.push(
                                    DecodedNodeModel::Enum { variant: va.cased_name, inner },
                                ),
                                Option::Some(nodes2.len() as int),
                            ),
                        ),
                    }
                } else {
                    spec_decode_variants(
                        nodes,
                        vs.drop_first(),
                        casing,
                        selname,
                        m,
                        depth,
                        reg,
                        fuel,
                    )
                }
            },
        }
    }
}

/// Dispatching an enum on the selection at this depth.
pub open spec fn spec_decode_enum_sel(
    nodes: Seq<DecodedNodeModel>,
    d: TypeDecl,
    selname: Seq<char>,
    m: MatchesModel,
    depth: int,
    reg: Seq<TypeDecl>,
    fuel: nat,
) -> Result<(Seq<DecodedNodeModel>, Option<int>), DecodeError>
    decreases fuel, 3nat, 0nat,
{
    match spec_from_struct(
        d.attrs@,
        d.docs@.map_values(|s: String| s@),
        d.name@,
        crate::attrs::spec_default_casing(),
        EnvModel::empty_model(),
    ) {
        Err(_) => Err(DecodeError::InvalidDeclaration),
        Ok(da) => match d.data {
            TypeData::Enum(vs) => spec_decode_variants(
                nodes,
                vs@,
                da.casing,
                selname,
                m,
                depth,
                reg,
                fuel,
            ),
            TypeData::Struct(_) => Err(DecodeError::InvalidDeclaration),
        },
    }
}

/// Decoding one declaration against the level at this depth: a struct
/// decodes its fields, an enum demands and dispatches on a selection.
pub open spec fn spec_decode_decl(
    nodes: Seq<DecodedNodeModel>,
    d: TypeDecl,
    m: MatchesModel,
    depth: int,
    reg: Seq<TypeDecl>,
    fuel: nat,
) -> Result<(Seq<DecodedNodeModel>, int), DecodeError>
    decreases fuel, 4nat, 0nat,
{
    match spec_from_struct(
        d.attrs@,
        d.docs@.map_values(|s: String| s@),
        d.name@,
        crate::attrs::spec_default_casing(),
        EnvModel::empty_model(),
    ) {
        Err(_) => Err(DecodeError::InvalidDeclaration),
        Ok(da) => match d.data {
            TypeData::Struct(fs) => {
                match spec_resolve_fields(fs@, da.casing) {
                    Err(_) => Err(DecodeError::InvalidDeclaration),
                    Ok(rs) => {
                        match spec_decode_fields(nodes, fs@, rs, m, depth, reg, fuel) {
                            Err(e) => Err(e),
                            Ok((nodes2, dfs)) => Ok(
                                (
                                    nodes2.push(DecodedNodeModel::Struct { fields: dfs }),
                                    nodes2.len() as int,
                                ),
                            ),
                        }
                    },
                }
            },
            TypeData::Enum(vs) => {
                match spec_selection_at(m, depth) {
                    Option::None => Err(DecodeError::MissingSubcommand),
                    Option::Some(sub) => {
                        match spec_decode_variants(
                            nodes,
                            vs@,
                            da.casing,
                            sub.name,
                            m,
                            depth,
                            reg,
                            fuel,
                        ) {
                            Err(e) => Err(e),
                            Ok((nodes2, Option::Some(idx))) => Ok((nodes2, idx)),
                            Ok((_, Option::None)) => Err(DecodeError::UnknownSubcommand),
                        }
                    },
                }
            },
        },
    }
}

/// The decoded value of one annotated declaration against one matched-values
/// structure: the arena of decoded nodes and the index of the root node.
pub open spec fn spec_from_argmatches(
    d: TypeDecl,
    reg: Seq<TypeDecl>,
    m: MatchesModel,
    fuel: nat,
) -> Result<(Seq<DecodedNodeModel>, int), DecodeError> {
    spec_decode_decl(Seq::empty(), d, m, 0, reg, fuel)
}

/// A combined prefix rule for the field-decoding results.
pub open spec fn spec_fields_combine(
    r: Result<(Seq<DecodedNodeModel>, Seq<DecodedFieldModel>), DecodeError>,
    prefix: Seq<DecodedFieldModel>,
) -> Result<(Seq<DecodedNodeModel>, Seq<DecodedFieldModel>), DecodeError> {
    match r {
        Ok((nodes, fs)) => Ok((nodes, prefix + fs)),
        Err(e) => Err(e),
    }
}

/// A copy of a string list.
fn clone_strings(v: &Vec<String>) -> (r: Vec<String>)
    ensures
        r@.map_values(|s: String| s@) == v@.map_values(|s: String| s@),
{
    let mut r: Vec<String> = Vec::new();
    let mut i: usize = 0;
    while i < v.len()
        invariant
            i <= v@.len(),
            r@.map_values(|s: String| s@) == v@.take(i as int).map_values(|s: String| s@),
        decreases v@.len() - i,
    {
        let ghost rm = r@.map_values(|s: String| s@);
        r.push(v[i].clone());
        proof {
            assert(r@.map_values(|s: String| s@) =~= rm.push(v@[i as int]@));
            assert(v@.take(i + 1).map_values(|s: String| s@) =~= v@.take(i as int).map_values(
                |s: String| s@,
            ).push(v@[i as int]@));
        }
        i = i + 1;
    }
    proof {
        assert(v@.take(v@.len() as int) =~= v@);
    }
    r
}

/// Appends a decoded node to the arena.
fn push_dnode(tree: &mut DecodedTree, n: DecodedNode)
    ensures
        final(tree)@ == old(tree)@.push(n@),
{
    let ghost m0 = tree@;
    let ghost nm = n@;
    tree.nodes.push(n);
    proof {
        assert(tree@ =~~= m0.push(nm));
    }
}

/// Index of the first occurrence record with this name, if any.
fn find_occur(args: &Vec<ArgOccur>, name: &String) -> (r: Option<usize>)
    ensures
        match r {
            Option::Some(j) => j < args@.len() && spec_find_occur(
                args@.map_values(|a: ArgOccur| a@),
                name@,
            ) == j as int,
            Option::None => spec_find_occur(args@.map_values(|a: ArgOccur| a@), name@) == -1,
        },
{
    let ghost am = args@.map_values(|a: ArgOccur| a@);
    let mut i: usize = 0;
    while i < args.len()
        invariant
            am == args@.map_values(|a: ArgOccur| a@),
            i <= args@.len(),
            forall|k: int| 0 <= k < i ==> (#[trigger] am[k]).name != name@,
        decreases args@.len() - i,
    {
        proof {
            assert(am[i as int] == args@[i as int]@);
        }
        if crate::strutil::string_eq_str(&args[i].name, name.as_str()) {
            proof {
                lemma_find_occur_is(am, name@, i as int);
            }
            return Option::Some(i);
        }
        i = i + 1;
    }
    proof {
        lemma_find_occur_none(am, name@);
    }
    Option::None
}

/// The argument occurrences of the level at this depth.
fn args_at<'a>(m: &'a Matches, depth: usize) -> (r: &'a Vec<ArgOccur>)
    requires
        depth <= m.subs@.len(),
    ensures
        r@.map_values(|a: ArgOccur| a@) == spec_args_at(m@, depth as int),
{
    if depth == 0 {
        proof {
            assert(m@.args == m.args@.map_values(|a: ArgOccur| a@));
        }
        &m.args
    } else {
        proof {
            assert(m@.subs[depth - 1] == m.subs@[depth - 1]@);
        }
        &m.subs[depth - 1].args
    }
}

/// The decoded value of one plain argument at one level.
fn arg_value(a: &Attrs, args: &Vec<ArgOccur>) -> (r: Result<FieldValue, DecodeError>)
    ensures
        match r {
            Ok(v) => spec_arg_value(a@, args@.map_values(|x: ArgOccur| x@)) == Ok::<
                FieldValueModel,
                DecodeError,
            >(v@),
            Err(e) => spec_arg_value(a@, args@.map_values(|x: ArgOccur| x@)) == Err::<
                FieldValueModel,
                DecodeError,
            >(e),
        },
{
    let ghost am = args@.map_values(|x: ArgOccur| x@);
    let ty = match a.kind {
        Kind::Arg(t) => t,
        _ => Ty::Other,
    };
    let (occurs, values): (u64, Vec<String>) = match find_occur(args, &a.cased_name) {
        Option::Some(j) => {
            proof {
                assert(am[j as int] == args@[j as int]@);
            }
            (args[j].occurs, clone_strings(&args[j].values))
        },
        Option::None => (0u64, Vec::new()),
    };
    proof {
        assert(occurs == spec_occurs_of(am, a@.cased_name));
        assert(values@.map_values(|s: String| s@) =~= spec_values_of(am, a@.cased_name));
    }
    let present = occurs > 0 || values.len() > 0;
    match ty {
        Ty::Boolean => Ok(FieldValue::Flag(occurs > 0)),
        Ty::Other => {
            if a.parser == Parser::FromOccurrences {
                Ok(FieldValue::Count(occurs))
            } else if values.len() > 0 {
                Ok(FieldValue::Single(values[0].clone()))
            } else {
                Err(DecodeError::MissingValue)
            }
        },
        Ty::Optional => {
            if values.len() > 0 {
                Ok(FieldValue::OptSingle(Option::Some(values[0].clone())))
            } else {
                Ok(FieldValue::OptSingle(Option::None))
            }
        },
        Ty::OptionalOptional => {
            if present {
                if values.len() > 0 {
                    Ok(FieldValue::OptOptSingle(Option::Some(Option::Some(values[0].clone()))))
                } else {
                    Ok(FieldValue::OptOptSingle(Option::Some(Option::None)))
                }
            } else {
                Ok(FieldValue::OptOptSingle(Option::None))
            }
        },
        Ty::List => Ok(FieldValue::Many(values)),
        Ty::OptionalList => {
            if present {
                Ok(FieldValue::OptMany(Option::Some(values)))
            } else {
                Ok(FieldValue::OptMany(Option::None))
            }
        },
    }
}


/// One field's decoding step.
#[verifier::rlimit(100)]
#[verifier::spinoff_prover]
fn decode_field_step(
    tree: &mut DecodedTree,
    f: &FieldDecl,
    a: &Attrs,
    m: &Matches,
    depth: usize,
    reg: &Vec<TypeDecl>,
    fuel: u64,
) -> (r: Result<FieldValue, DecodeError>)
    requires
        depth <= m.subs@.len(),
    ensures
        match r {
            Ok(v) => ({
                &&& spec_decode_field_step(old(tree)@, *f, a@, m@, depth as int, reg@, fuel as nat)
                    == Ok::<(Seq<DecodedNodeModel>, FieldValueModel), DecodeError>(
                    (final(tree)@, v@),
                )
                &&& old(tree)@.len() <= final(tree)@.len()
            }),
            Err(e) => spec_decode_field_step(old(tree)@, *f, a@, m@, depth as int, reg@, fuel as nat)
                == Err::<(Seq<DecodedNodeModel>, FieldValueModel), DecodeError>(e),
        },
    decreases fuel, 0nat,
{
    let r: FieldValue = match a.kind {
            Kind::Skip => FieldValue::FromDefault,
            Kind::Arg(_) => {
                let level = args_at(m, depth);
                match arg_value(a, level) {
                    Ok(v) => v,
                    Err(e) => {
                        return Err(e);
                    },
                }
            },
            Kind::FlattenStruct => {
                match crate::builder::child_type_name(&f.ty, Ty::Other) {
                    Option::None => {
                        return Err(DecodeError::UnknownChildType);
                    },
                    Option::Some(cn) => {
                        match crate::builder::find_decl(reg, &cn) {
                            Option::None => {
                                return Err(DecodeError::UnknownChildType);
                            },
                            Option::Some(di) => {
                                if fuel == 0 {
                                    return Err(DecodeError::RecursionLimitExceeded);
                                }
                                match decode_decl(tree, &reg[di], m, depth, reg, fuel - 1) {
                                    Err(e) => {
                                        return Err(e);
                                    },
                                    Ok(idx) => FieldValue::Nested(idx),
                                }
                            },
                        }
                    },
                }
            },
            Kind::Subcommand(ty) => {
                match crate::builder::child_type_name(&f.ty, ty) {
                    Option::None => {
                        return Err(DecodeError::UnknownChildType);
                    },
                    Option::Some(cn) => {
                        match crate::builder::find_decl(reg, &cn) {
                            Option::None => {
                                return Err(DecodeError::UnknownChildType);
                            },
                            Option::Some(di) => {
                                if fuel == 0 {
                                    return Err(DecodeError::RecursionLimitExceeded);
                                }
                                if depth < m.subs.len() {
                                    proof {
                                        assert(m@.subs[depth as int] == m.subs@[depth as int]@);
                                    }
                                    let selname = m.subs[depth].name.clone();
                                    match decode_enum_sel(
                                        tree,
                                        &reg[di],
                                        &selname,
                                        m,
                                        depth,
                                        reg,
                                        fuel - 1,
                                    ) {
                                        Err(e) => {
                                            return Err(e);
                                        },
                                        Ok(Option::Some(idx)) => FieldValue::SubSome(idx),
                                        Ok(Option::None) => {
                                            if ty == Ty::Optional {
                                                FieldValue::SubNone
                                            } else {
                                                return Err(DecodeError::UnknownSubcommand);
                                            }
                                        },
                                    }
                                } else {
                                    if ty == Ty::Optional {
                                        FieldValue::SubNone
                                    } else {
                                        return Err(DecodeError::MissingSubcommand);
                                    }
                                }
                            },
                        }
                    },
                }
            },
    };
    Ok(r)
}

/// Decodes a field list at one level, appending child nodes to the arena.
#[verifier::loop_isolation(false)]
#[verifier::rlimit(100)]
fn decode_fields(
    tree: &mut DecodedTree,
    fields: &Vec<FieldDecl>,
    rs: &Vec<Attrs>,
    m: &Matches,
    depth: usize,
    reg: &Vec<TypeDecl>,
    fuel: u64,
) -> (r: Result<Vec<DecodedField>, DecodeError>)
    requires
        rs@.len() == fields@.len(),
        depth <= m.subs@.len(),
    ensures
        match r {
            Ok(dfs) => ({
                &&& spec_decode_fields(
                    old(tree)@,
                    fields@,
                    rs@.map_values(|a: Attrs| a@),
                    m@,
                    depth as int,
                    reg@,
                    fuel as nat,
                ) == Ok::<(Seq<DecodedNodeModel>, Seq<DecodedFieldModel>), DecodeError>(
                    (final(tree)@, dfs@.map_values(|f: DecodedField| f@)),
                )
                &&& old(tree)@.len() <= final(tree)@.len()
            }),
            Err(e) => spec_decode_fields(
                old(tree)@,
                fields@,
                rs@.map_values(|a: Attrs| a@),
                m@,
                depth as int,
                reg@,
                fuel as nat,
            ) == Err::<(Seq<DecodedNodeModel>, Seq<DecodedFieldModel>), DecodeError>(e),
        },
    decreases fuel, 1nat,
{
    let ghost rsm = rs@.map_values(|a: Attrs| a@);
    let ghost n0 = tree@;
    proof {
        assert(fields@.skip(0) =~= fields@);
        assert(rsm.skip(0) =~= rsm);
    }
    let mut dfs: Vec<DecodedField> = Vec::new();
    let mut i: usize = 0;
    proof {
        assert(dfs@.map_values(|f: DecodedField| f@) =~= Seq::<DecodedFieldModel>::empty());
    }
    while i < fields.len()
        invariant
            i <= fields@.len(),
            n0.len() <= tree@.len(),
            spec_fields_combine(
                spec_decode_fields(
                    tree@,
                    fields@.skip(i as int),
                    rsm.skip(i as int),
                    m@,
                    depth as int,
                    reg@,
                    fuel as nat,
                ),
                dfs@.map_values(|f: DecodedField| f@),
            ) == spec_decode_fields(
                n0,
                fields@,
                rsm,
                m@,
                depth as int,
                reg@,
                fuel as nat,
            ),
        decreases fields@.len() - i,
    {
        proof {
            assert(fields@.skip(i as int)[0] == fields@[i as int]);
            assert(rsm.skip(i as int)[0] == rsm[i as int]);
            assert(fields@.skip(i as int).drop_first() =~= fields@.skip(i + 1));
            assert(rsm.skip(i as int).drop_first() =~= rsm.skip(i + 1));
            assert(rsm[i as int] == rs@[i as int]@);
        }
        let ghost dfsm = dfs@.map_values(|f: DecodedField| f@);
        let ghost t_in = tree@;
        let value: FieldValue = match decode_field_step(tree, &fields[i], &rs[i], m, depth, reg, fuel) {
            Ok(v) => v,
            Err(e) => {
                return Err(e);
            },
        };
        let ghost vm = value@;
        proof {
            assert(spec_decode_field_step(
                t_in,
                fields@[i as int],
                rsm[i as int],
                m@,
                depth as int,
                reg@,
                fuel as nat,
            ) == Ok::<(Seq<DecodedNodeModel>, FieldValueModel), DecodeError>((tree@, vm)));
        }
        let df = DecodedField { name: fields[i].name.clone(), value };
        proof {
            assert(df@ == (DecodedFieldModel { name: fields@[i as int].name@, value: vm }));
        }
        dfs.push(df);
        proof {
            assert(dfs@.map_values(|f: DecodedField| f@) =~= dfsm.push(
                DecodedFieldModel { name: fields@[i as int].name@, value: vm },
            ));
            assert(dfsm + (Seq::empty().push(
                DecodedFieldModel { name: fields@[i as int].name@, value: vm },
            ) + spec_decode_fields(
                tree@,
                fields@.skip(i + 1),
                rsm.skip(i + 1),
                m@,
                depth as int,
                reg@,
                fuel as nat,
            )->Ok_0.1) =~= dfsm.push(
                DecodedFieldModel { name: fields@[i as int].name@, value: vm },
            ) + spec_decode_fields(
                tree@,
                fields@.skip(i + 1),
                rsm.skip(i + 1),
                m@,
                depth as int,
                reg@,
                fuel as nat,
            )->Ok_0.1);
        }
        i = i + 1;
    }
    proof {
        assert(fields@.skip(fields@.len() as int) =~= Seq::<FieldDecl>::empty());
        assert(dfs@.map_values(|f: DecodedField| f@) + Seq::<DecodedFieldModel>::empty()
            =~= dfs@.map_values(|f: DecodedField| f@));
    }
    Ok(dfs)
}

/// Looks the selected name up among an enum's variants and decodes the first
/// match; `None` when no variant name matches.
#[verifier::loop_isolation(false)]
fn decode_variants(
    tree: &mut DecodedTree,
    vs: &Vec<VariantDecl>,
    casing: CasingStyle,
    selname: &String,
    m: &Matches,
    depth: usize,
    reg: &Vec<TypeDecl>,
    fuel: u64,
) -> (r: Result<Option<usize>, DecodeError>)
    requires
        depth < m.subs@.len(),
    ensures
        match r {
            Ok(o) => ({
                &&& spec_decode_variants(
                    old(tree)@,
                    vs@,
                    casing,
                    selname@,
                    m@,
                    depth as int,
                    reg@,
                    fuel as nat,
                ) == Ok::<(Seq<DecodedNodeModel>, Option<int>), DecodeError>(
                    (
                        final(tree)@,
                        match o {
                            Option::Some(i) => Option::Some(i as int),
                            Option::None => Option::None,
                        },
                    ),
                )
                &&& old(tree)@.len() <= final(tree)@.len()
                &&& o matches Option::Some(i) ==> i < final(tree)@.len()
            }),
            Err(e) => spec_decode_variants(
                old(tree)@,
                vs@,
                casing,
                selname@,
                m@,
                depth as int,
                reg@,
                fuel as nat,
            ) == Err::<(Seq<DecodedNodeModel>, Option<int>), DecodeError>(e),
        },
    decreases fuel, 2nat,
{
    let ghost n0 = tree@;
    let sublen = m.subs.len();
    proof {
        assert(vs@.skip(0) =~= vs@);
        assert(depth < sublen);
    }
    let mut i: usize = 0;
    while i < vs.len()
        invariant
            i <= vs@.len(),
            tree@ == n0,
            spec_decode_variants(
                tree@,
                vs@.skip(i as int),
                casing,
                selname@,
                m@,
                depth as int,
                reg@,
                fuel as nat,
            ) == spec_decode_variants(
                n0,
                vs@,
                casing,
                selname@,
                m@,
                depth as int,
                reg@,
                fuel as nat,
            ),
        decreases vs@.len() - i,
    {
        proof {
            assert(vs@.skip(i as int)[0] == vs@[i as int]);
            assert(vs@.skip(i as int).drop_first() =~= vs@.skip(i + 1));
        }
        let empty_env = EnvConfig::empty();
        proof {
            assert(empty_env@ =~= EnvModel::empty_model());
        }
        let va = match Attrs::from_struct(
            &vs[i].attrs,
            &vs[i].docs,
            vs[i].name.clone(),
            casing,
            &empty_env,
        ) {
            Err(_) => {
                return Err(DecodeError::InvalidDeclaration);
            },
            Ok(va) => va,
        };
        if crate::strutil::string_eq_str(&va.cased_name, selname.as_str()) {
            let inner: usize = match &vs[i].data {
                VariantData::Unit => {
                    let idx = tree.nodes.len();
                    let empty_fields: Vec<DecodedField> = Vec::new();
                    proof {
                        assert(empty_fields@.map_values(|f: DecodedField| f@)
                            =~= Seq::<DecodedFieldModel>::empty());
                    }
                    push_dnode(tree, DecodedNode::Struct { fields: empty_fields });
                    idx
                },
                VariantData::Fields(fs) => {
                    let frs = match crate::builder::resolve_fields(fs, va.casing) {
                        Err(_) => {
                            return Err(DecodeError::InvalidDeclaration);
                        },
                        Ok(frs) => frs,
                    };
                    let dfs = match decode_fields(tree, fs, &frs, m, depth + 1, reg, fuel) {
                        Err(e) => {
                            return Err(e);
                        },
                        Ok(dfs) => dfs,
                    };
                    let idx = tree.nodes.len();
                    push_dnode(tree, DecodedNode::Struct { fields: dfs });
                    idx
                },
                VariantData::Tuple(ts) => {
                    if ts.len() != 1 {
                        return Err(DecodeError::InvalidDeclaration);
                    }
                    match crate::builder::tuple_type_name(&ts[0]) {
                        Option::None => {
                            return Err(DecodeError::UnknownChildType);
                        },
                        Option::Some(cn) => {
                            match crate::builder::find_decl(reg, &cn) {
                                Option::None => {
                                    return Err(DecodeError::UnknownChildType);
                                },
                                Option::Some(di) => {
                                    if fuel == 0 {
                                        return Err(DecodeError::RecursionLimitExceeded);
                                    }
                                    match decode_decl(tree, &reg[di], m, depth + 1, reg, fuel - 1) {
                                        Err(e) => {
                                            return Err(e);
                                        },
                                        Ok(idx) => idx,
                                    }
                                },
                            }
                        },
                    }
                },
            };
            let idx = tree.nodes.len();
            push_dnode(tree, DecodedNode::Enum { variant: va.cased_name, inner });
            return Ok(Option::Some(idx));
        }
        i = i + 1;
    }
    proof {
        assert(vs@.skip(vs@.len() as int) =~= Seq::<VariantDecl>::empty());
    }
    Ok(Option::None)
}

/// Dispatches an enum declaration on a selected name.
fn decode_enum_sel(
    tree: &mut DecodedTree,
    d: &TypeDecl,
    selname: &String,
    m: &Matches,
    depth: usize,
    reg: &Vec<TypeDecl>,
    fuel: u64,
) -> (r: Result<Option<usize>, DecodeError>)
    requires
        depth < m.subs@.len(),
    ensures
        match r {
            Ok(o) => ({
                &&& spec_decode_enum_sel(
                    old(tree)@,
                    *d,
                    selname@,
                    m@,
                    depth as int,
                    reg@,
                    fuel as nat,
                ) == Ok::<(Seq<DecodedNodeModel>, Option<int>), DecodeError>(
                    (
                        final(tree)@,
                        match o {
                            Option::Some(i) => Option::Some(i as int),
                            Option::None => Option::None,
                        },
                    ),
                )
                &&& old(tree)@.len() <= final(tree)@.len()
            }),
            Err(e) => spec_decode_enum_sel(
                old(tree)@,
                *d,
                selname@,
                m@,
                depth as int,
                reg@,
                fuel as nat,
            ) == Err::<(Seq<DecodedNodeModel>, Option<int>), DecodeError>(e),
        },
    decreases fuel, 3nat,
{
    let empty_env = EnvConfig::empty();
    proof {
        assert(empty_env@ =~= EnvModel::empty_model());
    }
    let da = match Attrs::from_struct(
        &d.attrs,
        &d.docs,
        d.name.clone(),
        crate::builder::default_casing(),
        &empty_env,
    ) {
        Err(_) => {
            return Err(DecodeError::InvalidDeclaration);
        },
        Ok(da) => da,
    };
    match &d.data {
        TypeData::Enum(vs) => decode_variants(tree, vs, da.casing, selname, m, depth, reg, fuel),
        TypeData::Struct(_) => Err(DecodeError::InvalidDeclaration),
    }
}

/// Decodes one declaration against the level at this depth.
fn decode_decl(
    tree: &mut DecodedTree,
    d: &TypeDecl,
    m: &Matches,
    depth: usize,
    reg: &Vec<TypeDecl>,
    fuel: u64,
) -> (r: Result<usize, DecodeError>)
    requires
        depth <= m.subs@.len(),
    ensures
        match r {
            Ok(idx) => ({
                &&& spec_decode_decl(old(tree)@, *d, m@, depth as int, reg@, fuel as nat)
                    == Ok::<(Seq<DecodedNodeModel>, int), DecodeError>((final(tree)@, idx as int))
                &&& old(tree)@.len() <= final(tree)@.len()
                &&& idx < final(tree)@.len()
            }),
            Err(e) => spec_decode_decl(old(tree)@, *d, m@, depth as int, reg@, fuel as nat)
                == Err::<(Seq<DecodedNodeModel>, int), DecodeError>(e),
        },
    decreases fuel, 4nat,
{
    let empty_env = EnvConfig::empty();
    proof {
        assert(empty_env@ =~= EnvModel::empty_model());
    }
    let da = match Attrs::from_struct(
        &d.attrs,
        &d.docs,
        d.name.clone(),
        crate::builder::default_casing(),
        &empty_env,
    ) {
        Err(_) => {
            return Err(DecodeError::InvalidDeclaration);
        },
        Ok(da) => da,
    };
    match &d.data {
        TypeData::Struct(fs) => {
            let frs = match crate::builder::resolve_fields(fs, da.casing) {
                Err(_) => {
                    return Err(DecodeError::InvalidDeclaration);
                },
                Ok(frs) => frs,
            };
            let dfs = match decode_fields(tree, fs, &frs, m, depth, reg, fuel) {
                Err(e) => {
                    return Err(e);
                },
                Ok(dfs) => dfs,
            };
            let idx = tree.nodes.len();
            push_dnode(tree, DecodedNode::Struct { fields: dfs });
            Ok(idx)
        },
        TypeData::Enum(vs) => {
            if depth < m.subs.len() {
                proof {
                    assert(m@.subs[depth as int] == m.subs@[depth as int]@);
                }
                let selname = m.subs[depth].name.clone();
                match decode_variants(tree, vs, da.casing, &selname, m, depth, reg, fuel) {
                    Err(e) => Err(e),
                    Ok(Option::Some(idx)) => Ok(idx),
                    Ok(Option::None) => Err(DecodeError::UnknownSubcommand),
                }
            } else {
                Err(DecodeError::MissingSubcommand)
            }
        },
    }
}

/// Decodes one annotated declaration against one matched-values structure:
/// the arena of decoded nodes and the index of the root node.
pub fn from_argmatches(d: &TypeDecl, reg: &Vec<TypeDecl>, m: &Matches, fuel: u64) -> (r: Result<
    (DecodedTree, usize),
    DecodeError,
>)
    ensures
        match r {
            Ok(p) => spec_from_argmatches(*d, reg@, m@, fuel as nat) == Ok::<
                (Seq<DecodedNodeModel>, int),
                DecodeError,
            >((p.0@, p.1 as int)) && p.1 < p.0@.len(),
            Err(e) => spec_from_argmatches(*d, reg@, m@, fuel as nat) == Err::<
                (Seq<DecodedNodeModel>, int),
                DecodeError,
            >(e),
        },
{
    let mut tree = DecodedTree { nodes: Vec::new() };
    proof {
        assert(tree@ =~= Seq::<DecodedNodeModel>::empty());
    }
    match decode_decl(&mut tree, d, m, 0, reg, fuel) {
        Err(e) => Err(e),
        Ok(idx) => Ok((tree, idx)),
    }
}

/// Dispatches an enum declaration on an externally supplied subcommand
/// selection, as the subcommand slot of an enclosing struct does; `None`
/// when no variant name matches.
pub fn from_subcommand(
    tree: &mut DecodedTree,
    d: &TypeDecl,
    selname: &String,
    m: &Matches,
    depth: usize,
    reg: &Vec<TypeDecl>,
    fuel: u64,
) -> (r: Result<Option<usize>, DecodeError>)
    requires
        depth < m.subs@.len(),
    ensures
        match r {
            Ok(o) => spec_decode_enum_sel(
                old(tree)@,
                *d,
                selname@,
                m@,
                depth as int,
                reg@,
                fuel as nat,
            ) == Ok::<(Seq<DecodedNodeModel>, Option<int>), DecodeError>(
                (
                    final(tree)@,
                    match o {
                        Option::Some(i) => Option::Some(i as int),
                        Option::None => Option::None,
                    },
                ),
            ),
            Err(e) => spec_decode_enum_sel(
                old(tree)@,
                *d,
                selname@,
                m@,
                depth as int,
                reg@,
                fuel as nat,
            ) == Err::<(Seq<DecodedNodeModel>, Option<int>), DecodeError>(e),
        },
{
    decode_enum_sel(tree, d, selname, m, depth, reg, fuel)
}

} // verus!
