//! Laws of the generation model: properties that hold of every declaration
//! and every matched-values structure, stated and proved over the same
//! specification functions the executable generators are verified against.

use vstd::prelude::*;

use crate::ast::{EnvModel, FieldDecl, TypeDecl};
use crate::attrs::{
    spec_doc_mark, spec_merged_lines, spec_push_doc, spec_push_str_method, two_newlines,
    AttrsModel, Kind, MethodModel, Ty,
};
use crate::builder::{
    spec_arg_of, spec_augment_decl, spec_augment_fields, spec_augment_variants,
    spec_count_subcommands, spec_fields_args, spec_fields_subcmd, spec_resolve_fields,
    spec_set_required_sub, AppSpecModel,
};
use crate::casing::CasingStyle;
use crate::decode::{
    spec_arg_value, spec_decode_field_step, spec_decode_fields, spec_find_occur, spec_present,
    spec_values_of, DecodedNodeModel, FieldValueModel, MatchesModel,
};
use crate::errors::{DecodeError, GenError, GenErrorKind};
use crate::parse::MethodArgModel;
use crate::strutil::{spec_trim, spec_trim_end_matches};

verus! {

proof fn lemma_decode_fields_len(
    nodes: Seq<DecodedNodeModel>,
    fields: Seq<FieldDecl>,
    rs: Seq<AttrsModel>,
    m: MatchesModel,
    depth: int,
    reg: Seq<TypeDecl>,
    fuel: nat,
)
    requires
        rs.len() == fields.len(),
    ensures
        spec_decode_fields(nodes, fields, rs, m, depth, reg, fuel) matches Ok(p) ==> p.1.len()
            == fields.len(),
    decreases fields.len(),
{
    if fields.len() == 0 {
    } else {
        match spec_decode_field_step(nodes, fields[0], rs[0], m, depth, reg, fuel) {
            Err(_) => {},
            Ok((nodes2, _v)) => {
                lemma_decode_fields_len(
                    nodes2,
                    fields.drop_first(),
                    rs.drop_first(),
                    m,
                    depth,
                    reg,
                    fuel,
                );
            },
        }
    }
}

/// Skip: the decoder produces the type's default for a skipped entity, no
/// matter what the command line held. For every matched-values structure,
/// the decoded value of a field whose resolved kind is `Skip` is
/// `FromDefault`, consuming nothing.
pub proof fn lemma_skip_decodes_default(
    nodes: Seq<DecodedNodeModel>,
    fields: Seq<FieldDecl>,
    rs: Seq<AttrsModel>,
    m: MatchesModel,
    depth: int,
    reg: Seq<TypeDecl>,
    fuel: nat,
    k: int,
)
    requires
        rs.len() == fields.len(),
        0 <= k < fields.len(),
        rs[k].kind is Skip,
        spec_decode_fields(nodes, fields, rs, m, depth, reg, fuel) is Ok,
    ensures
        ({
            let p = spec_decode_fields(nodes, fields, rs, m, depth, reg, fuel)->Ok_0;
            p.1.len() == fields.len() && p.1[k].value is FromDefault
        }),
    decreases fields.len(),
{
    lemma_decode_fields_len(nodes, fields, rs, m, depth, reg, fuel);
    match spec_decode_field_step(nodes, fields[0], rs[0], m, depth, reg, fuel) {
        Err(_) => {},
        Ok((nodes2, _v)) => {
            if k == 0 {
            } else {
                lemma_skip_decodes_default(
                    nodes2,
                    fields.drop_first(),
                    rs.drop_first(),
                    m,
                    depth,
                    reg,
                    fuel,
                    k - 1,
                );
                lemma_decode_fields_len(
                    nodes2,
                    fields.drop_first(),
                    rs.drop_first(),
                    m,
                    depth,
                    reg,
                    fuel,
                );
            }
        },
    }
}

/// The argument entries a resolved field list registers: one entry per
/// plain-argument entity, in declaration order; skipped and subcommand
/// entities register nothing.
pub open spec fn spec_arg_entries(rs: Seq<AttrsModel>) -> Seq<crate::builder::ArgSpecModel>
    decreases rs.len(),
{
    if rs.len() == 0 {
        Seq::empty()
    } else {
        (if rs[0].kind is Arg {
            Seq::empty().push(spec_arg_of(rs[0]))
        } else {
            Seq::empty()
        }) + spec_arg_entries(rs.drop_first())
    }
}

/// Skip and the argument table: for a field list without flattened entries,
/// phase one of the builder registers exactly the entries of the
/// plain-argument entities, in declaration order. In particular a skipped
/// entity registers no parser entry at all.
pub proof fn lemma_args_without_flatten(
    m: AppSpecModel,
    cur: int,
    fields: Seq<FieldDecl>,
    rs: Seq<AttrsModel>,
    reg: Seq<TypeDecl>,
    env: EnvModel,
    fuel: nat,
)
    requires
        rs.len() == fields.len(),
        forall|k: int| 0 <= k < rs.len() ==> !((#[trigger] rs[k]).kind is FlattenStruct),
        0 <= cur < m.nodes.len(),
    ensures
        spec_fields_args(m, cur, fields, rs, reg, env, fuel) matches Ok(m2) && m2.nodes
            == m.nodes.update(
            cur,
            crate::builder::NodeModel {
                args: m.nodes[cur].args + spec_arg_entries(rs),
                ..m.nodes[cur]
            },
        ),
    decreases fields.len(),
{
    if fields.len() == 0 {
        assert(m.nodes[cur].args + spec_arg_entries(rs) =~= m.nodes[cur].args);
        assert(m.nodes.update(
            cur,
            crate::builder::NodeModel { args: m.nodes[cur].args, ..m.nodes[cur] },
        ) =~~= m.nodes);
    } else {
        let a = rs[0];
        match a.kind {
            Kind::FlattenStruct => {
                assert(false);
            },
            Kind::Arg(_) => {
                let m2 = crate::builder::spec_push_arg(m, cur, spec_arg_of(a));
                lemma_args_without_flatten(
                    m2,
                    cur,
                    fields.drop_first(),
                    rs.drop_first(),
                    reg,
                    env,
                    fuel,
                );
                assert(m2.nodes[cur].args + spec_arg_entries(rs.drop_first())
                    =~= m.nodes[cur].args + spec_arg_entries(rs));
                assert(m2.nodes.update(
                    cur,
                    crate::builder::NodeModel {
                        args: m2.nodes[cur].args + spec_arg_entries(rs.drop_first()),
                        ..m2.nodes[cur]
                    },
                ) =~~= m.nodes.update(
                    cur,
                    crate::builder::NodeModel {
                        args: m.nodes[cur].args + spec_arg_entries(rs),
                        ..m.nodes[cur]
                    },
                ));
            },
            _ => {
                lemma_args_without_flatten(
                    m,
                    cur,
                    fields.drop_first(),
                    rs.drop_first(),
                    reg,
                    env,
                    fuel,
                );
                assert(m.nodes[cur].args + spec_arg_entries(rs.drop_first()) =~= m.nodes[cur].args
                    + spec_arg_entries(rs));
                assert(m.nodes.update(
                    cur,
                    crate::builder::NodeModel {
                        args: m.nodes[cur].args + spec_arg_entries(rs.drop_first()),
                        ..m.nodes[cur]
                    },
                ) =~~= m.nodes.update(
                    cur,
                    crate::builder::NodeModel {
                        args: m.nodes[cur].args + spec_arg_entries(rs),
                        ..m.nodes[cur]
                    },
                ));
            },
        }
    }
}

/// List round trip at the decoder: a `List`-shaped field decodes to exactly
/// the matched values, in the order the runtime collected them, and with no
/// occurrence it decodes to the empty sequence, not to absence.
pub proof fn lemma_list_decode(a: AttrsModel, args: Seq<crate::decode::ArgOccurModel>)
    requires
        a.kind == Kind::Arg(Ty::List),
    ensures
        spec_arg_value(a, args) == Ok::<FieldValueModel, DecodeError>(
            FieldValueModel::Many(spec_values_of(args, a.cased_name)),
        ),
        spec_find_occur(args, a.cased_name) == -1 ==> spec_arg_value(a, args) == Ok::<
            FieldValueModel,
            DecodeError,
        >(FieldValueModel::Many(Seq::empty())),
{
}

/// Optional decoding: an `Optional`-shaped field decodes to absence when no
/// value was matched, and to the single matched value when one was.
pub proof fn lemma_optional_decode(a: AttrsModel, args: Seq<crate::decode::ArgOccurModel>)
    requires
        a.kind == Kind::Arg(Ty::Optional),
    ensures
        spec_values_of(args, a.cased_name).len() == 0 ==> spec_arg_value(a, args) == Ok::<
            FieldValueModel,
            DecodeError,
        >(FieldValueModel::OptSingle(Option::None)),
        spec_values_of(args, a.cased_name).len() > 0 ==> spec_arg_value(a, args) == Ok::<
            FieldValueModel,
            DecodeError,
        >(FieldValueModel::OptSingle(Option::Some(spec_values_of(args, a.cased_name)[0]))),
{
}

/// Three-way decoding of a doubly optional flag: absent yields absence, the
/// flag alone yields presence without a value, and a value yields presence
/// with it.
pub proof fn lemma_optional_optional_decode(a: AttrsModel, args: Seq<crate::decode::ArgOccurModel>)
    requires
        a.kind == Kind::Arg(Ty::OptionalOptional),
    ensures
        !spec_present(args, a.cased_name) ==> spec_arg_value(a, args) == Ok::<
            FieldValueModel,
            DecodeError,
        >(FieldValueModel::OptOptSingle(Option::None)),
        spec_present(args, a.cased_name) && spec_values_of(args, a.cased_name).len() == 0
            ==> spec_arg_value(a, args) == Ok::<FieldValueModel, DecodeError>(
            FieldValueModel::OptOptSingle(Option::Some(Option::None)),
        ),
        spec_values_of(args, a.cased_name).len() > 0 ==> spec_arg_value(a, args) == Ok::<
            FieldValueModel,
            DecodeError,
        >(
            FieldValueModel::OptOptSingle(
                Option::Some(Option::Some(spec_values_of(args, a.cased_name)[0])),
            ),
        ),
{
}

/// A fallible parser is wired as the validator: for every value-taking
/// entity whose strategy is one of the fallible ones, the builder attaches a
/// validator that runs exactly the conversion the decoder's consumer
/// applies, so a value the validator rejected never reaches extraction.
pub proof fn lemma_fallible_parser_validated(a: AttrsModel)
    requires
        a.kind matches Kind::Arg(ty) && !(ty is Boolean),
        a.parser is TryFromStr || a.parser is TryFromOsStr,
    ensures
        spec_arg_of(a).validator == Option::Some(a.parser),
        spec_arg_of(a).validator_func == a.parse_func,
        spec_arg_of(a).takes_value,
{
}

proof fn lemma_count_two(rs: Seq<AttrsModel>, j: int, k: int)
    requires
        0 <= j < k < rs.len(),
        rs[j].kind is Subcommand,
        rs[k].kind is Subcommand,
    ensures
        spec_count_subcommands(rs) >= 2,
    decreases rs.len(),
{
    if j == 0 {
        lemma_count_one(rs.drop_first(), k - 1);
    } else {
        lemma_count_two(rs.drop_first(), j - 1, k - 1);
    }
    lemma_count_nonneg(rs.drop_first());
}

proof fn lemma_count_one(rs: Seq<AttrsModel>, k: int)
    requires
        0 <= k < rs.len(),
        rs[k].kind is Subcommand,
    ensures
        spec_count_subcommands(rs) >= 1,
    decreases rs.len(),
{
    if k > 0 {
        lemma_count_one(rs.drop_first(), k - 1);
    } else {
        lemma_count_nonneg(rs.drop_first());
    }
}

proof fn lemma_count_nonneg(rs: Seq<AttrsModel>)
    ensures
        spec_count_subcommands(rs) >= 0,
    decreases rs.len(),
{
    if rs.len() > 0 {
        lemma_count_nonneg(rs.drop_first());
    }
}

/// Two subcommand fields fail at generation time, never at runtime: a field
/// list that resolves with two subcommand entities is rejected with the
/// too-many-subcommands diagnostic before any tree is built.
pub proof fn lemma_two_subcommands_rejected(
    m: AppSpecModel,
    cur: int,
    fields: Seq<FieldDecl>,
    casing: CasingStyle,
    err_span: u64,
    reg: Seq<TypeDecl>,
    env: EnvModel,
    fuel: nat,
    j: int,
    k: int,
)
    requires
        spec_resolve_fields(fields, casing) is Ok,
        0 <= j < k < spec_resolve_fields(fields, casing)->Ok_0.len(),
        spec_resolve_fields(fields, casing)->Ok_0[j].kind is Subcommand,
        spec_resolve_fields(fields, casing)->Ok_0[k].kind is Subcommand,
    ensures
        spec_augment_fields(m, cur, fields, casing, err_span, reg, env, fuel) == Err::<
            AppSpecModel,
            GenError,
        >(GenError { kind: GenErrorKind::TooManySubcommandFields, span: err_span }),
{
    lemma_count_two(spec_resolve_fields(fields, casing)->Ok_0, j, k);
}

proof fn lemma_len_fields_args(
    m: AppSpecModel,
    cur: int,
    fields: Seq<FieldDecl>,
    rs: Seq<AttrsModel>,
    reg: Seq<TypeDecl>,
    env: EnvModel,
    fuel: nat,
)
    requires
        0 <= cur < m.nodes.len(),
    ensures
        spec_fields_args(m, cur, fields, rs, reg, env, fuel) matches Ok(m2) ==> m.nodes.len()
            <= m2.nodes.len(),
    decreases fuel, 1nat, fields.len(),
{
    if fields.len() == 0 || rs.len() != fields.len() {
    } else {
        let a = rs[0];
        match a.kind {
            Kind::Skip => {
                lemma_len_fields_args(m, cur, fields.drop_first(), rs.drop_first(), reg, env, fuel);
            },
            Kind::Subcommand(_) => {
                lemma_len_fields_args(m, cur, fields.drop_first(), rs.drop_first(), reg, env, fuel);
            },
            Kind::Arg(_) => {
                let m2 = crate::builder::spec_push_arg(m, cur, spec_arg_of(a));
                lemma_len_fields_args(
                    m2,
                    cur,
                    fields.drop_first(),
                    rs.drop_first(),
                    reg,
                    env,
                    fuel,
                );
            },
            Kind::FlattenStruct => {
                match crate::builder::spec_child_type_name(fields[0].ty, Ty::Other) {
                    Option::None => {},
                    Option::Some(cn) => {
                        let di = crate::builder::spec_find_decl(reg, cn);
                        if 0 <= di < reg.len() && fuel > 0 {
                            lemma_len_augment_decl(m, cur, reg[di], reg, env, (fuel - 1) as nat);
                            match spec_augment_decl(m, cur, reg[di], reg, env, (fuel - 1) as nat) {
                                Err(_) => {},
                                Ok(m2) => {
                                    let m3 = if crate::builder::spec_is_subcommand_decl(reg[di]) {
                                        spec_set_required_sub(m2, cur)
                                    } else {
                                        m2
                                    };
                                    lemma_len_fields_args(
                                        m3,
                                        cur,
                                        fields.drop_first(),
                                        rs.drop_first(),
                                        reg,
                                        env,
                                        fuel,
                                    );
                                },
                            }
                        }
                    },
                }
            },
        }
    }
}

proof fn lemma_len_fields_subcmd(
    m: AppSpecModel,
    cur: int,
    fields: Seq<FieldDecl>,
    rs: Seq<AttrsModel>,
    reg: Seq<TypeDecl>,
    env: EnvModel,
    fuel: nat,
)
    requires
        0 <= cur < m.nodes.len(),
    ensures
        spec_fields_subcmd(m, cur, fields, rs, reg, env, fuel) matches Ok(m2) ==> m.nodes.len()
            <= m2.nodes.len(),
    decreases fuel, 1nat, fields.len(),
{
    if fields.len() == 0 || rs.len() != fields.len() {
    } else {
        let a = rs[0];
        match a.kind {
            Kind::Subcommand(ty) => {
                match crate::builder::spec_child_type_name(fields[0].ty, ty) {
                    Option::None => {},
                    Option::Some(cn) => {
                        let di = crate::builder::spec_find_decl(reg, cn);
                        if 0 <= di < reg.len() && fuel > 0 {
                            lemma_len_augment_decl(m, cur, reg[di], reg, env, (fuel - 1) as nat);
                            match spec_augment_decl(m, cur, reg[di], reg, env, (fuel - 1) as nat) {
                                Err(_) => {},
                                Ok(m2) => {
                                    let m3 = if !(ty is Optional) {
                                        spec_set_required_sub(m2, cur)
                                    } else {
                                        m2
                                    };
                                    lemma_len_fields_subcmd(
                                        m3,
                                        cur,
                                        fields.drop_first(),
                                        rs.drop_first(),
                                        reg,
                                        env,
                                        fuel,
                                    );
                                },
                            }
                        }
                    },
                }
            },
            _ => {
                lemma_len_fields_subcmd(
                    m,
                    cur,
                    fields.drop_first(),
                    rs.drop_first(),
                    reg,
                    env,
                    fuel,
                );
            },
        }
    }
}

proof fn lemma_len_augment_fields(
    m: AppSpecModel,
    cur: int,
    fields: Seq<FieldDecl>,
    casing: CasingStyle,
    err_span: u64,
    reg: Seq<TypeDecl>,
    env: EnvModel,
    fuel: nat,
)
    requires
        0 <= cur < m.nodes.len(),
    ensures
        spec_augment_fields(m, cur, fields, casing, err_span, reg, env, fuel) matches Ok(m2)
            ==> m.nodes.len() <= m2.nodes.len(),
    decreases fuel, 2nat, 0nat,
{
    match spec_resolve_fields(fields, casing) {
        Err(_) => {},
        Ok(rs) => {
            lemma_len_fields_args(m, cur, fields, rs, reg, env, fuel);
            match spec_fields_args(m, cur, fields, rs, reg, env, fuel) {
                Err(_) => {},
                Ok(m2) => {
                    lemma_len_fields_subcmd(m2, cur, fields, rs, reg, env, fuel);
                },
            }
        },
    }
}

proof fn lemma_len_augment_variants(
    m: AppSpecModel,
    cur: int,
    vs: Seq<crate::ast::VariantDecl>,
    casing: CasingStyle,
    reg: Seq<TypeDecl>,
    env: EnvModel,
    fuel: nat,
)
    requires
        0 <= cur < m.nodes.len(),
    ensures
        spec_augment_variants(m, cur, vs, casing, reg, env, fuel) matches Ok(m2) ==> m.nodes.len()
            <= m2.nodes.len(),
    decreases fuel, 3nat, vs.len(),
{
    if vs.len() == 0 {
    } else {
        let v = vs[0];
        match crate::attrs::spec_from_struct(
            v.attrs@,
            v.docs@.map_values(|s: String| s@),
            v.name@,
            casing,
            EnvModel::empty_model(),
        ) {
            Err(_) => {},
            Ok(va) => {
                let node = crate::builder::NodeModel {
                    parent: cur,
                    name: va.cased_name,
                    methods: va.methods,
                    args: Seq::empty(),
                    required_subcommand: false,
                };
                let ni = m.nodes.len() as int;
                let m1 = AppSpecModel { nodes: m.nodes.push(node) };
                match v.data {
                    crate::ast::VariantData::Unit => {
                        lemma_len_augment_variants(
                            m1,
                            cur,
                            vs.drop_first(),
                            casing,
                            reg,
                            env,
                            fuel,
                        );
                    },
                    crate::ast::VariantData::Fields(fs) => {
                        lemma_len_augment_fields(
                            m1,
                            ni,
                            fs@,
                            va.casing,
                            v.name_span,
                            reg,
                            env,
                            fuel,
                        );
                        match spec_augment_fields(
                            m1,
                            ni,
                            fs@,
                            va.casing,
                            v.name_span,
                            reg,
                            env,
                            fuel,
                        ) {
                            Err(_) => {},
                            Ok(m2) => {
                                lemma_len_augment_variants(
                                    m2,
                                    cur,
                                    vs.drop_first(),
                                    casing,
                                    reg,
                                    env,
                                    fuel,
                                );
                            },
                        }
                    },
                    crate::ast::VariantData::Tuple(ts) => {
                        if ts@.len() == 1 {
                            match crate::builder::spec_tuple_type_name(ts@[0]) {
                                Option::None => {},
                                Option::Some(cn) => {
                                    let di = crate::builder::spec_find_decl(reg, cn);
                                    if 0 <= di < reg.len() && fuel > 0 {
                                        lemma_len_augment_decl(
                                            m1,
                                            ni,
                                            reg[di],
                                            reg,
                                            env,
                                            (fuel - 1) as nat,
                                        );
                                        match spec_augment_decl(
                                            m1,
                                            ni,
                                            reg[di],
                                            reg,
                                            env,
                                            (fuel - 1) as nat,
                                        ) {
                                            Err(_) => {},
                                            Ok(m2) => {
                                                let m3 = if crate::builder::spec_is_subcommand_decl(
                                                    reg[di],
                                                ) {
                                                    spec_set_required_sub(m2, ni)
                                                } else {
                                                    m2
                                                };
                                                lemma_len_augment_variants(
                                                    m3,
                                                    cur,
                                                    vs.drop_first(),
                                                    casing,
                                                    reg,
                                                    env,
                                                    fuel,
                                                );
                                            },
                                        }
                                    }
                                },
                            }
                        }
                    },
                }
            },
        }
    }
}

proof fn lemma_len_augment_decl(
    m: AppSpecModel,
    cur: int,
    d: TypeDecl,
    reg: Seq<TypeDecl>,
    env: EnvModel,
    fuel: nat,
)
    requires
        0 <= cur < m.nodes.len(),
    ensures
        spec_augment_decl(m, cur, d, reg, env, fuel) matches Ok(m2) ==> m.nodes.len()
            <= m2.nodes.len(),
    decreases fuel, 4nat, 0nat,
{
    match crate::attrs::spec_from_struct(
        d.attrs@,
        d.docs@.map_values(|s: String| s@),
        d.name@,
        crate::attrs::spec_default_casing(),
        EnvModel::empty_model(),
    ) {
        Err(_) => {},
        Ok(da) => match d.data {
            crate::ast::TypeData::Struct(fs) => {
                lemma_len_augment_fields(m, cur, fs@, da.casing, d.name_span, reg, env, fuel);
            },
            crate::ast::TypeData::Enum(vs) => {
                lemma_len_augment_variants(m, cur, vs@, da.casing, reg, env, fuel);
            },
        },
    }
}

proof fn lemma_subcmd_phase_identity(
    m: AppSpecModel,
    cur: int,
    fields: Seq<FieldDecl>,
    rs: Seq<AttrsModel>,
    reg: Seq<TypeDecl>,
    env: EnvModel,
    fuel: nat,
)
    requires
        rs.len() == fields.len(),
        forall|j: int| 0 <= j < rs.len() ==> !((#[trigger] rs[j]).kind is Subcommand),
    ensures
        spec_fields_subcmd(m, cur, fields, rs, reg, env, fuel) == Ok::<AppSpecModel, GenError>(m),
    decreases fields.len(),
{
    if fields.len() == 0 {
    } else {
        lemma_subcmd_phase_identity(m, cur, fields.drop_first(), rs.drop_first(), reg, env, fuel);
    }
}

/// A subcommand slot of non-`Optional` shape makes the whole command demand
/// a subcommand: after the subcommand phase of the builder, the node carries
/// the must-select-one constraint, so parsing with no subcommand token is a
/// hard runtime failure.
pub proof fn lemma_subcommand_marks_required(
    m: AppSpecModel,
    cur: int,
    fields: Seq<FieldDecl>,
    rs: Seq<AttrsModel>,
    reg: Seq<TypeDecl>,
    env: EnvModel,
    fuel: nat,
    k: int,
)
    requires
        rs.len() == fields.len(),
        spec_count_subcommands(rs) <= 1,
        0 <= k < rs.len(),
        rs[k].kind matches Kind::Subcommand(ty) && !(ty is Optional),
        0 <= cur < m.nodes.len(),
        spec_fields_subcmd(m, cur, fields, rs, reg, env, fuel) is Ok,
    ensures
        spec_fields_subcmd(
            m,
            cur,
            fields,
            rs,
            reg,
            env,
            fuel,
        )->Ok_0.nodes[cur].required_subcommand,
    decreases fields.len(),
{
    if k == 0 {
        let ty = rs[0].kind->Subcommand_0;
        match crate::builder::spec_child_type_name(fields[0].ty, ty) {
            Option::None => {},
            Option::Some(cn) => {
                let di = crate::builder::spec_find_decl(reg, cn);
                if 0 <= di < reg.len() && fuel > 0 {
                    match spec_augment_decl(m, cur, reg[di], reg, env, (fuel - 1) as nat) {
                        Err(_) => {},
                        Ok(m2) => {
                            lemma_len_augment_decl(m, cur, reg[di], reg, env, (fuel - 1) as nat);
                            let m3 = spec_set_required_sub(m2, cur);
                            assert forall|j: int| 0 <= j < rs.drop_first().len() implies !((
                            #[trigger] rs.drop_first()[j]).kind is Subcommand) by {
                                if rs.drop_first()[j].kind is Subcommand {
                                    lemma_count_two(rs, 0, j + 1);
                                }
                            }
                            lemma_subcmd_phase_identity(
                                m3,
                                cur,
                                fields.drop_first(),
                                rs.drop_first(),
                                reg,
                                env,
                                fuel,
                            );
                        },
                    }
                }
            },
        }
    } else {
        if rs[0].kind is Subcommand {
            lemma_count_two(rs, 0, k);
            assert(false);
        }
        lemma_subcommand_marks_required(
            m,
            cur,
            fields.drop_first(),
            rs.drop_first(),
            reg,
            env,
            fuel,
            k - 1,
        );
    }
}

/// The doc-comment split rule: when the second line of a doc comment is
/// blank and more text follows, the text splits into a long form holding the
/// full merged text and a short form holding the first line with its
/// trailing periods stripped; both are appended as method calls, long form
/// first.
pub proof fn lemma_doc_comment_split(m: AttrsModel, docs: Seq<Seq<char>>, name: Seq<char>)
    requires
        docs.len() > 2,
        spec_trim(docs[1]).len() == 0,
        spec_trim(docs[0]).len() > 0,
    ensures
        ({
            let marks = docs.map_values(|d: Seq<char>| spec_doc_mark(d));
            spec_push_doc(m, docs, name).methods == m.methods.push(
                MethodModel {
                    name: "long_"@ + name,
                    args: Seq::empty().push(MethodArgModel::AStr(spec_merged_lines(marks))),
                },
            ).push(
                MethodModel {
                    name,
                    args: Seq::empty().push(
                        MethodArgModel::AStr(
                            spec_trim_end_matches(spec_trim(docs[0]), '.'),
                        ),
                    ),
                },
            )
        }),
{
    let marks = docs.map_values(|d: Seq<char>| spec_doc_mark(d));
    assert(marks[1] == spec_doc_mark(docs[1]));
    assert(marks[1] == two_newlines());
    assert(marks[0] == spec_doc_mark(docs[0]));
    assert(marks[0] == spec_trim(docs[0]));
    crate::strutil::lemma_trim_idempotent(docs[0]);
    assert(spec_trim(marks[0]) == spec_trim(docs[0]));
}

/// An explicit name override bypasses the casing transform: after
/// `name = "..."`, both the name and the displayed/matched name are the
/// literal itself, whatever the casing style in force.
pub proof fn lemma_explicit_name_bypasses_casing(m: AttrsModel, arg: Seq<char>)
    ensures
        spec_push_str_method(m, "name"@, arg).name == arg,
        spec_push_str_method(m, "name"@, arg).cased_name == arg,
        spec_push_str_method(m, "name"@, arg).casing == m.casing,
{
    reveal_strlit("name");
    reveal_strlit("about");
    reveal_strlit("version");
    reveal_strlit("author");
    assert("name"@.len() == 4);
    assert("about"@.len() == 5);
    assert("version"@.len() == 7);
    assert("author"@.len() == 6);
    assert("name"@ != "about"@);
    assert("name"@ != "version"@);
    assert("name"@ != "author"@);
    assert(spec_push_str_method(m, "name"@, arg) == (AttrsModel {
        name: arg,
        cased_name: arg,
        ..m
    }));
}

} // verus!
