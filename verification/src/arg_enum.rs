//! Argument enums: an enum whose unit variants name the acceptable values of
//! an argument. The derived behavior is a string-to-variant conversion,
//! case-insensitive unless asked otherwise, whose error text lists the valid
//! values.

use vstd::prelude::*;

use crate::ast::{TypeData, TypeDecl};
use crate::errors::{GenError, GenErrorKind};
use crate::strutil::{chars_of, spec_join, string_of};

verus! {

/// Whether two characters match ignoring ASCII case.
pub open spec fn spec_eq_ignore_ascii_case(a: char, b: char) -> bool {
    a == b || (a as u32 + 32 == b as u32 && 'A' <= a && a <= 'Z') || (b as u32 + 32 == a as u32
        && 'A' <= b && b <= 'Z')
}

/// Whether two strings match under the chosen case rule.
pub open spec fn spec_variant_matches(
    name: Seq<char>,
    input: Seq<char>,
    case_sensitive: bool,
) -> bool {
    if case_sensitive {
        name == input
    } else {
        name.len() == input.len() && (forall|k: int|
            0 <= k < name.len() ==> spec_eq_ignore_ascii_case(
                #[trigger] name[k],
                #[trigger] input[k],
            ))
    }
}

/// Index of the first variant name the input matches, or `-1`.
pub open spec fn spec_arg_enum_match(
    names: Seq<Seq<char>>,
    input: Seq<char>,
    case_sensitive: bool,
) -> int
    decreases names.len(),
{
    if names.len() == 0 {
        -1
    } else if spec_variant_matches(names[0], input, case_sensitive) {
        0
    } else {
        let r = spec_arg_enum_match(names.drop_first(), input, case_sensitive);
        if r < 0 {
            -1
        } else {
            r + 1
        }
    }
}

proof fn lemma_arg_enum_match_none(names: Seq<Seq<char>>, input: Seq<char>, cs: bool)
    requires
        forall|k: int| 0 <= k < names.len() ==> !spec_variant_matches(
            #[trigger] names[k],
            input,
            cs,
        ),
    ensures
        spec_arg_enum_match(names, input, cs) == -1,
    decreases names.len(),
{
    if names.len() > 0 {
        lemma_arg_enum_match_none(names.drop_first(), input, cs);
    }
}

proof fn lemma_arg_enum_match_is(names: Seq<Seq<char>>, input: Seq<char>, cs: bool, i: int)
    requires
        0 <= i < names.len(),
        spec_variant_matches(names[i], input, cs),
        forall|k: int| 0 <= k < i ==> !spec_variant_matches(#[trigger] names[k], input, cs),
    ensures
        spec_arg_enum_match(names, input, cs) == i,
    decreases names.len(),
{
    if i > 0 {
        lemma_arg_enum_match_is(names.drop_first(), input, cs, i - 1);
    }
}

/// The variant names of an argument enum, in declaration order; only an enum
/// declaration has them.
pub open spec fn spec_arg_enum_variants(d: TypeDecl) -> Result<Seq<Seq<char>>, GenError> {
    match d.data {
        TypeData::Enum(vs) => Ok(
            vs@.map_values(|v: crate::ast::VariantDecl| v.name@),
        ),
        TypeData::Struct(_) => Err(
            GenError { kind: GenErrorKind::InvalidTypeForKind, span: d.name_span },
        ),
    }
}

/// The variant names an argument-enum declaration offers as values.
pub fn derive_arg_enum(d: &TypeDecl) -> (r: Result<Vec<String>, GenError>)
    ensures
        match r {
            Ok(v) => spec_arg_enum_variants(*d) == Ok::<Seq<Seq<char>>, GenError>(
                v@.map_values(|s: String| s@),
            ),
            Err(e) => spec_arg_enum_variants(*d) == Err::<Seq<Seq<char>>, GenError>(e),
        },
{
    match &d.data {
        TypeData::Struct(_) => Err(
            GenError { kind: GenErrorKind::InvalidTypeForKind, span: d.name_span },
        ),
        TypeData::Enum(vs) => {
            let mut names: Vec<String> = Vec::new();
            let mut i: usize = 0;
            while i < vs.len()
                invariant
                    i <= vs@.len(),
                    names@.map_values(|s: String| s@) == vs@.take(i as int).map_values(
                        |v: crate::ast::VariantDecl| v.name@,
                    ),
                decreases vs@.len() - i,
            {
                let ghost nm = names@.map_values(|s: String| s@);
                names.push(vs[i].name.clone());
                proof {
                    assert(names@.map_values(|s: String| s@) =~= nm.push(vs@[i as int].name@));
                    assert(vs@.take(i + 1).map_values(|v: crate::ast::VariantDecl| v.name@)
                        =~= vs@.take(i as int).map_values(
                        |v: crate::ast::VariantDecl| v.name@,
                    ).push(vs@[i as int].name@));
                }
                i = i + 1;
            }
            proof {
                assert(vs@.take(vs@.len() as int) =~= vs@);
            }
            Ok(names)
        },
    }
}

/// Whether two strings match under the chosen case rule.
fn variant_matches(name: &String, input: &str, case_sensitive: bool) -> (r: bool)
    ensures
        r == spec_variant_matches(name@, input@, case_sensitive),
{
    if case_sensitive {
        crate::strutil::string_eq_str(name, input)
    } else {
        let a = chars_of(name.as_str());
        let b = chars_of(input);
        if a.len() != b.len() {
            return false;
        }
        let mut k: usize = 0;
        while k < a.len()
            invariant
                a@ == name@,
                b@ == input@,
                a@.len() == b@.len(),
                k <= a@.len(),
                forall|j: int| 0 <= j < k ==> spec_eq_ignore_ascii_case(
                    #[trigger] a@[j],
                    #[trigger] b@[j],
                ),
            decreases a@.len() - k,
        {
            let x = a[k];
            let y = b[k];
            let ok = x == y || ('A' <= x && x <= 'Z' && x as u32 + 32 == y as u32) || ('A' <= y
                && y <= 'Z' && y as u32 + 32 == x as u32);
            if !ok {
                return false;
            }
            k = k + 1;
        }
        true
    }
}

/// Converts an input string to the index of the variant it names; when no
/// variant matches, the error text lists the valid values.
pub fn arg_enum_from_str(variants: &Vec<String>, input: &str, case_sensitive: bool) -> (r: Result<
    usize,
    String,
>)
    ensures
        match r {
            Ok(i) => i < variants@.len() && spec_arg_enum_match(
                variants@.map_values(|s: String| s@),
                input@,
                case_sensitive,
            ) == i as int,
            Err(msg) => ({
                &&& spec_arg_enum_match(
                    variants@.map_values(|s: String| s@),
                    input@,
                    case_sensitive,
                ) == -1
                &&& msg@ == "valid values: "@ + spec_join(
                    variants@.map_values(|s: String| s@),
                    ", "@,
                )
            }),
        },
{
    let ghost vm = variants@.map_values(|s: String| s@);
    let mut i: usize = 0;
    while i < variants.len()
        invariant
            vm == variants@.map_values(|s: String| s@),
            i <= variants@.len(),
            forall|k: int| 0 <= k < i ==> !spec_variant_matches(
                #[trigger] vm[k],
                input@,
                case_sensitive,
            ),
        decreases variants@.len() - i,
    {
        proof {
            assert(vm[i as int] == variants@[i as int]@);
        }
        if variant_matches(&variants[i], input, case_sensitive) {
            proof {
                lemma_arg_enum_match_is(vm, input@, case_sensitive, i as int);
            }
            return Ok(i);
        }
        i = i + 1;
    }
    proof {
        lemma_arg_enum_match_none(vm, input@, case_sensitive);
    }
    let mut parts: Vec<Vec<char>> = Vec::new();
    let mut j: usize = 0;
    while j < variants.len()
        invariant
            vm == variants@.map_values(|s: String| s@),
            j <= variants@.len(),
            parts@.map_values(|p: Vec<char>| p@) == vm.take(j as int),
        decreases variants@.len() - j,
    {
        let ghost pm = parts@.map_values(|p: Vec<char>| p@);
        let cs = chars_of(variants[j].as_str());
        proof {
            assert(cs@ == vm[j as int]);
        }
        parts.push(cs);
        proof {
            assert(parts@.map_values(|p: Vec<char>| p@) =~= pm.push(vm[j as int]));
            assert(vm.take(j + 1) =~= vm.take(j as int).push(vm[j as int]));
        }
        j = j + 1;
    }
    proof {
        assert(vm.take(vm.len() as int) =~= vm);
    }
    let mut sep: Vec<char> = Vec::new();
    sep.push(',');
    sep.push(' ');
    proof {
        reveal_strlit(", ");
        assert(sep@ =~= ", "@);
    }
    let joined = crate::strutil::join_chars(&parts, &sep);
    let mut msg = String::from_str("valid values: ");
    msg.append(string_of(&joined).as_str());
    Err(msg)
}

} // verus!
