//! Small verified string helpers: the resolver and the doc-comment rules work
//! on sequences of characters, so strings are moved through `Vec<char>` with
//! fully specified trimming, splitting and joining.

use vstd::prelude::*;

verus! {

/// Relies on `String::push`: appends exactly the given character.
#[verifier::external_body]
pub fn push_char(s: &mut String, c: char)
    ensures
        final(s)@ == old(s)@.push(c),
{
    s.push(c);
}

/// Characters the doc-comment rules treat as blank space.
pub open spec fn is_space_char(c: char) -> bool {
    c == ' ' || c == '\t' || c == '\n' || c == '\r'
}

/// The characters of a string, in order.
pub fn chars_of(s: &str) -> (r: Vec<char>)
    ensures
        r@ == s@,
{
    let n = s.unicode_len();
    let mut v: Vec<char> = Vec::new();
    let mut i: usize = 0;
    while i < n
        invariant
            n == s@.len(),
            i <= n,
            v@ == s@.subrange(0, i as int),
        decreases n - i,
    {
        let c = s.get_char(i);
        v.push(c);
        i = i + 1;
        proof {
            assert(v@ =~= s@.subrange(0, i as int));
        }
    }
    proof {
        assert(v@ =~= s@);
    }
    v
}

/// A string holding the given characters, in order.
pub fn string_of(v: &Vec<char>) -> (r: String)
    ensures
        r@ == v@,
{
    let mut s = String::new();
    let mut i: usize = 0;
    while i < v.len()
        invariant
            i <= v@.len(),
            s@ == v@.subrange(0, i as int),
        decreases v@.len() - i,
    {
        push_char(&mut s, v[i]);
        i = i + 1;
        proof {
            assert(s@ =~= v@.subrange(0, i as int));
        }
    }
    proof {
        assert(s@ =~= v@);
    }
    s
}

/// Whether two string slices hold the same characters.
pub fn str_eq(a: &str, b: &str) -> (r: bool)
    ensures
        r == (a@ == b@),
{
    let sa = String::from_str(a);
    let sb = String::from_str(b);
    sa == sb
}

/// Whether a string and a string slice hold the same characters.
pub fn string_eq_str(a: &String, b: &str) -> (r: bool)
    ensures
        r == (a@ == b@),
{
    str_eq(a.as_str(), b)
}

/// The sequence without its leading blank space.
pub open spec fn spec_trim_start(s: Seq<char>) -> Seq<char>
    decreases s.len(),
{
    if s.len() > 0 && is_space_char(s[0]) {
        spec_trim_start(s.drop_first())
    } else {
        s
    }
}

/// The sequence without its trailing blank space.
pub open spec fn spec_trim_end(s: Seq<char>) -> Seq<char>
    decreases s.len(),
{
    if s.len() > 0 && is_space_char(s[s.len() - 1]) {
        spec_trim_end(s.drop_last())
    } else {
        s
    }
}

/// The sequence without leading and trailing blank space.
pub open spec fn spec_trim(s: Seq<char>) -> Seq<char> {
    spec_trim_end(spec_trim_start(s))
}

proof fn lemma_trim_start_range(s: Seq<char>, i: int)
    requires
        0 <= i <= s.len(),
        forall|k: int| 0 <= k < i ==> is_space_char(s[k]),
        i < s.len() ==> !is_space_char(s[i]),
    ensures
        spec_trim_start(s) =~= s.subrange(i, s.len() as int),
    decreases i,
{
    if i == 0 {
        if s.len() > 0 && is_space_char(s[0]) {
            assert(false);
        }
        assert(spec_trim_start(s) =~= s.subrange(0, s.len() as int));
    } else {
        assert(is_space_char(s[0]));
        let t = s.drop_first();
        assert(forall|k: int| 0 <= k < i - 1 ==> is_space_char(t[k]));
        lemma_trim_start_range(t, i - 1);
        assert(t.subrange(i - 1, t.len() as int) =~= s.subrange(i, s.len() as int));
    }
}

proof fn lemma_trim_end_range(s: Seq<char>, j: int)
    requires
        0 <= j <= s.len(),
        forall|k: int| j <= k < s.len() ==> is_space_char(s[k]),
        j > 0 ==> !is_space_char(s[j - 1]),
    ensures
        spec_trim_end(s) =~= s.subrange(0, j),
    decreases s.len() - j,
{
    if j == s.len() {
        if s.len() > 0 && is_space_char(s[s.len() - 1]) {
            assert(false);
        }
        assert(spec_trim_end(s) =~= s.subrange(0, j));
    } else {
        assert(is_space_char(s[s.len() - 1]));
        let t = s.drop_last();
        lemma_trim_end_range(t, j);
        assert(t.subrange(0, j) =~= s.subrange(0, j));
    }
}

/// The characters without leading and trailing blank space.
pub fn trim_chars(v: &Vec<char>) -> (r: Vec<char>)
    ensures
        r@ == spec_trim(v@),
{
    let n = v.len();
    let mut i: usize = 0;
    while i < n && is_space(v[i])
        invariant
            n == v@.len(),
            i <= n,
            forall|k: int| 0 <= k < i ==> is_space_char(v@[k]),
        decreases n - i,
    {
        i = i + 1;
    }
    proof {
        lemma_trim_start_range(v@, i as int);
    }
    let mut j: usize = n;
    while j > i && is_space(v[j - 1])
        invariant
            n == v@.len(),
            i <= j <= n,
            forall|k: int| j <= k < n ==> is_space_char(v@[k]),
        decreases j,
    {
        j = j - 1;
    }
    let mut r: Vec<char> = Vec::new();
    let mut k: usize = i;
    while k < j
        invariant
            i <= k <= j <= v@.len(),
            r@ == v@.subrange(i as int, k as int),
        decreases j - k,
    {
        r.push(v[k]);
        k = k + 1;
        proof {
            assert(r@ =~= v@.subrange(i as int, k as int));
        }
    }
    proof {
        let ts = spec_trim_start(v@);
        assert(ts =~= v@.subrange(i as int, n as int));
        if j == i {
            assert(forall|k2: int| j <= k2 < n ==> is_space_char(v@[k2]));
            assert(forall|k2: int| 0 <= k2 < ts.len() ==> is_space_char(ts[k2]));
            lemma_trim_end_range(ts, 0);
            assert(r@ =~= ts.subrange(0, 0));
        } else {
            assert(!is_space_char(v@[j - 1]));
            assert(forall|k2: int| j - i <= k2 < ts.len() ==> is_space_char(ts[k2]));
            lemma_trim_end_range(ts, j - i);
            assert(r@ =~= ts.subrange(0, j - i));
        }
    }
    r
}

/// Executable test for the blank-space character class.
pub fn is_space(c: char) -> (r: bool)
    ensures
        r == is_space_char(c),
{
    c == ' ' || c == '\t' || c == '\n' || c == '\r'
}

proof fn lemma_trim_end_len(t: Seq<char>)
    ensures
        spec_trim_end(t).len() <= t.len(),
    decreases t.len(),
{
    if t.len() > 0 && is_space_char(t[t.len() - 1]) {
        lemma_trim_end_len(t.drop_last());
    }
}

proof fn lemma_trim_end_prefix(t: Seq<char>)
    ensures
        spec_trim_end(t) == t.take(spec_trim_end(t).len() as int),
    decreases t.len(),
{
    lemma_trim_end_len(t);
    if t.len() > 0 && is_space_char(t[t.len() - 1]) {
        lemma_trim_end_len(t.drop_last());
        lemma_trim_end_prefix(t.drop_last());
        assert(t.drop_last().take(spec_trim_end(t).len() as int) =~= t.take(
            spec_trim_end(t).len() as int,
        ));
    } else {
        assert(t.take(t.len() as int) =~= t);
    }
}

proof fn lemma_trim_end_last(t: Seq<char>)
    ensures
        spec_trim_end(t).len() > 0 ==> !is_space_char(spec_trim_end(t)[spec_trim_end(t).len() - 1]),
    decreases t.len(),
{
    if t.len() > 0 && is_space_char(t[t.len() - 1]) {
        lemma_trim_end_last(t.drop_last());
    }
}

proof fn lemma_trim_start_first(s: Seq<char>)
    ensures
        spec_trim_start(s).len() > 0 ==> !is_space_char(spec_trim_start(s)[0]),
    decreases s.len(),
{
    if s.len() > 0 && is_space_char(s[0]) {
        lemma_trim_start_first(s.drop_first());
    }
}

/// Trimming is idempotent: trimming an already trimmed string changes
/// nothing.
pub proof fn lemma_trim_idempotent(s: Seq<char>)
    ensures
        spec_trim(spec_trim(s)) == spec_trim(s),
{
    let t = spec_trim_start(s);
    let r = spec_trim_end(t);
    lemma_trim_start_first(s);
    lemma_trim_end_len(t);
    lemma_trim_end_prefix(t);
    lemma_trim_end_last(t);
    if r.len() > 0 {
        assert(r[0] == t.take(r.len() as int)[0]);
        assert(r[0] == t[0]);
        assert(!is_space_char(r[0]));
        assert(spec_trim_start(r) == r);
        assert(!is_space_char(r[r.len() - 1]));
        assert(spec_trim_end(r) == r);
    } else {
        assert(spec_trim_start(r) == r);
        assert(spec_trim_end(r) == r);
    }
}

/// The sequence without its trailing run of the given character.
pub open spec fn spec_trim_end_matches(s: Seq<char>, c: char) -> Seq<char>
    decreases s.len(),
{
    if s.len() > 0 && s[s.len() - 1] == c {
        spec_trim_end_matches(s.drop_last(), c)
    } else {
        s
    }
}

proof fn lemma_trim_end_matches_range(s: Seq<char>, c: char, j: int)
    requires
        0 <= j <= s.len(),
        forall|k: int| j <= k < s.len() ==> s[k] == c,
        j > 0 ==> s[j - 1] != c,
    ensures
        spec_trim_end_matches(s, c) =~= s.subrange(0, j),
    decreases s.len() - j,
{
    if j == s.len() {
        if s.len() > 0 && s[s.len() - 1] == c {
            assert(false);
        }
    } else {
        let t = s.drop_last();
        lemma_trim_end_matches_range(t, c, j);
        assert(t.subrange(0, j) =~= s.subrange(0, j));
    }
}

/// The characters without their trailing run of `c`.
pub fn trim_end_matches_char(v: &Vec<char>, c: char) -> (r: Vec<char>)
    ensures
        r@ == spec_trim_end_matches(v@, c),
{
    let n = v.len();
    let mut j: usize = n;
    while j > 0 && v[j - 1] == c
        invariant
            n == v@.len(),
            j <= n,
            forall|k: int| j <= k < n ==> v@[k] == c,
        decreases j,
    {
        j = j - 1;
    }
    let mut r: Vec<char> = Vec::new();
    let mut k: usize = 0;
    while k < j
        invariant
            k <= j <= v@.len(),
            r@ == v@.subrange(0, k as int),
        decreases j - k,
    {
        r.push(v[k]);
        k = k + 1;
        proof {
            assert(r@ =~= v@.subrange(0, k as int));
        }
    }
    proof {
        lemma_trim_end_matches_range(v@, c, j as int);
    }
    r
}

/// The parts joined with the separator between consecutive parts.
pub open spec fn spec_join(parts: Seq<Seq<char>>, sep: Seq<char>) -> Seq<char>
    decreases parts.len(),
{
    if parts.len() == 0 {
        Seq::empty()
    } else if parts.len() == 1 {
        parts[0]
    } else {
        parts[0] + sep + spec_join(parts.drop_first(), sep)
    }
}

/// Appends all characters of `src` to `r`.
pub fn append_chars(r: &mut Vec<char>, src: &Vec<char>)
    ensures
        final(r)@ == old(r)@ + src@,
{
    let ghost r0 = old(r)@;
    let mut k: usize = 0;
    while k < src.len()
        invariant
            k <= src@.len(),
            r@ == r0 + src@.subrange(0, k as int),
        decreases src@.len() - k,
    {
        r.push(src[k]);
        k = k + 1;
        proof {
            assert(r@ =~= r0 + src@.subrange(0, k as int));
        }
    }
    proof {
        assert(r@ =~= r0 + src@);
    }
}

proof fn lemma_join_snoc(s: Seq<Seq<char>>, x: Seq<char>, sep: Seq<char>)
    ensures
        spec_join(s.push(x), sep) == if s.len() == 0 {
            x
        } else {
            spec_join(s, sep) + sep + x
        },
    decreases s.len(),
{
    if s.len() == 0 {
        assert(s.push(x)[0] == x);
        assert(spec_join(s.push(x), sep) == x);
    } else if s.len() == 1 {
        assert(s.push(x).drop_first() =~= Seq::<Seq<char>>::empty().push(x));
        lemma_join_snoc(Seq::<Seq<char>>::empty(), x, sep);
        assert(spec_join(s.push(x), sep) == s[0] + sep + x);
        assert(spec_join(s, sep) == s[0]);
    } else {
        assert(s.push(x).drop_first() =~= s.drop_first().push(x));
        lemma_join_snoc(s.drop_first(), x, sep);
        assert(spec_join(s.push(x), sep) == s[0] + sep + (spec_join(s.drop_first(), sep) + sep
            + x));
        assert(spec_join(s, sep) == s[0] + sep + spec_join(s.drop_first(), sep));
        assert(s[0] + sep + (spec_join(s.drop_first(), sep) + sep + x) =~= (s[0] + sep + spec_join(
            s.drop_first(),
            sep,
        )) + sep + x);
    }
}

/// Joins character vectors with a separator between consecutive parts.
pub fn join_chars(parts: &Vec<Vec<char>>, sep: &Vec<char>) -> (r: Vec<char>)
    ensures
        r@ == spec_join(parts@.map_values(|p: Vec<char>| p@), sep@),
{
    let ghost ps = parts@.map_values(|p: Vec<char>| p@);
    let mut r: Vec<char> = Vec::new();
    let mut i: usize = 0;
    while i < parts.len()
        invariant
            ps == parts@.map_values(|p: Vec<char>| p@),
            ps.len() == parts@.len(),
            i <= parts@.len(),
            r@ == spec_join(ps.take(i as int), sep@),
        decreases parts@.len() - i,
    {
        if i > 0 {
            append_chars(&mut r, sep);
        }
        append_chars(&mut r, &parts[i]);
        proof {
            assert(ps.take(i as int).push(ps[i as int]) =~= ps.take(i + 1));
            lemma_join_snoc(ps.take(i as int), ps[i as int], sep@);
            if i == 0 {
                assert(r@ =~= ps[0]);
            }
        }
        i = i + 1;
    }
    proof {
        assert(ps.take(parts@.len() as int) =~= ps);
    }
    r
}

/// A copy of `v[from..to]`.
pub fn subvec(v: &Vec<char>, from: usize, to: usize) -> (r: Vec<char>)
    requires
        from <= to <= v@.len(),
    ensures
        r@ == v@.subrange(from as int, to as int),
{
    let mut r: Vec<char> = Vec::new();
    let mut k: usize = from;
    while k < to
        invariant
            from <= k <= to <= v@.len(),
            r@ == v@.subrange(from as int, k as int),
        decreases to - k,
    {
        r.push(v[k]);
        k = k + 1;
        proof {
            assert(r@ =~= v@.subrange(from as int, k as int));
        }
    }
    r
}

/// Index of the first occurrence of `c` in `s`, or `-1` if there is none.
pub open spec fn spec_find_char(s: Seq<char>, c: char) -> int
    decreases s.len(),
{
    if s.len() == 0 {
        -1
    } else if s[0] == c {
        0
    } else {
        let r = spec_find_char(s.drop_first(), c);
        if r < 0 {
            -1
        } else {
            r + 1
        }
    }
}

proof fn lemma_find_char_none(s: Seq<char>, c: char)
    requires
        forall|k: int| 0 <= k < s.len() ==> s[k] != c,
    ensures
        spec_find_char(s, c) == -1,
    decreases s.len(),
{
    if s.len() > 0 {
        lemma_find_char_none(s.drop_first(), c);
    }
}

proof fn lemma_find_char_is(s: Seq<char>, c: char, i: int)
    requires
        0 <= i < s.len(),
        s[i] == c,
        forall|k: int| 0 <= k < i ==> s[k] != c,
    ensures
        spec_find_char(s, c) == i,
    decreases s.len(),
{
    if i == 0 {
    } else {
        lemma_find_char_is(s.drop_first(), c, i - 1);
    }
}

/// The pieces of `s` between occurrences of the separator `c`, in order.
/// A string without the separator is one piece; each separator ends a piece,
/// so a trailing separator yields a final empty piece.
pub open spec fn spec_split(s: Seq<char>, c: char) -> Seq<Seq<char>>
    decreases s.len(),
{
    let i = spec_find_char(s, c);
    if 0 <= i < s.len() {
        Seq::empty().push(s.take(i)) + spec_split(s.skip(i + 1), c)
    } else {
        Seq::empty().push(s)
    }
}

/// Splits the characters at each occurrence of `c`.
pub fn split_chars(v: &Vec<char>, c: char) -> (r: Vec<Vec<char>>)
    ensures
        r@.map_values(|p: Vec<char>| p@) == spec_split(v@, c),
    decreases v@.len(),
{
    let n = v.len();
    let mut j: usize = 0;
    while j < n && v[j] != c
        invariant
            n == v@.len(),
            j <= n,
            forall|k: int| 0 <= k < j ==> v@[k] != c,
        decreases n - j,
    {
        j = j + 1;
    }
    if j == n {
        proof {
            lemma_find_char_none(v@, c);
        }
        let mut r: Vec<Vec<char>> = Vec::new();
        r.push(subvec(v, 0, n));
        proof {
            assert(v@.subrange(0, n as int) =~= v@);
            assert(r@.map_values(|p: Vec<char>| p@) =~= spec_split(v@, c));
        }
        r
    } else {
        proof {
            lemma_find_char_is(v@, c, j as int);
        }
        let head = subvec(v, 0, j);
        let rest = subvec(v, j + 1, n);
        let mut tail_parts = split_chars(&rest, c);
        let ghost tail_seq = tail_parts@.map_values(|p: Vec<char>| p@);
        let mut r: Vec<Vec<char>> = Vec::new();
        r.push(head);
        r.append(&mut tail_parts);
        proof {
            assert(r@.map_values(|p: Vec<char>| p@) =~= Seq::empty().push(v@.take(j as int))
                + tail_seq);
        }
        r
    }
}

/// Each colon replaced by a comma and a space; all other characters kept.
pub open spec fn spec_replace_colons(s: Seq<char>) -> Seq<char>
    decreases s.len(),
{
    if s.len() == 0 {
        Seq::empty()
    } else {
        spec_colon_unit(s[0]) + spec_replace_colons(s.drop_first())
    }
}

/// What one character becomes under colon replacement.
pub open spec fn spec_colon_unit(c: char) -> Seq<char> {
    if c == ':' {
        Seq::empty().push(',').push(' ')
    } else {
        Seq::empty().push(c)
    }
}

proof fn lemma_replace_colons_snoc(s: Seq<char>, x: char)
    ensures
        spec_replace_colons(s.push(x)) == spec_replace_colons(s) + spec_colon_unit(x),
    decreases s.len(),
{
    if s.len() == 0 {
        let t = s.push(x);
        assert(t[0] == x);
        assert(t.drop_first() =~= Seq::<char>::empty());
        assert(spec_replace_colons(Seq::<char>::empty()) == Seq::<char>::empty());
        assert(spec_replace_colons(t) == spec_colon_unit(x) + Seq::<char>::empty());
        assert(spec_colon_unit(x) + Seq::<char>::empty() =~= spec_colon_unit(x));
        assert(spec_replace_colons(s) + spec_colon_unit(x) =~= spec_colon_unit(x));
    } else {
        assert(s.push(x).drop_first() =~= s.drop_first().push(x));
        lemma_replace_colons_snoc(s.drop_first(), x);
        assert(spec_colon_unit(s[0]) + (spec_replace_colons(s.drop_first()) + spec_colon_unit(x))
            =~= (spec_colon_unit(s[0]) + spec_replace_colons(s.drop_first())) + spec_colon_unit(x));
    }
}

/// The string with each `:` replaced by `, `.
pub fn replace_colons(s: &str) -> (r: String)
    ensures
        r@ == spec_replace_colons(s@),
{
    let v = chars_of(s);
    let mut out: Vec<char> = Vec::new();
    let mut i: usize = 0;
    while i < v.len()
        invariant
            v@ == s@,
            i <= v@.len(),
            out@ == spec_replace_colons(v@.take(i as int)),
        decreases v@.len() - i,
    {
        let c = v[i];
        if c == ':' {
            out.push(',');
            out.push(' ');
        } else {
            out.push(c);
        }
        proof {
            assert(v@.take(i as int).push(v@[i as int]) =~= v@.take(i + 1));
            lemma_replace_colons_snoc(v@.take(i as int), v@[i as int]);
        }
        i = i + 1;
    }
    proof {
        assert(v@.take(v@.len() as int) =~= v@);
    }
    string_of(&out)
}

} // verus!
