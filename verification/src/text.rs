//! Character-level text primitives shared by all heuristics: ASCII case
//! folding, substring search, equality, trimming and splitting, each exec
//! function proved against a direct mathematical statement over `Seq<char>`.

use vstd::prelude::*;

verus! {

/// ASCII case folding of a single character; other characters are unchanged.
pub open spec fn lower_char(c: char) -> char {
    if 'A' <= c && c <= 'Z' {
        ((c as u8) + 32) as char
    } else {
        c
    }
}

/// ASCII case folding of a whole text.
pub open spec fn lower(s: Seq<char>) -> Seq<char> {
    s.map_values(|c: char| lower_char(c))
}

/// `needle` occurs contiguously somewhere in `hay`.
pub open spec fn has_sub(hay: Seq<char>, needle: Seq<char>) -> bool {
    exists|i: int|
        0 <= i && i + needle.len() <= hay.len() && #[trigger] hay.subrange(i, i + needle.len())
            == needle
}

pub fn lower_char_x(c: char) -> (r: char)
    ensures
        r == lower_char(c),
{
    if 'A' <= c && c <= 'Z' {
        ((c as u8) + 32) as char
    } else {
        c
    }
}

/// The characters of a string slice, in order.
pub fn chars_to_vec(s: &str) -> (v: Vec<char>)
    ensures
        v@ == s@,
{
    let n = s.unicode_len();
    let mut v: Vec<char> = Vec::new();
    let mut i: usize = 0;
    while i < n
        invariant
            i <= n,
            n == s@.len(),
            v@ == s@.subrange(0, i as int),
        decreases n - i,
    {
        v.push(s.get_char(i));
        i = i + 1;
        proof {
            assert(v@ =~= s@.subrange(0, i as int));
        }
    }
    proof {
        assert(v@ =~= s@);
    }
    v
}

/// The case-folded characters of a string slice.
pub fn lower_chars(s: &str) -> (r: Vec<char>)
    ensures
        r@ == lower(s@),
{
    let v = chars_to_vec(s);
    to_lower_vec(&v)
}

/// Case-folded copy of a character vector.
pub fn to_lower_vec(v: &Vec<char>) -> (r: Vec<char>)
    ensures
        r@ == lower(v@),
{
    let mut r: Vec<char> = Vec::new();
    let mut i: usize = 0;
    while i < v.len()
        invariant
            i <= v.len(),
            r@ == lower(v@.subrange(0, i as int)),
        decreases v.len() - i,
    {
        r.push(lower_char_x(v[i]));
        i = i + 1;
        proof {
            assert(r@ =~= lower(v@.subrange(0, i as int)));
        }
    }
    proof {
        assert(r@ =~= lower(v@));
    }
    r
}

pub fn eq_chars(a: &Vec<char>, b: &Vec<char>) -> (r: bool)
    ensures
        r == (a@ == b@),
{
    if a.len() != b.len() {
        proof {
            assert(a@ != b@);
        }
        return false;
    }
    let mut i: usize = 0;
    while i < a.len()
        invariant
            i <= a.len(),
            a.len() == b.len(),
            forall|j: int| 0 <= j < i ==> a@[j] == b@[j],
        decreases a.len() - i,
    {
        if a[i] != b[i] {
            proof {
                assert(a@ != b@);
            }
            return false;
        }
        i = i + 1;
    }
    proof {
        assert(a@ =~= b@);
    }
    true
}

/// Whether two string slices hold the same characters.
pub fn str_eq(a: &str, b: &str) -> (r: bool)
    ensures
        r == (a@ == b@),
{
    let av = chars_to_vec(a);
    let bv = chars_to_vec(b);
    eq_chars(&av, &bv)
}

/// Substring search, proved equivalent to `has_sub`.
pub fn contains_chars(hay: &Vec<char>, needle: &Vec<char>) -> (r: bool)
    ensures
        r == has_sub(hay@, needle@),
{
    let m = needle.len();
    let n = hay.len();
    if m == 0 {
        proof {
            assert(hay@.subrange(0, 0 + needle@.len() as int) =~= needle@);
        }
        return true;
    }
    if m > n {
        return false;
    }
    let mut i: usize = 0;
    while i <= n - m
        invariant
            0 < m <= n,
            m == needle@.len(),
            n == hay@.len(),
            i <= n - m + 1,
            forall|k: int| 0 <= k < i ==> #[trigger] hay@.subrange(k, k + m) != needle@,
        decreases n - m - i + 1,
    {
        let mut j: usize = 0;
        let mut matched = true;
        while j < m
            invariant
                0 < m <= n,
                m == needle@.len(),
                n == hay@.len(),
                i <= n - m,
                j <= m,
                matched ==> forall|t: int| 0 <= t < j ==> hay@[i + t] == needle@[t],
                !matched ==> hay@.subrange(i as int, i + m) != needle@,
            decreases m - j,
        {
            if hay[i + j] != needle[j] {
                proof {
                    assert(hay@.subrange(i as int, i + m)[j as int] == hay@[i + j]);
                }
                matched = false;
                j = m;
            } else {
                j = j + 1;
            }
        }
        if matched {
            proof {
                assert(hay@.subrange(i as int, i + m) =~= needle@);
            }
            return true;
        }
        i = i + 1;
    }
    proof {
        assert forall|k: int| 0 <= k && k + needle@.len() <= hay@.len() implies #[trigger] hay@.subrange(
            k,
            k + needle@.len(),
        ) != needle@ by {
            assert(hay@.subrange(k, k + m) != needle@);
        }
    }
    false
}

/// Index of the first table entry that occurs in `text`, if any; table
/// order is the tie-break, so an earlier entry shadows a later one.
pub open spec fn first_sub_match(text: Seq<char>, table: Seq<Seq<char>>) -> Option<int>
    decreases table.len(),
{
    if table.len() == 0 {
        None
    } else if has_sub(text, table[0]) {
        Some(0int)
    } else {
        match first_sub_match(text, table.drop_first()) {
            Some(i) => Some(i + 1),
            None => None,
        }
    }
}

pub proof fn lemma_first_sub_match(text: Seq<char>, table: Seq<Seq<char>>)
    ensures
        match first_sub_match(text, table) {
            Some(i) => 0 <= i < table.len() && has_sub(text, table[i]) && forall|j: int|
                0 <= j < i ==> !has_sub(text, #[trigger] table[j]),
            None => forall|j: int| 0 <= j < table.len() ==> !has_sub(text, #[trigger] table[j]),
        },
    decreases table.len(),
{
    if table.len() > 0 && !has_sub(text, table[0]) {
        let rest = table.drop_first();
        lemma_first_sub_match(text, rest);
        assert(forall|j: int| 0 <= j < rest.len() ==> #[trigger] rest[j] == table[j + 1]);
        match first_sub_match(text, rest) {
            Some(i) => {
                assert(first_sub_match(text, table) == Some(i + 1));
                assert(has_sub(text, table[i + 1]));
                assert forall|j: int| 0 <= j < i + 1 implies !has_sub(
                    text,
                    #[trigger] table[j],
                ) by {
                    if j > 0 {
                        assert(table[j] == rest[j - 1]);
                    }
                }
            },
            None => {
                assert forall|j: int| 0 <= j < table.len() implies !has_sub(
                    text,
                    #[trigger] table[j],
                ) by {
                    if j > 0 {
                        assert(table[j] == rest[j - 1]);
                    }
                }
            },
        }
    }
}

pub proof fn lemma_first_sub_match_at(text: Seq<char>, table: Seq<Seq<char>>, i: int)
    requires
        0 <= i < table.len(),
        has_sub(text, table[i]),
        forall|j: int| 0 <= j < i ==> !has_sub(text, #[trigger] table[j]),
    ensures
        first_sub_match(text, table) == Some(i),
    decreases table.len(),
{
    if i > 0 {
        assert(forall|j: int|
            0 <= j < table.drop_first().len() ==> #[trigger] table.drop_first()[j] == table[j + 1]);
        lemma_first_sub_match_at(text, table.drop_first(), i - 1);
    }
}

/// First match of any table entry in `text`, with table order as priority.
pub fn first_match_in(text: &Vec<char>, table: &Vec<&str>) -> (r: Option<usize>)
    ensures
        match r {
            Some(i) => first_sub_match(text@, table.deep_view()) == Some(i as int),
            None => first_sub_match(text@, table.deep_view()) is None,
        },
{
    let ghost tv = table.deep_view();
    proof {
        assert(forall|j: int| 0 <= j < table@.len() ==> tv[j] == #[trigger] table@[j]@);
    }
    let mut i: usize = 0;
    while i < table.len()
        invariant
            i <= table.len(),
            tv == table.deep_view(),
            tv.len() == table@.len(),
            forall|j: int| 0 <= j < table@.len() ==> tv[j] == #[trigger] table@[j]@,
            forall|j: int| 0 <= j < i ==> !has_sub(text@, #[trigger] tv[j]),
        decreases table.len() - i,
    {
        let needle = chars_to_vec(table[i]);
        if contains_chars(text, &needle) {
            proof {
                lemma_first_sub_match_at(text@, tv, i as int);
            }
            return Some(i);
        }
        i = i + 1;
    }
    proof {
        lemma_first_sub_match(text@, tv);
        if first_sub_match(text@, tv) is Some {
            let k = first_sub_match(text@, tv)->Some_0;
            assert(!has_sub(text@, tv[k]));
        }
    }
    None
}

/// Whether any table entry occurs in `text`.
pub fn any_match_in(text: &Vec<char>, table: &Vec<&str>) -> (r: bool)
    ensures
        r == (first_sub_match(text@, table.deep_view()) is Some),
{
    let m = first_match_in(text, table);
    m.is_some()
}

/// Case folding is stable: folding a folded text changes nothing.
pub proof fn lemma_lower_stable(s: Seq<char>)
    ensures
        lower(lower(s)) == lower(s),
{
    assert forall|i: int| 0 <= i < s.len() implies lower_char(lower_char(s[i])) == lower_char(
        s[i],
    ) by {
        if 'A' <= s[i] && s[i] <= 'Z' {
            assert(!('A' <= lower_char(s[i]) && lower_char(s[i]) <= 'Z'));
        }
    }
    assert(lower(lower(s)) =~= lower(s));
}

/// Substring occurrence survives case folding.
pub proof fn lemma_has_sub_lower(h: Seq<char>, n: Seq<char>)
    requires
        has_sub(h, n),
    ensures
        has_sub(lower(h), lower(n)),
{
    let i = choose|i: int|
        0 <= i && i + n.len() <= h.len() && #[trigger] h.subrange(i, i + n.len()) == n;
    assert(lower(h).subrange(i, i + lower(n).len() as int) =~= lower(n)) by {
        assert forall|k: int| 0 <= k < n.len() implies lower(h)[i + k] == lower(n)[k] by {
            assert(h.subrange(i, i + n.len())[k] == h[i + k]);
            assert(h[i + k] == n[k]);
        }
    }
}

/// ASCII whitespace.
pub open spec fn is_space(c: char) -> bool {
    c == ' ' || c == '\t' || c == '\n' || c == '\r' || c == '\u{b}' || c == '\u{c}'
}

pub fn is_space_x(c: char) -> (r: bool)
    ensures
        r == is_space(c),
{
    c == ' ' || c == '\t' || c == '\n' || c == '\r' || c == '\u{b}' || c == '\u{c}'
}

/// First index at or after `i` whose character is not a space.
pub open spec fn skip_ws_fwd(s: Seq<char>, i: int) -> int
    decreases s.len() - i when 0 <= i <= s.len()
{
    if i >= s.len() {
        i
    } else if is_space(s[i]) {
        skip_ws_fwd(s, i + 1)
    } else {
        i
    }
}

/// First boundary at or before `i` with no space just before it.
pub open spec fn skip_ws_back(s: Seq<char>, i: int) -> int
    decreases i when 0 <= i <= s.len()
{
    if i <= 0 {
        0
    } else if is_space(s[i - 1]) {
        skip_ws_back(s, i - 1)
    } else {
        i
    }
}

/// The text with leading and trailing spaces removed.
pub open spec fn trim_ws_spec(s: Seq<char>) -> Seq<char> {
    let a = skip_ws_fwd(s, 0);
    let b = skip_ws_back(s, s.len() as int);
    if a < b {
        s.subrange(a, b)
    } else {
        Seq::empty()
    }
}

/// First index at or after `i` whose character is not `c`.
pub open spec fn skip_ch_fwd(s: Seq<char>, i: int, c: char) -> int
    decreases s.len() - i when 0 <= i <= s.len()
{
    if i >= s.len() {
        i
    } else if s[i] == c {
        skip_ch_fwd(s, i + 1, c)
    } else {
        i
    }
}

/// First boundary at or before `i` not preceded by `c`.
pub open spec fn skip_ch_back(s: Seq<char>, i: int, c: char) -> int
    decreases i when 0 <= i <= s.len()
{
    if i <= 0 {
        0
    } else if s[i - 1] == c {
        skip_ch_back(s, i - 1, c)
    } else {
        i
    }
}

/// The text with every leading and trailing `c` removed.
pub open spec fn trim_ch_spec(s: Seq<char>, c: char) -> Seq<char> {
    let a = skip_ch_fwd(s, 0, c);
    let b = skip_ch_back(s, s.len() as int, c);
    if a < b {
        s.subrange(a, b)
    } else {
        Seq::empty()
    }
}

/// The copied characters of `v` between `a` and `b`.
pub fn copy_range(v: &Vec<char>, a: usize, b: usize) -> (r: Vec<char>)
    requires
        a <= b <= v@.len(),
    ensures
        r@ == v@.subrange(a as int, b as int),
{
    let mut r: Vec<char> = Vec::new();
    let mut i: usize = a;
    while i < b
        invariant
            a <= i <= b <= v@.len(),
            r@ == v@.subrange(a as int, i as int),
        decreases b - i,
    {
        r.push(v[i]);
        i = i + 1;
        proof {
            assert(r@ =~= v@.subrange(a as int, i as int));
        }
    }
    r
}

/// The bounds, within `[a, b)` of `v`, of the space-trimmed form of that
/// range.
pub fn trim_ws_range(v: &Vec<char>, a: usize, b: usize) -> (r: (usize, usize))
    requires
        a <= b <= v@.len(),
    ensures
        a <= r.0 <= r.1 <= b,
        trim_ws_spec(v@.subrange(a as int, b as int)) == v@.subrange(r.0 as int, r.1 as int),
{
    let ghost sub = v@.subrange(a as int, b as int);
    let mut i: usize = a;
    while i < b && is_space_x(v[i])
        invariant
            a <= i <= b <= v@.len(),
            sub == v@.subrange(a as int, b as int),
            skip_ws_fwd(sub, 0) == skip_ws_fwd(sub, i - a),
        decreases b - i,
    {
        proof {
            assert(sub[i - a] == v@[i as int]);
        }
        i = i + 1;
    }
    proof {
        if i < b {
            assert(sub[i - a] == v@[i as int]);
        }
        assert(skip_ws_fwd(sub, 0) == i - a);
    }
    let f = i;
    let mut j: usize = b;
    while j > a && is_space_x(v[j - 1])
        invariant
            a <= j <= b <= v@.len(),
            sub == v@.subrange(a as int, b as int),
            skip_ws_back(sub, sub.len() as int) == skip_ws_back(sub, j - a),
        decreases j,
    {
        proof {
            assert(sub[j - a - 1] == v@[j - 1]);
        }
        j = j - 1;
    }
    proof {
        if j > a {
            assert(sub[j - a - 1] == v@[j - 1]);
        }
        assert(skip_ws_back(sub, sub.len() as int) == j - a);
    }
    if f < j {
        proof {
            assert(sub.subrange(f - a, j - a) =~= v@.subrange(f as int, j as int));
        }
        (f, j)
    } else {
        proof {
            assert(trim_ws_spec(sub) =~= v@.subrange(a as int, a as int));
        }
        (a, a)
    }
}

/// The bounds, within `[a, b)` of `v`, of that range with every leading
/// and trailing `c` removed.
pub fn trim_ch_range(v: &Vec<char>, a: usize, b: usize, c: char) -> (r: (usize, usize))
    requires
        a <= b <= v@.len(),
    ensures
        a <= r.0 <= r.1 <= b,
        trim_ch_spec(v@.subrange(a as int, b as int), c) == v@.subrange(r.0 as int, r.1 as int),
{
    let ghost sub = v@.subrange(a as int, b as int);
    let mut i: usize = a;
    while i < b && v[i] == c
        invariant
            a <= i <= b <= v@.len(),
            sub == v@.subrange(a as int, b as int),
            skip_ch_fwd(sub, 0, c) == skip_ch_fwd(sub, i - a, c),
        decreases b - i,
    {
        proof {
            assert(sub[i - a] == v@[i as int]);
        }
        i = i + 1;
    }
    proof {
        if i < b {
            assert(sub[i - a] == v@[i as int]);
        }
        assert(skip_ch_fwd(sub, 0, c) == i - a);
    }
    let f = i;
    let mut j: usize = b;
    while j > a && v[j - 1] == c
        invariant
            a <= j <= b <= v@.len(),
            sub == v@.subrange(a as int, b as int),
            skip_ch_back(sub, sub.len() as int, c) == skip_ch_back(sub, j - a, c),
        decreases j,
    {
        proof {
            assert(sub[j - a - 1] == v@[j - 1]);
        }
        j = j - 1;
    }
    proof {
        if j > a {
            assert(sub[j - a - 1] == v@[j - 1]);
        }
        assert(skip_ch_back(sub, sub.len() as int, c) == j - a);
    }
    if f < j {
        proof {
            assert(sub.subrange(f - a, j - a) =~= v@.subrange(f as int, j as int));
        }
        (f, j)
    } else {
        proof {
            assert(trim_ch_spec(sub, c) =~= v@.subrange(a as int, a as int));
        }
        (a, a)
    }
}

/// First index at or after `i` holding `c`, or the length.
pub open spec fn find_ch(s: Seq<char>, i: int, c: char) -> int
    decreases s.len() - i when 0 <= i <= s.len()
{
    if i >= s.len() {
        i
    } else if s[i] == c {
        i
    } else {
        find_ch(s, i + 1, c)
    }
}

pub proof fn lemma_find_ch(s: Seq<char>, i: int, c: char)
    requires
        0 <= i <= s.len(),
    ensures
        i <= find_ch(s, i, c) <= s.len(),
        find_ch(s, i, c) < s.len() ==> s[find_ch(s, i, c)] == c,
        forall|j: int| i <= j < find_ch(s, i, c) ==> s[j] != c,
    decreases s.len() - i,
{
    if i < s.len() && s[i] != c {
        lemma_find_ch(s, i + 1, c);
    }
}

pub fn find_ch_x(v: &Vec<char>, from: usize, c: char) -> (k: usize)
    requires
        from <= v@.len(),
    ensures
        k == find_ch(v@, from as int, c),
        from <= k <= v@.len(),
{
    proof {
        lemma_find_ch(v@, from as int, c);
    }
    let mut i: usize = from;
    while i < v.len() && v[i] != c
        invariant
            from <= i <= v@.len(),
            find_ch(v@, from as int, c) == find_ch(v@, i as int, c),
        decreases v.len() - i,
    {
        i = i + 1;
    }
    i
}

/// Whether `c` occurs in `s`.
pub open spec fn has_ch(s: Seq<char>, c: char) -> bool {
    exists|i: int| 0 <= i < s.len() && s[i] == c
}

pub fn has_ch_x(v: &Vec<char>, c: char) -> (r: bool)
    ensures
        r == has_ch(v@, c),
{
    let k = find_ch_x(v, 0, c);
    proof {
        lemma_find_ch(v@, 0, c);
    }
    k < v.len()
}

/// The runs of `s` from `i` on, cut at every `c`.
pub open spec fn split_from(s: Seq<char>, i: int, c: char) -> Seq<Seq<char>>
    decreases s.len() - i when 0 <= i <= s.len() via split_from_decreases
{
    let k = find_ch(s, i, c);
    if k >= s.len() {
        seq![s.subrange(i, s.len() as int)]
    } else {
        seq![s.subrange(i, k)] + split_from(s, k + 1, c)
    }
}

#[via_fn]
proof fn split_from_decreases(s: Seq<char>, i: int, c: char) {
    lemma_find_ch(s, i, c);
}

} // verus!
