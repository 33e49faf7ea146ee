//! The attribute parser: turns a raw configuration string of
//! comma-separated `key = value` assignments into a configuration
//! record, filling defaults for keys that do not appear.
//!
//! The parsing rule, stated over sequences of characters: split the
//! input on commas; the first segment that contains the key name as a
//! substring supplies the value, which is the text after the last `=`
//! in that segment (the whole segment if it has none), with surrounding
//! whitespace and then any of the characters `"`, `'`, `(`, `)`
//! stripped from both ends.

use vstd::prelude::*;
use vstd::string::StrSliceExecFns;

verus! {

broadcast use vstd::string::group_string_axioms;

/// Whitespace stripped around a configuration value.
pub open spec fn is_config_space(c: char) -> bool {
    c == ' ' || c == '\t' || c == '\n' || c == '\r'
}

/// Quote and parenthesis characters stripped around a configuration
/// value after the whitespace.
pub open spec fn is_trim_mark(c: char) -> bool {
    c == '"' || c == '\'' || c == '(' || c == ')'
}

/// `s` without its leading whitespace.
pub open spec fn trim_front_space(s: Seq<char>) -> Seq<char>
    decreases s.len(),
{
    if s.len() > 0 && is_config_space(s[0]) {
        trim_front_space(s.drop_first())
    } else {
        s
    }
}

/// `s` without its trailing whitespace.
pub open spec fn trim_back_space(s: Seq<char>) -> Seq<char>
    decreases s.len(),
{
    if s.len() > 0 && is_config_space(s[s.len() - 1]) {
        trim_back_space(s.drop_last())
    } else {
        s
    }
}

/// `s` without its leading quote and parenthesis characters.
pub open spec fn trim_front_mark(s: Seq<char>) -> Seq<char>
    decreases s.len(),
{
    if s.len() > 0 && is_trim_mark(s[0]) {
        trim_front_mark(s.drop_first())
    } else {
        s
    }
}

/// `s` without its trailing quote and parenthesis characters.
pub open spec fn trim_back_mark(s: Seq<char>) -> Seq<char>
    decreases s.len(),
{
    if s.len() > 0 && is_trim_mark(s[s.len() - 1]) {
        trim_back_mark(s.drop_last())
    } else {
        s
    }
}

/// Everything strictly after the last occurrence of `c` in `s`; all of
/// `s` if `c` does not occur.
pub open spec fn suffix_after_last(s: Seq<char>, c: char) -> Seq<char>
    decreases s.len(),
{
    if s.len() == 0 {
        s
    } else if s[s.len() - 1] == c {
        Seq::empty()
    } else {
        suffix_after_last(s.drop_last(), c).push(s[s.len() - 1])
    }
}

/// The value a segment yields: the text after its last `=`, trimmed of
/// whitespace and then of quote and parenthesis characters.
pub open spec fn clean_value(seg: Seq<char>) -> Seq<char> {
    trim_back_mark(trim_front_mark(trim_back_space(trim_front_space(suffix_after_last(seg, '=')))))
}

/// Whether `needle` occurs in `hay` starting at position `i`.
pub open spec fn contains_at(hay: Seq<char>, needle: Seq<char>, i: int) -> bool {
    0 <= i && i + needle.len() <= hay.len() && hay.subrange(i, i + needle.len()) == needle
}

/// Whether `needle` occurs anywhere in `hay`.
pub open spec fn contains_seq(hay: Seq<char>, needle: Seq<char>) -> bool {
    exists|i: int| contains_at(hay, needle, i)
}

/// The length of the prefix of `s` before its first comma; the whole
/// length if `s` has no comma.
pub open spec fn seg_end(s: Seq<char>) -> int
    decreases s.len(),
{
    if s.len() == 0 {
        0
    } else if s[0] == ',' {
        0
    } else {
        1 + seg_end(s.drop_first())
    }
}

/// The parse of one key out of the whole attribute string: the cleaned
/// value of the first comma-separated segment that contains the key as
/// a substring, if any segment does.
pub open spec fn spec_extract_attr(attr: Seq<char>, key: Seq<char>) -> Option<Seq<char>>
    decreases attr.len(),
{
    let e = seg_end(attr);
    let seg = attr.subrange(0, e);
    if contains_seq(seg, key) {
        Option::Some(clean_value(seg))
    } else if 0 <= e && e < attr.len() {
        spec_extract_attr(attr.subrange(e + 1, attr.len() as int), key)
    } else {
        Option::None
    }
}

proof fn lemma_seg_end_at(s: Seq<char>, e: int)
    requires
        0 <= e <= s.len(),
        forall|i: int| 0 <= i < e ==> s[i] != ',',
        e < s.len() ==> s[e] == ',',
    ensures
        seg_end(s) == e,
    decreases e,
{
    if e == 0 {
    } else {
        assert(s[0] != ',');
        lemma_seg_end_at(s.drop_first(), e - 1);
    }
}

pub proof fn lemma_suffix_after_last_none(s: Seq<char>, c: char)
    requires
        forall|i: int| 0 <= i < s.len() ==> s[i] != c,
    ensures
        suffix_after_last(s, c) == s,
    decreases s.len(),
{
    if s.len() > 0 {
        lemma_suffix_after_last_none(s.drop_last(), c);
        assert(s.drop_last().push(s[s.len() - 1]) =~= s);
    }
}

pub proof fn lemma_suffix_after_last_at(s: Seq<char>, c: char, j: int)
    requires
        0 <= j < s.len(),
        s[j] == c,
        forall|i: int| j < i < s.len() ==> s[i] != c,
    ensures
        suffix_after_last(s, c) == s.subrange(j + 1, s.len() as int),
    decreases s.len(),
{
    if j == s.len() - 1 {
        assert(Seq::<char>::empty() =~= s.subrange(j + 1, s.len() as int));
    } else {
        lemma_suffix_after_last_at(s.drop_last(), c, j);
        assert(s.drop_last().subrange(j + 1, s.len() - 1).push(s[s.len() - 1]) =~= s.subrange(
            j + 1,
            s.len() as int,
        ));
    }
}

fn is_space_char(c: char) -> (r: bool)
    ensures
        r == is_config_space(c),
{
    c == ' ' || c == '\t' || c == '\n' || c == '\r'
}

fn is_mark_char(c: char) -> (r: bool)
    ensures
        r == is_trim_mark(c),
{
    c == '"' || c == '\'' || c == '(' || c == ')'
}

/// Whether `needle` matches the characters of `s` starting at `base`.
fn match_at(s: &str, base: usize, needle: &str) -> (r: bool)
    requires
        base + needle@.len() <= s@.len(),
    ensures
        r == (s@.subrange(base as int, base + needle@.len()) == needle@),
{
    let n = s.unicode_len();
    let m = needle.unicode_len();
    let mut j: usize = 0;
    while j < m
        invariant
            n == s@.len(),
            m == needle@.len(),
            base + m <= s@.len(),
            j <= m,
            forall|jj: int| 0 <= jj < j ==> s@[base + jj] == needle@[jj],
        decreases m - j,
    {
        if s.get_char(base + j) != needle.get_char(j) {
            proof {
                assert(s@.subrange(base as int, base + needle@.len())[j as int] == s@[base + j]);
            }
            return false;
        }
        j += 1;
    }
    proof {
        assert(s@.subrange(base as int, base + needle@.len()) =~= needle@);
    }
    true
}

/// Whether `needle` occurs anywhere in `s` between `lo` and `hi`.
fn contains_range(s: &str, lo: usize, hi: usize, needle: &str) -> (r: bool)
    requires
        lo <= hi <= s@.len(),
    ensures
        r == contains_seq(s@.subrange(lo as int, hi as int), needle@),
{
    let ghost hay = s@.subrange(lo as int, hi as int);
    let m = needle.unicode_len();
    let range_len = hi - lo;
    if m == 0 {
        proof {
            assert(hay.subrange(0, 0) =~= needle@);
            assert(contains_at(hay, needle@, 0));
        }
        return true;
    }
    if m > range_len {
        proof {
            assert(forall|i: int| !contains_at(hay, needle@, i));
        }
        return false;
    }
    let mut i: usize = 0;
    while i <= range_len - m
        invariant
            hay == s@.subrange(lo as int, hi as int),
            m == needle@.len(),
            lo <= hi <= s@.len(),
            1 <= m <= range_len == hi - lo,
            i <= range_len - m + 1,
            forall|ii: int| 0 <= ii < i ==> !contains_at(hay, needle@, ii),
        decreases range_len - m - i + 1,
    {
        if match_at(s, lo + i, needle) {
            proof {
                assert(hay.subrange(i as int, i + m) =~= s@.subrange(lo + i, lo + i + m));
                assert(contains_at(hay, needle@, i as int));
            }
            return true;
        }
        proof {
            assert(hay.subrange(i as int, i + m) =~= s@.subrange(lo + i, lo + i + m));
        }
        i += 1;
    }
    proof {
        assert(forall|ii: int| ii >= i ==> !contains_at(hay, needle@, ii));
    }
    false
}

/// Locates the cleaned value inside the segment `[lo, hi)` of `s`: the
/// range after the last `=`, trimmed of whitespace and then of quote
/// and parenthesis characters.
fn find_value_range(s: &str, lo: usize, hi: usize) -> (p: (usize, usize))
    requires
        lo <= hi <= s@.len(),
    ensures
        lo <= p.0 <= p.1 <= hi,
        s@.subrange(p.0 as int, p.1 as int) == clean_value(s@.subrange(lo as int, hi as int)),
{
    let ghost seg = s@.subrange(lo as int, hi as int);
    let n = s.unicode_len();
    // the range after the last '=' in the segment
    let mut k = hi;
    while k > lo && s.get_char(k - 1) != '='
        invariant
            lo <= k <= hi <= s@.len(),
            n == s@.len(),
            forall|i: int| k <= i < hi ==> s@[i] != '=',
        decreases k,
    {
        k -= 1;
    }
    let vs = k;
    proof {
        if k == lo {
            assert(forall|i: int| 0 <= i < seg.len() ==> seg[i] == s@[lo + i]);
            lemma_suffix_after_last_none(seg, '=');
            assert(suffix_after_last(seg, '=') =~= s@.subrange(vs as int, hi as int));
        } else {
            let j = k - 1 - lo;
            assert(seg[j] == s@[k - 1]);
            assert(forall|i: int| j < i < seg.len() ==> seg[i] == s@[lo + i]);
            lemma_suffix_after_last_at(seg, '=', j);
            assert(suffix_after_last(seg, '=') =~= s@.subrange(vs as int, hi as int));
        }
    }
    // strip whitespace from the front
    let mut a = vs;
    let mut b = hi;
    while a < b && is_space_char(s.get_char(a))
        invariant
            vs <= a <= b == hi <= s@.len(),
            n == s@.len(),
            trim_front_space(s@.subrange(vs as int, hi as int)) == trim_front_space(
                s@.subrange(a as int, hi as int),
            ),
        decreases b - a,
    {
        proof {
            let cur = s@.subrange(a as int, hi as int);
            assert(cur[0] == s@[a as int]);
            assert(cur.drop_first() =~= s@.subrange(a + 1, hi as int));
        }
        a += 1;
    }
    proof {
        assert(trim_front_space(s@.subrange(vs as int, hi as int)) == s@.subrange(
            a as int,
            hi as int,
        ));
    }
    // strip whitespace from the back
    let ghost a1 = a as int;
    while b > a && is_space_char(s.get_char(b - 1))
        invariant
            vs <= a <= b <= hi <= s@.len(),
            n == s@.len(),
            a == a1,
            trim_back_space(s@.subrange(a1, hi as int)) == trim_back_space(
                s@.subrange(a as int, b as int),
            ),
        decreases b,
    {
        proof {
            let cur = s@.subrange(a as int, b as int);
            assert(cur[cur.len() - 1] == s@[b - 1]);
            assert(cur.drop_last() =~= s@.subrange(a as int, b - 1));
        }
        b -= 1;
    }
    proof {
        assert(trim_back_space(s@.subrange(a1, hi as int)) == s@.subrange(a as int, b as int));
    }
    // strip quote and parenthesis marks from the front
    let ghost b1 = b as int;
    while a < b && is_mark_char(s.get_char(a))
        invariant
            vs <= a <= b <= hi <= s@.len(),
            n == s@.len(),
            b == b1,
            trim_front_mark(s@.subrange(a1, b1)) == trim_front_mark(
                s@.subrange(a as int, b as int),
            ),
        decreases b - a,
    {
        proof {
            let cur = s@.subrange(a as int, b as int);
            assert(cur[0] == s@[a as int]);
            assert(cur.drop_first() =~= s@.subrange(a + 1, b as int));
        }
        a += 1;
    }
    proof {
        assert(trim_front_mark(s@.subrange(a1, b1)) == s@.subrange(a as int, b as int));
    }
    // strip quote and parenthesis marks from the back
    let ghost a2 = a as int;
    while b > a && is_mark_char(s.get_char(b - 1))
        invariant
            vs <= a <= b <= hi <= s@.len(),
            n == s@.len(),
            a == a2,
            trim_back_mark(s@.subrange(a2, b1)) == trim_back_mark(
                s@.subrange(a as int, b as int),
            ),
        decreases b,
    {
        proof {
            let cur = s@.subrange(a as int, b as int);
            assert(cur[cur.len() - 1] == s@[b - 1]);
            assert(cur.drop_last() =~= s@.subrange(a as int, b - 1));
        }
        b -= 1;
    }
    proof {
        assert(trim_back_mark(s@.subrange(a2, b1)) == s@.subrange(a as int, b as int));
        assert(s@.subrange(a as int, b as int) == clean_value(seg));
    }
    (a, b)
}

/// Extracts the value assigned to `key` in the attribute string. The
/// first comma-separated segment that contains `key` as a substring
/// supplies the value; a key that occurs in no segment yields nothing.
pub fn extract_attr(attr: &str, key: &str) -> (r: Option<String>)
    ensures
        match spec_extract_attr(attr@, key@) {
            Option::Some(v) => r is Some && (r->0)@ == v,
            Option::None => r is None,
        },
{
    let n = attr.unicode_len();
    let mut start: usize = 0;
    proof {
        assert(attr@.subrange(0, n as int) =~= attr@);
    }
    loop
        invariant
            start <= n == attr@.len(),
            spec_extract_attr(attr@, key@) == spec_extract_attr(
                attr@.subrange(start as int, n as int),
                key@,
            ),
        decreases n - start,
    {
        let ghost rest = attr@.subrange(start as int, n as int);
        // the end of the current segment: the next comma or the end
        let mut end = start;
        while end < n && attr.get_char(end) != ','
            invariant
                start <= end <= n == attr@.len(),
                forall|i: int| start <= i < end ==> attr@[i] != ',',
            decreases n - end,
        {
            end += 1;
        }
        proof {
            assert(forall|i: int| 0 <= i < rest.len() ==> rest[i] == attr@[start + i]);
            lemma_seg_end_at(rest, end - start);
            assert(rest.subrange(0, end - start) =~= attr@.subrange(start as int, end as int));
        }
        if contains_range(attr, start, end, key) {
            let p = find_value_range(attr, start, end);
            return Option::Some(attr.substring_char(p.0, p.1).to_owned());
        }
        if end == n {
            return Option::None;
        }
        proof {
            assert(rest.subrange(end - start + 1, rest.len() as int) =~= attr@.subrange(
                end + 1,
                n as int,
            ));
        }
        start = end + 1;
    }
}

/// The configuration record of one generation run: always fully
/// populated, by an explicit assignment or by the default.
#[derive(Debug)]
pub struct CrudConfig {
    pub route_path: String,
    pub new_type_name: String,
    pub params_type_name: String,
}

/// The configured value for `key`, or `default` when no segment
/// carries the key.
pub open spec fn spec_attr_or(attr: Seq<char>, key: Seq<char>, default: Seq<char>) -> Seq<char> {
    match spec_extract_attr(attr, key) {
        Option::Some(v) => v,
        Option::None => default,
    }
}

/// Parses the whole configuration string. Unmatched keys receive their
/// defaults: route path "/", new-payload type "NewItem", query
/// parameter type "Params".
pub fn parse_crud_config(attr: &str) -> (r: CrudConfig)
    ensures
        r.route_path@ == spec_attr_or(attr@, "path"@, "/"@),
        r.new_type_name@ == spec_attr_or(attr@, "new"@, "NewItem"@),
        r.params_type_name@ == spec_attr_or(attr@, "params"@, "Params"@),
{
    let route_path = match extract_attr(attr, "path") {
        Option::Some(v) => v,
        Option::None => "/".to_owned(),
    };
    let new_type_name = match extract_attr(attr, "new") {
        Option::Some(v) => v,
        Option::None => "NewItem".to_owned(),
    };
    let params_type_name = match extract_attr(attr, "params") {
        Option::Some(v) => v,
        Option::None => "Params".to_owned(),
    };
    CrudConfig { route_path, new_type_name, params_type_name }
}

} // verus!
