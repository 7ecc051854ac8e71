//! Operations on names and paths as character sequences: prefixes,
//! suffixes, splitting at a separator, and joining path components.
use crate::text::{chars_of, is_digit, string_from_chars};
use vstd::prelude::*;

verus! {

/// `s` ends with `suffix`.
pub open spec fn has_suffix(s: Seq<char>, suffix: Seq<char>) -> bool {
    suffix.len() <= s.len() && s.skip(s.len() - suffix.len()) == suffix
}

/// `s` starts with `prefix`.
pub open spec fn has_prefix(s: Seq<char>, prefix: Seq<char>) -> bool {
    prefix.len() <= s.len() && s.take(prefix.len() as int) == prefix
}

/// `str::strip_suffix`.
pub open spec fn strip_suffix(s: Seq<char>, suffix: Seq<char>) -> Option<Seq<char>> {
    if has_suffix(s, suffix) {
        Some(s.take(s.len() - suffix.len()))
    } else {
        None
    }
}

/// `str::strip_prefix`.
pub open spec fn strip_prefix(s: Seq<char>, prefix: Seq<char>) -> Option<Seq<char>> {
    if has_prefix(s, prefix) {
        Some(s.skip(prefix.len() as int))
    } else {
        None
    }
}

/// `str::trim_end_matches` with a string pattern: the suffix removed as
/// long as it is there (an empty pattern removes nothing).
pub open spec fn trim_end_matches(s: Seq<char>, suffix: Seq<char>) -> Seq<char>
    decreases s.len(),
{
    if suffix.len() > 0 && has_suffix(s, suffix) {
        trim_end_matches(s.take(s.len() - suffix.len()), suffix)
    } else {
        s
    }
}

/// The pieces of `s` after `cur`, split at every `sep`.
pub open spec fn split_from(s: Seq<char>, sep: char, cur: Seq<char>) -> Seq<Seq<char>>
    decreases s.len(),
{
    if s.len() == 0 {
        seq![cur]
    } else if s[0] == sep {
        seq![cur] + split_from(s.drop_first(), sep, Seq::empty())
    } else {
        split_from(s.drop_first(), sep, cur.push(s[0]))
    }
}

/// `str::split(sep)`: every piece between separators, empty ones included.
pub open spec fn split_on(s: Seq<char>, sep: char) -> Seq<Seq<char>> {
    split_from(s, sep, Seq::empty())
}

/// All characters are ASCII digits (true of the empty sequence).
pub open spec fn only_digits(s: Seq<char>) -> bool {
    forall|i: int| 0 <= i < s.len() ==> is_digit(#[trigger] s[i])
}

pub fn vec_has_suffix(s: &Vec<char>, suffix: &Vec<char>) -> (r: bool)
    ensures
        r == has_suffix(s@, suffix@),
{
    if suffix.len() > s.len() {
        return false;
    }
    let off = s.len() - suffix.len();
    let mut i: usize = 0;
    while i < suffix.len()
        invariant
            i <= suffix.len(),
            off + suffix.len() == s.len(),
            forall|k: int| 0 <= k < i ==> s@[off + k] == suffix@[k],
        decreases suffix.len() - i,
    {
        if s[off + i] != suffix[i] {
            assert(s@.skip(off as int)[i as int] != suffix@[i as int]);
            return false;
        }
        i = i + 1;
    }
    assert(s@.skip(off as int) =~= suffix@);
    true
}

pub fn vec_has_prefix(s: &Vec<char>, prefix: &Vec<char>) -> (r: bool)
    ensures
        r == has_prefix(s@, prefix@),
{
    if prefix.len() > s.len() {
        return false;
    }
    let mut i: usize = 0;
    while i < prefix.len()
        invariant
            i <= prefix.len() <= s.len(),
            forall|k: int| 0 <= k < i ==> s@[k] == prefix@[k],
        decreases prefix.len() - i,
    {
        if s[i] != prefix[i] {
            assert(s@.take(prefix.len() as int)[i as int] != prefix@[i as int]);
            return false;
        }
        i = i + 1;
    }
    assert(s@.take(prefix.len() as int) =~= prefix@);
    true
}

/// The first `n` characters.
pub fn vec_take(s: &Vec<char>, n: usize) -> (r: Vec<char>)
    requires
        n <= s.len(),
    ensures
        r@ == s@.take(n as int),
{
    let mut r: Vec<char> = Vec::new();
    let mut i: usize = 0;
    while i < n
        invariant
            i <= n <= s.len(),
            r@ == s@.take(i as int),
        decreases n - i,
    {
        r.push(s[i]);
        i = i + 1;
        assert(r@ =~= s@.take(i as int));
    }
    r
}

/// The characters from position `n` on.
pub fn vec_skip(s: &Vec<char>, n: usize) -> (r: Vec<char>)
    requires
        n <= s.len(),
    ensures
        r@ == s@.skip(n as int),
{
    let mut r: Vec<char> = Vec::new();
    let mut i: usize = n;
    while i < s.len()
        invariant
            n <= i <= s.len(),
            r@ == s@.subrange(n as int, i as int),
        decreases s.len() - i,
    {
        r.push(s[i]);
        i = i + 1;
        assert(r@ =~= s@.subrange(n as int, i as int));
    }
    assert(s@.subrange(n as int, s.len() as int) =~= s@.skip(n as int));
    r
}

/// `str::strip_suffix` on characters.
pub fn strip_suffix_chars(s: &Vec<char>, suffix: &str) -> (r: Option<Vec<char>>)
    ensures
        r matches Some(v) ==> strip_suffix(s@, suffix@) == Some(v@),
        r is None ==> strip_suffix(s@, suffix@) is None,
{
    let suf = chars_of(suffix);
    if vec_has_suffix(s, &suf) {
        Some(vec_take(s, s.len() - suf.len()))
    } else {
        None
    }
}

/// `str::strip_prefix` on characters.
pub fn strip_prefix_chars(s: &Vec<char>, prefix: &str) -> (r: Option<Vec<char>>)
    ensures
        r matches Some(v) ==> strip_prefix(s@, prefix@) == Some(v@),
        r is None ==> strip_prefix(s@, prefix@) is None,
{
    let pre = chars_of(prefix);
    if vec_has_prefix(s, &pre) {
        Some(vec_skip(s, pre.len()))
    } else {
        None
    }
}

/// `str::trim_end_matches` on characters.
pub fn trim_end_matches_chars(s: &Vec<char>, suffix: &str) -> (r: Vec<char>)
    ensures
        r@ == trim_end_matches(s@, suffix@),
{
    let suf = chars_of(suffix);
    let mut cur = vec_take(s, s.len());
    assert(s@.take(s.len() as int) =~= s@);
    if suf.len() == 0 {
        return cur;
    }
    while vec_has_suffix(&cur, &suf)
        invariant
            suf@ == suffix@,
            suf.len() > 0,
            trim_end_matches(s@, suffix@) == trim_end_matches(cur@, suffix@),
        decreases cur.len(),
    {
        cur = vec_take(&cur, cur.len() - suf.len());
    }
    cur
}

/// `str::split(sep)` on characters.
pub fn split_chars(s: &Vec<char>, sep: char) -> (r: Vec<Vec<char>>)
    ensures
        r@.map_values(|p: Vec<char>| p@) == split_on(s@, sep),
{
    let mut out: Vec<Vec<char>> = Vec::new();
    let mut cur: Vec<char> = Vec::new();
    let mut i: usize = 0;
    assert(s@.skip(0) =~= s@);
    assert(out@.map_values(|p: Vec<char>| p@) =~= Seq::<Seq<char>>::empty());
    assert(cur@ =~= Seq::<char>::empty());
    while i < s.len()
        invariant
            i <= s.len(),
            split_on(s@, sep) == out@.map_values(|p: Vec<char>| p@) + split_from(
                s@.skip(i as int),
                sep,
                cur@,
            ),
        decreases s.len() - i,
    {
        let ghost rest = s@.skip(i as int);
        let ghost old_cur = cur@;
        let ghost before = out@.map_values(|p: Vec<char>| p@);
        assert(rest.drop_first() =~= s@.skip(i + 1));
        if s[i] == sep {
            out.push(cur);
            cur = Vec::new();
            assert(out@.map_values(|p: Vec<char>| p@) =~= before.push(old_cur));
            assert(cur@ =~= Seq::<char>::empty());
            assert(split_from(rest, sep, old_cur) == seq![old_cur] + split_from(rest.drop_first(), sep, Seq::empty()));
            assert(before + split_from(rest, sep, old_cur) =~= before.push(old_cur) + split_from(rest.drop_first(), sep, Seq::empty()));
        } else {
            cur.push(s[i]);
            assert(split_from(rest, sep, old_cur) == split_from(rest.drop_first(), sep, old_cur.push(s@[i as int])));
        }
        i = i + 1;
    }
    assert(s@.skip(i as int) =~= Seq::<char>::empty());
    let ghost before = out@.map_values(|p: Vec<char>| p@);
    let ghost last = cur@;
    out.push(cur);
    assert(out@.map_values(|p: Vec<char>| p@) =~= before + seq![last]);
    out
}

/// All characters are ASCII digits.
pub fn all_ascii_digits(s: &Vec<char>) -> (r: bool)
    ensures
        r == only_digits(s@),
{
    let mut i: usize = 0;
    while i < s.len()
        invariant
            i <= s.len(),
            forall|k: int| 0 <= k < i ==> is_digit(#[trigger] s@[k]),
        decreases s.len() - i,
    {
        if !('0' <= s[i] && s[i] <= '9') {
            assert(!is_digit(s@[i as int]));
            return false;
        }
        i = i + 1;
    }
    true
}

/// Appends the characters of `b` to `a`.
pub fn extend_chars(a: &mut Vec<char>, b: &Vec<char>)
    ensures
        final(a)@ == old(a)@ + b@,
{
    let mut i: usize = 0;
    while i < b.len()
        invariant
            i <= b.len(),
            a@ == old(a)@ + b@.take(i as int),
        decreases b.len() - i,
    {
        a.push(b[i]);
        i = i + 1;
        assert(a@ =~= old(a)@ + b@.take(i as int));
    }
    assert(b@.take(b.len() as int) =~= b@);
}

/// Appends the characters of a string slice.
pub fn extend_str(a: &mut Vec<char>, b: &str)
    ensures
        final(a)@ == old(a)@ + b@,
{
    let cs = chars_of(b);
    extend_chars(a, &cs);
}

/// The path after `PathBuf::push(component)` on a Unix path: an absolute
/// component replaces the path; otherwise a `/` is put between them unless
/// the path is empty or already ends in `/`.
pub open spec fn path_push(base: Seq<char>, component: Seq<char>) -> Seq<char> {
    if component.len() > 0 && component[0] == '/' {
        component
    } else if base.len() == 0 || base.last() == '/' {
        base + component
    } else {
        base + seq!['/'] + component
    }
}

/// `PathBuf::push` on a Unix path held as text.
pub fn push_path(base: &mut String, component: &str)
    ensures
        final(base)@ == path_push(old(base)@, component@),
{
    let b = chars_of(base.as_str());
    let c = chars_of(component);
    if c.len() > 0 && c[0] == '/' {
        *base = String::from_str(component);
    } else if b.len() == 0 || b[b.len() - 1] == '/' {
        base.append(component);
    } else {
        base.append("/");
        base.append(component);
        proof {
            reveal_strlit("/");
        }
        assert(base@ =~= b@ + seq!['/'] + c@);
    }
}

/// A string made of the characters of a vector.
pub fn chars_to_string(v: &Vec<char>) -> (r: String)
    ensures
        r@ == v@,
{
    string_from_chars(v.as_slice())
}

} // verus!
