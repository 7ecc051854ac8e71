//! Naming the report directory after the must-gather: archive suffixes are
//! dropped and the collection time is read from the directory name.
use crate::names::{
    path_push, push_path, vec_skip, vec_take,
    all_ascii_digits, chars_to_string, extend_chars, extend_str, only_digits, split_chars,
    split_on, strip_prefix, strip_prefix_chars, strip_suffix, strip_suffix_chars,
};
use crate::text::chars_of;
use vstd::prelude::*;

verus! {

/// The name without a trailing `.tar.gz`, `.tgz` or `.tar` (the first that
/// matches, in that order).
pub open spec fn archive_base(name: Seq<char>) -> Seq<char> {
    match strip_suffix(name, ".tar.gz"@) {
        Some(b) => b,
        None => match strip_suffix(name, ".tgz"@) {
            Some(b) => b,
            None => match strip_suffix(name, ".tar"@) {
                Some(b) => b,
                None => name,
            },
        },
    }
}

/// The archive base without a trailing `_unpack`.
pub open spec fn known_suffixes_stripped(name: Seq<char>) -> Seq<char> {
    match strip_suffix(archive_base(name), "_unpack"@) {
        Some(b) => b,
        None => archive_base(name),
    }
}

/// The six `-`-separated groups `MM-DD-YYYY-HH-MM-SS` (all digits).
pub open spec fn six_digit_groups(parts: Seq<Seq<char>>) -> bool {
    &&& parts.len() >= 6
    &&& parts[0].len() == 2
    &&& parts[1].len() == 2
    &&& parts[2].len() == 4
    &&& parts[3].len() == 2
    &&& parts[4].len() == 2
    &&& parts[5].len() == 2
    &&& forall|i: int| 0 <= i < 6 ==> only_digits(#[trigger] parts[i])
}

/// The two groups `YYYYMMDD-HHMMSS` (all digits).
pub open spec fn two_digit_groups(parts: Seq<Seq<char>>) -> bool {
    &&& parts.len() >= 2
    &&& parts[0].len() == 8
    &&& parts[1].len() == 6
    &&& only_digits(parts[0])
    &&& only_digits(parts[1])
}

/// The collection time of a `must-gather-...` name as `YYYYMMDD-HHMMSS`.
pub open spec fn site_timestamp(name: Seq<char>) -> Option<Seq<char>> {
    match strip_prefix(known_suffixes_stripped(name), "must-gather-"@) {
        None => None,
        Some(rest) => {
            let parts = split_on(rest, '-');
            if six_digit_groups(parts) {
                Some(
                    parts[2] + parts[0] + parts[1] + seq!['-'] + parts[3] + parts[4] + parts[5],
                )
            } else if two_digit_groups(parts) {
                Some(parts[0] + seq!['-'] + parts[1])
            } else {
                None
            }
        },
    }
}

/// The directory name of the report for a must-gather name.
pub open spec fn site_dir_name(name: Seq<char>) -> Seq<char> {
    match site_timestamp(name) {
        Some(t) => "must-gather-analyze."@ + t,
        None => "must-gather-analyze.output"@,
    }
}

fn archive_base_chars(name: &Vec<char>) -> (r: Vec<char>)
    ensures
        r@ == archive_base(name@),
{
    match strip_suffix_chars(name, ".tar.gz") {
        Some(b) => b,
        None => match strip_suffix_chars(name, ".tgz") {
            Some(b) => b,
            None => match strip_suffix_chars(name, ".tar") {
                Some(b) => b,
                None => {
                    let mut c: Vec<char> = Vec::new();
                    extend_chars(&mut c, name);
                    c
                },
            },
        },
    }
}

/// The name without an archive suffix and without a trailing `_unpack`.
pub fn strip_known_suffixes(name: &str) -> (r: String)
    ensures
        r@ == known_suffixes_stripped(name@),
{
    let cs = chars_of(name);
    let base = archive_base_chars(&cs);
    match strip_suffix_chars(&base, "_unpack") {
        Some(b) => chars_to_string(&b),
        None => chars_to_string(&base),
    }
}

pub(crate) fn groups_are_digits(parts: &Vec<Vec<char>>, n: usize) -> (r: bool)
    requires
        n <= parts.len(),
    ensures
        r == (forall|i: int| 0 <= i < n ==> only_digits(#[trigger] parts@[i]@)),
{
    let mut i: usize = 0;
    while i < n
        invariant
            i <= n <= parts.len(),
            forall|k: int| 0 <= k < i ==> only_digits(#[trigger] parts@[k]@),
        decreases n - i,
    {
        if !all_ascii_digits(&parts[i]) {
            return false;
        }
        i = i + 1;
    }
    true
}

/// The collection time of a `must-gather-MM-DD-YYYY-HH-MM-SS` or
/// `must-gather-YYYYMMDD-HHMMSS` name, as `YYYYMMDD-HHMMSS`.
pub fn normalize_must_gather_timestamp(name: &str) -> (r: Option<String>)
    ensures
        r.deep_view() == site_timestamp(name@),
{
    let trimmed_text = strip_known_suffixes(name);
    let trimmed = chars_of(trimmed_text.as_str());
    let rest = match strip_prefix_chars(&trimmed, "must-gather-") {
        Some(rest) => rest,
        None => {
            return None;
        },
    };
    let parts = split_chars(&rest, '-');
    let ghost ps = parts@.map_values(|p: Vec<char>| p@);
    assert(forall|i: int| 0 <= i < parts.len() ==> #[trigger] ps[i] == parts@[i]@);
    if parts.len() >= 6 && parts[0].len() == 2 && parts[1].len() == 2 && parts[2].len() == 4
        && parts[3].len() == 2 && parts[4].len() == 2 && parts[5].len() == 2 && groups_are_digits(
        &parts,
        6,
    ) {
        assert forall|i: int| 0 <= i < 6 implies only_digits(#[trigger] ps[i]) by {
            assert(ps[i] == parts@[i]@);
        }
        let mut out: Vec<char> = Vec::new();
        extend_chars(&mut out, &parts[2]);
        extend_chars(&mut out, &parts[0]);
        extend_chars(&mut out, &parts[1]);
        out.push('-');
        extend_chars(&mut out, &parts[3]);
        extend_chars(&mut out, &parts[4]);
        extend_chars(&mut out, &parts[5]);
        assert(out@ =~= ps[2] + ps[0] + ps[1] + seq!['-'] + ps[3] + ps[4] + ps[5]);
        return Some(chars_to_string(&out));
    }
    assert(!six_digit_groups(ps)) by {
        if six_digit_groups(ps) {
            assert forall|i: int| 0 <= i < 6 implies only_digits(#[trigger] parts@[i]@) by {
                assert(only_digits(ps[i]));
            }
        }
    }
    if parts.len() >= 2 && parts[0].len() == 8 && parts[1].len() == 6 && all_ascii_digits(&parts[0])
        && all_ascii_digits(&parts[1]) {
        let mut out: Vec<char> = Vec::new();
        extend_chars(&mut out, &parts[0]);
        out.push('-');
        extend_chars(&mut out, &parts[1]);
        assert(out@ =~= ps[0] + seq!['-'] + ps[1]);
        return Some(chars_to_string(&out));
    }
    None
}

/// The directory name of the report: `must-gather-analyze.<time>` when the
/// name carries a collection time, else `must-gather-analyze.output`.
pub fn site_output_dir_name(name: &str) -> (r: String)
    ensures
        r@ == site_dir_name(name@),
{
    match normalize_must_gather_timestamp(name) {
        Some(t) => {
            let mut s = String::from_str("must-gather-analyze.");
            s.append(t.as_str());
            s
        },
        None => String::from_str("must-gather-analyze.output"),
    }
}

/// The path without trailing `/` (a lone `/` is kept).
pub open spec fn without_trailing_slashes(p: Seq<char>) -> Seq<char>
    decreases p.len(),
{
    if p.len() > 1 && p.last() == '/' {
        without_trailing_slashes(p.drop_last())
    } else {
        p
    }
}

/// The position of the last `/`, if any.
pub open spec fn last_slash(p: Seq<char>) -> Option<int> {
    if exists|i: int| 0 <= i < p.len() && p[i] == '/' {
        Some(
            choose|i: int|
                0 <= i < p.len() && p[i] == '/' && forall|j: int| i < j < p.len() ==> p[j] != '/',
        )
    } else {
        None
    }
}

/// A path's last component and the directory holding it (`""` when none).
pub open spec fn base_and_parent(p: Seq<char>) -> (Seq<char>, Seq<char>) {
    let t = without_trailing_slashes(p);
    match last_slash(t) {
        Some(i) => if i + 1 == t.len() {
            (p, ""@)
        } else if i == 0 {
            (t.skip(1), "/"@)
        } else {
            (t.skip(i + 1), t.take(i))
        },
        None => if t.len() == 0 {
            (p, ""@)
        } else {
            (t, ""@)
        },
    }
}

/// Where the site is written by default: beside the must-gather, named
/// after it.
pub open spec fn default_site_dir(p: Seq<char>) -> Seq<char> {
    let (base, parent) = base_and_parent(p);
    path_push(parent, site_dir_name(base))
}

/// The default directory of the site for a must-gather path.
pub fn default_site_output_dir(path: &str) -> (r: String)
    ensures
        r@ == default_site_dir(path@),
{
    proof {
        reveal_strlit("");
        reveal_strlit("/");
    }
    let cs = chars_of(path);
    let mut n = cs.len();
    assert(cs@.take(n as int) =~= cs@);
    while n > 1 && cs[n - 1] == '/'
        invariant
            n <= cs.len(),
            cs@ == path@,
            without_trailing_slashes(path@) == without_trailing_slashes(cs@.take(n as int)),
        decreases n,
    {
        assert(cs@.take(n as int).drop_last() =~= cs@.take(n - 1));
        n = n - 1;
    }
    let t = vec_take(&cs, n);
    assert(without_trailing_slashes(t@) == t@);
    let mut k = n;
    while k > 0 && t[k - 1] != '/'
        invariant
            k <= n,
            t@.len() == n,
            forall|j: int| k <= j < n ==> t@[j] != '/',
        decreases k,
    {
        k = k - 1;
    }
    let (base, parent): (String, String) = if k == 0 {
        proof {
            assert(!(exists|i: int| 0 <= i < t@.len() && t@[i] == '/'));
        }
        if n == 0 {
            (String::from_str(path), String::new())
        } else {
            (chars_to_string(&t), String::new())
        }
    } else {
        let i = k - 1;
        proof {
            let s = t@;
            assert(s[i as int] == '/');
            assert(exists|x: int|
                0 <= x < s.len() && s[x] == '/' && forall|j: int| x < j < s.len() ==> s[j] != '/')
                by {
                assert(0 <= i < s.len() && s[i as int] == '/' && forall|j: int|
                    i < j < s.len() ==> s[j] != '/');
            }
            let c = choose|x: int|
                0 <= x < s.len() && s[x] == '/' && forall|j: int| x < j < s.len() ==> s[j] != '/';
            assert(c == i) by {
                if c < i {
                    assert(s[i as int] != '/');
                }
                if c > i {
                    assert(s[c] != '/');
                }
            }
        }
        if i + 1 == n {
            (String::from_str(path), String::new())
        } else if i == 0 {
            (chars_to_string(&vec_skip(&t, 1)), String::from_str("/"))
        } else {
            (chars_to_string(&vec_skip(&t, i + 1)), chars_to_string(&vec_take(&t, i)))
        }
    };
    let name = site_output_dir_name(base.as_str());
    let mut out = parent;
    push_path(&mut out, name.as_str());
    out
}

} // verus!
