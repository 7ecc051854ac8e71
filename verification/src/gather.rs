//! How a must-gather directory is read: where each kind of manifest lies,
//! which directory is the must-gather's root, how container logs are cut,
//! what the collection time is, and how the lists read are put in order.
use crate::kinds::cluster::{namespace_phase, Namespace};
use crate::kinds::storage::{pvc_view, synthetic_claim_text, PersistentVolumeClaim};
use crate::kinds::text_of;
use crate::order::{resources_sorted, sort_resources, ResourceOrder};
use crate::yaml::yaml_documents;
use crate::manifest::{Manifest, ManifestView};
use crate::cli::{groups_are_digits, six_digit_groups};
use crate::names::{
    all_ascii_digits, chars_to_string, extend_chars, only_digits, path_push, push_path,
    split_chars, split_on, strip_prefix, strip_prefix_chars, trim_end_matches,
    trim_end_matches_chars, vec_skip, vec_take,
};
use crate::order::{text_less, text_lt};
use crate::resources::{
    copy_opt_string, copy_string, get_field, lookup_field, or_text, str_eq, RelationshipType,
    ResourceLink, ResourceLinkView, ResourceSnapshot, ResourceV2, SnapshotView,
};
use crate::text::{chars_of, lines, nat_digits, split_lines, string_from_chars, u64_to_text};
use vstd::prelude::*;

verus! {

// ---------------------------------------------------------------------------
// Where manifests lie
// ---------------------------------------------------------------------------
/// The path of a kind of resource below the root: cluster-scoped resources
/// when `namespace` is empty, else under the namespace; the group's
/// directory when there is a group; the kind's directory; and the
/// resource's file when `name` is given.
pub open spec fn manifest_path(
    path: Seq<char>,
    name: Seq<char>,
    namespace: Seq<char>,
    kind: Seq<char>,
    group: Seq<char>,
) -> Seq<char> {
    let scoped = if namespace.len() == 0 {
        path_push(path, "cluster-scoped-resources"@)
    } else {
        path_push(path_push(path, "namespaces"@), namespace)
    };
    let grouped = if group.len() == 0 {
        scoped
    } else {
        path_push(scoped, group)
    };
    let of_kind = path_push(grouped, kind);
    if name.len() == 0 {
        of_kind
    } else {
        path_push(of_kind, name + ".yaml"@)
    }
}

/// Builds the path of a resource; it need not exist.
pub fn build_manifest_path(path: &str, name: &str, namespace: &str, kind: &str, group: &str) -> (r:
    String)
    ensures
        r@ == manifest_path(path@, name@, namespace@, kind@, group@),
{
    let mut p = String::from_str(path);
    if namespace.unicode_len() == 0 {
        push_path(&mut p, "cluster-scoped-resources");
    } else {
        push_path(&mut p, "namespaces");
        push_path(&mut p, namespace);
    }
    if group.unicode_len() > 0 {
        push_path(&mut p, group);
    }
    push_path(&mut p, kind);
    if name.unicode_len() > 0 {
        let mut file = String::from_str(name);
        file.append(".yaml");
        push_path(&mut p, file.as_str());
    }
    p
}

/// The extension of a file name: what follows its last `.`, unless the
/// name has no `.` but a leading one.
pub open spec fn file_extension(file_name: Seq<char>) -> Option<Seq<char>> {
    if exists|i: int| 0 < i < file_name.len() && file_name[i] == '.' {
        let i = choose|i: int|
            0 < i < file_name.len() && file_name[i] == '.' && forall|j: int|
                i < j < file_name.len() ==> file_name[j] != '.';
        Some(file_name.skip(i + 1))
    } else {
        None
    }
}

/// Whether a file name has the extension `yaml`.
pub fn has_yaml_extension(file_name: &str) -> (r: bool)
    ensures
        r == (file_extension(file_name@) == Some("yaml"@)),
{
    proof {
        reveal_strlit("yaml");
    }
    let cs = chars_of(file_name);
    let mut i: usize = cs.len();
    while i > 0 && cs[i - 1] != '.'
        invariant
            i <= cs.len(),
            cs@ == file_name@,
            forall|j: int| i <= j < cs.len() ==> cs@[j] != '.',
        decreases i,
    {
        i = i - 1;
    }
    if i <= 1 {
        assert(!(exists|k: int| 0 < k < cs.len() && cs@[k] == '.')) by {
            if exists|k: int| 0 < k < cs.len() && cs@[k] == '.' {
                let k = choose|k: int| 0 < k < cs.len() && cs@[k] == '.';
                if i == 1 {
                    assert(k >= 1);
                }
            }
        }
        return false;
    }
    let dot = i - 1;
    proof {
        let s = file_name@;
        assert(0 < dot < s.len() && s[dot as int] == '.');
        assert(forall|j: int| dot < j < s.len() ==> s[j] != '.');
        assert(exists|k: int|
            0 < k < s.len() && s[k] == '.' && forall|j: int| k < j < s.len() ==> s[j] != '.') by {
            assert(0 < dot < s.len() && s[dot as int] == '.' && forall|j: int|
                dot < j < s.len() ==> s[j] != '.');
        }
        let k = choose|k: int|
            0 < k < s.len() && s[k] == '.' && forall|j: int| k < j < s.len() ==> s[j] != '.';
        assert(k == dot) by {
            if k < dot {
                assert(s[dot as int] != '.');
            }
            if k > dot {
                assert(s[k] != '.');
            }
        }
    }
    let n = cs.len() - i;
    if n != 4 {
        assert(file_name@.skip(i as int).len() != "yaml"@.len());
        return false;
    }
    let r = cs[i] == 'y' && cs[i + 1] == 'a' && cs[i + 2] == 'm' && cs[i + 3] == 'l';
    proof {
        let ext = file_name@.skip(i as int);
        if r {
            assert(ext =~= "yaml"@);
        } else {
            if ext == "yaml"@ {
                assert(ext[0] == 'y' && ext[1] == 'a' && ext[2] == 'm' && ext[3] == 'l');
            }
        }
    }
    r
}

// ---------------------------------------------------------------------------
// The root of a must-gather
// ---------------------------------------------------------------------------
/// How much a directory looks like a must-gather root: 4 for a `version`
/// file, 2 for a `namespaces` directory and 2 for a
/// `cluster-scoped-resources` directory; 0 unless it has the file or both
/// directories.
pub open spec fn root_score(has_version: bool, has_namespaces: bool, has_cluster: bool) -> u8 {
    if !has_version && !(has_namespaces && has_cluster) {
        0
    } else {
        ((if has_version {
            4int
        } else {
            0int
        }) + (if has_namespaces {
            2int
        } else {
            0int
        }) + (if has_cluster {
            2int
        } else {
            0int
        })) as u8
    }
}

/// Scores a directory as a must-gather root.
pub fn must_gather_root_score(has_version: bool, has_namespaces: bool, has_cluster: bool) -> (r:
    u8)
    ensures
        r == root_score(has_version, has_namespaces, has_cluster),
        r <= 8,
        r == 8 <==> (has_version && has_namespaces && has_cluster),
{
    if !has_version && !(has_namespaces && has_cluster) {
        return 0;
    }
    let mut score: u8 = 0;
    if has_version {
        score = score + 4;
    }
    if has_namespaces {
        score = score + 2;
    }
    if has_cluster {
        score = score + 2;
    }
    score
}

// ---------------------------------------------------------------------------
// Cluster identity
// ---------------------------------------------------------------------------
/// The text at a path of a manifest that may be missing, or `Unknown`.
pub open spec fn text_or_unknown(m: Option<ManifestView>, keys: Seq<Seq<char>>) -> Seq<char> {
    match m {
        Some(v) => or_text(text_of(v, keys), "Unknown"@),
        None => "Unknown"@,
    }
}

/// The cluster's version from its `clusterversions/version.yaml`, or
/// `Unknown` when the manifest could not be read or names none.
pub fn cluster_version(version: &Option<Manifest>) -> (r: String)
    ensures
        r@ == text_or_unknown(
            match version {
                Some(m) => Some(m@),
                None => None,
            },
            seq!["status"@, "desired"@, "version"@],
        ),
{
    match version {
        Some(m) => match crate::kinds::text_at(m, &crate::kinds::keys3("status", "desired", "version")) {
            Some(v) => v,
            None => String::from_str("Unknown"),
        },
        None => String::from_str("Unknown"),
    }
}

/// The cluster's platform from its `infrastructures/cluster.yaml`, or
/// `Unknown` when the manifest could not be read or names none.
pub fn cluster_platform_type(infrastructure: &Option<Manifest>) -> (r: String)
    ensures
        r@ == text_or_unknown(
            match infrastructure {
                Some(m) => Some(m@),
                None => None,
            },
            seq!["status"@, "platformStatus"@, "type"@],
        ),
{
    match infrastructure {
        Some(m) => match crate::kinds::text_at(
            m,
            &crate::kinds::keys3("status", "platformStatus", "type"),
        ) {
            Some(v) => v,
            None => String::from_str("Unknown"),
        },
        None => String::from_str("Unknown"),
    }
}

// ---------------------------------------------------------------------------
// Container logs
// ---------------------------------------------------------------------------
/// How many lines of a container log are kept.
pub const MAX_LOG_LINES: usize = 99;

/// The note put before a log that was cut.
pub open spec fn truncation_note() -> Seq<char> {
    "camgi warning: log file has been truncated to end, see full contents in the must-gather\n"@
}

/// Each line followed by a line ending.
pub open spec fn with_line_endings(ls: Seq<Seq<char>>) -> Seq<char>
    decreases ls.len(),
{
    if ls.len() == 0 {
        Seq::empty()
    } else {
        with_line_endings(ls.drop_last()) + ls.last() + seq!['\n']
    }
}

/// A container log as the report shows it: unchanged when it has at most
/// `MAX_LOG_LINES` lines, else the note followed by its last
/// `MAX_LOG_LINES` lines.
pub open spec fn shown_log(raw: Seq<char>) -> Seq<char> {
    let ls = lines(raw);
    if ls.len() > MAX_LOG_LINES {
        truncation_note() + with_line_endings(ls.skip(ls.len() - MAX_LOG_LINES))
    } else {
        raw
    }
}

/// Cuts a container log to its last lines.
pub fn truncate_log(raw: String) -> (r: String)
    ensures
        r@ == shown_log(raw@),
{
    let cs = chars_of(raw.as_str());
    let ls = split_lines(&cs);
    let ghost lv = ls@.map_values(|l: Vec<char>| l@);
    if ls.len() <= MAX_LOG_LINES {
        return raw;
    }
    let start = ls.len() - MAX_LOG_LINES;
    let mut out: Vec<char> = Vec::new();
    let mut i = start;
    assert(lv.skip(start as int).take(0) =~= Seq::<Seq<char>>::empty());
    while i < ls.len()
        invariant
            start <= i <= ls.len(),
            lv == ls@.map_values(|l: Vec<char>| l@),
            lv == lines(raw@),
            out@ == with_line_endings(lv.skip(start as int).take(i - start)),
        decreases ls.len() - i,
    {
        let ghost before = out@;
        let line = &ls[i];
        let mut k: usize = 0;
        while k < line.len()
            invariant
                k <= line.len(),
                out@ == before + line@.take(k as int),
            decreases line.len() - k,
        {
            out.push(line[k]);
            k = k + 1;
            assert(out@ =~= before + line@.take(k as int));
        }
        out.push('\n');
        proof {
            let part = lv.skip(start as int);
            assert(part.take(i - start + 1).drop_last() =~= part.take(i - start));
            assert(part.take(i - start + 1).last() == lv[i as int]);
            assert(lv[i as int] == line@);
            assert(line@.take(line.len() as int) =~= line@);
            assert(out@ =~= before + line@ + seq!['\n']);
        }
        i = i + 1;
    }
    assert(lv.skip(start as int).take(i - start) =~= lv.skip(start as int));
    let mut r = String::from_str(
        "camgi warning: log file has been truncated to end, see full contents in the must-gather\n",
    );
    r.append(string_from_chars(out.as_slice()).as_str());
    r
}

// ---------------------------------------------------------------------------
// The collection time
// ---------------------------------------------------------------------------
/// `str::split_once`: the text before the first `c` and the text after it.
pub open spec fn split_once_at(s: Seq<char>, c: char) -> Option<(Seq<char>, Seq<char>)> {
    if exists|i: int| 0 <= i < s.len() && s[i] == c {
        let i = choose|i: int|
            0 <= i < s.len() && s[i] == c && forall|j: int| 0 <= j < i ==> s[j] != c;
        Some((s.take(i), s.skip(i + 1)))
    } else {
        None
    }
}

/// A must-gather's name without the archive and unpacking suffixes.
pub open spec fn gather_base_name(name: Seq<char>) -> Seq<char> {
    trim_end_matches(
        trim_end_matches(trim_end_matches(trim_end_matches(name, ".tar.gz"@), ".tgz"@), ".zip"@),
        "_unpack"@,
    )
}

/// The collection time a `must-gather-MM-DD-YYYY-HH-MM-SS...` or
/// `must-gather-YYYYMMDD-HHMMSS...` name carries, as `YYYY-MM-DD HH:MM:SS`.
pub open spec fn collection_time(name: Seq<char>) -> Option<Seq<char>> {
    match strip_prefix(gather_base_name(name), "must-gather-"@) {
        None => None,
        Some(rest) => {
            let parts = split_on(rest, '-');
            if six_digit_groups(parts) {
                Some(
                    parts[2] + seq!['-'] + parts[0] + seq!['-'] + parts[1] + seq![' '] + parts[3]
                        + seq![':'] + parts[4] + seq![':'] + parts[5],
                )
            } else {
                match split_once_at(rest, '-') {
                    Some((date, time)) => if date.len() == 8 && time.len() >= 6 && only_digits(date)
                        && only_digits(time.take(6)) {
                        Some(
                            date.take(4) + seq!['-'] + date.subrange(4, 6) + seq!['-']
                                + date.subrange(6, 8) + seq![' '] + time.take(2) + seq![':']
                                + time.subrange(2, 4) + seq![':'] + time.subrange(4, 6),
                        )
                    } else {
                        None
                    },
                    None => None,
                }
            }
        },
    }
}

/// The position of the first `c`, if any.
fn first_index_of(s: &Vec<char>, c: char) -> (r: Option<usize>)
    ensures
        match r {
            Some(i) => i < s.len() && s@[i as int] == c && forall|j: int| 0 <= j < i ==> s@[j] != c,
            None => forall|j: int| 0 <= j < s.len() ==> s@[j] != c,
        },
{
    let mut i: usize = 0;
    while i < s.len()
        invariant
            i <= s.len(),
            forall|j: int| 0 <= j < i ==> s@[j] != c,
        decreases s.len() - i,
    {
        if s[i] == c {
            return Some(i);
        }
        i = i + 1;
    }
    None
}

/// The characters `s[a..b]`.
fn chars_between(s: &Vec<char>, a: usize, b: usize) -> (r: Vec<char>)
    requires
        a <= b <= s.len(),
    ensures
        r@ == s@.subrange(a as int, b as int),
{
    let mut r: Vec<char> = Vec::new();
    let mut i = a;
    while i < b
        invariant
            a <= i <= b <= s.len(),
            r@ == s@.subrange(a as int, i as int),
        decreases b - i,
    {
        r.push(s[i]);
        i = i + 1;
        assert(r@ =~= s@.subrange(a as int, i as int));
    }
    r
}

/// Reads the collection time from a must-gather's name.
pub fn normalize_must_gather_timestamp(name: &str) -> (r: Option<String>)
    ensures
        r.deep_view() == collection_time(name@),
{
    let cs = chars_of(name);
    let base = trim_end_matches_chars(
        &trim_end_matches_chars(
            &trim_end_matches_chars(&trim_end_matches_chars(&cs, ".tar.gz"), ".tgz"),
            ".zip",
        ),
        "_unpack",
    );
    let rest = match strip_prefix_chars(&base, "must-gather-") {
        Some(rest) => rest,
        None => {
            return None;
        },
    };
    let parts = split_chars(&rest, '-');
    let ghost ps = parts@.map_values(|p: Vec<char>| p@);
    assert(forall|i: int| 0 <= i < parts.len() ==> #[trigger] ps[i] == parts@[i]@);
    if parts.len() >= 6 && parts[0].len() == 2 && parts[1].len() == 2 && parts[2].len() == 4
        && parts[3].len() == 2 && parts[4].len() == 2 && parts[5].len() == 2 && groups_are_digits(
        &parts,
        6,
    ) {
        assert forall|i: int| 0 <= i < 6 implies only_digits(#[trigger] ps[i]) by {
            assert(ps[i] == parts@[i]@);
        }
        let mut out: Vec<char> = Vec::new();
        extend_chars(&mut out, &parts[2]);
        out.push('-');
        extend_chars(&mut out, &parts[0]);
        out.push('-');
        extend_chars(&mut out, &parts[1]);
        out.push(' ');
        extend_chars(&mut out, &parts[3]);
        out.push(':');
        extend_chars(&mut out, &parts[4]);
        out.push(':');
        extend_chars(&mut out, &parts[5]);
        assert(out@ =~= ps[2] + seq!['-'] + ps[0] + seq!['-'] + ps[1] + seq![' '] + ps[3] + seq![
            ':',
        ] + ps[4] + seq![':'] + ps[5]);
        return Some(chars_to_string(&out));
    }
    assert(!six_digit_groups(ps)) by {
        if six_digit_groups(ps) {
            assert forall|i: int| 0 <= i < 6 implies only_digits(#[trigger] parts@[i]@) by {
                assert(only_digits(ps[i]));
            }
        }
    }
    match first_index_of(&rest, '-') {
        Some(k) => {
            proof {
                let s = rest@;
                assert(exists|i: int| 0 <= i < s.len() && s[i] == '-') by {
                    assert(s[k as int] == '-');
                }
                let i = choose|i: int|
                    0 <= i < s.len() && s[i] == '-' && forall|j: int| 0 <= j < i ==> s[j] != '-';
                assert(i == k) by {
                    if i < k {
                        assert(s[i] != '-');
                    }
                    if i > k {
                        assert(s[k as int] != '-');
                    }
                }
            }
            let date = vec_take(&rest, k);
            let time = vec_skip(&rest, k + 1);
            if date.len() == 8 && time.len() >= 6 && all_ascii_digits(&date) && all_ascii_digits(
                &vec_take(&time, 6),
            ) {
                let mut out: Vec<char> = chars_between(&date, 0, 4);
                out.push('-');
                extend_chars(&mut out, &chars_between(&date, 4, 6));
                out.push('-');
                extend_chars(&mut out, &chars_between(&date, 6, 8));
                out.push(' ');
                extend_chars(&mut out, &chars_between(&time, 0, 2));
                out.push(':');
                extend_chars(&mut out, &chars_between(&time, 2, 4));
                out.push(':');
                extend_chars(&mut out, &chars_between(&time, 4, 6));
                assert(date@.subrange(0, 4) =~= date@.take(4));
                assert(time@.subrange(0, 2) =~= time@.take(2));
                assert(out@ =~= date@.take(4) + seq!['-'] + date@.subrange(4, 6) + seq!['-']
                    + date@.subrange(6, 8) + seq![' '] + time@.take(2) + seq![':']
                    + time@.subrange(2, 4) + seq![':'] + time@.subrange(4, 6));
                Some(chars_to_string(&out))
            } else {
                None
            }
        },
        None => None,
    }
}

// ---------------------------------------------------------------------------
// Times
// ---------------------------------------------------------------------------
/// The civil date `(year, month, day)` of a day counted from 1970-01-01,
/// in the proleptic Gregorian calendar (days in 400-year eras of 146097
/// days, years starting in March inside an era).
pub open spec fn civil_date(days: int) -> (int, int, int) {
    let z = days + 719468;
    let era = z / 146097;
    let doe = z - era * 146097;
    let yoe = (doe - doe / 1460 + doe / 36524 - doe / 146096) / 365;
    let y = yoe + era * 400;
    let doy = doe - (365 * yoe + yoe / 4 - yoe / 100);
    let mp = (5 * doy + 2) / 153;
    let d = doy - (153 * mp + 2) / 5 + 1;
    let m = mp + if mp < 10 {
        3int
    } else {
        -9int
    };
    (y + if m <= 2 {
        1int
    } else {
        0int
    }, m, d)
}

/// The inner parts of the date computation stay in their ranges.
proof fn lemma_civil_ranges(doe: int)
    requires
        0 <= doe < 146097,
    ensures
        0 <= (doe - doe / 1460 + doe / 36524 - doe / 146096) / 365 <= 399,
        ({
            let yoe = (doe - doe / 1460 + doe / 36524 - doe / 146096) / 365;
            let doy = doe - (365 * yoe + yoe / 4 - yoe / 100);
            0 <= doy <= 365
        }),
{
    let yoe = (doe - doe / 1460 + doe / 36524 - doe / 146096) / 365;
    assert(0 <= doe / 1460 <= 100);
    assert(0 <= doe / 36524 <= 4);
    assert(0 <= doe / 146096 <= 1);
    assert(doe - doe / 1460 + doe / 36524 - doe / 146096 >= 0) by (nonlinear_arith)
        requires
            0 <= doe < 146097,
    {
    }
    assert(0 <= yoe <= 399) by (nonlinear_arith)
        requires
            0 <= doe < 146097,
            yoe == (doe - doe / 1460 + doe / 36524 - doe / 146096) / 365,
    {
    }
    let doy = doe - (365 * yoe + yoe / 4 - yoe / 100);
    assert(0 <= doy <= 365) by (nonlinear_arith)
        requires
            0 <= doe < 146097,
            yoe == (doe - doe / 1460 + doe / 36524 - doe / 146096) / 365,
            doy == doe - (365 * yoe + yoe / 4 - yoe / 100),
    {
    }
}

/// The day, counted from 1970-01-01, of a civil date (proleptic Gregorian
/// calendar; years start in March inside 400-year eras).
pub open spec fn days_of_date(y: int, m: int, d: int) -> int {
    let y0 = if m <= 2 {
        y - 1
    } else {
        y
    };
    let era = y0 / 400;
    let yoe = y0 - era * 400;
    let mp = if m > 2 {
        m - 3
    } else {
        m + 9
    };
    let doy = (153 * mp + 2) / 5 + d - 1;
    let doe = yoe * 365 + yoe / 4 - yoe / 100 + doy;
    era * 146097 + doe - 719468
}

/// The date of a day is the date of that day and no other: counting the
/// days to it gives the day back.
pub proof fn lemma_civil_date_round_trip(days: int)
    ensures
        ({
            let (y, m, d) = civil_date(days);
            days_of_date(y, m, d) == days
        }),
{
    let z = days + 719468;
    let era = z / 146097;
    let doe = z - era * 146097;
    vstd::arithmetic::div_mod::lemma_fundamental_div_mod(z, 146097);
    assert(0 <= doe < 146097);
    lemma_civil_ranges(doe);
    let yoe = (doe - doe / 1460 + doe / 36524 - doe / 146096) / 365;
    let doy = doe - (365 * yoe + yoe / 4 - yoe / 100);
    let mp = (5 * doy + 2) / 153;
    assert(0 <= mp <= 11) by (nonlinear_arith)
        requires
            0 <= doy <= 365,
            mp == (5 * doy + 2) / 153,
    {
    }
    let d = doy - (153 * mp + 2) / 5 + 1;
    let m = mp + if mp < 10 {
        3int
    } else {
        -9int
    };
    let y = yoe + era * 400 + if m <= 2 {
        1int
    } else {
        0int
    };
    assert(civil_date(days) == (y, m, d));
    let y0 = if m <= 2 {
        y - 1
    } else {
        y
    };
    assert(y0 == yoe + era * 400);
    assert(y0 / 400 == era) by (nonlinear_arith)
        requires
            y0 == yoe + era * 400,
            0 <= yoe <= 399,
    {
    }
    let mp2 = if m > 2 {
        m - 3
    } else {
        m + 9
    };
    assert(mp2 == mp);
}

/// The civil date of a day counted from 1970-01-01.
pub fn civil_from_days(days_since_epoch: i64) -> (r: (i64, i64, i64))
    requires
        -200_000_000_000_000 <= days_since_epoch <= 200_000_000_000_000,
    ensures
        (r.0 as int, r.1 as int, r.2 as int) == civil_date(days_since_epoch as int),
        1 <= r.1 <= 12,
        1 <= r.2 <= 31,
{
    let z = days_since_epoch + 719_468;
    let era: i64 = if z >= 0 {
        z / 146_097
    } else {
        -((146_096 - z) / 146_097)
    };
    proof {
        let q = (z as int) / 146097;
        let r = (z as int) % 146097;
        vstd::arithmetic::div_mod::lemma_fundamental_div_mod(z as int, 146097);
        assert(z as int == 146097 * q + r && 0 <= r < 146097);
        if z < 0 {
            assert(((146096 - z) as int) / 146097 == -q) by (nonlinear_arith)
                requires
                    z as int == 146097 * q + r,
                    0 <= r < 146097,
            {
                assert(146096 - z == 146097 * (-q) + (146096 - r));
            }
        }
        assert(era == q);
    }
    let doe = z - era * 146_097;
    proof {
        assert(0 <= doe < 146097) by (nonlinear_arith)
            requires
                doe == z - era * 146097,
                era == (z as int) / 146097,
        {
        }
        lemma_civil_ranges(doe as int);
    }
    let yoe = (doe - doe / 1_460 + doe / 36_524 - doe / 146_096) / 365;
    let year = yoe + era * 400;
    let doy = doe - (365 * yoe + yoe / 4 - yoe / 100);
    let mp = (5 * doy + 2) / 153;
    assert(0 <= mp <= 11);
    let day = doy - (153 * mp + 2) / 5 + 1;
    proof {
        assert(1 <= day <= 31) by (nonlinear_arith)
            requires
                0 <= doy <= 365,
                mp == (5 * doy + 2) / 153,
                day == doy - (153 * mp + 2) / 5 + 1,
        {
        }
    }
    let month = mp + if mp < 10 {
        3
    } else {
        -9
    };
    let year = year + if month <= 2 {
        1
    } else {
        0
    };
    (year, month, day)
}

/// Digits padded with leading zeros to `width`.
pub open spec fn zero_padded(digits: Seq<char>, width: nat) -> Seq<char> {
    if digits.len() >= width {
        digits
    } else {
        Seq::new((width - digits.len()) as nat, |i: int| '0') + digits
    }
}

/// An integer as `format!("{:0w$}")` writes it: the sign counts toward the
/// width and the zeros go after it.
pub open spec fn padded_number(n: int, width: nat) -> Seq<char> {
    if n < 0 {
        seq!['-'] + zero_padded(nat_digits((-n) as nat), if width > 0 {
            (width - 1) as nat
        } else {
            0
        })
    } else {
        zero_padded(nat_digits(n as nat), width)
    }
}

/// Writes an integer padded with zeros to `width`.
fn pad_number(n: i64, width: usize) -> (r: String)
    ensures
        r@ == padded_number(n as int, width as nat),
{
    let magnitude: u64 = if n == i64::MIN {
        9223372036854775808
    } else if n < 0 {
        (-n) as u64
    } else {
        n as u64
    };
    let digits = chars_of(u64_to_text(magnitude).as_str());
    assert(digits@ == nat_digits(magnitude as nat));
    let w = if n < 0 && width > 0 {
        width - 1
    } else if n < 0 {
        0
    } else {
        width
    };
    let mut out: Vec<char> = Vec::new();
    if n < 0 {
        out.push('-');
    }
    let ghost start = out@;
    if digits.len() < w {
        let pad = w - digits.len();
        let mut i: usize = 0;
        while i < pad
            invariant
                i <= pad,
                out@ == start + Seq::new(i as nat, |k: int| '0'),
            decreases pad - i,
        {
            out.push('0');
            i = i + 1;
            assert(out@ =~= start + Seq::new(i as nat, |k: int| '0'));
        }
    }
    extend_chars(&mut out, &digits);
    proof {
        if n < 0 {
            assert(start =~= seq!['-']);
        } else {
            assert(start =~= Seq::<char>::empty());
        }
        assert(out@ =~= padded_number(n as int, width as nat));
    }
    chars_to_string(&out)
}

/// A time given in seconds since 1970-01-01 00:00:00 UTC, as
/// `YYYY-MM-DD HH:MM:SS`.
pub open spec fn utc_text(total_seconds: int) -> Seq<char> {
    let days = total_seconds / 86400;
    let secs = total_seconds % 86400;
    let (y, m, d) = civil_date(days);
    padded_number(y, 4) + seq!['-'] + padded_number(m, 2) + seq!['-'] + padded_number(d, 2) + seq![
        ' ',
    ] + padded_number(secs / 3600, 2) + seq![':'] + padded_number((secs % 3600) / 60, 2) + seq![
        ':',
    ] + padded_number(secs % 60, 2)
}

/// Writes a time given in seconds since the epoch (what the modification
/// time of a file gives) as `YYYY-MM-DD HH:MM:SS` in UTC.
pub fn format_system_time_utc(total_seconds: i64) -> (r: String)
    ensures
        r@ == utc_text(total_seconds as int),
{
    let days: i64 = if total_seconds >= 0 {
        total_seconds / 86_400
    } else {
        -(((-(total_seconds + 1)) / 86_400) + 1)
    };
    proof {
        let q = (total_seconds as int) / 86400;
        let r = (total_seconds as int) % 86400;
        vstd::arithmetic::div_mod::lemma_fundamental_div_mod(total_seconds as int, 86400);
        assert(total_seconds as int == 86400 * q + r && 0 <= r < 86400);
        if total_seconds < 0 {
            assert(((-(total_seconds + 1)) as int) / 86400 == -q - 1) by (nonlinear_arith)
                requires
                    total_seconds as int == 86400 * q + r,
                    0 <= r < 86400,
            {
                assert(-(total_seconds + 1) == 86400 * (-q - 1) + (86399 - r));
            }
        }
        assert(days == q);
    }
    let secs: i64 = if total_seconds >= 0 {
        total_seconds % 86_400
    } else {
        86_399 - (-(total_seconds + 1)) % 86_400
    };
    proof {
        let r = (total_seconds as int) % 86400;
        if total_seconds < 0 {
            let a = (-(total_seconds + 1)) as int;
            vstd::arithmetic::div_mod::lemma_fundamental_div_mod(a, 86400);
            vstd::arithmetic::div_mod::lemma_fundamental_div_mod(total_seconds as int, 86400);
            assert(secs == r) by (nonlinear_arith)
                requires
                    a == -(total_seconds + 1),
                    a == 86400 * (a / 86400) + a % 86400,
                    0 <= a % 86400 < 86400,
                    total_seconds == 86400 * (total_seconds as int / 86400) + r,
                    0 <= r < 86400,
                    secs == 86399 - a % 86400,
            {
            }
        }
    }
    let (year, month, day) = civil_from_days(days);
    let hour = secs / 3_600;
    let minute = (secs % 3_600) / 60;
    let second = secs % 60;
    let mut out = pad_number(year, 4);
    out.append("-");
    out.append(pad_number(month, 2).as_str());
    out.append("-");
    out.append(pad_number(day, 2).as_str());
    out.append(" ");
    out.append(pad_number(hour, 2).as_str());
    out.append(":");
    out.append(pad_number(minute, 2).as_str());
    out.append(":");
    out.append(pad_number(second, 2).as_str());
    proof {
        reveal_strlit("-");
        reveal_strlit(" ");
        reveal_strlit(":");
        assert(out@ =~= utc_text(total_seconds as int));
    }
    out
}

// ---------------------------------------------------------------------------
// Searching for the root
// ---------------------------------------------------------------------------
/// How deep below the given directory a root is looked for.
pub const MAX_MUST_GATHER_ROOT_SEARCH_DEPTH: usize = 8;

/// The non-empty `/`-separated components of a path.
pub open spec fn path_components(p: Seq<char>) -> Seq<Seq<char>> {
    split_on(p, '/').filter(|c: Seq<char>| c.len() > 0)
}

/// Paths in order of their components, each compared as text.
pub open spec fn components_lt(a: Seq<Seq<char>>, b: Seq<Seq<char>>) -> bool
    decreases a.len(),
{
    if a.len() == 0 {
        b.len() > 0
    } else if b.len() == 0 {
        false
    } else if a[0] != b[0] {
        text_lt(a[0], b[0])
    } else {
        components_lt(a.drop_first(), b.drop_first())
    }
}

/// `a < b` for paths.
pub open spec fn path_lt(a: Seq<char>, b: Seq<char>) -> bool {
    components_lt(path_components(a), path_components(b))
}

/// The non-empty components of a path.
fn components_of(p: &str) -> (r: Vec<String>)
    ensures
        r.deep_view() == path_components(p@),
{
    let parts = split_chars(&chars_of(p), '/');
    let ghost pv = parts@.map_values(|v: Vec<char>| v@);
    let ghost f = |c: Seq<char>| c.len() > 0;
    let mut out: Vec<String> = Vec::new();
    let mut i: usize = 0;
    assert(pv.take(0) =~= Seq::<Seq<char>>::empty());
    proof {
        reveal(Seq::filter);
    }
    assert(pv.take(0).filter(f) =~= Seq::<Seq<char>>::empty());
    while i < parts.len()
        invariant
            i <= parts.len(),
            pv == parts@.map_values(|v: Vec<char>| v@),
            pv == split_on(p@, '/'),
            out.deep_view() == pv.take(i as int).filter(f),
        decreases parts.len() - i,
    {
        proof {
            reveal(Seq::filter);
            assert(pv.take(i + 1).drop_last() =~= pv.take(i as int));
        }
        assert(pv[i as int] == parts@[i as int]@);
        if parts[i].len() > 0 {
            let t = chars_to_string(&parts[i]);
            let ghost before = out.deep_view();
            out.push(t);
            assert(out.deep_view() =~= before.push(pv[i as int]));
        }
        i = i + 1;
    }
    assert(pv.take(parts.len() as int) =~= pv);
    out
}

/// Whether path `a` comes before path `b`.
pub fn path_less(a: &str, b: &str) -> (r: bool)
    ensures
        r == path_lt(a@, b@),
{
    let x = components_of(a);
    let y = components_of(b);
    let ghost xv = x.deep_view();
    let ghost yv = y.deep_view();
    let mut i: usize = 0;
    assert(xv.skip(0) =~= xv);
    assert(yv.skip(0) =~= yv);
    while i < x.len() && i < y.len() && str_eq(x[i].as_str(), y[i].as_str())
        invariant
            i <= x.len(),
            i <= y.len(),
            xv == x.deep_view(),
            yv == y.deep_view(),
            components_lt(xv, yv) == components_lt(xv.skip(i as int), yv.skip(i as int)),
        decreases x.len() - i,
    {
        assert(xv.skip(i as int).drop_first() =~= xv.skip(i + 1));
        assert(yv.skip(i as int).drop_first() =~= yv.skip(i + 1));
        assert(xv.skip(i as int)[0] == x@[i as int]@);
        assert(yv.skip(i as int)[0] == y@[i as int]@);
        i = i + 1;
    }
    if i == x.len() {
        i < y.len()
    } else if i == y.len() {
        false
    } else {
        assert(xv.skip(i as int)[0] == x@[i as int]@);
        assert(yv.skip(i as int)[0] == y@[i as int]@);
        text_less(x[i].as_str(), y[i].as_str())
    }
}

/// A candidate root: its depth, its score and its path.
pub type RootCandidate = (usize, u8, Seq<char>);

/// A candidate is better than the best so far when it scores higher, or
/// scores the same and lies shallower, or lies as deep with an earlier path.
pub open spec fn better_root(c: RootCandidate, best: Option<RootCandidate>) -> bool {
    match best {
        None => true,
        Some(b) => c.1 > b.1 || (c.1 == b.1 && (c.0 < b.0 || (c.0 == b.0 && path_lt(c.2, b.2)))),
    }
}

/// One more than a depth, kept at the largest depth (`saturating_add`).
pub open spec fn one_deeper(depth: usize) -> int {
    if depth == usize::MAX {
        depth as int
    } else {
        depth + 1
    }
}

/// One more than a depth, kept at the largest depth.
fn one_deeper_of(depth: usize) -> (r: usize)
    ensures
        r == one_deeper(depth),
{
    if depth == usize::MAX {
        depth
    } else {
        depth + 1
    }
}

/// The search stops once it reaches a depth more than one below the best.
pub open spec fn past_best(depth: usize, best: Option<RootCandidate>) -> bool {
    match best {
        Some(b) => depth > one_deeper(b.0),
        None => false,
    }
}

/// A directory is not looked into when it is at the depth limit, or one
/// below the best root found.
pub open spec fn stops_at(depth: usize, best: Option<RootCandidate>) -> bool {
    depth >= MAX_MUST_GATHER_ROOT_SEARCH_DEPTH || match best {
        Some(b) => depth >= one_deeper(b.0),
        None => false,
    }
}

/// What to do with a visited directory.
#[derive(Debug, Clone, Copy, PartialEq, Eq, Structural)]
pub enum RootDecision {
    /// It is a complete must-gather: it is the root.
    Found,
    /// Look into its subdirectories.
    Expand,
    /// Go on with the next directory.
    Skip,
}

/// A breadth-first search for the root of a must-gather: the directories
/// still to visit with their depths, the directories visited, and the best
/// root found so far. The reading of directories is the caller's part.
#[derive(Debug)]
pub struct RootSearch {
    queue: Vec<(String, usize)>,
    visited: Vec<String>,
    best: Option<(usize, u8, String)>,
}

impl RootSearch {
    /// The directories still to visit, in order.
    pub closed spec fn pending(self) -> Seq<(Seq<char>, usize)> {
        self.queue.deep_view()
    }

    /// The directories visited so far.
    pub closed spec fn seen(self) -> Seq<Seq<char>> {
        self.visited.deep_view()
    }

    /// The best root found so far.
    pub closed spec fn best_root(self) -> Option<RootCandidate> {
        match self.best {
            Some(b) => Some((b.0, b.1, b.2@)),
            None => None,
        }
    }

    /// A search that starts at `path`.
    pub fn new(path: &str) -> (r: RootSearch)
        ensures
            r.pending() == seq![(path@, 0usize)],
            r.seen().len() == 0,
            r.best_root() is None,
    {
        let mut queue: Vec<(String, usize)> = Vec::new();
        queue.push((String::from_str(path), 0));
        let r = RootSearch { queue, visited: Vec::new(), best: None };
        assert(r.queue.deep_view() =~= seq![(path@, 0usize)]);
        assert(r.visited.deep_view() =~= Seq::<Seq<char>>::empty());
        r
    }

    /// The next directory to visit, or none when the queue is empty or the
    /// search has gone more than one level below the best root.
    pub fn next_candidate(&mut self) -> (r: Option<(String, usize)>)
        ensures
            final(self).seen() == old(self).seen(),
            final(self).best_root() == old(self).best_root(),
            old(self).pending().len() == 0 ==> r is None && final(self).pending() == old(
                self,
            ).pending(),
            old(self).pending().len() > 0 ==> {
                let (c, d) = old(self).pending()[0];
                if past_best(d, old(self).best_root()) {
                    r is None
                } else {
                    r matches Some(x) && x.0@ == c && x.1 == d && final(self).pending() == old(
                        self,
                    ).pending().drop_first()
                }
            },
    {
        if self.queue.len() == 0 {
            return None;
        }
        let depth = self.queue[0].1;
        let stop = match &self.best {
            Some(b) => depth > one_deeper_of(b.0),
            None => false,
        };
        if stop {
            return None;
        }
        let ghost before = self.queue@;
        let (c, d) = self.queue.remove(0);
        assert(self.queue@ =~= before.drop_first());
        assert(self.queue.deep_view() =~= old(self).queue.deep_view().drop_first());
        Some((c, d))
    }

    /// Records the visit of a directory under its canonical key; false when
    /// it was visited before.
    pub fn first_visit(&mut self, key: &str) -> (r: bool)
        ensures
            r == !old(self).seen().contains(key@),
            final(self).seen() == (if r {
                old(self).seen().push(key@)
            } else {
                old(self).seen()
            }),
            final(self).pending() == old(self).pending(),
            final(self).best_root() == old(self).best_root(),
    {
        let mut i: usize = 0;
        while i < self.visited.len()
            invariant
                i <= self.visited.len(),
                forall|k: int| 0 <= k < i ==> self.visited.deep_view()[k] != key@,
            decreases self.visited.len() - i,
        {
            if str_eq(self.visited[i].as_str(), key) {
                assert(self.visited.deep_view()[i as int] == key@);
                return false;
            }
            i = i + 1;
        }
        let ghost before = self.visited.deep_view();
        self.visited.push(String::from_str(key));
        assert(self.visited.deep_view() =~= before.push(key@));
        true
    }

    /// Records the score of a visited directory: it becomes the best root
    /// when it scores and beats the best so far; it is the root when it
    /// scores 8; else its subdirectories are looked into unless it is too
    /// deep.
    pub fn record(&mut self, candidate: &str, depth: usize, score: u8) -> (r: RootDecision)
        ensures
            final(self).best_root() == (if score > 0 && better_root(
                (depth, score, candidate@),
                old(self).best_root(),
            ) {
                Some((depth, score, candidate@))
            } else {
                old(self).best_root()
            }),
            r == (if score > 0 && score == 8 {
                RootDecision::Found
            } else if stops_at(depth, final(self).best_root()) {
                RootDecision::Skip
            } else {
                RootDecision::Expand
            }),
            final(self).pending() == old(self).pending(),
            final(self).seen() == old(self).seen(),
    {
        if score > 0 {
            let replace = match &self.best {
                Some(b) => score > b.1 || (score == b.1 && (depth < b.0 || (depth == b.0
                    && path_less(candidate, b.2.as_str())))),
                None => true,
            };
            if replace {
                self.best = Some((depth, score, String::from_str(candidate)));
            }
            if score == 8 {
                return RootDecision::Found;
            }
        }
        let stop = depth >= MAX_MUST_GATHER_ROOT_SEARCH_DEPTH || match &self.best {
            Some(b) => depth >= one_deeper_of(b.0),
            None => false,
        };
        if stop {
            RootDecision::Skip
        } else {
            RootDecision::Expand
        }
    }

    /// Adds the subdirectories of a directory at `depth` to the end of the
    /// queue, one level deeper.
    pub fn enqueue(&mut self, children: Vec<String>, depth: usize)
        requires
            depth < usize::MAX,
        ensures
            final(self).pending() == old(self).pending() + children.deep_view().map_values(
                |c: Seq<char>| (c, (depth + 1) as usize),
            ),
            final(self).seen() == old(self).seen(),
            final(self).best_root() == old(self).best_root(),
    {
        let ghost start = self.queue.deep_view();
        let ghost cv = children.deep_view();
        let ghost f = |c: Seq<char>| (c, (depth + 1) as usize);
        let mut i: usize = 0;
        while i < children.len()
            invariant
                i <= children.len(),
                cv == children.deep_view(),
                self.visited == old(self).visited,
                self.best == old(self).best,
                self.queue.deep_view() == start + cv.take(i as int).map_values(f),
            decreases children.len() - i,
        {
            let ghost before = self.queue.deep_view();
            self.queue.push((copy_string(&children[i]), depth + 1));
            proof {
                assert(cv[i as int] == children@[i as int]@);
                assert(cv.take(i + 1).map_values(f) =~= cv.take(i as int).map_values(f).push(
                    f(cv[i as int]),
                ));
                assert(self.queue.deep_view() =~= before.push((cv[i as int], (depth + 1) as usize)));
            }
            i = i + 1;
        }
        proof {
            assert(cv.take(children.len() as int) =~= cv);
        }
    }

    /// The root found: the best candidate, if any.
    pub fn result(self) -> (r: Option<String>)
        ensures
            match self.best_root() {
                Some(b) => r matches Some(p) && p@ == b.2,
                None => r is None,
            },
    {
        match self.best {
            Some(b) => Some(b.2),
            None => None,
        }
    }
}

// ---------------------------------------------------------------------------
// Claims
// ---------------------------------------------------------------------------
/// The manifest made up for a claim known only from its volume.
pub open spec fn synthetic_claim_manifest(
    name: Seq<char>,
    namespace: Seq<char>,
    volume: Seq<char>,
    storage_class: Option<Seq<char>>,
    capacity: Option<Seq<char>>,
) -> ManifestView {
    let text = synthetic_claim_text(name, namespace, volume, storage_class, capacity);
    ManifestView {
        name,
        raw: text.push('\n'),
        yaml: match yaml_documents(text) {
            Ok(docs) => if docs.len() > 0 {
                Some(docs[0])
            } else {
                None
            },
            Err(_) => None,
        },
    }
}

/// What a claim known only from its volume yields.
pub open spec fn synthetic_claim_view(
    name: Seq<char>,
    namespace: Seq<char>,
    volume: Seq<char>,
    storage_class: Option<Seq<char>>,
    capacity: Option<Seq<char>>,
) -> SnapshotView {
    pvc_view(
        synthetic_claim_manifest(name, namespace, volume, storage_class, capacity),
        Some(namespace),
        "Bound"@,
        Some(volume),
        storage_class,
        capacity,
        Seq::empty(),
    )
}

/// The claims the volumes name as `namespace/name` in their `claim_ref`,
/// each made up as a bound claim, in the order of the volumes.
pub open spec fn claims_from_volumes(pvs: Seq<SnapshotView>) -> Seq<SnapshotView>
    decreases pvs.len(),
{
    if pvs.len() == 0 {
        Seq::empty()
    } else {
        let init = claims_from_volumes(pvs.drop_last());
        let pv = pvs.last();
        match lookup_field(pv.key_fields, "claim_ref"@) {
            Some(cr) => match split_once_at(cr, '/') {
                Some((ns, name)) => init.push(
                    synthetic_claim_view(
                        name,
                        ns,
                        pv.name,
                        lookup_field(pv.key_fields, "storage_class"@),
                        lookup_field(pv.key_fields, "capacity"@),
                    ),
                ),
                None => init,
            },
            None => init,
        }
    }
}

/// The claims made up from the volumes that name one.
pub fn claims_from_pvs(pvs: &Vec<ResourceSnapshot>) -> (r: Vec<ResourceSnapshot>)
    ensures
        r.deep_view() == claims_from_volumes(pvs.deep_view()),
{
    let ghost pv = pvs.deep_view();
    let mut out: Vec<ResourceSnapshot> = Vec::new();
    let mut i: usize = 0;
    assert(pv.take(0) =~= Seq::<SnapshotView>::empty());
    while i < pvs.len()
        invariant
            i <= pvs.len(),
            pv == pvs.deep_view(),
            out.deep_view() == claims_from_volumes(pv.take(i as int)),
        decreases pvs.len() - i,
    {
        let v = &pvs[i];
        assert(pv[i as int] == v@);
        assert(pv.take(i + 1).drop_last() =~= pv.take(i as int));
        match get_field(&v.key_fields, "claim_ref") {
            Some(cr) => {
                let cs = chars_of(cr.as_str());
                match first_index_of(&cs, '/') {
                    Some(k) => {
                        proof {
                            let s = cs@;
                            assert(exists|i: int| 0 <= i < s.len() && s[i] == '/') by {
                                assert(s[k as int] == '/');
                            }
                            let j = choose|j: int|
                                0 <= j < s.len() && s[j] == '/' && forall|l: int|
                                    0 <= l < j ==> s[l] != '/';
                            assert(j == k) by {
                                if j < k {
                                    assert(s[j] != '/');
                                }
                                if j > k {
                                    assert(s[k as int] != '/');
                                }
                            }
                        }
                        let ns = chars_to_string(&vec_take(&cs, k));
                        let name = chars_to_string(&vec_skip(&cs, k + 1));
                        let sc = match get_field(&v.key_fields, "storage_class") {
                            Some(x) => Some(copy_string(x)),
                            None => None,
                        };
                        let cap = match get_field(&v.key_fields, "capacity") {
                            Some(x) => Some(copy_string(x)),
                            None => None,
                        };
                        let claim = PersistentVolumeClaim::synthetic_bound(
                            name,
                            ns,
                            copy_string(&v.name),
                            sc,
                            cap,
                        );
                        let snap = claim.snapshot();
                        let ghost before = out.deep_view();
                        out.push(snap);
                        assert(out.deep_view() =~= before.push(snap@));
                    },
                    None => {
                        proof {
                            let s = cs@;
                            assert(!(exists|i: int| 0 <= i < s.len() && s[i] == '/'));
                        }
                    },
                }
            },
            None => {},
        }
        i = i + 1;
    }
    assert(pv.take(pvs.len() as int) =~= pv);
    out
}

/// The list without a resource that has the name and namespace of the one
/// kept just before it (`Vec::dedup_by`).
pub open spec fn without_repeats(s: Seq<SnapshotView>) -> Seq<SnapshotView>
    decreases s.len(),
{
    if s.len() == 0 {
        Seq::empty()
    } else {
        let init = without_repeats(s.drop_last());
        if init.len() > 0 && init.last().name == s.last().name && init.last().namespace
            == s.last().namespace {
            init
        } else {
            init.push(s.last())
        }
    }
}

/// Drops each resource that has the name and namespace of the one kept
/// just before it.
pub fn dedup_by_name_and_namespace(v: Vec<ResourceSnapshot>) -> (r: Vec<ResourceSnapshot>)
    ensures
        r.deep_view() == without_repeats(v.deep_view()),
{
    let ghost all = v.deep_view();
    let mut rest = v;
    let mut out: Vec<ResourceSnapshot> = Vec::new();
    let ghost mut k: int = 0;
    assert(all.take(0) =~= Seq::<SnapshotView>::empty());
    assert(all.skip(0) =~= all);
    while rest.len() > 0
        invariant
            0 <= k <= all.len(),
            rest.deep_view() == all.skip(k),
            out.deep_view() == without_repeats(all.take(k)),
        decreases rest.len(),
    {
        let ghost before_rest = rest@;
        assert(rest.deep_view()[0] == all[k]);
        let item = rest.remove(0);
        assert(rest@ =~= before_rest.drop_first());
        assert forall|j: int| 0 <= j < rest.deep_view().len() implies #[trigger] rest.deep_view()[j]
            == all.skip(k + 1)[j] by {
            assert(rest@[j] == before_rest[j + 1]);
            assert(all.skip(k)[j + 1] == before_rest[j + 1].deep_view());
        }
        assert(rest.deep_view() =~= all.skip(k + 1));
        assert(all.take(k + 1).drop_last() =~= all.take(k));
        let n = out.len();
        let repeat = n > 0 && str_eq(out[n - 1].name.as_str(), item.name.as_str()) && match (
            &out[n - 1].namespace,
            &item.namespace,
        ) {
            (Some(a), Some(b)) => str_eq(a.as_str(), b.as_str()),
            (None, None) => true,
            _ => false,
        };
        proof {
            if n > 0 {
                assert(out.deep_view().last() == out@[n - 1]@);
            }
        }
        if !repeat {
            let ghost before = out.deep_view();
            let ghost iv = item@;
            out.push(item);
            assert(out.deep_view() =~= before.push(iv));
        }
        proof {
            k = k + 1;
        }
    }
    assert(all.take(k) =~= all);
    out
}

/// The claims of a must-gather: those read, or when none was read those
/// made up from the volumes; sorted by name, each name and namespace kept
/// once.
pub fn finish_claims(read: Vec<ResourceSnapshot>, pvs: &Vec<ResourceSnapshot>) -> (r: Vec<
    ResourceSnapshot,
>)
    ensures
        exists|sorted: Seq<SnapshotView>|
            sorted.to_multiset() == (if read@.len() == 0 {
                claims_from_volumes(pvs.deep_view())
            } else {
                read.deep_view()
            }).to_multiset() && resources_sorted(ResourceOrder::Name, sorted) && r.deep_view()
                == without_repeats(sorted),
{
    let all = if read.len() == 0 {
        claims_from_pvs(pvs)
    } else {
        read
    };
    let sorted = sort_resources(all, ResourceOrder::Name);
    let ghost sv = sorted.deep_view();
    let r = dedup_by_name_and_namespace(sorted);
    assert(r.deep_view() == without_repeats(sv));
    r
}

// ---------------------------------------------------------------------------
// Namespaces
// ---------------------------------------------------------------------------
/// The first manifest of the list with the name.
pub open spec fn first_named(ms: Seq<ManifestView>, name: Seq<char>) -> Option<ManifestView>
    decreases ms.len(),
{
    if ms.len() == 0 {
        None
    } else if ms[0].name == name {
        Some(ms[0])
    } else {
        first_named(ms.drop_first(), name)
    }
}

/// The manifest a namespace is read from: `<ns>/<ns>.yaml`, else
/// `<ns>/core/namespaces/<ns>.yaml`, else the one of that name among the
/// files of `<ns>/core/namespaces/`, else the one of that name in the list
/// `<ns>/core/namespaces.yaml`.
pub open spec fn namespace_source(
    name: Seq<char>,
    direct: Option<ManifestView>,
    legacy: Option<ManifestView>,
    in_dir: Seq<ManifestView>,
    in_list: Seq<ManifestView>,
) -> Option<ManifestView> {
    match direct {
        Some(m) => Some(m),
        None => match legacy {
            Some(m) => Some(m),
            None => match first_named(in_dir, name) {
                Some(m) => Some(m),
                None => first_named(in_list, name),
            },
        },
    }
}

/// The view of an optional manifest.
pub open spec fn opt_manifest_view(m: Option<Manifest>) -> Option<ManifestView> {
    match m {
        Some(x) => Some(x@),
        None => None,
    }
}

/// Takes the first manifest of the list with the name.
fn take_named(ms: Vec<Manifest>, name: &str) -> (r: Option<Manifest>)
    ensures
        opt_manifest_view(r) == first_named(ms@.map_values(|m: Manifest| m@), name@),
{
    let ghost mv = ms@.map_values(|m: Manifest| m@);
    let mut ms = ms;
    let mut i: usize = 0;
    assert(mv.skip(0) =~= mv);
    while i < ms.len()
        invariant
            i <= ms.len(),
            mv == ms@.map_values(|m: Manifest| m@),
            first_named(mv, name@) == first_named(mv.skip(i as int), name@),
        decreases ms.len() - i,
    {
        assert(mv.skip(i as int)[0] == ms@[i as int]@);
        assert(mv.skip(i as int).drop_first() =~= mv.skip(i + 1));
        if str_eq(ms[i].name.as_str(), name) {
            let m = ms.remove(i);
            return Some(m);
        }
        i = i + 1;
    }
    None
}

/// The namespace of the given name, read from the first manifest found for
/// it, or known by its name only when there is none.
pub fn resolve_namespace(
    name: &str,
    direct: Option<Manifest>,
    legacy: Option<Manifest>,
    in_dir: Vec<Manifest>,
    in_list: Vec<Manifest>,
) -> (r: Namespace)
    ensures
        match namespace_source(
            name@,
            opt_manifest_view(direct),
            opt_manifest_view(legacy),
            in_dir@.map_values(|m: Manifest| m@),
            in_list@.map_values(|m: Manifest| m@),
        ) {
            Some(m) => r.manifest_view() == m && r.phase_view() == namespace_phase(m),
            None => r.manifest_view().name == name@ && r.manifest_view().raw == name@
                && r.manifest_view().yaml is None && r.phase_view() == "Active"@,
        },
{
    match direct {
        Some(m) => {
            return Namespace::from(m);
        },
        None => {},
    }
    match legacy {
        Some(m) => {
            return Namespace::from(m);
        },
        None => {},
    }
    match take_named(in_dir, name) {
        Some(m) => {
            return Namespace::from(m);
        },
        None => {},
    }
    match take_named(in_list, name) {
        Some(m) => Namespace::from(m),
        None => Namespace::new(String::from_str(name)),
    }
}

// ---------------------------------------------------------------------------
// Instances of custom resources
// ---------------------------------------------------------------------------
/// Whether the instances of a custom resource are looked for among the
/// cluster-scoped resources: unless its scope is `Namespaced`.
pub open spec fn searches_cluster_scope(scope: Option<Seq<char>>) -> bool {
    or_text(scope, ""@) != "Namespaced"@
}

/// Whether the instances of a custom resource are looked for in the
/// namespaces: unless its scope is `Cluster`.
pub open spec fn searches_namespaces(scope: Option<Seq<char>>) -> bool {
    or_text(scope, ""@) != "Cluster"@
}

/// Where to look for the instances of a custom resource.
pub fn instance_scopes(scope: &Option<String>) -> (r: (bool, bool))
    ensures
        r.0 == searches_cluster_scope(scope.deep_view()),
        r.1 == searches_namespaces(scope.deep_view()),
{
    proof {
        reveal_strlit("");
    }
    match scope {
        Some(s) => (!str_eq(s.as_str(), "Namespaced"), !str_eq(s.as_str(), "Cluster")),
        None => {
            let empty = "";
            (!str_eq(empty, "Namespaced"), !str_eq(empty, "Cluster"))
        },
    }
}

/// The link to an instance of a custom resource read from its manifest:
/// none when it has no usable name; its kind is the manifest's, else the
/// resource's; its namespace the manifest's, else the one it was found in.
pub open spec fn instance_link(
    m: ManifestView,
    default_kind: Seq<char>,
    fallback_namespace: Option<Seq<char>>,
) -> Option<ResourceLinkView> {
    if m.name.len() == 0 || m.name == "Unknown"@ {
        None
    } else {
        Some(
            ResourceLinkView {
                kind: or_text(text_of(m, seq!["kind"@]), default_kind),
                name: m.name,
                namespace: match crate::manifest::metadata_str(m, "namespace"@) {
                    Some(ns) => Some(ns),
                    None => fallback_namespace,
                },
                relationship: RelationshipType::References,
            },
        )
    }
}

/// The link to an instance of a custom resource, if it has a usable name.
pub fn instance_link_of(m: &Manifest, default_kind: &str, fallback_namespace: &Option<String>) -> (r:
    Option<ResourceLink>)
    ensures
        r.deep_view() == instance_link(m@, default_kind@, fallback_namespace.deep_view()),
{
    proof {
        reveal_strlit("Unknown");
    }
    if m.name.as_str().unicode_len() == 0 || str_eq(m.name.as_str(), "Unknown") {
        return None;
    }
    let kind = match crate::kinds::text_at(m, &crate::kinds::keys1("kind")) {
        Some(k) => k,
        None => String::from_str(default_kind),
    };
    let namespace = match m.namespace() {
        Some(ns) => Some(ns),
        None => copy_opt_string(fallback_namespace),
    };
    Some(
        ResourceLink {
            kind,
            name: copy_string(&m.name),
            namespace,
            relationship: RelationshipType::References,
        },
    )
}

/// A link with the same kind, name and namespace is in the list.
pub open spec fn has_instance_link(links: Seq<ResourceLinkView>, l: ResourceLinkView) -> bool {
    exists|i: int|
        0 <= i < links.len() && (#[trigger] links[i]).kind == l.kind && links[i].name == l.name
            && links[i].namespace == l.namespace
}

/// Adds a link unless one with the same kind, name and namespace is there.
pub fn add_instance_link(links: &mut Vec<ResourceLink>, link: ResourceLink)
    ensures
        final(links).deep_view() == (if has_instance_link(old(links).deep_view(), link@) {
            old(links).deep_view()
        } else {
            old(links).deep_view().push(link@)
        }),
{
    let ghost lv = links.deep_view();
    let mut i: usize = 0;
    while i < links.len()
        invariant
            i <= links.len(),
            lv == links.deep_view(),
            links.deep_view() == old(links).deep_view(),
            forall|k: int|
                0 <= k < i ==> !((#[trigger] lv[k]).kind == link@.kind && lv[k].name == link@.name
                    && lv[k].namespace == link@.namespace),
        decreases links.len() - i,
    {
        let same_ns = match (&links[i].namespace, &link.namespace) {
            (Some(a), Some(b)) => str_eq(a.as_str(), b.as_str()),
            (None, None) => true,
            _ => false,
        };
        if str_eq(links[i].kind.as_str(), link.kind.as_str()) && str_eq(
            links[i].name.as_str(),
            link.name.as_str(),
        ) && same_ns {
            assert(lv[i as int] == links@[i as int]@);
            return;
        }
        assert(lv[i as int] == links@[i as int]@);
        i = i + 1;
    }
    let ghost l = link@;
    links.push(link);
    assert(links.deep_view() =~= lv.push(l));
}

} // verus!
