//! Registry discovery data and version comparison. Fetching registries is
//! transport work done outside the library; deciding which of two version
//! strings is newer, and merging plugin lists from several registries, is
//! done here.

use vstd::prelude::*;
use vstd::string::StrSliceExecFns;
use crate::extensions::dup_strings;
use crate::value::str_eq;

verus! {

/// A plugin as a remote registry describes it.
pub struct RegistryPlugin {
    pub id: String,
    pub name: String,
    pub author: String,
    pub repository: String,
    pub latest_version: String,
    pub description: String,
    pub category: Option<String>,
    pub verified: bool,
    pub downloads: u64,
    pub tags: Option<Vec<String>>,
    pub license: Option<String>,
    pub min_core_version: Option<String>,
    pub max_core_version: Option<String>,
    pub api_version: Option<String>,
}

/// The same record in the shape handed to the frontend.
pub struct RegistryPluginInfo {
    pub id: String,
    pub name: String,
    pub author: String,
    pub repository: String,
    pub latest_version: String,
    pub description: String,
    pub category: Option<String>,
    pub verified: bool,
    pub downloads: u64,
    pub tags: Option<Vec<String>>,
    pub license: Option<String>,
    pub min_core_version: Option<String>,
    pub max_core_version: Option<String>,
    pub api_version: Option<String>,
}

fn dup_opt_string(v: &Option<String>) -> (r: Option<String>)
    ensures
        r == *v,
{
    match v {
        Some(s) => Some(s.clone()),
        None => None,
    }
}

/// Copies a registry record into the frontend shape, field for field.
pub fn registry_plugin_to_info(plugin: &RegistryPlugin) -> (r: RegistryPluginInfo)
    ensures
        r.id == plugin.id,
        r.name == plugin.name,
        r.author == plugin.author,
        r.repository == plugin.repository,
        r.latest_version == plugin.latest_version,
        r.description == plugin.description,
        r.category == plugin.category,
        r.verified == plugin.verified,
        r.downloads == plugin.downloads,
        (r.tags is Some) == (plugin.tags is Some),
        r.tags matches Some(t) ==> (plugin.tags matches Some(pt) && t@ == pt@),
        r.license == plugin.license,
        r.min_core_version == plugin.min_core_version,
        r.max_core_version == plugin.max_core_version,
        r.api_version == plugin.api_version,
{
    RegistryPluginInfo {
        id: plugin.id.clone(),
        name: plugin.name.clone(),
        author: plugin.author.clone(),
        repository: plugin.repository.clone(),
        latest_version: plugin.latest_version.clone(),
        description: plugin.description.clone(),
        category: dup_opt_string(&plugin.category),
        verified: plugin.verified,
        downloads: plugin.downloads,
        tags: match &plugin.tags {
            Some(t) => Some(dup_strings(t)),
            None => None,
        },
        license: dup_opt_string(&plugin.license),
        min_core_version: dup_opt_string(&plugin.min_core_version),
        max_core_version: dup_opt_string(&plugin.max_core_version),
        api_version: dup_opt_string(&plugin.api_version),
    }
}

/// An ASCII digit.
pub open spec fn is_digit_char(c: char) -> bool {
    '0' <= c && c <= '9'
}

/// The numeric value of a digit string.
pub open spec fn spec_digits_val(s: Seq<char>) -> int
    decreases s.len(),
{
    if s.len() == 0 {
        0
    } else {
        spec_digits_val(s.drop_last()) * 10 + (s.last() as int - '0' as int)
    }
}

/// A non-empty digit string within the 32-bit range reads as its value.
pub open spec fn spec_parse_digits(s: Seq<char>) -> Option<u32> {
    if s.len() > 0 && (forall|i: int| 0 <= i < s.len() ==> is_digit_char(#[trigger] s[i]))
        && spec_digits_val(s) <= u32::MAX {
        Some(spec_digits_val(s) as u32)
    } else {
        None
    }
}

/// How a version segment is read: an optional leading plus sign, then a
/// non-empty digit string within the 32-bit range; anything else is skipped.
pub open spec fn spec_parse_u32(s: Seq<char>) -> Option<u32> {
    if s.len() > 0 && s[0] == '+' {
        spec_parse_digits(s.drop_first())
    } else {
        spec_parse_digits(s)
    }
}

proof fn lemma_digits_val_nonneg(s: Seq<char>)
    requires
        forall|i: int| 0 <= i < s.len() ==> is_digit_char(#[trigger] s[i]),
    ensures
        spec_digits_val(s) >= 0,
    decreases s.len(),
{
    if s.len() > 0 {
        lemma_digits_val_nonneg(s.drop_last());
        assert(forall|i: int|
            0 <= i < s.len() - 1 ==> is_digit_char(#[trigger] s.drop_last()[i]));
    }
}

/// Reads a version segment as a 32-bit number; anything else reads as
/// nothing.
pub fn parse_u32(s: &str) -> (r: Option<u32>)
    ensures
        r == spec_parse_u32(s@),
{
    let n = s.unicode_len();
    if n == 0 {
        return None;
    }
    if s.get_char(0) == '+' {
        let body = s.substring_char(1, n);
        proof {
            assert(body@ =~= s@.drop_first());
        }
        return parse_digits(body);
    }
    parse_digits(s)
}

fn parse_digits(s: &str) -> (r: Option<u32>)
    ensures
        r == spec_parse_digits(s@),
{
    let n = s.unicode_len();
    if n == 0 {
        return None;
    }
    let mut acc: u64 = 0;
    let mut i: usize = 0;
    while i < n
        invariant
            i <= n,
            n == s@.len(),
            forall|j: int| 0 <= j < i ==> is_digit_char(#[trigger] s@[j]),
            acc == spec_digits_val(s@.subrange(0, i as int)),
            acc <= u32::MAX,
        decreases n - i,
    {
        let c = s.get_char(i);
        if !('0' <= c && c <= '9') {
            return None;
        }
        let d = (c as u32) - ('0' as u32);
        proof {
            lemma_digits_val_nonneg(s@.subrange(0, i as int));
        }
        let next: u64 = acc * 10 + (d as u64);
        proof {
            let sub1 = s@.subrange(0, i as int + 1);
            assert(sub1.drop_last() =~= s@.subrange(0, i as int));
            assert(sub1.last() == s@[i as int]);
        }
        if next > 0xffff_ffff {
            proof {
                if forall|j: int| 0 <= j < s@.len() ==> is_digit_char(#[trigger] s@[j]) {
                    lemma_digits_val_prefix_monotone(s@, i as int + 1);
                }
            }
            return None;
        }
        acc = next;
        i += 1;
    }
    proof {
        assert(s@.subrange(0, n as int) =~= s@);
    }
    Some(acc as u32)
}

proof fn lemma_digits_val_prefix_monotone(s: Seq<char>, k: int)
    requires
        0 <= k <= s.len(),
        forall|i: int| 0 <= i < s.len() ==> is_digit_char(#[trigger] s[i]),
    ensures
        spec_digits_val(s) >= spec_digits_val(s.subrange(0, k)),
    decreases s.len() - k,
{
    if k < s.len() {
        lemma_digits_val_prefix_monotone(s, k + 1);
        let a = s.subrange(0, k);
        let b = s.subrange(0, k + 1);
        assert(b.drop_last() =~= a);
        lemma_digits_val_nonneg(a);
        assert(spec_digits_val(b) == spec_digits_val(a) * 10 + (b.last() as int - '0' as int));
        assert(spec_digits_val(b) >= spec_digits_val(a));
    } else {
        assert(s.subrange(0, k) =~= s);
    }
}

/// Length of the maximal dot-free run at the head.
pub open spec fn spec_seg_len(s: Seq<char>) -> int
    decreases s.len(),
{
    if s.len() == 0 || s[0] == '.' {
        0
    } else {
        1 + spec_seg_len(s.drop_first())
    }
}

/// The dot-separated segments of a string, empty segments dropped.
pub open spec fn spec_dot_segments(s: Seq<char>) -> Seq<Seq<char>>
    decreases s.len(),
{
    if s.len() == 0 {
        Seq::empty()
    } else if s[0] == '.' {
        spec_dot_segments(s.drop_first())
    } else {
        let k = spec_seg_len(s);
        if 1 <= k <= s.len() {
            seq![s.subrange(0, k)] + spec_dot_segments(s.skip(k))
        } else {
            Seq::empty()
        }
    }
}

proof fn lemma_seg_len_bounds(s: Seq<char>)
    ensures
        0 <= spec_seg_len(s) <= s.len(),
    decreases s.len(),
{
    if s.len() > 0 && s[0] != '.' {
        lemma_seg_len_bounds(s.drop_first());
    }
}

proof fn lemma_seg_len_eq(s: Seq<char>, k: int)
    requires
        0 <= k <= s.len(),
        forall|i: int| 0 <= i < k ==> (#[trigger] s[i]) != '.',
        k == s.len() || s[k] == '.',
    ensures
        spec_seg_len(s) == k,
    decreases s.len(),
{
    if k > 0 {
        lemma_seg_len_eq(s.drop_first(), k - 1);
    }
}

fn dot_at(s: &str, j: usize) -> (r: bool)
    requires
        j < s@.len(),
    ensures
        r == (s@[j as int] == '.'),
{
    s.get_char(j) == '.'
}

fn dot_segments_from(s: &str, i: usize) -> (r: Vec<String>)
    requires
        i <= s@.len(),
    ensures
        r.deep_view() == spec_dot_segments(s@.skip(i as int)),
    decreases s@.len() - i,
{
    let n = s.unicode_len();
    if i == n {
        proof {
            assert(s@.skip(i as int) =~= Seq::<char>::empty());
        }
        return Vec::new();
    }
    if s.get_char(i) == '.' {
        let r = dot_segments_from(s, i + 1);
        proof {
            assert(s@.skip(i as int).drop_first() =~= s@.skip(i as int + 1));
            assert(s@.skip(i as int)[0] == s@[i as int]);
        }
        return r;
    }
    let mut j: usize = i;
    while j < n && !dot_at(s, j)
        invariant
            i <= j <= n,
            n == s@.len(),
            forall|k: int| i <= k < j ==> (#[trigger] s@[k]) != '.',
        decreases n - j,
    {
        j += 1;
    }
    proof {
        lemma_seg_len_bounds(s@.skip(i as int));
        lemma_seg_len_eq(s@.skip(i as int), j - i);
    }
    let token = s.substring_char(i, j);
    let mut rest = dot_segments_from(s, j);
    rest.insert(0, token.to_owned());
    proof {
        assert(s@.skip(i as int).subrange(0, j - i) =~= s@.subrange(i as int, j as int));
        assert(s@.skip(i as int).skip(j - i) =~= s@.skip(j as int));
        assert(rest.deep_view() =~= spec_dot_segments(s@.skip(i as int)));
    }
    rest
}

/// The numeric parts of a list of segments, in order; segments that do not
/// read as numbers are skipped.
pub open spec fn spec_numeric_parts(segs: Seq<Seq<char>>) -> Seq<u32>
    decreases segs.len(),
{
    if segs.len() == 0 {
        Seq::empty()
    } else {
        spec_numeric_parts(segs.drop_last()) + (match spec_parse_u32(segs.last()) {
            Some(v) => seq![v],
            None => Seq::empty(),
        })
    }
}

/// The numeric version parts of a version string.
pub open spec fn spec_version_parts(s: Seq<char>) -> Seq<u32> {
    spec_numeric_parts(spec_dot_segments(s))
}

/// Reads the numeric parts of a version string.
pub fn version_parts(s: &str) -> (r: Vec<u32>)
    ensures
        r@ == spec_version_parts(s@),
{
    let segs = dot_segments_from(s, 0);
    proof {
        assert(s@.skip(0) =~= s@);
    }
    let mut out: Vec<u32> = Vec::new();
    let n = segs.len();
    let mut i: usize = 0;
    while i < n
        invariant
            i <= n,
            n == segs@.len(),
            segs.deep_view() == spec_dot_segments(s@),
            out@ =~= spec_numeric_parts(segs.deep_view().subrange(0, i as int)),
        decreases n - i,
    {
        match parse_u32(segs[i].as_str()) {
            Some(v) => out.push(v),
            None => {},
        }
        proof {
            let dv = segs.deep_view();
            let sub1 = dv.subrange(0, i as int + 1);
            assert(sub1.drop_last() =~= dv.subrange(0, i as int));
            assert(sub1.last() == dv[i as int]);
            assert(dv[i as int] == segs@[i as int]@);
            assert(out@ =~= spec_numeric_parts(sub1));
        }
        i += 1;
    }
    proof {
        assert(segs.deep_view().subrange(0, n as int) =~= segs.deep_view());
    }
    out
}

/// How two part lists compare, from position `i`: the first differing part
/// decides (a missing right-hand part reads as zero); with every left-hand
/// part matched, the longer list is the newer version.
pub open spec fn spec_cmp_parts(p1: Seq<u32>, p2: Seq<u32>, i: int) -> i32
    decreases p1.len() - i,
{
    if i < 0 || i >= p1.len() {
        if p1.len() < p2.len() {
            (-1) as i32
        } else if p1.len() > p2.len() {
            1
        } else {
            0
        }
    } else {
        let b: u32 = if i < p2.len() {
            p2[i]
        } else {
            0
        };
        if p1[i] > b {
            1
        } else if p1[i] < b {
            (-1) as i32
        } else {
            spec_cmp_parts(p1, p2, i + 1)
        }
    }
}

/// Compares two version strings by their numeric dot-separated parts:
/// positive when the first is newer, negative when the second is, zero when
/// they read the same.
pub fn compare_versions(v1: &str, v2: &str) -> (r: i32)
    ensures
        r == spec_cmp_parts(spec_version_parts(v1@), spec_version_parts(v2@), 0),
{
    let p1 = version_parts(v1);
    let p2 = version_parts(v2);
    let n1 = p1.len();
    let n2 = p2.len();
    let mut i: usize = 0;
    while i < n1
        invariant
            i <= n1,
            n1 == p1@.len(),
            n2 == p2@.len(),
            p1@ == spec_version_parts(v1@),
            p2@ == spec_version_parts(v2@),
            spec_cmp_parts(p1@, p2@, 0) == spec_cmp_parts(p1@, p2@, i as int),
        decreases n1 - i,
    {
        let b: u32 = if i < n2 {
            p2[i]
        } else {
            0
        };
        if p1[i] > b {
            return 1;
        }
        if p1[i] < b {
            return -1;
        }
        i += 1;
    }
    if n1 < n2 {
        -1
    } else if n1 > n2 {
        1
    } else {
        0
    }
}

/// Merges plugin lists fetched from several registries: records are keyed by
/// id, and of two records with the same id the one whose version reads newer
/// stays (a later record needs a strictly newer version to displace an
/// earlier one). The result holds each id once.
pub fn merge_registry_plugins(lists: &Vec<Vec<RegistryPlugin>>) -> (r: Vec<RegistryPluginInfo>)
    ensures
        forall|i: int, j: int|
            0 <= i < j < r@.len() ==> (#[trigger] r@[i]).id@ != (#[trigger] r@[j]).id@,
{
    let mut out: Vec<RegistryPluginInfo> = Vec::new();
    let nl = lists.len();
    let mut li: usize = 0;
    while li < nl
        invariant
            li <= nl,
            nl == lists@.len(),
            forall|i: int, j: int|
                0 <= i < j < out@.len() ==> (#[trigger] out@[i]).id@ != (#[trigger] out@[j]).id@,
        decreases nl - li,
    {
        let list = &lists[li];
        let n = list.len();
        let mut i: usize = 0;
        while i < n
            invariant
                i <= n,
                li < nl,
                nl == lists@.len(),
                n == lists@[li as int]@.len(),
                list == &lists@[li as int],
                forall|a: int, b: int|
                    0 <= a < b < out@.len() ==> (#[trigger] out@[a]).id@ != (#[trigger] out@[b]).id@,
            decreases n - i,
        {
            let p = &list[i];
            match find_by_id(&out, p.id.as_str()) {
                Some(idx) => {
                    if compare_versions(p.latest_version.as_str(), out[idx].latest_version.as_str())
                        > 0 {
                        let info = registry_plugin_to_info(p);
                        let ghost prev = out@;
                        out.remove(idx);
                        out.insert(idx, info);
                        proof {
                            assert(out@ =~= prev.update(idx as int, out@[idx as int]));
                            assert(out@[idx as int].id@ == prev[idx as int].id@);
                            assert forall|a: int, b: int|
                                0 <= a < b < out@.len() implies (#[trigger] out@[a]).id@ != (
                            #[trigger] out@[b]).id@ by {
                                assert(out@[a].id@ == prev[a].id@);
                                assert(out@[b].id@ == prev[b].id@);
                            }
                        }
                    }
                },
                None => {
                    out.push(registry_plugin_to_info(p));
                    proof {
                        let cur = out@;
                        assert(cur.drop_last() =~= cur.subrange(0, cur.len() - 1));
                        assert forall|a: int, b: int|
                            0 <= a < b < cur.len() implies (#[trigger] cur[a]).id@ != (
                        #[trigger] cur[b]).id@ by {
                        }
                    }
                },
            }
            i += 1;
        }
        li += 1;
    }
    out
}

fn find_by_id(out: &Vec<RegistryPluginInfo>, id: &str) -> (r: Option<usize>)
    ensures
        match r {
            Some(i) => i < out@.len() && out@[i as int].id@ == id@,
            None => forall|j: int| 0 <= j < out@.len() ==> (#[trigger] out@[j]).id@ != id@,
        },
{
    let n = out.len();
    let mut i: usize = 0;
    while i < n
        invariant
            i <= n,
            n == out@.len(),
            forall|j: int| 0 <= j < i ==> (#[trigger] out@[j]).id@ != id@,
        decreases n - i,
    {
        if str_eq(out[i].id.as_str(), id) {
            return Some(i);
        }
        i += 1;
    }
    None
}

} // verus!
