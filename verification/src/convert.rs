//! Conversion of legacy course files: the record written for each course,
//! and the hill art codes found in a course's resource sidecar.

use vstd::prelude::*;
use crate::course_file::{CourseParseResult, TextSections, CourseConfig, CourseObjectRecord, normalize_course_name,
    lossy_decode, lossy_string, byte_char};

verus! {

/// Asset mapping extracted from a `.rsrc` sidecar file.
pub struct RsrcAssetMapping {
    /// Asset code string (e.g., "HIL1iSki").
    pub asset_code: String,
    /// Type of asset mapping.
    pub mapping_kind: String,
    /// Hill variant number, if applicable.
    pub hill_variant: Option<u8>,
}

/// Whether the 8 bytes at `i` read `HIL?iSki`, with any byte in place of
/// `?`.
pub open spec fn hill_match(s: Seq<u8>, i: int) -> bool {
    &&& 0 <= i
    &&& i + 8 <= s.len()
    &&& s[i] == 0x48 && s[i + 1] == 0x49 && s[i + 2] == 0x4c
    &&& s[i + 4] == 0x69 && s[i + 5] == 0x53 && s[i + 6] == 0x6b && s[i + 7] == 0x69
}

/// The ordering key of a hill code whose variable byte is `b`. Keys order
/// hill codes as their decoded texts (`hill_code_text`): an ASCII byte
/// stands for itself, and every other byte decodes to the replacement
/// character, which sorts after all of ASCII (`hill_art_mappings` states
/// the resulting string order).
pub open spec fn hill_key(b: u8) -> int {
    if b < 0x80 { b as int } else { 0x80 }
}

/// The first position at or after `i` holding a hill code with key `k`.
pub open spec fn scan_from(s: Seq<u8>, k: int, i: int) -> Option<int>
    decreases s.len() - i,
{
    if i < 0 || i + 8 > s.len() {
        None
    } else if hill_match(s, i) && hill_key(s[i + 3]) == k {
        Some(i)
    } else {
        scan_from(s, k, i + 1)
    }
}

/// The positions of the first hill code of each key below `k`, by key.
pub open spec fn positions_below(s: Seq<u8>, k: int) -> Seq<int>
    decreases k,
{
    if k <= 0 {
        Seq::empty()
    } else {
        let before = positions_below(s, k - 1);
        match scan_from(s, k - 1, 0) {
            Some(p) => before.push(p),
            None => before,
        }
    }
}

/// The hill codes a sidecar holds, each once, in code order: the position
/// of the first occurrence of each.
pub open spec fn hill_positions(s: Seq<u8>) -> Seq<int> {
    positions_below(s, 0x81)
}

/// The variant number of a hill code's variable byte: its digit value.
pub open spec fn hill_variant_of(b: u8) -> Option<u8> {
    if 0x30 <= b <= 0x39 { Some((b - 0x30) as u8) } else { None }
}

/// Whether `m` is the mapping for the hill code at `p`.
pub open spec fn mapping_at(s: Seq<u8>, p: int, m: RsrcAssetMapping) -> bool {
    &&& m.asset_code@ == lossy_decode(s.subrange(p, p + 8))
    &&& m.mapping_kind@ == "course_hill_art"@
    &&& m.hill_variant == hill_variant_of(s[p + 3])
}

/// The first position at or after `from` holding a hill code with key `k`.
fn find_hill(bytes: &[u8], k: u8, from: usize) -> (r: Option<usize>)
    requires
        from <= bytes@.len(),
    ensures
        match scan_from(bytes@, k as int, from as int) {
            Some(p) => r matches Some(q) && q == p && hill_match(bytes@, p),
            None => r is None,
        },
    decreases bytes@.len() - from,
{
    let n = bytes.len();
    if n < 8 || from > n - 8 {
        return None;
    }
    let i = from;
    let is_match = bytes[i] == 0x48 && bytes[i + 1] == 0x49 && bytes[i + 2] == 0x4c && bytes[i + 4] == 0x69
        && bytes[i + 5] == 0x53 && bytes[i + 6] == 0x6b && bytes[i + 7] == 0x69;
    let b = bytes[i + 3];
    let key: u8 = if b < 0x80 { b } else { 0x80 };
    if is_match && key == k {
        Some(i)
    } else {
        find_hill(bytes, k, i + 1)
    }
}

/// Builds the mapping for the hill code at `p`.
fn mapping_from(bytes: &[u8], p: usize) -> (m: RsrcAssetMapping)
    requires
        p + 8 <= bytes@.len(),
    ensures
        mapping_at(bytes@, p as int, m),
{
    let n = bytes.len();
    assert(p + 8 <= n);
    let (head, _) = bytes.split_at(p + 8);
    let (_, code) = head.split_at(p);
    assert(code@ == bytes@.subrange(p as int, p + 8));
    let b = bytes[p + 3];
    let hill_variant = if b >= 0x30 && b <= 0x39 { Some(b - 0x30) } else { None };
    let kind = "course_hill_art";
    let mapping_kind = kind.to_owned();
    assert(mapping_kind@ == "course_hill_art"@);
    RsrcAssetMapping { asset_code: lossy_string(code), mapping_kind, hill_variant }
}

/// Finds the course hill art codes (`HIL?iSki`) in a `.rsrc` sidecar's
/// bytes: each distinct code once, in code order, described by its first
/// occurrence.
pub fn hill_art_mappings(bytes: &[u8]) -> (r: Vec<RsrcAssetMapping>)
    ensures
        r@.len() == hill_positions(bytes@).len(),
        forall|t: int| 0 <= t < r@.len() ==> mapping_at(bytes@, hill_positions(bytes@)[t], #[trigger] r@[t]),
        forall|t: int, u: int| 0 <= t < u < r@.len() ==> chars_lt(#[trigger] r@[t].asset_code@, #[trigger] r@[u].asset_code@),
        forall|i: int| #[trigger] hill_match(bytes@, i) ==> exists|t: int| 0 <= t < r@.len()
            && #[trigger] r@[t].asset_code@ == lossy_decode(bytes@.subrange(i, i + 8)),
{
    let ghost s = bytes@;
    let mut out: Vec<RsrcAssetMapping> = Vec::new();
    let mut k: u8 = 0;
    while k < 0x81
        invariant
            s == bytes@,
            k <= 0x81,
            out@.len() == positions_below(s, k as int).len(),
            forall|t: int| 0 <= t < out@.len() ==> mapping_at(s, positions_below(s, k as int)[t], #[trigger] out@[t]),
        decreases 0x81 - k,
    {
        match find_hill(bytes, k, 0) {
            Some(p) => {
                let m = mapping_from(bytes, p);
                out.push(m);
                proof {
                    let before = positions_below(s, k as int);
                    assert(positions_below(s, k + 1) == before.push(p as int)) by {
                        assert(scan_from(s, k as int, 0) == Some(p as int));
                    }
                    assert forall|t: int| 0 <= t < out@.len() implies mapping_at(s, positions_below(s, k + 1)[t], #[trigger] out@[t]) by {
                        if t < before.len() {
                            assert(out@[t] == old_out_at(out@, t));
                        }
                    }
                }
            },
            None => {},
        }
        k = k + 1;
    }
    proof {
        let hp = hill_positions(s);
        law_hill_codes(s);
        assert forall|t: int| 0 <= t < out@.len() implies #[trigger] out@[t].asset_code@ == hill_code_text(s[hp[t] + 3]) by {
            assert(mapping_at(s, hp[t], out@[t]));
            lemma_hill_code_text(s, hp[t]);
        }
        assert forall|t: int, u: int| 0 <= t < u < out@.len() implies chars_lt(#[trigger] out@[t].asset_code@,
            #[trigger] out@[u].asset_code@) by {
            assert(key_at(s, hp[t]) < key_at(s, hp[u]));
            lemma_hill_text_order(s[hp[t] + 3], s[hp[u] + 3]);
        }
        assert forall|i: int| #[trigger] hill_match(s, i) implies exists|t: int| 0 <= t < out@.len()
            && #[trigger] out@[t].asset_code@ == lossy_decode(s.subrange(i, i + 8)) by {
            let t = choose|t: int| 0 <= t < hp.len() && key_at(s, #[trigger] hp[t]) == key_at(s, i);
            lemma_hill_code_text(s, i);
            assert(byte_char(s[hp[t] + 3]) == byte_char(s[i + 3]));
            assert(hill_code_text(s[hp[t] + 3]) == hill_code_text(s[i + 3]));
            assert(out@[t].asset_code@ == lossy_decode(s.subrange(i, i + 8)));
        }
    }
    out
}

/// The text of the hill code whose variable byte is `b`.
pub open spec fn hill_code_text(b: u8) -> Seq<char> {
    seq!['H', 'I', 'L', byte_char(b), 'i', 'S', 'k', 'i']
}

/// Whether `a` comes before `b` in string order: at the first position
/// where they differ `a` has the smaller character, or `a` is a proper
/// prefix of `b`.
pub open spec fn chars_lt(a: Seq<char>, b: Seq<char>) -> bool {
    exists|k: int| 0 <= k <= a.len() && k <= b.len() && #[trigger] a.take(k) == b.take(k)
        && ((k == a.len() && k < b.len()) || (k < a.len() && k < b.len() && a[k] < b[k]))
}

/// A hill code decodes to its text: its only byte that may lie outside
/// ASCII is the variable one.
proof fn lemma_hill_code_text(s: Seq<u8>, p: int)
    requires
        hill_match(s, p),
    ensures
        lossy_decode(s.subrange(p, p + 8)) == hill_code_text(s[p + 3]),
{
    let sub = s.subrange(p, p + 8);
    assert forall|i: int, j: int| 0 <= i < j < sub.len() implies #[trigger] sub[i] < 0x80 || #[trigger] sub[j] < 0x80 by {
        assert(sub[i] == s[p + i]);
        assert(sub[j] == s[p + j]);
    }
    let d = Seq::new(sub.len(), |i: int| byte_char(sub[i]));
    assert(d[0] == byte_char(s[p]));
    assert(d =~= hill_code_text(s[p + 3]));
}

/// Hill codes in key order are in string order.
proof fn lemma_hill_text_order(b1: u8, b2: u8)
    requires
        hill_key(b1) < hill_key(b2),
    ensures
        chars_lt(hill_code_text(b1), hill_code_text(b2)),
{
    let a = hill_code_text(b1);
    let b = hill_code_text(b2);
    assert(a.take(3) =~= b.take(3));
    assert(a[3] == byte_char(b1) && b[3] == byte_char(b2));
    assert(byte_char(b1) < byte_char(b2));
}

/// The element of `v` at `t`.
spec fn old_out_at(v: Seq<RsrcAssetMapping>, t: int) -> RsrcAssetMapping {
    v[t]
}

/// The key of the hill code at `p`.
pub open spec fn key_at(s: Seq<u8>, p: int) -> int {
    hill_key(s[p + 3])
}

proof fn lemma_scan_from(s: Seq<u8>, k: int, i: int)
    requires
        i >= 0,
    ensures
        scan_from(s, k, i) matches Some(p) ==> i <= p && hill_match(s, p) && key_at(s, p) == k
            && forall|j: int| i <= j < p ==> !(#[trigger] hill_match(s, j) && key_at(s, j) == k),
        scan_from(s, k, i) is None ==> forall|j: int| i <= j ==> !(#[trigger] hill_match(s, j) && key_at(s, j) == k),
    decreases s.len() - i,
{
    if i + 8 <= s.len() {
        if !(hill_match(s, i) && key_at(s, i) == k) {
            lemma_scan_from(s, k, i + 1);
        }
    }
}

/// Whether `p` holds the first hill code with its key.
pub open spec fn first_of_key(s: Seq<u8>, p: int) -> bool {
    &&& hill_match(s, p)
    &&& forall|j: int| 0 <= j < p ==> !(#[trigger] hill_match(s, j) && key_at(s, j) == key_at(s, p))
}

proof fn lemma_positions_first(s: Seq<u8>, k: int)
    requires
        0 <= k,
    ensures
        forall|t: int| 0 <= t < positions_below(s, k).len() ==> first_of_key(s, #[trigger] positions_below(s, k)[t])
            && key_at(s, positions_below(s, k)[t]) < k,
    decreases k,
{
    if k > 0 {
        lemma_positions_first(s, k - 1);
        lemma_scan_from(s, k - 1, 0);
        let before = positions_below(s, k - 1);
        match scan_from(s, k - 1, 0) {
            Some(p) => {
                assert(positions_below(s, k) == before.push(p));
                assert forall|t: int| 0 <= t < positions_below(s, k).len() implies first_of_key(s,
                    #[trigger] positions_below(s, k)[t]) && key_at(s, positions_below(s, k)[t]) < k by {
                    if t < before.len() {
                        assert(positions_below(s, k)[t] == before[t]);
                    } else {
                        assert(positions_below(s, k)[t] == p);
                    }
                }
            },
            None => {
                assert(positions_below(s, k) == before);
            },
        }
    }
}

proof fn lemma_positions_sorted(s: Seq<u8>, k: int)
    requires
        0 <= k,
    ensures
        forall|t: int, u: int| 0 <= t < u < positions_below(s, k).len() ==>
            key_at(s, #[trigger] positions_below(s, k)[t]) < key_at(s, #[trigger] positions_below(s, k)[u]),
    decreases k,
{
    if k > 0 {
        lemma_positions_sorted(s, k - 1);
        lemma_positions_first(s, k - 1);
        lemma_scan_from(s, k - 1, 0);
        let before = positions_below(s, k - 1);
        match scan_from(s, k - 1, 0) {
            Some(p) => {
                assert(positions_below(s, k) == before.push(p));
                assert forall|t: int, u: int| 0 <= t < u < positions_below(s, k).len() implies
                    key_at(s, #[trigger] positions_below(s, k)[t]) < key_at(s, #[trigger] positions_below(s, k)[u]) by {
                    assert(positions_below(s, k)[t] == before[t]);
                    if u < before.len() {
                        assert(positions_below(s, k)[u] == before[u]);
                    } else {
                        assert(positions_below(s, k)[u] == p);
                    }
                }
            },
            None => {
                assert(positions_below(s, k) == before);
            },
        }
    }
}

proof fn lemma_positions_cover(s: Seq<u8>, k: int, i: int) -> (t: int)
    requires
        0 <= k,
        hill_match(s, i),
        key_at(s, i) < k,
    ensures
        0 <= t < positions_below(s, k).len(),
        key_at(s, positions_below(s, k)[t]) == key_at(s, i),
    decreases k,
{
    let before = positions_below(s, k - 1);
    lemma_scan_from(s, k - 1, 0);
    if key_at(s, i) < k - 1 {
        let t = lemma_positions_cover(s, k - 1, i);
        match scan_from(s, k - 1, 0) {
            Some(p) => {
                assert(positions_below(s, k) == before.push(p));
                assert(positions_below(s, k)[t] == before[t]);
            },
            None => {
                assert(positions_below(s, k) == before);
            },
        }
        t
    } else {
        match scan_from(s, k - 1, 0) {
            Some(p) => {
                assert(positions_below(s, k) == before.push(p));
                assert(positions_below(s, k)[before.len() as int] == p);
                before.len() as int
            },
            None => {
                assert(!(hill_match(s, i) && key_at(s, i) == k - 1));
                0
            },
        }
    }
}

/// The hill codes of a sidecar are listed each once, in code order, each at
/// its first occurrence, and every hill code of the sidecar is listed.
pub proof fn law_hill_codes(s: Seq<u8>)
    ensures
        forall|t: int| 0 <= t < hill_positions(s).len() ==> first_of_key(s, #[trigger] hill_positions(s)[t]),
        forall|t: int, u: int| 0 <= t < u < hill_positions(s).len() ==>
            key_at(s, #[trigger] hill_positions(s)[t]) < key_at(s, #[trigger] hill_positions(s)[u]),
        forall|i: int| #[trigger] hill_match(s, i) ==>
            exists|t: int| 0 <= t < hill_positions(s).len() && key_at(s, #[trigger] hill_positions(s)[t]) == key_at(s, i),
{
    lemma_positions_first(s, 0x81);
    lemma_positions_sorted(s, 0x81);
    assert forall|i: int| #[trigger] hill_match(s, i) implies
        exists|t: int| 0 <= t < hill_positions(s).len() && key_at(s, #[trigger] hill_positions(s)[t]) == key_at(s, i) by {
        let t = lemma_positions_cover(s, 0x81, i);
        assert(key_at(s, hill_positions(s)[t]) == key_at(s, i));
    }
}

/// The record written for one converted course.
pub struct LegacyCourse {
    /// Human-readable course name.
    pub name: String,
    /// Source file name.
    pub source_file: String,
    /// Course file format version.
    pub format_version: u16,
    /// Parsed text sections from the course file.
    pub text_sections: TextSections,
    /// Course configuration values.
    pub config: CourseConfig,
    /// Reserved/unknown values from the file.
    pub reserved_values: [u16; 6],
    /// Number of objects/obstacles in the course.
    pub object_count: usize,
    /// Obstacle and feature records.
    pub objects: Vec<CourseObjectRecord>,
    /// Checksum read from the file.
    pub checksum_read: u16,
    /// Checksum computed during parsing.
    pub checksum_computed: u16,
    /// Whether the full checksum is valid.
    pub checksum_valid: bool,
    /// Whether the low byte of the checksum is valid (fallback check).
    pub checksum_low_byte_valid: bool,
    /// Associated `.rsrc` sidecar file, if present.
    pub rsrc_file: Option<String>,
    /// Asset mappings extracted from `.rsrc` file.
    pub rsrc_assets: Vec<RsrcAssetMapping>,
}

/// Builds the record for a parsed course file named `file_name`: the
/// normalized name, the parsed fields, the object count and the checksum
/// verdicts (whole value, and low byte only).
pub fn legacy_course(file_name: &str, parsed: CourseParseResult, rsrc_file: Option<String>,
    rsrc_assets: Vec<RsrcAssetMapping>) -> (c: LegacyCourse)
    ensures
        c.name@ == crate::text::remove_char(crate::text::trim_end_ws(crate::text::trim_start_ws(file_name@)), '\r'),
        c.source_file@ == file_name@,
        c.format_version == parsed.format_version,
        c.config == parsed.config,
        c.reserved_values == parsed.reserved_values,
        c.object_count == parsed.objects@.len(),
        c.objects@ == parsed.objects@,
        c.checksum_read == parsed.checksum_read,
        c.checksum_computed == parsed.checksum_computed,
        c.checksum_valid == (parsed.checksum_read == parsed.checksum_computed),
        c.checksum_low_byte_valid == (parsed.checksum_read % 0x100 == parsed.checksum_computed % 0x100),
        c.rsrc_file == rsrc_file,
        c.rsrc_assets@ == rsrc_assets@,
        c.text_sections.intro_name@ == parsed.text_sections.intro_name@,
        c.text_sections.briefing@ == parsed.text_sections.briefing@,
        c.text_sections.line_2@ == parsed.text_sections.line_2@,
        c.text_sections.line_3@ == parsed.text_sections.line_3@,
{
    let read = parsed.checksum_read;
    let computed = parsed.checksum_computed;
    assert((read & 0xff) == read % 0x100) by (bit_vector);
    assert((computed & 0xff) == computed % 0x100) by (bit_vector);
    let object_count = parsed.objects.len();
    LegacyCourse {
        name: normalize_course_name(file_name),
        source_file: file_name.to_owned(),
        format_version: parsed.format_version,
        text_sections: parsed.text_sections,
        config: parsed.config,
        reserved_values: parsed.reserved_values,
        object_count,
        objects: parsed.objects,
        checksum_read: read,
        checksum_computed: computed,
        checksum_valid: read == computed,
        checksum_low_byte_valid: (read & 0xff) == (computed & 0xff),
        rsrc_file,
        rsrc_assets,
    }
}

} // verus!
