//! Legacy MacSki course files: XOR-encoded records with a running checksum.

use vstd::prelude::*;
use crate::text::{str_chars, string_from_chars, trim_whitespace, remove_all, to_lowercase, trim_matches_char, lowercase_text, no_ascii_upper, ascii_lower_char, ascii_text, unicode_whitespace, trim_start_ws, trim_end_ws, remove_char, trim_char, trim_start_char, trim_end_char};

verus! {

/// Expected format version identifier from MacSki v1.7.
pub const MAGIC_VERSION: u16 = 0x0096;

/// Initial checksum seed used in course file validation.
pub const CHECKSUM_SEED: u16 = 0x7011;

/// XOR key for integer (u16) decoding.
pub const INT_XOR_KEY: u8 = 0xba;

/// XOR key for character string decoding.
pub const CHAR_XOR_KEY: u8 = 0x5b;

/// `String::from_utf8_lossy`: the characters of `bytes` decoded as UTF-8,
/// each invalid sequence replaced by U+FFFD.
pub uninterp spec fn utf8_lossy(bytes: Seq<u8>) -> Seq<char>;

/// The character one byte decodes to on its own: an ASCII byte stands for
/// itself, any other byte is an invalid sequence, replaced by U+FFFD.
pub open spec fn byte_char(b: u8) -> char {
    if b < 0x80 { b as char } else { '\u{FFFD}' }
}

/// Whether at most one byte of `b` lies outside ASCII.
pub open spec fn at_most_one_non_ascii(b: Seq<u8>) -> bool {
    forall|i: int, j: int| 0 <= i < j < b.len() ==> #[trigger] b[i] < 0x80 || #[trigger] b[j] < 0x80
}

/// Bytes decoded lossily as UTF-8. When at most one byte is not ASCII,
/// every ASCII byte decodes to itself and the other byte, which cannot be
/// part of a valid sequence, to one U+FFFD; otherwise the decoding is named
/// `utf8_lossy`.
pub open spec fn lossy_decode(b: Seq<u8>) -> Seq<char> {
    if at_most_one_non_ascii(b) {
        Seq::new(b.len(), |i: int| byte_char(b[i]))
    } else {
        utf8_lossy(b)
    }
}

/// `String::from_utf8_lossy` followed by taking ownership of the result.
/// Its documentation says valid UTF-8 (so ASCII) decodes to itself and each
/// invalid sequence becomes one U+FFFD, which fixes the result when at most
/// one byte is not ASCII; beyond that its characters are named `utf8_lossy`.
#[verifier::external_body]
pub(crate) fn lossy_string(bytes: &[u8]) -> (s: String)
    ensures
        at_most_one_non_ascii(bytes@) ==> s@ == (Seq::new(bytes@.len(), |i: int| byte_char(bytes@[i]))),
        !at_most_one_non_ascii(bytes@) ==> s@ == utf8_lossy(bytes@),
{
    String::from_utf8_lossy(bytes).into_owned()
}

/// Why a course file could not be parsed.
#[derive(Debug, Clone, Copy, PartialEq, Eq, Structural)]
pub enum CourseError {
    /// The file ended in the middle of a record.
    UnexpectedEof,
    /// The file is complete but its format version is not `MAGIC_VERSION`.
    UnexpectedVersion(u16),
}

/// Text sections from a MacSki course file.
pub struct TextSections {
    /// Introductory course name.
    pub intro_name: String,
    /// Course briefing text.
    pub briefing: String,
    /// Additional text line 2.
    pub line_2: String,
    /// Additional text line 3.
    pub line_3: String,
}

/// Course configuration values from the file.
#[derive(Debug, Clone, Copy, PartialEq, Eq, Structural)]
pub struct CourseConfig {
    /// Default course flag indicator.
    pub default_course_flag: u16,
    /// Configuration value stored at 0x10034b84 by the MacSki game.
    pub value_10034b84: u16,
    /// Configuration value stored at 0x10034b82 by the MacSki game.
    pub value_10034b82: u16,
    /// Configuration value stored at 0x10034b80 by the MacSki game.
    pub value_10034b80: u16,
    /// Configuration value stored at 0x10034b7c by the MacSki game.
    pub value_10034b7c: u16,
    /// Configuration value stored at 0x10034b78 by the MacSki game.
    pub value_10034b78: u32,
}

/// A single object/obstacle record from the course file.
#[derive(Debug, Clone, Copy, PartialEq, Eq, Structural)]
pub struct CourseObjectRecord {
    /// Index of this object in the course.
    pub index: usize,
    /// Horizontal position on the course.
    pub x: u16,
    /// Image/sprite ID for this object.
    pub image_id: u16,
    /// Distance down the course where this object appears.
    pub distance: u32,
}

/// Result of parsing a course file.
pub struct CourseParseResult {
    /// Format version number.
    pub format_version: u16,
    /// Parsed text sections.
    pub text_sections: TextSections,
    /// Course configuration.
    pub config: CourseConfig,
    /// Reserved/unknown values.
    pub reserved_values: [u16; 6],
    /// Parsed object records.
    pub objects: Vec<CourseObjectRecord>,
    /// Checksum read from file.
    pub checksum_read: u16,
    /// Checksum computed during parsing.
    pub checksum_computed: u16,
}

/// Position and running checksum of a reader over a course file.
pub struct ReadState {
    /// Offset of the next byte to read.
    pub pos: int,
    /// Checksum of everything decoded so far.
    pub checksum: u16,
}

/// The integer decoded from the two bytes at `pos`.
pub open spec fn int_at(s: Seq<u8>, pos: int) -> u16 {
    (((s[pos] ^ INT_XOR_KEY) as int) * 256 + ((s[pos + 1] ^ INT_XOR_KEY) as int)) as u16
}

/// Decodes one integer (`get_int`), folding it into the checksum.
pub open spec fn spec_get_int(s: Seq<u8>, st: ReadState) -> Option<(u16, ReadState)> {
    if 0 <= st.pos && st.pos + 2 <= s.len() {
        let v = int_at(s, st.pos);
        Some((v, ReadState { pos: st.pos + 2, checksum: st.checksum ^ v }))
    } else {
        None
    }
}

/// The state after a two-byte read fails in data of length `len`: when one
/// byte is left it has been consumed; the checksum is unchanged.
pub open spec fn failed_pair(st: ReadState, len: int) -> ReadState {
    ReadState { pos: if st.pos < len { st.pos + 1 } else { st.pos }, checksum: st.checksum }
}

/// Decodes a 32-bit value as two integers, high half first (`get_long`).
pub open spec fn spec_get_long(s: Seq<u8>, st: ReadState) -> Option<(u32, ReadState)> {
    match spec_get_int(s, st) {
        Some((hi, st1)) => match spec_get_int(s, st1) {
            Some((lo, st2)) => Some(((hi as int * 0x10000 + lo as int) as u32, st2)),
            None => None,
        },
        None => None,
    }
}

/// Reads the raw big-endian checksum, which is not XOR-encoded (`get_check`).
pub open spec fn spec_get_check(s: Seq<u8>, st: ReadState) -> Option<(u16, ReadState)> {
    if 0 <= st.pos && st.pos + 2 <= s.len() {
        Some(((s[st.pos] as int * 256 + s[st.pos + 1] as int) as u16,
            ReadState { pos: st.pos + 2, checksum: st.checksum }))
    } else {
        None
    }
}

/// The checksum `c` after folding in each of `bytes`.
pub open spec fn xor_bytes(c: u16, bytes: Seq<u8>) -> u16
    decreases bytes.len(),
{
    if bytes.len() == 0 {
        c
    } else {
        xor_bytes(c, bytes.drop_last()) ^ (bytes.last() as u16)
    }
}

/// Number of bytes a string read consumes from `pos`, scanning from the
/// `k`-th byte: up to and including the first byte that decodes to zero,
/// at most 255 bytes; `None` when the data ends first.
pub open spec fn chars_extent(s: Seq<u8>, pos: int, k: int) -> Option<int>
    decreases 255 - k,
{
    if k >= 255 {
        Some(255)
    } else if pos + k >= s.len() {
        None
    } else if s[pos + k] ^ CHAR_XOR_KEY == 0 {
        Some(k + 1)
    } else {
        chars_extent(s, pos, k + 1)
    }
}

/// The bytes decoded from `n` consecutive bytes at `pos`.
pub open spec fn decoded_chars(s: Seq<u8>, pos: int, n: int) -> Seq<u8> {
    Seq::new(n as nat, |i: int| s[pos + i] ^ CHAR_XOR_KEY)
}

/// Decodes a NUL-terminated string of at most 255 bytes (`get_chars`):
/// the text bytes (without the terminator) and the new state.
pub open spec fn spec_get_chars(s: Seq<u8>, st: ReadState) -> Option<(Seq<u8>, ReadState)> {
    if st.pos < 0 {
        None
    } else {
        match chars_extent(s, st.pos, 0) {
            Some(n) => {
                let consumed = decoded_chars(s, st.pos, n);
                let text = if consumed.last() == 0 { consumed.drop_last() } else { consumed };
                Some((text, ReadState { pos: st.pos + n, checksum: xor_bytes(st.checksum, consumed) }))
            },
            None => None,
        }
    }
}

/// Decodes `n` consecutive integers.
pub open spec fn spec_get_ints(s: Seq<u8>, st: ReadState, n: nat) -> Option<(Seq<u16>, ReadState)>
    decreases n,
{
    if n == 0 {
        Some((Seq::empty(), st))
    } else {
        match spec_get_ints(s, st, (n - 1) as nat) {
            Some((vs, st1)) => match spec_get_int(s, st1) {
                Some((v, st2)) => Some((vs.push(v), st2)),
                None => None,
            },
            None => None,
        }
    }
}

/// One object record: x, image id, distance.
pub open spec fn spec_get_object(s: Seq<u8>, st: ReadState) -> Option<((u16, u16, u32), ReadState)> {
    match spec_get_int(s, st) {
        Some((x, st1)) => match spec_get_int(s, st1) {
            Some((image_id, st2)) => match spec_get_long(s, st2) {
                Some((distance, st3)) => Some(((x, image_id, distance), st3)),
                None => None,
            },
            None => None,
        },
        None => None,
    }
}

/// Decodes `n` consecutive object records.
pub open spec fn spec_get_objects(s: Seq<u8>, st: ReadState, n: nat) -> Option<(Seq<(u16, u16, u32)>, ReadState)>
    decreases n,
{
    if n == 0 {
        Some((Seq::empty(), st))
    } else {
        match spec_get_objects(s, st, (n - 1) as nat) {
            Some((vs, st1)) => match spec_get_object(s, st1) {
                Some((v, st2)) => Some((vs.push(v), st2)),
                None => None,
            },
            None => None,
        }
    }
}

/// The fields of a course file, as decoded.
pub struct SpecCourse {
    pub format_version: u16,
    pub texts: Seq<Seq<u8>>,
    pub config: Seq<u16>,
    pub config_long: u32,
    pub reserved: Seq<u16>,
    pub objects: Seq<(u16, u16, u32)>,
    pub checksum_read: u16,
    pub checksum_computed: u16,
}

/// The header: format version then four strings.
pub open spec fn spec_header(s: Seq<u8>) -> Option<(u16, Seq<Seq<u8>>, ReadState)> {
    match spec_get_int(s, ReadState { pos: 0, checksum: CHECKSUM_SEED }) {
        Some((version, st0)) => match spec_get_chars(s, st0) {
            Some((t1, st1)) => match spec_get_chars(s, st1) {
                Some((t2, st2)) => match spec_get_chars(s, st2) {
                    Some((t3, st3)) => match spec_get_chars(s, st3) {
                        Some((t4, st4)) => Some((version, seq![t1, t2, t3, t4], st4)),
                        None => None,
                    },
                    None => None,
                },
                None => None,
            },
            None => None,
        },
        None => None,
    }
}

/// The configuration block: five integers and one long.
pub open spec fn spec_config(s: Seq<u8>, st: ReadState) -> Option<(Seq<u16>, u32, ReadState)> {
    match spec_get_ints(s, st, 5) {
        Some((vs, st1)) => match spec_get_long(s, st1) {
            Some((l, st2)) => Some((vs, l, st2)),
            None => None,
        },
        None => None,
    }
}

/// The whole course file, or why it cannot be read. The version is checked
/// only after the whole file has been read.
pub open spec fn spec_parse_course(s: Seq<u8>) -> Result<SpecCourse, CourseError> {
    match spec_header(s) {
        Some((version, texts, st1)) => match spec_config(s, st1) {
            Some((config, config_long, st2)) => match spec_get_ints(s, st2, 6) {
                Some((reserved, st3)) => match spec_get_int(s, st3) {
                    Some((count, st4)) => match spec_get_objects(s, st4, count as nat) {
                        Some((objects, st5)) => match spec_get_check(s, st5) {
                            Some((check, st6)) => if version != MAGIC_VERSION {
                                Err(CourseError::UnexpectedVersion(version))
                            } else {
                                Ok(SpecCourse {
                                    format_version: version,
                                    texts,
                                    config,
                                    config_long,
                                    reserved,
                                    objects,
                                    checksum_read: check,
                                    checksum_computed: st6.checksum,
                                })
                            },
                            None => Err(CourseError::UnexpectedEof),
                        },
                        None => Err(CourseError::UnexpectedEof),
                    },
                    None => Err(CourseError::UnexpectedEof),
                },
                None => Err(CourseError::UnexpectedEof),
            },
            None => Err(CourseError::UnexpectedEof),
        },
        None => Err(CourseError::UnexpectedEof),
    }
}

/// Cursor for reading XOR-encoded course files with checksum tracking.
pub struct Cursor<'a> {
    /// Raw file data.
    pub data: &'a [u8],
    /// Current read position.
    pub pos: usize,
    /// Running checksum value.
    pub checksum: u16,
}

impl<'a> Cursor<'a> {
    /// The reader state: position and checksum.
    pub open spec fn state(&self) -> ReadState {
        ReadState { pos: self.pos as int, checksum: self.checksum }
    }

    /// Creates a new cursor with initial checksum seed.
    pub fn new(data: &'a [u8]) -> (c: Self)
        ensures
            c.data@ == data@,
            c.pos == 0,
            c.checksum == CHECKSUM_SEED,
    {
        Self { data, pos: 0, checksum: CHECKSUM_SEED }
    }

    /// Reads a single byte without XOR decoding.
    pub fn read_u8(&mut self) -> (r: Result<u8, CourseError>)
        ensures
            final(self).data@ == old(self).data@,
            final(self).checksum == old(self).checksum,
            match r {
                Ok(b) => old(self).pos < old(self).data@.len() && b == old(self).data@[old(self).pos as int]
                    && final(self).pos == old(self).pos + 1,
                Err(e) => old(self).pos >= old(self).data@.len() && e == CourseError::UnexpectedEof
                    && final(self).pos == old(self).pos,
            },
    {
        if self.pos >= self.data.len() {
            return Err(CourseError::UnexpectedEof);
        }
        let b = self.data[self.pos];
        self.pos += 1;
        Ok(b)
    }

    /// Reads an XOR-encoded big-endian u16 (`get_int`), folding the decoded
    /// value into the running checksum.
    pub fn get_int(&mut self) -> (r: Result<u16, CourseError>)
        ensures
            final(self).data@ == old(self).data@,
            match r {
                Ok(v) => spec_get_int(old(self).data@, old(self).state()) == Some((v, final(self).state())),
                Err(e) => spec_get_int(old(self).data@, old(self).state()) is None
                    && e == CourseError::UnexpectedEof
                    && final(self).state() == failed_pair(old(self).state(), old(self).data@.len() as int),
            },
    {
        let hi = self.read_u8()? ^ INT_XOR_KEY;
        let lo = self.read_u8()? ^ INT_XOR_KEY;
        let value: u16 = (hi as u16) * 256 + (lo as u16);
        self.checksum = self.checksum ^ value;
        Ok(value)
    }

    /// Reads an XOR-encoded big-endian u32 (`get_long`): two integers, high
    /// half first.
    pub fn get_long(&mut self) -> (r: Result<u32, CourseError>)
        ensures
            final(self).data@ == old(self).data@,
            match r {
                Ok(v) => spec_get_long(old(self).data@, old(self).state()) == Some((v, final(self).state())),
                Err(e) => spec_get_long(old(self).data@, old(self).state()) is None
                    && e == CourseError::UnexpectedEof
                    && final(self).state() == match spec_get_int(old(self).data@, old(self).state()) {
                        Some((_, st1)) => failed_pair(st1, old(self).data@.len() as int),
                        None => failed_pair(old(self).state(), old(self).data@.len() as int),
                    },
            },
    {
        let hi = self.get_int()? as u32;
        let lo = self.get_int()? as u32;
        Ok(hi * 0x10000 + lo)
    }

    /// Reads an XOR-encoded NUL-terminated string (`get_chars`) of at most
    /// 255 bytes, folding each decoded byte into the checksum.
    pub fn get_chars(&mut self) -> (r: Result<String, CourseError>)
        ensures
            final(self).data@ == old(self).data@,
            match r {
                Ok(text) => match spec_get_chars(old(self).data@, old(self).state()) {
                    Some((bytes, st)) => text@ == lossy_decode(bytes) && final(self).state() == st,
                    None => false,
                },
                Err(e) => spec_get_chars(old(self).data@, old(self).state()) is None
                    && e == CourseError::UnexpectedEof
                    && (old(self).pos >= old(self).data@.len() ==> final(self).state() == old(self).state())
                    && (old(self).pos < old(self).data@.len() ==> final(self).pos == old(self).data@.len()
                        && final(self).checksum == xor_bytes(old(self).checksum,
                            decoded_chars(old(self).data@, old(self).pos as int, old(self).data@.len() - old(self).pos))),
            },
    {
        let ghost s = self.data@;
        let ghost start = self.pos as int;
        let ghost c0 = self.checksum;
        let mut out: Vec<u8> = Vec::new();
        let mut k: usize = 0;
        let mut terminated = false;
        while k < 255
            invariant_except_break
                self.data@ == s,
                old(self).data@ == s,
                start == old(self).pos,
                c0 == old(self).checksum,
                start >= 0,
                k <= 255,
                k > 0 ==> start + k <= s.len(),
                forall|j: int| 0 <= j < k ==> #[trigger] (s[start + j] ^ CHAR_XOR_KEY) != 0,
                self.pos == start + k,
                out@ == decoded_chars(s, start, k as int),
                self.checksum == xor_bytes(c0, decoded_chars(s, start, k as int)),
                chars_extent(s, start, 0) == chars_extent(s, start, k as int),
                !terminated,
            ensures
                self.data@ == s,
                old(self).data@ == s,
                start == old(self).pos,
                c0 == old(self).checksum,
                terminated ==> (s[start + k] ^ CHAR_XOR_KEY) == 0,
                !terminated ==> forall|j: int| 0 <= j < 255 ==> #[trigger] (s[start + j] ^ CHAR_XOR_KEY) != 0,
                terminated ==> k < 255 && chars_extent(s, start, 0) == Some(k + 1)
                    && self.pos == start + k + 1
                    && out@ == decoded_chars(s, start, k as int)
                    && self.checksum == xor_bytes(c0, decoded_chars(s, start, k + 1)),
                !terminated ==> k == 255 && chars_extent(s, start, 0) == Some(255int)
                    && self.pos == start + 255
                    && out@ == decoded_chars(s, start, 255)
                    && self.checksum == xor_bytes(c0, decoded_chars(s, start, 255)),
            decreases 255 - k,
        {
            let b = match self.read_u8() {
                Ok(b) => b,
                Err(e) => {
                    assert(chars_extent(s, start, k as int) is None);
                    return Err(e);
                },
            };
            let decoded = b ^ CHAR_XOR_KEY;
            let ghost before = decoded_chars(s, start, k as int);
            assert(decoded_chars(s, start, k + 1).drop_last() == before);
            self.checksum = self.checksum ^ (decoded as u16);
            if decoded == 0 {
                terminated = true;
                break;
            }
            out.push(decoded);
            assert(out@ == decoded_chars(s, start, k + 1));
            k += 1;
        }
        proof {
            let n = if terminated { k + 1 } else { 255 };
            let consumed = decoded_chars(s, start, n as int);
            if terminated {
                assert(consumed.last() == 0);
                assert(consumed.drop_last() == out@);
            } else {
                assert(consumed.last() != 0);
            }
        }
        Ok(lossy_string(out.as_slice()))
    }

    /// Reads the checksum value without XOR decoding (`get_check`).
    pub fn get_check(&mut self) -> (r: Result<u16, CourseError>)
        ensures
            final(self).data@ == old(self).data@,
            match r {
                Ok(v) => spec_get_check(old(self).data@, old(self).state()) == Some((v, final(self).state())),
                Err(e) => spec_get_check(old(self).data@, old(self).state()) is None
                    && e == CourseError::UnexpectedEof
                    && final(self).state() == failed_pair(old(self).state(), old(self).data@.len() as int),
            },
    {
        let hi = self.read_u8()? as u16;
        let lo = self.read_u8()? as u16;
        Ok(hi * 256 + lo)
    }
}

} // verus!

verus! {

/// Whether a parsed course holds exactly the decoded fields `c`.
pub open spec fn course_matches(r: &CourseParseResult, c: SpecCourse) -> bool {
    &&& r.format_version == c.format_version
    &&& c.texts.len() == 4
    &&& r.text_sections.intro_name@ == lossy_decode(c.texts[0])
    &&& r.text_sections.briefing@ == lossy_decode(c.texts[1])
    &&& r.text_sections.line_2@ == lossy_decode(c.texts[2])
    &&& r.text_sections.line_3@ == lossy_decode(c.texts[3])
    &&& c.config.len() == 5
    &&& r.config.default_course_flag == c.config[0]
    &&& r.config.value_10034b84 == c.config[1]
    &&& r.config.value_10034b82 == c.config[2]
    &&& r.config.value_10034b80 == c.config[3]
    &&& r.config.value_10034b7c == c.config[4]
    &&& r.config.value_10034b78 == c.config_long
    &&& r.reserved_values@ == c.reserved
    &&& r.objects@.len() == c.objects.len()
    &&& forall|i: int| 0 <= i < c.objects.len() ==> #[trigger] r.objects@[i] == (CourseObjectRecord {
        index: i as usize,
        x: c.objects[i].0,
        image_id: c.objects[i].1,
        distance: c.objects[i].2,
    })
    &&& r.checksum_read == c.checksum_read
    &&& r.checksum_computed == c.checksum_computed
}

/// Reads the version and the four text sections.
fn read_header(c: &mut Cursor) -> (r: Result<(u16, TextSections), CourseError>)
    requires
        old(c).state() == (ReadState { pos: 0, checksum: CHECKSUM_SEED }),
    ensures
        final(c).data@ == old(c).data@,
        match spec_header(old(c).data@) {
            Some((v, texts, st)) => r matches Ok((v2, ts)) && v2 == v && final(c).state() == st
                && ts.intro_name@ == lossy_decode(texts[0]) && ts.briefing@ == lossy_decode(texts[1])
                && ts.line_2@ == lossy_decode(texts[2]) && ts.line_3@ == lossy_decode(texts[3]),
            None => r matches Err(e) && e == CourseError::UnexpectedEof,
        },
{
    let format_version = c.get_int()?;
    let intro_name = c.get_chars()?;
    let briefing = c.get_chars()?;
    let line_2 = c.get_chars()?;
    let line_3 = c.get_chars()?;
    Ok((format_version, TextSections { intro_name, briefing, line_2, line_3 }))
}

/// Reads the configuration block.
fn read_config(c: &mut Cursor) -> (r: Result<CourseConfig, CourseError>)
    ensures
        final(c).data@ == old(c).data@,
        match spec_config(old(c).data@, old(c).state()) {
            Some((vs, l, st)) => r matches Ok(cfg) && final(c).state() == st
                && cfg.default_course_flag == vs[0] && cfg.value_10034b84 == vs[1]
                && cfg.value_10034b82 == vs[2] && cfg.value_10034b80 == vs[3]
                && cfg.value_10034b7c == vs[4] && cfg.value_10034b78 == l && vs.len() == 5,
            None => r matches Err(e) && e == CourseError::UnexpectedEof,
        },
{
    proof {
        reveal_with_fuel(spec_get_ints, 6);
    }
    let default_course_flag = c.get_int()?;
    let value_10034b84 = c.get_int()?;
    let value_10034b82 = c.get_int()?;
    let value_10034b80 = c.get_int()?;
    let value_10034b7c = c.get_int()?;
    let value_10034b78 = c.get_long()?;
    Ok(CourseConfig {
        default_course_flag,
        value_10034b84,
        value_10034b82,
        value_10034b80,
        value_10034b7c,
        value_10034b78,
    })
}

/// Reads the six reserved values.
fn read_reserved(c: &mut Cursor) -> (r: Result<[u16; 6], CourseError>)
    ensures
        final(c).data@ == old(c).data@,
        match spec_get_ints(old(c).data@, old(c).state(), 6) {
            Some((vs, st)) => r matches Ok(a) && final(c).state() == st && a@ == vs,
            None => r matches Err(e) && e == CourseError::UnexpectedEof,
        },
{
    proof {
        reveal_with_fuel(spec_get_ints, 7);
    }
    let r0 = c.get_int()?;
    let r1 = c.get_int()?;
    let r2 = c.get_int()?;
    let r3 = c.get_int()?;
    let r4 = c.get_int()?;
    let r5 = c.get_int()?;
    let reserved_values = [r0, r1, r2, r3, r4, r5];
    assert(reserved_values@ == seq![r0, r1, r2, r3, r4, r5]);
    Ok(reserved_values)
}

/// Reads `count` object records.
fn read_objects(c: &mut Cursor, count: u16) -> (r: Result<Vec<CourseObjectRecord>, CourseError>)
    ensures
        final(c).data@ == old(c).data@,
        match spec_get_objects(old(c).data@, old(c).state(), count as nat) {
            Some((os, st)) => r matches Ok(objects) && final(c).state() == st
                && objects@.len() == os.len()
                && forall|i: int| 0 <= i < os.len() ==> #[trigger] objects@[i] == (CourseObjectRecord {
                    index: i as usize,
                    x: os[i].0,
                    image_id: os[i].1,
                    distance: os[i].2,
                }),
            None => r matches Err(e) && e == CourseError::UnexpectedEof,
        },
{
    let ghost s = c.data@;
    let ghost st0 = c.state();
    let object_count = count as usize;
    let mut objects: Vec<CourseObjectRecord> = Vec::new();
    let mut index: usize = 0;
    while index < object_count
        invariant
            c.data@ == s,
            old(c).data@ == s,
            old(c).state() == st0,
            index <= object_count,
            object_count == count,
            spec_get_objects(s, st0, index as nat) matches Some((os, st)) && st == c.state()
                && os.len() == index
                && objects@.len() == index
                && forall|i: int| 0 <= i < index ==> #[trigger] objects@[i] == (CourseObjectRecord {
                    index: i as usize,
                    x: os[i].0,
                    image_id: os[i].1,
                    distance: os[i].2,
                }),
        decreases object_count - index,
    {
        let x = match c.get_int() {
            Ok(v) => v,
            Err(e) => {
                proof { lemma_objects_none_after(s, st0, index as nat, count as nat); }
                return Err(e);
            },
        };
        let image_id = match c.get_int() {
            Ok(v) => v,
            Err(e) => {
                proof { lemma_objects_none_after(s, st0, index as nat, count as nat); }
                return Err(e);
            },
        };
        let distance = match c.get_long() {
            Ok(v) => v,
            Err(e) => {
                proof { lemma_objects_none_after(s, st0, index as nat, count as nat); }
                return Err(e);
            },
        };
        objects.push(CourseObjectRecord { index, x, image_id, distance });
        index += 1;
    }
    Ok(objects)
}

/// Parses a MacSki course file. Fails with `UnexpectedEof` when a record is
/// cut short, and with `UnexpectedVersion` when the complete file does not
/// carry `MAGIC_VERSION`.
pub fn parse_course_file(bytes: &[u8]) -> (r: Result<CourseParseResult, CourseError>)
    ensures
        match spec_parse_course(bytes@) {
            Ok(c) => r matches Ok(res) && course_matches(&res, c),
            Err(e) => r matches Err(e2) && e2 == e,
        },
{
    let mut c = Cursor::new(bytes);
    let (format_version, text_sections) = read_header(&mut c)?;
    let config = read_config(&mut c)?;
    let reserved_values = read_reserved(&mut c)?;
    let object_count = c.get_int()?;
    let objects = read_objects(&mut c, object_count)?;
    let checksum_read = c.get_check()?;
    let checksum_computed = c.checksum;

    if format_version != MAGIC_VERSION {
        return Err(CourseError::UnexpectedVersion(format_version));
    }

    let r = CourseParseResult {
        format_version,
        text_sections,
        config,
        reserved_values,
        objects,
        checksum_read,
        checksum_computed,
    };
    assert(spec_parse_course(bytes@) matches Ok(sc) && course_matches(&r, sc));
    Ok(r)
}

/// When the first `i` records decode but the next one does not, no longer
/// run of records decodes either.
proof fn lemma_objects_none_after(s: Seq<u8>, st: ReadState, i: nat, n: nat)
    requires
        i < n,
        spec_get_objects(s, st, i) matches Some((os, st1)) && spec_get_object(s, st1) is None,
    ensures
        spec_get_objects(s, st, n) is None,
    decreases n,
{
    if n > i + 1 {
        lemma_objects_none_after(s, st, i, (n - 1) as nat);
    }
}

/// Normalizes a course name by trimming and removing carriage returns.
pub fn normalize_course_name(name: &str) -> (r: String)
    ensures
        r@ == remove_char(trim_end_ws(trim_start_ws(name@)), '\r'),
{
    let chars = str_chars(name);
    let trimmed = trim_whitespace(&chars);
    let cleaned = remove_all(&trimmed, '\r');
    string_from_chars(&cleaned)
}

/// Whether `c` is an ASCII letter or digit.
pub open spec fn is_ascii_alnum(c: char) -> bool {
    ('a' <= c <= 'z') || ('A' <= c <= 'Z') || ('0' <= c <= '9')
}

/// The slug body of `s`: ASCII letters and digits are kept, and each run of
/// other characters becomes a single dash (none directly after a dash that
/// was just written, as `last_dash` says).
pub open spec fn slug_body(s: Seq<char>, last_dash: bool) -> Seq<char>
    decreases s.len(),
{
    if s.len() == 0 {
        s
    } else if is_ascii_alnum(s[0]) {
        seq![s[0]] + slug_body(s.drop_first(), false)
    } else if !last_dash {
        seq!['-'] + slug_body(s.drop_first(), true)
    } else {
        slug_body(s.drop_first(), true)
    }
}

/// The slug of a name: the lowercased normalized name, with runs of
/// non-alphanumeric characters collapsed to one dash and dashes trimmed
/// from both ends.
pub open spec fn spec_slug(name: Seq<char>) -> Seq<char> {
    trim_char(
        slug_body(lowercase_text(remove_char(trim_end_ws(trim_start_ws(name)), '\r')), false),
        '-',
    )
}

/// Converts a course name to a URL-friendly slug.
pub fn slugify(name: &str) -> (r: String)
    ensures
        r@ == spec_slug(name@),
        slug_shaped(r@),
        no_ascii_upper(r@),
{
    let normalized = normalize_course_name(name);
    let lowered = to_lowercase(normalized.as_str());
    let chars = str_chars(lowered.as_str());
    let ghost full = chars@;
    let mut out: Vec<char> = Vec::new();
    let mut last_dash = false;
    let mut i: usize = 0;
    assert(full.skip(0) == full);
    assert(out@ + slug_body(full, false) == slug_body(full, false));
    while i < chars.len()
        invariant
            i <= chars.len(),
            chars@ == full,
            out@ + slug_body(full.skip(i as int), last_dash) == slug_body(full, false),
        decreases chars.len() - i,
    {
        let ch = chars[i];
        let ghost rest = full.skip(i as int);
        assert(rest.drop_first() == full.skip(i + 1));
        assert(rest[0] == ch);
        let alnum = (ch >= 'a' && ch <= 'z') || (ch >= 'A' && ch <= 'Z') || (ch >= '0' && ch <= '9');
        if alnum {
            out.push(ch);
            last_dash = false;
        } else if !last_dash {
            out.push('-');
            last_dash = true;
        }
        i += 1;
    }
    proof {
        assert(full.skip(0) == full);
        assert(full.skip(chars.len() as int).len() == 0);
        assert(out@ + slug_body(full.skip(i as int), last_dash) == out@);
    }
    let trimmed = trim_matches_char(&out, '-');
    proof {
        law_slug_shape(name@);
        lemma_slug_no_upper(lowered@);
    }
    string_from_chars(&trimmed)
}

/// Whether `t` has the shape of a slug: only ASCII letters, digits and
/// dashes, no two dashes in a row, and no dash at either end.
pub open spec fn slug_shaped(t: Seq<char>) -> bool {
    &&& forall|i: int| 0 <= i < t.len() ==> is_ascii_alnum(#[trigger] t[i]) || t[i] == '-'
    &&& forall|i: int, j: int| 0 <= i && j == i + 1 && j < t.len() ==> !(#[trigger] t[i] == '-' && #[trigger] t[j] == '-')
    &&& t.len() > 0 ==> t[0] != '-' && t.last() != '-'
}

proof fn lemma_slug_body(s: Seq<char>, last_dash: bool)
    ensures
        forall|i: int| 0 <= i < slug_body(s, last_dash).len() ==>
            is_ascii_alnum(#[trigger] slug_body(s, last_dash)[i]) || slug_body(s, last_dash)[i] == '-',
        forall|i: int, j: int| 0 <= i && j == i + 1 && j < slug_body(s, last_dash).len() ==>
            !(#[trigger] slug_body(s, last_dash)[i] == '-' && #[trigger] slug_body(s, last_dash)[j] == '-'),
        last_dash && slug_body(s, last_dash).len() > 0 ==> slug_body(s, last_dash)[0] != '-',
    decreases s.len(),
{
    if s.len() > 0 {
        let rest = s.drop_first();
        let b = slug_body(s, last_dash);
        if is_ascii_alnum(s[0]) {
            lemma_slug_body(rest, false);
            let r = slug_body(rest, false);
            assert(b == seq![s[0]] + r);
            assert forall|i: int| 0 <= i < b.len() implies is_ascii_alnum(#[trigger] b[i]) || b[i] == '-' by {
                if i > 0 {
                    assert(b[i] == r[i - 1]);
                }
            }
            assert forall|i: int, j: int| 0 <= i && j == i + 1 && j < b.len() implies
                !(#[trigger] b[i] == '-' && #[trigger] b[j] == '-') by {
                if i > 0 {
                    assert(b[i] == r[i - 1] && b[j] == r[j - 1]);
                }
            }
        } else if !last_dash {
            lemma_slug_body(rest, true);
            let r = slug_body(rest, true);
            assert(b == seq!['-'] + r);
            assert forall|i: int| 0 <= i < b.len() implies is_ascii_alnum(#[trigger] b[i]) || b[i] == '-' by {
                if i > 0 {
                    assert(b[i] == r[i - 1]);
                }
            }
            assert forall|i: int, j: int| 0 <= i && j == i + 1 && j < b.len() implies
                !(#[trigger] b[i] == '-' && #[trigger] b[j] == '-') by {
                assert(b[j] == r[j - 1]);
                if i > 0 {
                    assert(b[i] == r[i - 1]);
                }
            }
        } else {
            lemma_slug_body(rest, true);
        }
    }
}

proof fn lemma_trim_start_char(s: Seq<char>, c: char) -> (k: int)
    ensures
        0 <= k <= s.len(),
        trim_start_char(s, c) == s.subrange(k, s.len() as int),
        trim_start_char(s, c).len() > 0 ==> trim_start_char(s, c)[0] != c,
        forall|i: int| 0 <= i < k ==> #[trigger] s[i] == c,
    decreases s.len(),
{
    if s.len() > 0 && s[0] == c {
        let k = lemma_trim_start_char(s.drop_first(), c);
        assert(s.drop_first().subrange(k, s.drop_first().len() as int) == s.subrange(k + 1, s.len() as int));
        assert forall|i: int| 0 <= i < k + 1 implies #[trigger] s[i] == c by {
            if i > 0 {
                assert(s[i] == s.drop_first()[i - 1]);
            }
        }
        k + 1
    } else {
        assert(s.subrange(0, s.len() as int) == s);
        0
    }
}

proof fn lemma_trim_end_char(s: Seq<char>, c: char) -> (k: int)
    ensures
        0 <= k <= s.len(),
        trim_end_char(s, c) == s.subrange(0, k),
        trim_end_char(s, c).len() > 0 ==> trim_end_char(s, c).last() != c,
        forall|i: int| k <= i < s.len() ==> #[trigger] s[i] == c,
    decreases s.len(),
{
    if s.len() > 0 && s.last() == c {
        let k = lemma_trim_end_char(s.drop_last(), c);
        assert(s.drop_last().subrange(0, k) == s.subrange(0, k));
        assert forall|i: int| k <= i < s.len() implies #[trigger] s[i] == c by {
            if i < s.len() - 1 {
                assert(s[i] == s.drop_last()[i]);
            }
        }
        k
    } else {
        assert(s.subrange(0, s.len() as int) == s);
        s.len() as int
    }
}

/// A slug holds only ASCII letters, digits and dashes, never two dashes in
/// a row, and no dash at either end.
pub proof fn law_slug_shape(name: Seq<char>)
    ensures
        slug_shaped(spec_slug(name)),
{
    let body = slug_body(lowercase_text(remove_char(trim_end_ws(trim_start_ws(name)), '\r')), false);
    lemma_slug_body(lowercase_text(remove_char(trim_end_ws(trim_start_ws(name)), '\r')), false);
    let k1 = lemma_trim_start_char(body, '-');
    let mid = trim_start_char(body, '-');
    let k2 = lemma_trim_end_char(mid, '-');
    let t = spec_slug(name);
    assert(t == trim_end_char(mid, '-'));
    assert forall|i: int| 0 <= i < t.len() implies is_ascii_alnum(#[trigger] t[i]) || t[i] == '-' by {
        assert(t[i] == mid[i]);
        assert(mid[i] == body[i + k1]);
    }
    assert forall|i: int, j: int| 0 <= i && j == i + 1 && j < t.len() implies
        !(#[trigger] t[i] == '-' && #[trigger] t[j] == '-') by {
        assert(t[i] == mid[i] && t[j] == mid[j]);
        assert(mid[i] == body[i + k1] && mid[j] == body[j + k1]);
    }
    if t.len() > 0 {
        assert(t[0] == mid[0]);
    }
}

proof fn lemma_remove_char_absent(s: Seq<char>, c: char)
    ensures
        forall|i: int| 0 <= i < remove_char(s, c).len() ==> #[trigger] remove_char(s, c)[i] != c,
    decreases s.len(),
{
    if s.len() > 0 {
        lemma_remove_char_absent(s.drop_last(), c);
        let r = remove_char(s.drop_last(), c);
        if s.last() != c {
            assert forall|i: int| 0 <= i < remove_char(s, c).len() implies #[trigger] remove_char(s, c)[i] != c by {
                if i < r.len() {
                    assert(remove_char(s, c)[i] == r[i]);
                }
            }
        }
    }
}

/// A normalized course name holds no carriage return.
pub proof fn law_normalized_has_no_cr(name: Seq<char>)
    ensures
        forall|i: int| 0 <= i < remove_char(trim_end_ws(trim_start_ws(name)), '\r').len() ==>
            #[trigger] remove_char(trim_end_ws(trim_start_ws(name)), '\r')[i] != '\r',
{
    lemma_remove_char_absent(trim_end_ws(trim_start_ws(name)), '\r');
}

/// The ASCII letters and digits of `s`, in order.
pub open spec fn ascii_alnums(s: Seq<char>) -> Seq<char>
    decreases s.len(),
{
    if s.len() == 0 {
        s
    } else if is_ascii_alnum(s[0]) {
        seq![s[0]] + ascii_alnums(s.drop_first())
    } else {
        ascii_alnums(s.drop_first())
    }
}

proof fn lemma_remove_char_concat(a: Seq<char>, b: Seq<char>, c: char)
    ensures
        remove_char(a + b, c) == remove_char(a, c) + remove_char(b, c),
    decreases b.len(),
{
    if b.len() == 0 {
        assert(a + b == a);
        assert(remove_char(a, c) + remove_char(b, c) == remove_char(a, c));
    } else {
        lemma_remove_char_concat(a, b.drop_last(), c);
        assert((a + b).drop_last() == a + b.drop_last());
        assert((a + b).last() == b.last());
        if b.last() != c {
            assert(remove_char(a, c) + remove_char(b.drop_last(), c).push(b.last())
                == (remove_char(a, c) + remove_char(b.drop_last(), c)).push(b.last()));
        }
    }
}

proof fn lemma_remove_char_all(s: Seq<char>, c: char)
    requires
        forall|i: int| 0 <= i < s.len() ==> #[trigger] s[i] == c,
    ensures
        remove_char(s, c) == Seq::<char>::empty(),
    decreases s.len(),
{
    if s.len() > 0 {
        assert forall|i: int| 0 <= i < s.drop_last().len() implies #[trigger] s.drop_last()[i] == c by {
            assert(s.drop_last()[i] == s[i]);
        }
        lemma_remove_char_all(s.drop_last(), c);
    }
}

proof fn lemma_remove_char_one(x: char, c: char)
    ensures
        remove_char(seq![x], c) == (if x == c { Seq::<char>::empty() } else { seq![x] }),
{
    let e = Seq::<char>::empty();
    assert(seq![x].drop_last() == e);
    assert(seq![x].last() == x);
    assert(remove_char(e, c) == e);
    if x != c {
        assert(remove_char(seq![x], c) == remove_char(e, c).push(x));
        assert(e.push(x) == seq![x]);
    } else {
        assert(remove_char(seq![x], c) == remove_char(e, c));
    }
}

proof fn lemma_slug_body_alnums(s: Seq<char>, last_dash: bool)
    ensures
        remove_char(slug_body(s, last_dash), '-') == ascii_alnums(s),
    decreases s.len(),
{
    if s.len() > 0 {
        let rest = s.drop_first();
        if is_ascii_alnum(s[0]) {
            lemma_slug_body_alnums(rest, false);
            lemma_remove_char_concat(seq![s[0]], slug_body(rest, false), '-');
            lemma_remove_char_one(s[0], '-');
        } else if !last_dash {
            lemma_slug_body_alnums(rest, true);
            lemma_remove_char_concat(seq!['-'], slug_body(rest, true), '-');
            lemma_remove_char_one('-', '-');
            assert(Seq::<char>::empty() + remove_char(slug_body(rest, true), '-') == remove_char(slug_body(rest, true), '-'));
        } else {
            lemma_slug_body_alnums(rest, true);
        }
    }
}

/// Dropping the dashes of a slug leaves exactly the ASCII letters and
/// digits of the lowercased normalized name, in order.
pub proof fn law_slug_keeps_alnums(name: Seq<char>)
    ensures
        remove_char(spec_slug(name), '-')
            == ascii_alnums(lowercase_text(remove_char(trim_end_ws(trim_start_ws(name)), '\r'))),
{
    let lowered = lowercase_text(remove_char(trim_end_ws(trim_start_ws(name)), '\r'));
    let body = slug_body(lowered, false);
    lemma_slug_body_alnums(lowered, false);
    let k1 = lemma_trim_start_char(body, '-');
    let mid = trim_start_char(body, '-');
    assert(body == body.subrange(0, k1) + mid);
    lemma_remove_char_concat(body.subrange(0, k1), mid, '-');
    lemma_remove_char_all(body.subrange(0, k1), '-');
    assert(Seq::<char>::empty() + remove_char(mid, '-') == remove_char(mid, '-'));
    let k2 = lemma_trim_end_char(mid, '-');
    let t = trim_end_char(mid, '-');
    assert(mid == t + mid.subrange(k2, mid.len() as int));
    lemma_remove_char_concat(t, mid.subrange(k2, mid.len() as int), '-');
    assert forall|i: int| 0 <= i < mid.subrange(k2, mid.len() as int).len() implies
        #[trigger] mid.subrange(k2, mid.len() as int)[i] == '-' by {
        assert(mid.subrange(k2, mid.len() as int)[i] == mid[k2 + i]);
    }
    lemma_remove_char_all(mid.subrange(k2, mid.len() as int), '-');
    assert(remove_char(t, '-') + Seq::<char>::empty() == remove_char(t, '-'));
    assert(spec_slug(name) == t);
}

proof fn lemma_slug_body_no_upper(s: Seq<char>, last_dash: bool)
    requires
        no_ascii_upper(s),
    ensures
        no_ascii_upper(slug_body(s, last_dash)),
    decreases s.len(),
{
    if s.len() > 0 {
        let rest = s.drop_first();
        assert forall|i: int| 0 <= i < rest.len() implies !('A' <= #[trigger] rest[i] <= 'Z') by {
            assert(rest[i] == s[i + 1]);
        }
        let b = slug_body(s, last_dash);
        if is_ascii_alnum(s[0]) {
            lemma_slug_body_no_upper(rest, false);
            assert forall|i: int| 0 <= i < b.len() implies !('A' <= #[trigger] b[i] <= 'Z') by {
                if i > 0 {
                    assert(b[i] == slug_body(rest, false)[i - 1]);
                } else {
                    assert(b[0] == s[0]);
                }
            }
        } else if !last_dash {
            lemma_slug_body_no_upper(rest, true);
            assert forall|i: int| 0 <= i < b.len() implies !('A' <= #[trigger] b[i] <= 'Z') by {
                if i > 0 {
                    assert(b[i] == slug_body(rest, true)[i - 1]);
                }
            }
        } else {
            lemma_slug_body_no_upper(rest, true);
        }
    }
}

proof fn lemma_slug_no_upper(lowered: Seq<char>)
    requires
        no_ascii_upper(lowered),
    ensures
        no_ascii_upper(trim_char(slug_body(lowered, false), '-')),
{
    let body = slug_body(lowered, false);
    lemma_slug_body_no_upper(lowered, false);
    let k1 = lemma_trim_start_char(body, '-');
    let mid = trim_start_char(body, '-');
    let k2 = lemma_trim_end_char(mid, '-');
    let t = trim_end_char(mid, '-');
    assert forall|i: int| 0 <= i < t.len() implies !('A' <= #[trigger] t[i] <= 'Z') by {
        assert(t[i] == mid[i]);
        assert(mid[i] == body[i + k1]);
    }
}

proof fn lemma_remove_absent(s: Seq<char>, c: char)
    requires
        forall|i: int| 0 <= i < s.len() ==> #[trigger] s[i] != c,
    ensures
        remove_char(s, c) == s,
    decreases s.len(),
{
    if s.len() > 0 {
        assert forall|i: int| 0 <= i < s.drop_last().len() implies #[trigger] s.drop_last()[i] != c by {
            assert(s.drop_last()[i] == s[i]);
        }
        lemma_remove_absent(s.drop_last(), c);
        assert(s.drop_last().push(s.last()) == s);
    }
}

proof fn lemma_slug_body_id(s: Seq<char>, last_dash: bool)
    requires
        forall|i: int| 0 <= i < s.len() ==> is_ascii_alnum(#[trigger] s[i]) || s[i] == '-',
        forall|i: int, j: int| 0 <= i && j == i + 1 && j < s.len() ==> !(#[trigger] s[i] == '-' && #[trigger] s[j] == '-'),
        last_dash && s.len() > 0 ==> s[0] != '-',
    ensures
        slug_body(s, last_dash) == s,
    decreases s.len(),
{
    if s.len() > 0 {
        let rest = s.drop_first();
        assert forall|i: int| 0 <= i < rest.len() implies is_ascii_alnum(#[trigger] rest[i]) || rest[i] == '-' by {
            assert(rest[i] == s[i + 1]);
        }
        assert forall|i: int, j: int| 0 <= i && j == i + 1 && j < rest.len() implies
            !(#[trigger] rest[i] == '-' && #[trigger] rest[j] == '-') by {
            assert(rest[i] == s[i + 1] && rest[j] == s[j + 1]);
        }
        if is_ascii_alnum(s[0]) {
            lemma_slug_body_id(rest, false);
            assert(seq![s[0]] + rest == s);
        } else {
            if rest.len() > 0 {
                assert(rest[0] == s[1]);
            }
            lemma_slug_body_id(rest, true);
            assert(seq![s[0]] + rest == s);
        }
    }
}

/// A slug is its own slug: slugifying the result of `slugify` gives it back.
pub proof fn law_slug_idempotent(s: Seq<char>)
    requires
        slug_shaped(s),
        no_ascii_upper(s),
    ensures
        spec_slug(s) == s,
{
    if s.len() > 0 {
        assert(is_ascii_alnum(s[0]) || s[0] == '-');
        assert(!unicode_whitespace(s[0]));
        assert(is_ascii_alnum(s[s.len() - 1]) || s[s.len() - 1] == '-');
        assert(!unicode_whitespace(s.last()));
    }
    assert(trim_start_ws(s) == s);
    assert(trim_end_ws(s) == s);
    assert forall|i: int| 0 <= i < s.len() implies #[trigger] s[i] != '\r' by {
        assert(is_ascii_alnum(s[i]) || s[i] == '-');
    }
    lemma_remove_absent(s, '\r');
    assert forall|i: int| 0 <= i < s.len() implies #[trigger] s[i] <= '\u{7f}' by {
        assert(is_ascii_alnum(s[i]) || s[i] == '-');
    }
    assert(ascii_text(s));
    assert(lowercase_text(s) =~= s) by {
        assert forall|i: int| 0 <= i < s.len() implies ascii_lower_char(s[i]) == s[i] by {
            assert(!('A' <= s[i] <= 'Z'));
        }
    }
    lemma_slug_body_id(s, false);
    assert(trim_start_char(s, '-') == s);
    assert(trim_end_char(s, '-') == s);
}

} // verus!
