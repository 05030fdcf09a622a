use bevyski::convert::{hill_art_mappings, legacy_course};
use bevyski::course_file::{
    normalize_course_name, parse_course_file, slugify, CourseError, Cursor, CHECKSUM_SEED, MAGIC_VERSION,
};

/// Encodes course records the way the game stores them, keeping the
/// running checksum.
struct Encoder {
    out: Vec<u8>,
    checksum: u16,
}

impl Encoder {
    fn new() -> Self {
        Encoder { out: Vec::new(), checksum: CHECKSUM_SEED }
    }
    fn put_int(&mut self, v: u16) {
        self.checksum ^= v;
        let [hi, lo] = v.to_be_bytes();
        self.out.push(hi ^ 0xba);
        self.out.push(lo ^ 0xba);
    }
    fn long(&mut self, v: u32) {
        self.put_int((v >> 16) as u16);
        self.put_int(v as u16);
    }
    fn chars(&mut self, s: &[u8]) {
        for &b in s {
            self.checksum ^= b as u16;
            self.out.push(b ^ 0x5b);
        }
        self.out.push(0x5b);
    }
    fn check(&mut self, v: u16) {
        self.out.extend_from_slice(&v.to_be_bytes());
    }
}

fn sample_course(version: u16, objects: &[(u16, u16, u32)]) -> (Vec<u8>, u16) {
    let mut e = Encoder::new();
    e.put_int(version);
    e.chars(b"Bunny Hill");
    e.chars(b"Stay between the flags.");
    e.chars(b"");
    e.chars(b"Good luck");
    for v in [1u16, 2, 3, 4, 5] {
        e.put_int(v);
    }
    e.long(0x0001_0002);
    for v in [10u16, 11, 12, 13, 14, 15] {
        e.put_int(v);
    }
    e.put_int(objects.len() as u16);
    for &(x, id, d) in objects {
        e.put_int(x);
        e.put_int(id);
        e.long(d);
    }
    let sum = e.checksum;
    e.check(sum);
    (e.out, sum)
}

#[test]
fn parses_a_course_file() {
    let (bytes, sum) = sample_course(MAGIC_VERSION, &[(100, 3, 500), (40, 15, 70000)]);
    let parsed = parse_course_file(&bytes).expect("parses");
    assert_eq!(parsed.format_version, 0x0096);
    assert_eq!(parsed.text_sections.intro_name, "Bunny Hill");
    assert_eq!(parsed.text_sections.briefing, "Stay between the flags.");
    assert_eq!(parsed.text_sections.line_2, "");
    assert_eq!(parsed.text_sections.line_3, "Good luck");
    assert_eq!(parsed.config.default_course_flag, 1);
    assert_eq!(parsed.config.value_10034b7c, 5);
    assert_eq!(parsed.config.value_10034b78, 0x0001_0002);
    assert_eq!(parsed.reserved_values, [10, 11, 12, 13, 14, 15]);
    assert_eq!(parsed.objects.len(), 2);
    assert_eq!((parsed.objects[1].index, parsed.objects[1].x, parsed.objects[1].image_id, parsed.objects[1].distance),
        (1, 40, 15, 70000));
    assert_eq!(parsed.checksum_read, sum);
    assert_eq!(parsed.checksum_computed, sum);

    let course = legacy_course("  Bunny Hill\r\n", parsed, None, Vec::new());
    assert_eq!(course.name, "Bunny Hill");
    assert_eq!(course.source_file, "  Bunny Hill\r\n");
    assert_eq!(course.object_count, 2);
    assert!(course.checksum_valid);
    assert!(course.checksum_low_byte_valid);
}

#[test]
fn checksum_verdicts() {
    let (mut bytes, sum) = sample_course(MAGIC_VERSION, &[]);
    let n = bytes.len();
    // Keep the low byte, change the high byte of the stored checksum.
    bytes[n - 2] ^= 0x01;
    let parsed = parse_course_file(&bytes).expect("parses");
    assert_eq!(parsed.checksum_computed, sum);
    assert_eq!(parsed.checksum_read, sum ^ 0x0100);
    let course = legacy_course("x", parsed, Some("x.rsrc".to_string()), Vec::new());
    assert!(!course.checksum_valid);
    assert!(course.checksum_low_byte_valid);
    assert_eq!(course.rsrc_file, Some("x.rsrc".to_string()));
}

#[test]
fn wrong_version_is_reported_after_reading_everything() {
    let (bytes, _) = sample_course(0x0095, &[(1, 2, 3)]);
    assert_eq!(parse_course_file(&bytes).err(), Some(CourseError::UnexpectedVersion(0x0095)));
    // A truncated file with the wrong version reports the end of file.
    assert_eq!(parse_course_file(&bytes[..bytes.len() - 1]).err(), Some(CourseError::UnexpectedEof));
}

#[test]
fn truncated_files_are_eof_errors() {
    let (bytes, _) = sample_course(MAGIC_VERSION, &[(1, 2, 3)]);
    for cut in [0, 1, 2, 10, bytes.len() - 3, bytes.len() - 1] {
        assert_eq!(parse_course_file(&bytes[..cut]).err(), Some(CourseError::UnexpectedEof), "cut at {cut}");
    }
}

#[test]
fn cursor_reads_encoded_values() {
    let data = [0xba ^ 0x12, 0xba ^ 0x34, 0x5b ^ b'h', 0x5b ^ b'i', 0x5b, 0xAB, 0xCD];
    let mut c = Cursor::new(&data);
    assert_eq!(c.get_int(), Ok(0x1234));
    assert_eq!(c.checksum, CHECKSUM_SEED ^ 0x1234);
    assert_eq!(c.get_chars(), Ok("hi".to_string()));
    assert_eq!(c.checksum, CHECKSUM_SEED ^ 0x1234 ^ (b'h' as u16) ^ (b'i' as u16));
    assert_eq!(c.get_check(), Ok(0xABCD));
    assert_eq!(c.read_u8(), Err(CourseError::UnexpectedEof));
    let mut c = Cursor::new(&data[..4]);
    assert_eq!(c.get_long(), Ok(((0x1234u32) << 16) | ((0x5b ^ b'h' ^ 0xba) as u32) << 8 | (0x5b ^ b'i' ^ 0xba) as u32));
}

#[test]
fn long_strings_stop_after_255_bytes() {
    let mut data = vec![0x5b ^ b'a'; 300];
    data.push(0x5b);
    let mut c = Cursor::new(&data);
    let s = c.get_chars().expect("reads");
    assert_eq!(s.len(), 255);
    assert_eq!(c.pos, 255);
}

#[test]
fn names_and_slugs() {
    assert_eq!(normalize_course_name("  Downhill Run\r\n"), "Downhill Run");
    assert_eq!(normalize_course_name("A\rB"), "AB");
    assert_eq!(slugify("  Downhill Run #2!  "), "downhill-run-2");
    assert_eq!(slugify("--Bunny__Hill--"), "bunny-hill");
    assert_eq!(slugify("***"), "");
    assert_eq!(slugify("Ägypten Slope"), "gypten-slope");
    assert_eq!(slugify("MIXED case"), "mixed-case");
}

#[test]
fn hill_codes_are_listed_once_each_in_order() {
    let mut rsrc = b"xxHIL2iSkiyyHIL1iSkizzHIL2iSkiHILxiSkiHIL".to_vec();
    rsrc.extend_from_slice(&[0xFF]);
    rsrc.extend_from_slice(b"iSki");
    let m = hill_art_mappings(&rsrc);
    let codes: Vec<&str> = m.iter().map(|x| x.asset_code.as_str()).collect();
    assert_eq!(codes, vec!["HIL1iSki", "HIL2iSki", "HILxiSki", "HIL\u{FFFD}iSki"]);
    assert_eq!(m[0].hill_variant, Some(1));
    assert_eq!(m[1].hill_variant, Some(2));
    assert_eq!(m[2].hill_variant, None);
    assert_eq!(m[3].hill_variant, None);
    assert!(m.iter().all(|x| x.mapping_kind == "course_hill_art"));
    assert!(hill_art_mappings(b"HIL1iSk").is_empty());
    assert!(hill_art_mappings(b"").is_empty());
}

#[test]
fn failed_reads_leave_the_cursor_as_the_format_says() {
    let mut c = Cursor::new(&[0xBA, 0x2C]);
    assert_eq!(c.get_int(), Ok(0x0096));
    assert_eq!((c.pos, c.checksum), (2, 0x7087));
    assert_eq!(c.get_int(), Err(CourseError::UnexpectedEof));
    assert_eq!((c.pos, c.checksum), (2, 0x7087));
    // With one byte left, that byte is consumed before the read fails.
    let mut c = Cursor::new(&[0xBA]);
    assert_eq!(c.get_int(), Err(CourseError::UnexpectedEof));
    assert_eq!((c.pos, c.checksum), (1, CHECKSUM_SEED));
    let mut c = Cursor::new(&[0xBA, 0xBB, 0xBA]);
    assert_eq!(c.get_long(), Err(CourseError::UnexpectedEof));
    assert_eq!((c.pos, c.checksum), (3, CHECKSUM_SEED ^ 0x0001));
    let mut c = Cursor::new(&[0x12]);
    assert_eq!(c.get_check(), Err(CourseError::UnexpectedEof));
    assert_eq!((c.pos, c.checksum), (1, CHECKSUM_SEED));
    // A string that runs off the end consumes everything and folds it in.
    let mut c = Cursor::new(&[0x5b ^ b'a', 0x5b ^ b'b']);
    assert_eq!(c.get_chars(), Err(CourseError::UnexpectedEof));
    assert_eq!((c.pos, c.checksum), (2, CHECKSUM_SEED ^ (b'a' as u16) ^ (b'b' as u16)));
}

#[test]
fn whitespace_matches_the_standard_property() {
    for v in 0u32..=0x10FFFF {
        if let Some(c) = char::from_u32(v) {
            assert_eq!(bevyski::text::is_whitespace(c), c.is_whitespace(), "U+{v:04X}");
        }
    }
}

#[test]
fn slugs_keep_the_letters_and_digits_of_the_name() {
    for name in ["  Downhill Run #2!  ", "--Bunny__Hill--", "Ägypten Slope", "a-b--c", "\r\nX y Z\r"] {
        let slug = slugify(name);
        let expected: String = normalize_course_name(name)
            .to_lowercase()
            .chars()
            .filter(|c| c.is_ascii_alphanumeric())
            .collect();
        assert_eq!(slug.replace('-', ""), expected, "{name:?}");
    }
}

#[test]
fn slugs_are_lowercase_and_stable() {
    for name in ["  Downhill Run #2!  ", "--Bunny__Hill--", "ÄGYPTEN Slope", "KELVIN \u{212A}", "MIXED case", ""] {
        let s = slugify(name);
        assert!(s.chars().all(|c| c.is_ascii_lowercase() || c.is_ascii_digit() || c == '-'), "{s:?}");
        assert_eq!(slugify(&s), s);
    }
}
