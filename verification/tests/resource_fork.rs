use bevyski::macski;
use bevyski::resfork::{ResType, ResourceError, ResourceFork};

fn be16(v: &mut Vec<u8>, x: u16) {
    v.extend_from_slice(&x.to_be_bytes());
}

fn be32(v: &mut Vec<u8>, x: u32) {
    v.extend_from_slice(&x.to_be_bytes());
}

/// Builds a fork holding the given types, each with its (id, data)
/// entries, laid out as the classic resource format does.
fn build_fork(types: &[(&[u8; 4], Vec<(i16, Vec<u8>)>)]) -> Vec<u8> {
    let data_offset: u32 = 16;
    let mut data_section = Vec::new();
    let mut offsets = Vec::new();
    for (_, entries) in types {
        let mut offs = Vec::new();
        for (_, bytes) in entries {
            offs.push(data_section.len() as u32);
            be32(&mut data_section, bytes.len() as u32);
            data_section.extend_from_slice(bytes);
        }
        offsets.push(offs);
    }
    let map_offset = data_offset + data_section.len() as u32;
    let mut map = vec![0u8; 22];
    be16(&mut map, 26); // type list offset, read at offset 22 of the map
    be16(&mut map, 0); // name list offset
    let type_list_start = map.len();
    be16(&mut map, (types.len() - 1) as u16);
    let mut ref_offset = 2 + 8 * types.len();
    for (code, entries) in types {
        map.extend_from_slice(*code);
        be16(&mut map, (entries.len() - 1) as u16);
        be16(&mut map, ref_offset as u16);
        ref_offset += 12 * entries.len();
    }
    for (t, (_, entries)) in types.iter().enumerate() {
        for (e, (id, _)) in entries.iter().enumerate() {
            be16(&mut map, *id as u16);
            be16(&mut map, 0xFFFF); // no name
            be32(&mut map, 0x2000_0000 | offsets[t][e]); // attributes in the high byte
            be32(&mut map, 0);
        }
    }
    assert_eq!(type_list_start, 26);
    let mut out = Vec::new();
    be32(&mut out, data_offset);
    be32(&mut out, map_offset);
    be32(&mut out, data_section.len() as u32);
    be32(&mut out, map.len() as u32);
    out.extend_from_slice(&data_section);
    out.extend_from_slice(&map);
    out
}

fn sample_fork() -> Vec<u8> {
    build_fork(&[
        (b"PICT", vec![(128, vec![1, 2, 3]), (129, vec![])]),
        (b"snd ", vec![(-4, vec![9; 5])]),
    ])
}

#[test]
fn parses_types_and_resources() {
    let fork = ResourceFork::from_bytes(&sample_fork()).expect("parses");
    assert_eq!(fork.resource_count(), 3);
    let mut codes: Vec<String> = fork.resource_types().iter().map(|t| t.as_str()).collect();
    codes.sort();
    assert_eq!(codes, vec!["PICT".to_string(), "snd ".to_string()]);

    let pict = fork.get_resource(macski::pict(), 128).expect("PICT 128");
    assert_eq!(pict.id, 128);
    assert_eq!(pict.res_type, ResType::new(b"PICT"));
    assert_eq!(pict.data, vec![1, 2, 3]);
    assert_eq!(pict.name, None);

    let empty = fork.get_resource(ResType::from_str("PICT"), 129).expect("PICT 129");
    assert!(empty.data.is_empty());

    let snd = fork.get_resource(macski::snd(), -4).expect("snd -4");
    assert_eq!(snd.data, vec![9; 5]);
}

#[test]
fn missing_resources_are_none() {
    let fork = ResourceFork::from_bytes(&sample_fork()).expect("parses");
    assert!(fork.get_resource(macski::pict(), 130).is_none());
    assert!(fork.get_resource(macski::vers(), 128).is_none());
    assert!(fork.get_resources_by_type(macski::colr()).is_none());
    let picts = fork.get_resources_by_type(macski::pict()).expect("PICT type");
    assert_eq!(picts.len(), 2);
    assert!(picts.contains_key(&128) && picts.contains_key(&129));
}

#[test]
fn a_later_entry_with_the_same_id_replaces_the_earlier() {
    let bytes = build_fork(&[(b"STR ", vec![(7, vec![1]), (7, vec![2, 2])])]);
    let fork = ResourceFork::from_bytes(&bytes).expect("parses");
    assert_eq!(fork.resource_count(), 1);
    assert_eq!(fork.get_resource(macski::str_list(), 7).expect("STR 7").data, vec![2, 2]);
}

#[test]
fn truncated_forks_are_io_errors() {
    assert_eq!(ResourceFork::from_bytes(&[0u8; 10]).err(), Some(ResourceError::Io));
    let bytes = sample_fork();
    assert_eq!(ResourceFork::from_bytes(&bytes[..bytes.len() - 1]).err(), Some(ResourceError::Io));
    // Data whose length runs past the end of the fork.
    let mut bad = sample_fork();
    bad[16] = 0x7F;
    assert_eq!(ResourceFork::from_bytes(&bad).err(), Some(ResourceError::Io));
}

#[test]
fn res_type_codes() {
    assert_eq!(ResType::from_str("PI").0, *b"PI  ");
    assert_eq!(ResType::from_str("PICTURE").0, *b"PICT");
    assert_eq!(ResType::from_str("").0, *b"    ");
    assert_eq!(ResType::new(b"vers"), macski::vers());
    assert_eq!(macski::colr().0, *b"COLR");
    assert_eq!(macski::hill().0, *b"HILL");
    assert_eq!(macski::str_list().0, *b"STR ");
    let t = ResType::from_code(0x5049_4354);
    assert_eq!(t.0, *b"PICT");
    assert_eq!(t.code(), 0x5049_4354);
    assert_eq!(t.as_str(), "PICT");
    // Bytes that are not UTF-8 are replaced.
    assert_eq!(ResType::new(&[0x41, 0xFF, 0x42, 0x43]).as_str(), "A\u{FFFD}BC");
}

#[test]
fn resource_ids_come_sorted() {
    let bytes = build_fork(&[(b"PICT", vec![(300, vec![1]), (-2, vec![2]), (128, vec![]), (-32768, vec![])])]);
    let fork = ResourceFork::from_bytes(&bytes).expect("parses");
    assert_eq!(fork.resource_ids(macski::pict()), vec![-32768, -2, 128, 300]);
    assert!(fork.resource_ids(macski::snd()).is_empty());
}

#[test]
fn res_type_text_round_trip() {
    for s in ["PICT", "snd ", "STR ", "vers"] {
        let t = ResType::from_str(s);
        assert_eq!(t.as_str(), s);
        assert_eq!(ResType::from_str(&t.as_str()), t);
    }
}
