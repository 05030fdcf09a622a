use bevyski::packbits::{decode_rle_scanline, read_packbits, unpack_exact, unpack_words_exact, PackBitsError};
use bevyski::parse::{read_polygon, read_rect};
use bevyski::pixdata::PixMapData;
use bevyski::records::{read_header, read_short_string, CommentKind, MinorVersion};
use bevyski::region::Region;
use bevyski::shared::{
    DecodeError, Fixed, PackType, PatternType, PixMap, PixelType, Rect, TransferMode,
};

fn rect(top: i16, left: i16, bottom: i16, right: i16) -> Rect {
    Rect { top, left, bottom, right }
}

#[test]
fn rect_geometry() {
    let r = Rect::new_with_size(5, 3);
    assert_eq!(r, rect(0, 0, 3, 5));
    assert_eq!((r.width(), r.height()), (5, 3));
    let s = rect(-2, 4, 8, 10);
    assert_eq!((s.min_x(), s.max_x(), s.min_y(), s.max_y()), (4, 10, -2, 8));
    assert_eq!((s.origin().x, s.origin().y), (4, -2));
    assert!(s.includes(4, -2));
    assert!(!s.includes(10, 0));
    assert!(!s.includes(5, 8));
    assert!(s.contains(&rect(0, 5, 8, 10)));
    assert!(!s.contains(&rect(0, 3, 8, 10)));
    let (r2, p) = read_rect(&[0, 1, 0, 2, 0, 3, 0xFF, 0xFE], 0).expect("rect");
    assert_eq!(r2, rect(1, 2, 3, -2));
    assert_eq!(p, 8);
    assert!(read_rect(&[0; 7], 0).is_none());
}

#[test]
fn stored_codes() {
    assert_eq!(TransferMode::from_code(0), TransferMode::SrcCopy);
    assert_eq!(TransferMode::from_code(4), TransferMode::SrcXor);
    assert_eq!(TransferMode::from_code(36), TransferMode::Transparent);
    assert_eq!(TransferMode::from_code(100), TransferMode::AppleWorksUnknown);
    assert_eq!(TransferMode::from_code(7), TransferMode::Unknown(7));
    assert!(TransferMode::from_code(7).is_unknown());
    assert!(!TransferMode::default_mode().is_unknown());
    assert_eq!(PackType::from_code(1), PackType::Unpacked);
    assert_eq!(PackType::from_code(4), PackType::RunLengthEncodedComponents);
    assert_eq!(PackType::from_code(9), PackType::Other(9));
    assert!(PixelType::from_code(0).is_indexed());
    assert!(PixelType::from_code(16).is_direct_color());
    assert!(PixelType::from_code(8).is_unknown());
    assert!(PatternType::from_code(1).is_normal());
    assert!(PatternType::from_code(2).is_dither());
    assert_eq!(PatternType::from_code(3), PatternType::Unknown(3));
    assert_eq!(CommentKind::from_code(12345), CommentKind::Lasso);
    assert_eq!(CommentKind::from_code(7), CommentKind::Unknown(7));
}

fn pixmap(row_bytes_and_flags: u16, bounds: Rect, pack_type: PackType) -> PixMap {
    let f = Fixed { int: 72, fraction: 0 };
    PixMap {
        row_bytes_and_flags,
        bounds,
        pm_version: 0,
        pack_type,
        pack_size: 0,
        h_res: f,
        v_res: f,
        pixel_type: PixelType::Indexed,
        pixel_size: 8,
        component_count: 1,
        component_size: 8,
        plane_bytes: 0,
        pm_table: 0,
        pm_reserved: 0,
    }
}

#[test]
fn bytes_per_row_strips_the_flag_bit() {
    assert_eq!(pixmap(0x8004, rect(0, 0, 1, 4), PackType::Default).bytes_per_row(), 4);
    assert_eq!(pixmap(0x7FFF, rect(0, 0, 1, 4), PackType::Default).bytes_per_row(), 0x7FFF);
}

#[test]
fn pixmap_data_by_packing() {
    let data = [9u8, 1, 2, 3, 4, 5, 6, 7, 8];
    // Unpacked: height times bytes per row, as stored.
    let pm = pixmap(0x8004, rect(0, 0, 2, 4), PackType::Unpacked);
    let (d, p) = PixMapData::read_options(&data, 1, &pm).ok().expect("unpacked");
    assert_eq!(d.into_bytes(), vec![1, 2, 3, 4, 5, 6, 7, 8]);
    assert_eq!(p, 9);
    assert_eq!(PixMapData::read_options(&data, 2, &pm).err(), Some(DecodeError::Malformed));
    // Default packing with fewer than 8 bytes per row is stored unpacked.
    let pm = pixmap(0x8004, rect(0, 0, 2, 4), PackType::Default);
    let (d, _) = PixMapData::read_options(&data, 1, &pm).ok().expect("default");
    assert_eq!(d.into_bytes(), vec![1, 2, 3, 4, 5, 6, 7, 8]);
    // Packings the decoder does not handle.
    let pm = pixmap(0x8004, rect(0, 0, 2, 4), PackType::RemovePadByte);
    assert_eq!(PixMapData::read_options(&data, 1, &pm).err(), Some(DecodeError::Fatal));
    // Default packing, 8 bytes per row: one scanline, a count byte then PackBits.
    let pm = pixmap(0x8008, rect(0, 0, 1, 8), PackType::Default);
    let packed = [3u8, 0xF9, 0xAA, 0x00];
    let (d, p) = PixMapData::read_options(&packed, 0, &pm).ok().expect("packed");
    assert_eq!(d.into_bytes(), vec![0xAA; 8]);
    assert_eq!(p, 4);
}

#[test]
fn packbits_runs() {
    assert_eq!(unpack_exact(&[0x02, 1, 2, 3, 0xFE, 9], 6), Ok(vec![1, 2, 3, 9, 9, 9]));
    assert_eq!(unpack_exact(&[0x80, 0x00, 5], 1), Ok(vec![5]));
    assert_eq!(unpack_exact(&[0x00, 5, 0xEE, 0xEE], 1), Ok(vec![5]));
    // A literal or a run longer than what is left is invalid data.
    assert_eq!(unpack_exact(&[0x02, 1, 2, 3], 2), Err(PackBitsError::InvalidData));
    assert_eq!(unpack_exact(&[0xFD, 7], 3), Err(PackBitsError::InvalidData));
    assert_eq!(unpack_exact(&[0xFD], 3), Err(PackBitsError::InvalidData));
    // Data that ends early.
    assert_eq!(unpack_exact(&[0x03, 1, 2], 4), Err(PackBitsError::UnexpectedEof));
    assert_eq!(unpack_exact(&[0xFE], 4), Err(PackBitsError::UnexpectedEof));
    assert_eq!(unpack_exact(&[0x00, 1], 2), Err(PackBitsError::UnexpectedEof));
    assert_eq!(unpack_exact(&[], 0), Ok(vec![]));
    assert_eq!(read_packbits(&[0xAA, 0x01, 4, 5, 0xBB], 1, 2), Ok((vec![4, 5], 4)));
    assert_eq!(unpack_words_exact(&[0x00, 1, 2, 0xFF, 7, 8], 6), Ok(vec![1, 2, 7, 8, 7, 8]));
    assert_eq!(unpack_words_exact(&[0x01, 1, 2], 4), Err(PackBitsError::UnexpectedEof));
    assert_eq!(unpack_words_exact(&[0x01, 1, 2, 3, 4], 2), Err(PackBitsError::InvalidData));
    // An odd length can never be filled by whole words.
    assert_eq!(unpack_words_exact(&[0x00, 1, 2, 0x00, 3, 4], 3), Err(PackBitsError::InvalidData));
    assert_eq!(unpack_words_exact(&[], 0), Ok(vec![]));
}

#[test]
fn rle_scanline() {
    let data = [5u8, 0x01, 5, 6, 0xFF, 7, 0x99];
    assert_eq!(decode_rle_scanline(&data, 0, false, false, 4), Some((vec![5, 6, 7, 7], 6)));
    let large = [0u8, 2, 0xFE, 1];
    assert_eq!(decode_rle_scanline(&large, 0, true, false, 3), Some((vec![1, 1, 1], 4)));
    assert_eq!(decode_rle_scanline(&data, 0, false, false, 5), None);
}

#[test]
fn region_masks_and_queries() {
    let bb = rect(0, 0, 3, 4);
    let toggles = vec![1i16, 1, 3, 0x7fff, 2, 1, 3, 0x7fff, 0x7fff];
    let mut region = Region::from_parts(28, Some(bb), toggles.clone());
    assert_eq!(region.try_as_mask(), Some(vec![0, 0, 0, 0, 0, 1, 1, 0, 0, 0, 0, 0]));
    assert!(!region.is_prepared());
    assert!(region.try_prepare());
    assert!(region.is_prepared());
    assert!(region.contains(1, 1));
    assert!(region.contains(2, 1));
    assert!(!region.contains(0, 1));
    assert!(!region.contains(1, 0));
    assert!(!region.contains(1, 2));
    assert!(!region.contains(4, 1));
    // Preparing again keeps the mask.
    region.prepare();
    assert!(region.contains(1, 1));

    // Without toggle data every pixel of the box is inside.
    let full = Region::from_parts(10, Some(rect(0, 0, 1, 2)), Vec::new());
    assert_eq!(full.try_as_mask(), Some(vec![1, 1]));
    assert!(full.is_prepared());
    assert!(full.contains(1, 0));
    // An odd record size cannot be decoded.
    let mut odd = Region::from_parts(29, Some(bb), toggles);
    assert_eq!(odd.try_as_mask(), None);
    assert!(!odd.try_prepare());
    // No bounding box: every point is inside.
    let empty = Region::new();
    assert!(empty.contains(1000, -5));
}

#[test]
fn records() {
    let (s, p) = read_short_string(&[3, b'a', b'b', b'c', b'd'], 0).expect("string");
    assert_eq!((s.as_str(), p), ("abc", 4));
    assert!(read_short_string(&[4, b'a'], 0).is_none());
    let mut h = vec![0xFF, 0xFF, 0xFF, 0xFE];
    h.extend_from_slice(&[0, 72, 0, 0, 0, 1, 0, 0, 0, 2, 0x80, 0, 0, 3, 0, 0, 0, 0, 0, 9]);
    let (hd, p) = read_header(&h, 0).expect("header");
    assert_eq!(hd.version, MinorVersion::Extended);
    assert_eq!(hd.bounds.left, Fixed { int: 72, fraction: 0 });
    assert_eq!(hd.bounds.right, Fixed { int: 2, fraction: -0x8000 });
    assert_eq!(hd.reserved, 9);
    assert_eq!(p, 24);
    assert!(read_header(&h[..23], 0).is_none());
}

#[test]
fn polygons() {
    let (poly, p) = read_polygon(&[0, 4, 0xAB, 0xCD, 0xEE], 0).ok().expect("polygon");
    assert_eq!(poly.size, 4);
    assert_eq!(poly.data, vec![0xAB, 0xCD]);
    assert_eq!(p, 4);
    assert!(read_polygon(&[0, 6, 1], 0).is_err());
}

use bevyski::shared::{ColorTable, Point};

#[test]
fn points_as_text() {
    assert_eq!(Point { x: 3, y: -12 }.to_text(), "3x-12");
    assert_eq!(Point { x: -32768, y: 0 }.to_text(), "-32768x0");
    assert_eq!(Point { x: 32767, y: 10 }.to_text(), "32767x10");
}

#[test]
fn picture_defaults() {
    let ct = ColorTable::default();
    assert_eq!((ct.ct_seed, ct.ct_flags, ct.ct_table.len()), (0, 0, 0));
    assert_eq!(TransferMode::default(), TransferMode::SrcCopy);
    let r = Region::default();
    assert_eq!((r.size, r.bounding_box, r.data.len()), (0, None, 0));
    assert!(r.decoded_mask.is_none());
}
