use bevyski::pict::{decode_pict_bytes_to_image, PictResourceError};
use bevyski::records::{read_version, PictVersion};
use bevyski::drawing_context::DrawingContext;
use bevyski::shared::Rect;
use bevyski::{v1, v2};

/// A picture header: size word, bounds (top, left, bottom, right).
fn header(top: i16, left: i16, bottom: i16, right: i16) -> Vec<u8> {
    let mut v = vec![0x00, 0x00];
    for c in [top, left, bottom, right] {
        v.extend_from_slice(&c.to_be_bytes());
    }
    v
}

fn be16(v: &mut Vec<u8>, x: u16) {
    v.extend_from_slice(&x.to_be_bytes());
}

#[test]
fn v1_end_only_picture_is_a_blank_canvas() {
    let mut data = header(0, 0, 4, 3);
    data.extend_from_slice(&[0x11, 0x01, 0xFF]);
    let img = decode_pict_bytes_to_image(&data).expect("decodes");
    assert_eq!(img.dimensions(), (3, 4));
    for y in 0..4 {
        for x in 0..3 {
            assert_eq!(img.pixel(x, y), Some((0, 0, 0, 0)));
        }
    }
    assert_eq!(img.pixel(3, 0), None);
    assert_eq!(img.into_samples(), vec![0u8; 3 * 4 * 4]);
}

#[test]
fn v2_end_only_picture_is_a_blank_canvas() {
    let mut data = header(10, 20, 12, 25);
    data.extend_from_slice(&[0x00, 0x11, 0x00, 0xFF]);
    let img = decode_pict_bytes_to_image(&data).expect("decodes");
    assert_eq!(img.dimensions(), (5, 2));
    assert_eq!(img.pixel(4, 1), Some((0, 0, 0, 0)));
}

#[test]
fn reversed_bounds_give_a_one_pixel_axis() {
    let mut data = header(4, 0, 0, 2);
    data.extend_from_slice(&[0x11, 0x01, 0xFF]);
    let img = decode_pict_bytes_to_image(&data).expect("decodes");
    assert_eq!(img.dimensions(), (2, 1));
}

#[test]
fn short_input_is_a_read_error() {
    assert_eq!(decode_pict_bytes_to_image(&[0, 1, 2, 3, 4]).err(), Some(PictResourceError::BinRead));
    assert_eq!(decode_pict_bytes_to_image(&[]).err(), Some(PictResourceError::BinRead));
}

#[test]
fn bad_version_marker_is_a_read_error() {
    let mut data = header(0, 0, 1, 1);
    data.extend_from_slice(&[0x12, 0x01, 0xFF]);
    assert_eq!(decode_pict_bytes_to_image(&data).err(), Some(PictResourceError::BinRead));
}

#[test]
fn missing_end_opcode_is_a_read_error() {
    let mut data = header(0, 0, 1, 1);
    data.extend_from_slice(&[0x11, 0x01]);
    assert_eq!(decode_pict_bytes_to_image(&data).err(), Some(PictResourceError::BinRead));
    // A no-op followed by nothing.
    let mut data = header(0, 0, 1, 1);
    data.extend_from_slice(&[0x11, 0x01, 0x00]);
    assert_eq!(decode_pict_bytes_to_image(&data).err(), Some(PictResourceError::BinRead));
}

#[test]
fn unknown_v1_opcode_ends_the_picture() {
    let mut data = header(0, 0, 2, 2);
    // 0xC0 is not a version 1 opcode: drawing stops there.
    data.extend_from_slice(&[0x11, 0x01, 0xC0]);
    let img = decode_pict_bytes_to_image(&data).expect("decodes");
    assert_eq!(img.dimensions(), (2, 2));
}

fn bitmap_picture(dst_left: i16) -> Vec<u8> {
    let mut data = header(0, 0, 2, 8);
    data.extend_from_slice(&[0x11, 0x01, 0x90]);
    be16(&mut data, 1); // bytes per row
    for r in [[0i16, 0, 2, 8], [0, 0, 2, 8], [0, dst_left, 2, 8 + dst_left]] {
        for c in r {
            data.extend_from_slice(&c.to_be_bytes());
        }
    }
    be16(&mut data, 0); // srcCopy
    data.extend_from_slice(&[0x80, 0x01]);
    data.push(0xFF);
    data
}

#[test]
fn v1_bits_rect_draws_black_and_white_pixels() {
    let img = decode_pict_bytes_to_image(&bitmap_picture(0)).expect("decodes");
    assert_eq!(img.dimensions(), (8, 2));
    let black = Some((0, 0, 0, 0xFF));
    let white = Some((0xFF, 0xFF, 0xFF, 0xFF));
    assert_eq!(img.pixel(0, 0), black);
    for x in 1..8 {
        assert_eq!(img.pixel(x, 0), white);
    }
    for x in 0..7 {
        assert_eq!(img.pixel(x, 1), white);
    }
    assert_eq!(img.pixel(7, 1), black);
    let samples = img.into_samples();
    assert_eq!(samples.len(), 8 * 2 * 4);
    assert_eq!(&samples[0..8], &[0, 0, 0, 0xFF, 0xFF, 0xFF, 0xFF, 0xFF]);
}

#[test]
fn v1_bits_rect_is_clipped_by_the_canvas() {
    // Shifted two pixels to the right: the last two source columns fall
    // outside the canvas and the first two canvas columns stay blank.
    let img = decode_pict_bytes_to_image(&bitmap_picture(2)).expect("decodes");
    assert_eq!(img.pixel(0, 0), Some((0, 0, 0, 0)));
    assert_eq!(img.pixel(1, 1), Some((0, 0, 0, 0)));
    assert_eq!(img.pixel(2, 0), Some((0, 0, 0, 0xFF)));
    assert_eq!(img.pixel(7, 1), Some((0xFF, 0xFF, 0xFF, 0xFF)));
}

#[test]
fn truncated_bitmap_record_reads_as_an_unknown_opcode() {
    // The copy record cannot be read whole, so its opcode byte is taken as
    // an unknown opcode, which ends the picture with nothing drawn.
    let mut data = bitmap_picture(0);
    data.truncate(data.len() - 2);
    let img = decode_pict_bytes_to_image(&data).expect("decodes");
    assert_eq!(img.pixel(0, 0), Some((0, 0, 0, 0)));
}

#[test]
fn version_markers_are_read() {
    let (v, p) = read_version(&[0x11, 0x01], 0).expect("v1");
    assert!(matches!(v, PictVersion::Version1(1)));
    assert!(!v.is_version2());
    assert_eq!(p, 2);
    let (v, p) = read_version(&[0x00, 0x11], 0).expect("v2");
    assert!(v.is_version2());
    assert_eq!(p, 2);
    assert!(read_version(&[0x00, 0x12], 0).is_none());
}

/// A version 2 picture two pixels wide with one `PackBitsRect` copy of an
/// indexed 8-bit pixmap stored unpacked (its rows are under 8 bytes).
fn indexed_picture(pixels: [u8; 2]) -> Vec<u8> {
    let mut data = header(0, 0, 1, 2);
    data.extend_from_slice(&[0x00, 0x11]);
    be16(&mut data, 0x0098);
    data.extend_from_slice(&[0x80, 0x02]); // pixmap, 2 bytes per row
    for c in [0i16, 0, 1, 2] {
        data.extend_from_slice(&c.to_be_bytes());
    }
    be16(&mut data, 0); // version
    be16(&mut data, 0); // packing: default
    data.extend_from_slice(&[0; 4]); // pack size
    data.extend_from_slice(&[0, 72, 0, 0, 0, 72, 0, 0]); // resolutions
    be16(&mut data, 0); // indexed
    be16(&mut data, 8); // bits per pixel
    be16(&mut data, 1); // components
    be16(&mut data, 8); // bits per component
    data.extend_from_slice(&[0; 12]); // plane bytes, table, reserved
    data.extend_from_slice(&[0; 6]); // seed, flags
    be16(&mut data, 1); // two entries
    for (v, r, g, b) in [(0u16, 0xFFFFu16, 0u16, 0u16), (1, 0, 0x8000, 0xFFFF)] {
        for x in [v, r, g, b] {
            be16(&mut data, x);
        }
    }
    for r in [[0i16, 0, 1, 2], [0, 0, 1, 2]] {
        for c in r {
            data.extend_from_slice(&c.to_be_bytes());
        }
    }
    be16(&mut data, 0); // srcCopy
    data.extend_from_slice(&pixels);
    assert_eq!(data.len() % 2, 0);
    be16(&mut data, 0x00FF);
    data
}

#[test]
fn v2_indexed_pixmap_takes_colors_from_the_table() {
    let img = decode_pict_bytes_to_image(&indexed_picture([1, 0])).expect("decodes");
    assert_eq!(img.dimensions(), (2, 1));
    assert_eq!(img.pixel(0, 0), Some((0, 0x80, 0xFF, 0xFF)));
    assert_eq!(img.pixel(1, 0), Some((0xFF, 0, 0, 0xFF)));
}

#[test]
fn v2_indexed_pixmap_leaves_pixels_without_an_entry_blank() {
    let img = decode_pict_bytes_to_image(&indexed_picture([7, 1])).expect("decodes");
    assert_eq!(img.pixel(0, 0), Some((0, 0, 0, 0)));
    assert_eq!(img.pixel(1, 0), Some((0, 0x80, 0xFF, 0xFF)));
}

#[test]
fn v1_clip_region_limits_copies() {
    let mut data = header(0, 0, 2, 8);
    data.extend_from_slice(&[0x11, 0x01, 0x01]);
    be16(&mut data, 10); // a region with a bounding box and no toggles
    for c in [0i16, 0, 1, 8] {
        data.extend_from_slice(&c.to_be_bytes());
    }
    let copy = bitmap_picture(0);
    // Append the copy opcode and the end opcode from the bitmap picture.
    data.extend_from_slice(&copy[12..]);
    let img = decode_pict_bytes_to_image(&data).expect("decodes");
    assert_eq!(img.pixel(0, 0), Some((0, 0, 0, 0xFF)));
    assert_eq!(img.pixel(1, 0), Some((0xFF, 0xFF, 0xFF, 0xFF)));
    for x in 0..8 {
        assert_eq!(img.pixel(x, 1), Some((0, 0, 0, 0)));
    }
}

#[test]
fn only_the_end_opcode_ends_a_picture_command() {
    let mut ctx = DrawingContext::new(Rect { top: 0, left: 0, bottom: 2, right: 2 });
    assert!(!ctx.command_v1(v1::Opcode::Unknown(0x99)));
    assert!(!ctx.command_v1(v1::Opcode::NOP));
    assert!(ctx.command_v1(v1::Opcode::EndOfPicture));
    assert!(!ctx.command_v2(v2::Opcode::Unknown(0x1234)));
    assert!(ctx.command_v2(v2::Opcode::OpEndPic));
}
