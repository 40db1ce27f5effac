use lbminfo::bytes::{byte_or_zero, has_bytes, i16_at, i32_at, u16_at, u32_at};
use lbminfo::chunk::custom::{Span, UpdateSpans};
use lbminfo::chunk::dpaint::{DeluxePaintPerspective, DeluxePaintThumbnail, RotationType};
use lbminfo::chunk::graphicraft::Direction;
use lbminfo::chunk::header::{Compression, Mask};
use lbminfo::chunk::range::EnhancedColourCycle;
use lbminfo::chunk::standard::{Body, ColourMap, Rgb};
use lbminfo::chunk::strings::PlatformText;
use lbminfo::chunk::{try_read_chunk, Chunk, ChunkKind};
use lbminfo::error::LBMError;
use lbminfo::flags::{AmigaViewportFlags, RangeFlags};
use lbminfo::lbm::LBMType;
use lbminfo::maths::{Vec2, Vec3};
use lbminfo::reader::LBMReader;

fn tag(t: &[u8; 4]) -> u32 {
    u32::from_be_bytes(*t)
}

#[test]
fn big_endian_reads() {
    let data = [0x12, 0x34, 0xff, 0xfe, 0x80, 0x00, 0x00, 0x01];
    assert_eq!(u16_at(&data, 0), 0x1234);
    assert_eq!(i16_at(&data, 2), -2);
    assert_eq!(u32_at(&data, 0), 0x1234fffe);
    assert_eq!(i32_at(&data, 4), -0x7fff_ffff);
    assert_eq!(i32_at(&data, 2), 0xfffe_8000u32 as i32);
    assert!(has_bytes(&data, 4, 4));
    assert!(!has_bytes(&data, 5, 4));
    assert!(!has_bytes(&data, 9, 0));
    assert_eq!(byte_or_zero(&data, 6, 1), 1);
    assert_eq!(byte_or_zero(&data, 6, 2), 0);
}

#[test]
fn enhanced_range_one_byte_short_is_malformed() {
    // One true-colour entry needs 8 + 4 bytes; declare 11.
    let data = [0, 31, 0, 100, 0, 1, 1, 0, 5, 1, 2, 3, 0, 0];
    assert_eq!(EnhancedColourCycle::read(&data, 0, 11).unwrap_err(), LBMError::BadChunk);
    let (c, n) = EnhancedColourCycle::read(&data, 0, 12).unwrap();
    assert_eq!(n, 12);
    assert_eq!(c.true_range.len(), 1);
    assert_eq!(c.true_range[0].cell, 5);
    assert_eq!(c.true_range[0].rgb, Rgb { r: 1, g: 2, b: 3 });
    assert!(c.fade_ext.is_none());
}

#[test]
fn enhanced_range_with_fade_block() {
    // flags FADE, no true entries, one index entry, then two fades.
    let data = [1, 2, 0, 7, 0, 8, 0, 1, 9, 4, 2, 0, 10, 11, 12, 13];
    let (c, n) = EnhancedColourCycle::read(&data, 0, 16).unwrap();
    assert_eq!(n, 16);
    assert_eq!((c.min, c.max, c.rate), (1, 2, 7));
    assert_eq!(c.regs_range[0].cell, 9);
    assert_eq!(c.regs_range[0].index, 4);
    let fade = c.fade_ext.unwrap();
    assert_eq!(fade.num_fade, 2);
    assert_eq!(fade.fade_range.len(), 2);
    assert_eq!((fade.fade_range[1].cell, fade.fade_range[1].fade), (12, 13));
    // The fade entries must fit in the declared length too.
    assert_eq!(EnhancedColourCycle::read(&data, 0, 15).unwrap_err(), LBMError::BadChunk);
    // The fade header itself is counted before the arrays are read.
    assert_eq!(EnhancedColourCycle::read(&data, 0, 11).unwrap_err(), LBMError::BadChunk);
}

#[test]
fn spans_count_bytes_per_record() {
    let mut data = Vec::new();
    data.extend_from_slice(&5i16.to_be_bytes());
    data.extend_from_slice(&3i16.to_be_bytes());
    data.extend_from_slice(&(-1i16).to_be_bytes()); // gap
    data.extend_from_slice(&[0, 10, 0, 20, 0xff, 0xff]); // simple span
    data.extend_from_slice(&[0, 1, 0, 30, 0, 4, 0, 9]); // span with a hole
    let (s, n) = UpdateSpans::read(&data, 0).unwrap();
    assert_eq!(n, 4 + 2 + 6 + 8);
    assert_eq!(s.start_offset, 5);
    assert_eq!(s.num_spans, 3);
    assert_eq!(
        s.spans,
        vec![
            Span { left: -1, right: 0, inner_left: 0, inner_right: 0 },
            Span { left: 10, right: 20, inner_left: -1, inner_right: 0 },
            Span { left: 1, right: 30, inner_left: 4, inner_right: 9 },
        ]
    );
    assert_eq!(UpdateSpans::read(&data[..data.len() - 1], 0).unwrap_err(), LBMError::ShortRead);
}

#[test]
fn negative_span_count_reads_no_records() {
    let data = [0, 0, 0xff, 0xff];
    let (s, n) = UpdateSpans::read(&data, 0).unwrap();
    assert_eq!(n, 4);
    assert!(s.spans.is_empty());
}

#[test]
fn palette_past_end_reads_zero() {
    let data = [9, 8, 7, 6];
    let (p, n) = ColourMap::read(&data, 0, 6);
    assert_eq!(n, 4);
    assert_eq!(p.entries, vec![Rgb { r: 9, g: 8, b: 7 }, Rgb { r: 6, g: 0, b: 0 }]);
}

#[test]
fn text_past_end_reads_zero() {
    let data = b"ab";
    let (t, n) = PlatformText::read(data, 0, 4);
    assert_eq!(n, 4);
    assert_eq!(t.bytes, vec![b'a', b'b', 0, 0]);
}

#[test]
fn perspective_fields() {
    let mut data = Vec::new();
    data.extend_from_slice(&1i16.to_be_bytes());
    for v in [10i16, -20, 30] {
        data.extend_from_slice(&v.to_be_bytes());
    }
    data.extend_from_slice(&(-1000i32).to_be_bytes());
    for v in [3i16, 4, 2, 15] {
        data.extend_from_slice(&v.to_be_bytes());
    }
    for v in 0..21i32 {
        data.extend_from_slice(&(v * 100).to_be_bytes());
    }
    assert_eq!(data.len(), 104);
    let (p, n) = DeluxePaintPerspective::read(&data, 0).unwrap();
    assert_eq!(n, 104);
    assert_eq!(p.rot_type, RotationType(RotationType::INCR));
    assert_eq!(p.angle, Vec3::new(10, -20, 30));
    assert_eq!(p.persp_depth, -1000);
    assert_eq!(p.uv_centre, Vec2::new(3, 4));
    assert_eq!((p.fixed_coord, p.angle_step), (2, 15));
    assert_eq!(p.grid, Vec3::new(0, 100, 200));
    assert_eq!(p.perm_brush_centre, Vec3::new(900, 1000, 1100));
    assert_eq!(p.matrix.0, 1200);
    assert_eq!(p.matrix.8, 2000);
    assert_eq!(DeluxePaintPerspective::read(&data[..103], 0).unwrap_err(), LBMError::ShortRead);
}

#[test]
fn thumbnail_and_body_lengths() {
    let data = [0, 16, 0, 9, 1, 2, 3];
    let (t, n) = DeluxePaintThumbnail::read(&data, 0, 30).unwrap();
    assert_eq!(n, 4);
    assert_eq!(t.size, (16, 9));
    assert_eq!(t.len, 26);
    assert_eq!(Body::read(100).0.len, 96);
    assert_eq!(Body::read(2).0.len, 0);
    assert_eq!(Body::read(100).1, 0);
}

#[test]
fn registry_lookup_and_minimums() {
    assert_eq!(ChunkKind::lookup(tag(b"BMHD")), Some((ChunkKind::LBMHeader, 20)));
    assert_eq!(ChunkKind::lookup(tag(b"DPPV")), Some((ChunkKind::DeluxePaintPerspective, 104)));
    assert_eq!(ChunkKind::lookup(tag(b"(c) ")), Some((ChunkKind::CopyrightText, 0)));
    assert_eq!(ChunkKind::lookup(tag(b"BHSM")), None);
    let data = [0u8; 32];
    assert!(matches!(try_read_chunk(tag(b"XXXX"), 4, &data, 0), Ok(None)));
    assert_eq!(try_read_chunk(tag(b"CCRT"), 13, &data, 0).unwrap_err(), LBMError::BadChunk);
    assert_eq!(try_read_chunk(tag(b"DPI "), 3, &data, 0).unwrap_err(), LBMError::BadChunk);
    let (c, n) = try_read_chunk(tag(b"DPI "), 4, &[0, 72, 0, 96], 0).unwrap().unwrap();
    assert_eq!(n, 4);
    match c {
        Chunk::DotsPerInch(d) => assert_eq!(d.0, (72, 96)),
        _ => panic!("wrong kind"),
    }
}

#[test]
fn store_places_and_rejects_repeats() {
    let mut r = LBMReader::new();
    let data = [0, 1, 0, 2, 0, 3, 4, 5];
    assert_eq!(r.read_chunk(tag(b"GRAB"), 4, &data, 0), Ok(Some(4)));
    assert_eq!(r.grab.unwrap().point, (1, 2));
    assert_eq!(r.read_chunk(tag(b"GRAB"), 4, &data, 0), Err(LBMError::ChunkConflict));
    assert_eq!(r.read_chunk(tag(b"CRNG"), 8, &data, 0), Ok(Some(8)));
    assert_eq!(r.read_chunk(tag(b"CRNG"), 8, &data, 0), Ok(Some(8)));
    assert_eq!(r.ranges.len(), 2);
    assert_eq!(r.read_chunk(tag(b"ZZZZ"), 8, &data, 0), Ok(None));
    assert!(r.unknown.is_empty());
}

#[test]
fn amiga_flags_text() {
    assert_eq!(AmigaViewportFlags(0x4000).describe(), "SPRITES");
    assert_eq!(AmigaViewportFlags(0x8004).describe(), "LACE | HIRES");
    assert_eq!(AmigaViewportFlags(0x0804 | 0x10000).describe(), "LACE | HAM");
    assert_eq!(AmigaViewportFlags(0).describe(), "");
    assert!(AmigaViewportFlags(0xc000).contains(AmigaViewportFlags::SPRITES));
    assert!(!AmigaViewportFlags(0x8000).contains(AmigaViewportFlags::SPRITES));
}

#[test]
fn range_flags_text() {
    assert_eq!(RangeFlags(0).describe(), "None");
    assert_eq!(RangeFlags(8).describe(), "Fade");
    assert_eq!(RangeFlags(4).describe(), "RNG_DP_RESERVED");
    assert_eq!(RangeFlags(3).describe(), "None | Active | Reverse");
    assert_eq!(RangeFlags(9).describe(), "None | Active | Fade");
    assert!(RangeFlags(9).contains(RangeFlags::FADE));
    assert!(!RangeFlags(1).contains(RangeFlags::FADE));
}

#[test]
fn value_names() {
    assert_eq!(Mask(0).name(), Some("None"));
    assert_eq!(Mask(3).name(), Some("Lasso"));
    assert_eq!(Mask(4).name(), None);
    assert_eq!(Mask::default(), Mask(0));
    assert_eq!(Compression(2).name(), Some("Atari (VDAT)"));
    assert_eq!(Compression(1).name(), Some("RLE (Unpacker)"));
    assert_eq!(Compression::default(), Compression(0));
    assert_eq!(Direction(-1).name(), Some("Backward"));
    assert_eq!(Direction(2).name(), None);
    assert_eq!(RotationType(0).name(), Some("ROT_EULER"));
    assert_eq!(RotationType::default(), RotationType(0));
    assert_eq!(LBMType::Planar.name(), "ILBM");
    assert_eq!(LBMType::from_tag(tag(b"PBM ")), Some(LBMType::Chunky));
    assert_eq!(LBMType::from_tag(tag(b"DEEP")), None);
}
