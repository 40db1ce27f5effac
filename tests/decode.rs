use lbminfo::chunk::header::LBMHeader;
use lbminfo::chunk::standard::Rgb;
use lbminfo::error::LBMError;
use lbminfo::lbm::{LBMType, LBM};

fn chunk(tag: &[u8; 4], payload: &[u8]) -> Vec<u8> {
    let mut out = tag.to_vec();
    out.extend_from_slice(&(payload.len() as u32).to_be_bytes());
    out.extend_from_slice(payload);
    if payload.len() % 2 == 1 {
        out.push(0);
    }
    out
}

fn form(kind: &[u8; 4], chunks: &[Vec<u8>]) -> Vec<u8> {
    let body: Vec<u8> = chunks.concat();
    let mut out = b"FORM".to_vec();
    out.extend_from_slice(&(4 + body.len() as u32).to_be_bytes());
    out.extend_from_slice(kind);
    out.extend_from_slice(&body);
    out
}

fn header_payload(w: u16, h: u16, compression: u8) -> Vec<u8> {
    let mut p = Vec::new();
    p.extend_from_slice(&w.to_be_bytes());
    p.extend_from_slice(&h.to_be_bytes());
    p.extend_from_slice(&(-3i16).to_be_bytes());
    p.extend_from_slice(&7i16.to_be_bytes());
    p.push(8); // planes
    p.push(2); // masking
    p.push(compression);
    p.push(0); // pad
    p.extend_from_slice(&0x1234u16.to_be_bytes());
    p.push(10);
    p.push(11);
    p.extend_from_slice(&w.to_be_bytes());
    p.extend_from_slice(&h.to_be_bytes());
    p
}

fn minimal(kind: &[u8; 4]) -> Vec<u8> {
    form(kind, &[chunk(b"BMHD", &header_payload(320, 200, 1)), chunk(b"BODY", &[1, 2, 3, 4, 5, 6, 7, 8])])
}

#[test]
fn decodes_header_fields() {
    let lbm = LBM::read(&minimal(b"ILBM")).unwrap();
    assert_eq!(lbm.iff_type, LBMType::Planar);
    let h: LBMHeader = lbm.header;
    assert_eq!(h.size, (320, 200));
    assert_eq!(h.offset, (-3, 7));
    assert_eq!(h.num_planes, 8);
    assert_eq!(h.masking.0, 2);
    assert_eq!(h.compression.0, 1);
    assert_eq!(h.transparent, 0x1234);
    assert_eq!(h.aspect, (10, 11));
    assert_eq!(h.page_size, (320, 200));
    assert_eq!(lbm.body.unwrap().len, 4);
    assert!(lbm.unknown.is_empty());
}

#[test]
fn chunky_type_is_recognised() {
    let lbm = LBM::read(&minimal(b"PBM ")).unwrap();
    assert_eq!(lbm.iff_type, LBMType::Chunky);
    assert_eq!(lbm.iff_type.tag(), u32::from_be_bytes(*b"PBM "));
}

#[test]
fn decoding_twice_gives_equal_documents() {
    let data = form(
        b"ILBM",
        &[
            chunk(b"BMHD", &header_payload(64, 48, 0)),
            chunk(b"CMAP", &[1, 2, 3, 4, 5, 6]),
            chunk(b"NAME", b"pic"),
            chunk(b"CRNG", &[0, 0, 0, 10, 0, 1, 3, 9]),
        ],
    );
    let a = LBM::read(&data).unwrap();
    let b = LBM::read(&data).unwrap();
    assert_eq!(a, b);
}

#[test]
fn bad_magic_is_refused() {
    let mut data = minimal(b"ILBM");
    data[0] = b'X';
    assert_eq!(LBM::read(&data).unwrap_err(), LBMError::BadForm);
}

#[test]
fn too_small_form_is_refused() {
    let data = form(b"ILBM", &[chunk(b"BMHD", &header_payload(1, 1, 0))]);
    assert_eq!(LBM::read(&data).unwrap_err(), LBMError::BadSize);
}

#[test]
fn unknown_form_type_is_refused() {
    assert_eq!(LBM::read(&minimal(b"ACBM")).unwrap_err(), LBMError::BadType);
}

#[test]
fn truncated_input_is_a_short_read() {
    let data = minimal(b"ILBM");
    assert_eq!(LBM::read(&data[..3]).unwrap_err(), LBMError::ShortRead);
    assert_eq!(LBM::read(&data[..20]).unwrap_err(), LBMError::ShortRead);
    assert_eq!(LBM::read(&data[..data.len() - 12]).unwrap_err(), LBMError::ShortRead);
}

#[test]
fn missing_header_is_refused() {
    let data = form(
        b"ILBM",
        &[chunk(b"CMAP", &[0; 24]), chunk(b"BODY", &[0; 16]), chunk(b"GRAB", &[0, 1, 0, 2])],
    );
    assert_eq!(LBM::read(&data).unwrap_err(), LBMError::MissingHeader);
}

#[test]
fn second_singleton_conflicts() {
    for tag in [b"BMHD", b"GRAB", b"CAMG", b"DPI ", b"TINY", b"ANNO", b"DPPS", b"BODY"] {
        let payload: Vec<u8> = if tag == b"BMHD" { header_payload(2, 2, 0) } else { vec![0; 4] };
        let mut chunks = vec![chunk(b"BMHD", &header_payload(2, 2, 0)), chunk(b"BODY", &[0; 8])];
        if tag != b"BMHD" && tag != b"BODY" {
            chunks.push(chunk(tag, &payload));
        }
        chunks.push(chunk(tag, &payload));
        assert_eq!(LBM::read(&form(b"ILBM", &chunks)).unwrap_err(), LBMError::ChunkConflict);
    }
}

#[test]
fn repeatable_chunks_accumulate_in_order() {
    let data = form(
        b"ILBM",
        &[
            chunk(b"BMHD", &header_payload(2, 2, 0)),
            chunk(b"CRNG", &[0, 0, 0, 1, 0, 1, 3, 9]),
            chunk(b"CRNG", &[0, 0, 0, 2, 0, 0, 4, 8]),
            chunk(b"CCRT", &[0, 1, 2, 3, 0, 0, 0, 1, 0, 0, 0, 2, 0, 0]),
        ],
    );
    let lbm = LBM::read(&data).unwrap();
    assert_eq!(lbm.ranges.len(), 2);
    assert_eq!(lbm.ranges[0].rate, 1);
    assert_eq!(lbm.ranges[1].rate, 2);
    assert_eq!((lbm.ranges[0].low, lbm.ranges[0].high), (3, 9));
    assert_eq!(lbm.cycleinfo.len(), 1);
    assert_eq!(lbm.cycleinfo[0].direction.0, 1);
    assert_eq!((lbm.cycleinfo[0].start, lbm.cycleinfo[0].end), (2, 3));
    assert_eq!(lbm.cycleinfo[0].time.seconds, 1);
    assert_eq!(lbm.cycleinfo[0].time.microseconds, 2);
}

#[test]
fn undersized_chunk_is_malformed() {
    let data = form(
        b"ILBM",
        &[chunk(b"BMHD", &header_payload(2, 2, 0)), chunk(b"GRAB", &[0, 1]), chunk(b"BODY", &[0; 8])],
    );
    assert_eq!(LBM::read(&data).unwrap_err(), LBMError::BadChunk);
    let data = form(b"ILBM", &[chunk(b"BMHD", &[0; 19]), chunk(b"BODY", &[0; 16])]);
    assert_eq!(LBM::read(&data).unwrap_err(), LBMError::BadChunk);
}

#[test]
fn odd_length_is_followed_by_one_pad_byte() {
    // A three-byte name is padded to four; the header after it must still be found.
    let data = form(
        b"ILBM",
        &[chunk(b"NAME", b"abc"), chunk(b"BMHD", &header_payload(5, 6, 0)), chunk(b"AUTH", b"xy")],
    );
    assert_eq!(data[12 + 8 + 3], 0);
    let lbm = LBM::read(&data).unwrap();
    assert_eq!(lbm.name.unwrap().bytes, b"abc".to_vec());
    assert_eq!(lbm.header.size, (5, 6));
    assert_eq!(lbm.author.unwrap().bytes, b"xy".to_vec());
}

#[test]
fn unknown_tags_are_noted_and_fillers_skipped() {
    let data = form(
        b"ILBM",
        &[
            chunk(b"BMHD", &header_payload(2, 2, 0)),
            chunk(b"XS24", &[9; 5]),
            chunk(b"JUNK", &[0; 6]),
            chunk(b"ALFA", &[]),
            chunk(b"SNFO", &[1]),
        ],
    );
    let lbm = LBM::read(&data).unwrap();
    assert_eq!(lbm.unknown, vec![u32::from_be_bytes(*b"XS24"), u32::from_be_bytes(*b"ALFA")]);
}

#[test]
fn palette_reads_whole_triplets() {
    let data = form(
        b"ILBM",
        &[chunk(b"BMHD", &header_payload(2, 2, 0)), chunk(b"CMAP", &[1, 2, 3, 4, 5, 6, 7])],
    );
    let lbm = LBM::read(&data).unwrap();
    let palette = lbm.palette.unwrap();
    assert_eq!(palette.entries, vec![Rgb { r: 1, g: 2, b: 3 }, Rgb { r: 4, g: 5, b: 6 }]);
}

#[test]
fn text_shows_up_to_first_zero() {
    let data = form(
        b"ILBM",
        &[chunk(b"BMHD", &header_payload(2, 2, 0)), chunk(b"ANNO", b"hi\0there\0")],
    );
    let lbm = LBM::read(&data).unwrap();
    let anno = lbm.annotation.unwrap();
    assert_eq!(anno.bytes.len(), 9);
    assert_eq!(anno.visible(), b"hi".to_vec());
}

#[test]
fn scan_stops_at_declared_form_size() {
    // Bytes after the declared FORM size are never read as chunks.
    let mut data = minimal(b"ILBM");
    data.extend_from_slice(b"BMHD\0\0\0\x14");
    let lbm = LBM::read(&data).unwrap();
    assert_eq!(lbm.header.size, (320, 200));
    // A declared size that runs past the last chunk asks for one more chunk.
    let mut data = minimal(b"ILBM");
    let size = u32::from_be_bytes([data[4], data[5], data[6], data[7]]) + 8;
    data[4..8].copy_from_slice(&size.to_be_bytes());
    assert_eq!(LBM::read(&data).unwrap_err(), LBMError::ShortRead);
}

#[test]
fn enhanced_range_short_of_its_colours_is_malformed() {
    let drng = [0, 31, 0, 100, 0, 1, 2, 0, 5, 1, 2, 3, 6, 4, 5, 6];
    // Two true-colour entries need 16 bytes; declare 15.
    let data = form(
        b"ILBM",
        &[chunk(b"BMHD", &header_payload(2, 2, 0)), chunk(b"DRNG", &drng[..15]), chunk(b"BODY", &[0; 8])],
    );
    assert_eq!(LBM::read(&data).unwrap_err(), LBMError::BadChunk);
    let data = form(
        b"ILBM",
        &[chunk(b"BMHD", &header_payload(2, 2, 0)), chunk(b"DRNG", &drng), chunk(b"BODY", &[0; 8])],
    );
    let lbm = LBM::read(&data).unwrap();
    assert_eq!(lbm.enhanced.len(), 1);
    assert_eq!(lbm.enhanced[0].true_range[1].cell, 6);
}

#[test]
fn spans_and_perspective_chunks_are_collected() {
    let mut span = Vec::new();
    span.extend_from_slice(&2i16.to_be_bytes());
    span.extend_from_slice(&1i16.to_be_bytes());
    span.extend_from_slice(&[0, 3, 0, 9, 0xff, 0xff]);
    let data = form(
        b"PBM ",
        &[
            chunk(b"BMHD", &header_payload(2, 2, 0)),
            chunk(b"SPAN", &span),
            chunk(b"DPPV", &[0; 104]),
            chunk(b"DPI ", &[0, 75, 0, 75]),
            chunk(b"DPXT", &[1, 2, 3]),
        ],
    );
    let lbm = LBM::read(&data).unwrap();
    let spans = lbm.spans.unwrap();
    assert_eq!(spans.start_offset, 2);
    assert_eq!(spans.spans.len(), 1);
    assert_eq!((spans.spans[0].left, spans.spans[0].right), (3, 9));
    assert!(lbm.dppv.is_some());
    assert_eq!(lbm.dpi.unwrap().0, (75, 75));
    assert!(lbm.dpxt.is_some());
}
