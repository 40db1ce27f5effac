use lbminfo::check::PlatformGuess;
use lbminfo::lbm::LBM;

fn chunk(tag: &[u8; 4], payload: &[u8]) -> Vec<u8> {
    let mut out = tag.to_vec();
    out.extend_from_slice(&(payload.len() as u32).to_be_bytes());
    out.extend_from_slice(payload);
    if payload.len() % 2 == 1 {
        out.push(0);
    }
    out
}

fn form(kind: &[u8; 4], chunks: &[Vec<u8>]) -> Vec<u8> {
    let body: Vec<u8> = chunks.concat();
    let mut out = b"FORM".to_vec();
    out.extend_from_slice(&(4 + body.len() as u32).to_be_bytes());
    out.extend_from_slice(kind);
    out.extend_from_slice(&body);
    out
}

fn header(w: u16, h: u16, compression: u8) -> Vec<u8> {
    let mut p = Vec::new();
    p.extend_from_slice(&w.to_be_bytes());
    p.extend_from_slice(&h.to_be_bytes());
    p.extend_from_slice(&[0, 0, 0, 0, 8, 0, compression, 0, 0, 0, 1, 1]);
    p.extend_from_slice(&w.to_be_bytes());
    p.extend_from_slice(&h.to_be_bytes());
    chunk(b"BMHD", &p)
}

fn camg(flags: u32) -> Vec<u8> {
    chunk(b"CAMG", &flags.to_be_bytes())
}

fn drng(flags: i16) -> Vec<u8> {
    let mut p = vec![0, 31];
    p.extend_from_slice(&100i16.to_be_bytes());
    p.extend_from_slice(&flags.to_be_bytes());
    p.push(1); // one true-colour entry
    p.push(1); // one index entry
    p.extend_from_slice(&[5, 255, 128, 0]);
    p.extend_from_slice(&[6, 7]);
    if flags & 0x8 != 0 {
        p.extend_from_slice(&[1, 0, 9, 3]);
    }
    chunk(b"DRNG", &p)
}

fn body() -> Vec<u8> {
    chunk(b"BODY", &[0; 8])
}

fn guess(data: &[u8]) -> PlatformGuess {
    LBM::read(data).unwrap().guess()
}

#[test]
fn chunky_with_thumbnail_is_enhanced_dos_paint() {
    let data = form(b"PBM ", &[header(320, 200, 1), chunk(b"TINY", &[0, 10, 0, 8, 1, 2]), body()]);
    assert_eq!(guess(&data), PlatformGuess::DOSDeluxePaint2Enhanced);
    // Other chunks do not change the verdict.
    let data = form(
        b"PBM ",
        &[header(640, 480, 2), camg(0x4000), drng(0x8), chunk(b"GRAB", &[0; 4]), chunk(b"TINY", &[0; 4]), body()],
    );
    assert_eq!(guess(&data), PlatformGuess::DOSDeluxePaint2Enhanced);
}

#[test]
fn chunky_without_dos_paint_chunks_is_generic_dos() {
    let data = form(b"PBM ", &[header(640, 480, 1), camg(0), body()]);
    assert_eq!(guess(&data), PlatformGuess::DOSGeneric);
}

#[test]
fn vertical_rle_is_atari() {
    let data = form(b"ILBM", &[header(320, 200, 2), camg(0x4000), body()]);
    assert_eq!(guess(&data), PlatformGuess::AtariST);
}

#[test]
fn sprites_without_cycle_info_is_graphicraft() {
    let data = form(b"ILBM", &[header(320, 200, 1), camg(0x4000 | 0x8000), body()]);
    assert_eq!(guess(&data), PlatformGuess::AmigaGraphicraft);
}

#[test]
fn sprites_with_cycle_info_is_not_graphicraft() {
    let ccrt = chunk(b"CCRT", &[0; 14]);
    let data = form(b"ILBM", &[header(320, 200, 1), camg(0x4000), ccrt, body()]);
    assert_eq!(guess(&data), PlatformGuess::AmigaGeneric);
}

#[test]
fn fade_flag_is_deluxe_paint_five() {
    let data = form(b"ILBM", &[header(320, 256, 1), camg(0x0004), drng(0x1 | 0x8), body()]);
    assert_eq!(guess(&data), PlatformGuess::AmigaDeluxePaintV);
    let data = form(b"ILBM", &[header(320, 256, 1), camg(0x0004), drng(0x1), body()]);
    assert_eq!(guess(&data), PlatformGuess::AmigaDeluxePaintIV);
}

#[test]
fn fade_on_a_later_range_still_counts() {
    let data = form(b"ILBM", &[header(320, 256, 1), camg(0), drng(0x1), drng(0x8), body()]);
    assert_eq!(guess(&data), PlatformGuess::AmigaDeluxePaintV);
}

#[test]
fn amiga_with_private_state_is_deluxe_paint() {
    let data = form(b"ILBM", &[header(320, 256, 1), camg(0x0800), chunk(b"DPPS", &[0; 10]), body()]);
    assert_eq!(guess(&data), PlatformGuess::AmigaDeluxePaint);
    let data = form(b"ILBM", &[header(320, 256, 1), camg(0x0800), body()]);
    assert_eq!(guess(&data), PlatformGuess::AmigaGeneric);
}

#[test]
fn planar_with_dos_paint_chunks_is_deluxe_paint_two() {
    let data = form(b"ILBM", &[header(640, 480, 1), chunk(b"DPPS", &[0; 2]), body()]);
    assert_eq!(guess(&data), PlatformGuess::DOSDeluxePaint2);
}

#[test]
fn pc_resolution_is_generic_dos() {
    let data = form(b"ILBM", &[header(320, 200, 1), body()]);
    assert_eq!(guess(&data), PlatformGuess::DOSGeneric);
    let data = form(b"ILBM", &[header(640, 480, 1), body()]);
    assert_eq!(guess(&data), PlatformGuess::Unknown);
}

#[test]
fn grab_or_enhanced_ranges_rule_out_dos() {
    let data = form(b"ILBM", &[header(320, 200, 1), chunk(b"GRAB", &[0, 1, 0, 1]), body()]);
    assert_eq!(guess(&data), PlatformGuess::Unknown);
    let data = form(b"ILBM", &[header(320, 200, 1), drng(0), body()]);
    assert_eq!(guess(&data), PlatformGuess::Unknown);
}

#[test]
fn guess_labels() {
    assert_eq!(PlatformGuess::Unknown.name(), "?");
    assert_eq!(PlatformGuess::AmigaGeneric.name(), "Amiga");
    assert_eq!(PlatformGuess::AmigaGraphicraft.name(), "Commodore Graphicraft");
    assert_eq!(PlatformGuess::AmigaDeluxePaint.name(), "Deluxe Paint (Amiga)");
    assert_eq!(PlatformGuess::AmigaDeluxePaintIV.name(), "Deluxe Paint IV (Amiga)");
    assert_eq!(PlatformGuess::AmigaDeluxePaintV.name(), "Deluxe Paint V (Amiga)");
    assert_eq!(PlatformGuess::AtariST.name(), "Atari");
    assert_eq!(PlatformGuess::DOSGeneric.name(), "MS-DOS");
    assert_eq!(PlatformGuess::DOSDeluxePaint2.name(), "Deluxe Paint II (MS-DOS)");
    assert_eq!(PlatformGuess::DOSDeluxePaint2Enhanced.name(), "Deluxe Paint II Enhanced");
}
