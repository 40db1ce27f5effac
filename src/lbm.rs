//! The document: decoding a whole IFF FORM of type ILBM or PBM.

use vstd::prelude::*;
use crate::bytes::{fits, has_bytes, spec_u32_at, u32_at};
use crate::chunk::amiga::CommodoreAmiga;
use crate::chunk::custom::UpdateSpans;
use crate::chunk::dpaint::{DeluxePaintPerspective, DeluxePaintPrivateExtended, DeluxePaintPrivateState, DeluxePaintThumbnail};
use crate::chunk::graphicraft::CycleInfo;
use crate::chunk::header::LBMHeader;
use crate::chunk::nonstandard::DotsPerInch;
use crate::chunk::range::{CycleRange, EnhancedColourCycle};
use crate::chunk::standard::{Body, ColourMap, Grab};
use crate::chunk::strings::PlatformText;
use crate::chunk::{lemma_only_header_tag_gives_header, lemma_undersized_chunk_is_malformed, spec_lookup, spec_try_read_chunk};
use crate::error::LBMError;
use crate::reader::{
    empty_reader, enhanced_view, lemma_store_keeps_header, palette_view, spans_view, spec_read_chunk, text_view, LBMReader,
    ReaderView,
};

verus! {

/// The tag that opens every IFF file this library reads.
pub const FORM_ID: u32 = 0x464f524d;

/// The smallest plausible FORM size: the type tag, a framed header chunk
/// and the framing of one more chunk.
pub const MIN_FORM_SIZE: u32 = 40;

/// Tags of filler chunks, passed over without being noted as unknown.
pub const JUNK_ID: u32 = 0x4a554e4b;
pub const SNFO_ID: u32 = 0x534e464f;
pub const OGGV_ID: u32 = 0x4f474756;

/// The FORM type.
#[derive(Clone, Copy, Debug, PartialEq, Eq, Structural)]
pub enum LBMType {
    /// "ILBM": interleaved bitplanes.
    Planar,
    /// "PBM ": one byte per pixel.
    Chunky,
}

impl LBMType {
    pub const PLANAR_ID: u32 = 0x494c424d;
    pub const CHUNKY_ID: u32 = 0x50424d20;

    pub open spec fn spec_from_tag(tag: u32) -> Option<LBMType> {
        if tag == Self::PLANAR_ID {
            Some(LBMType::Planar)
        } else if tag == Self::CHUNKY_ID {
            Some(LBMType::Chunky)
        } else {
            None
        }
    }

    pub open spec fn spec_tag(self) -> u32 {
        match self {
            LBMType::Planar => Self::PLANAR_ID,
            LBMType::Chunky => Self::CHUNKY_ID,
        }
    }

    pub fn from_tag(tag: u32) -> (r: Option<LBMType>)
        ensures
            r == Self::spec_from_tag(tag),
    {
        if tag == Self::PLANAR_ID {
            Some(LBMType::Planar)
        } else if tag == Self::CHUNKY_ID {
            Some(LBMType::Chunky)
        } else {
            None
        }
    }

    pub open spec fn spec_name(self) -> &'static str {
        match self {
            LBMType::Planar => "ILBM",
            LBMType::Chunky => "PBM ",
        }
    }

    /// The tag as text.
    pub fn name(&self) -> (r: &'static str)
        ensures
            r == self.spec_name(),
    {
        match self {
            LBMType::Planar => "ILBM",
            LBMType::Chunky => "PBM ",
        }
    }

    /// The four tag bytes, packed big-endian.
    pub fn tag(&self) -> (r: u32)
        ensures
            r == self.spec_tag(),
    {
        match self {
            LBMType::Planar => Self::PLANAR_ID,
            LBMType::Chunky => Self::CHUNKY_ID,
        }
    }
}

/// A decoded image file.
#[derive(Clone, Debug, PartialEq, Eq)]
pub struct LBM {
    pub iff_type: LBMType,
    pub annotation: Option<PlatformText>,
    pub name: Option<PlatformText>,
    pub author: Option<PlatformText>,
    pub copyright: Option<PlatformText>,
    pub text: Option<PlatformText>,
    pub header: LBMHeader,
    pub palette: Option<ColourMap>,
    pub grab: Option<Grab>,
    pub amiga: Option<CommodoreAmiga>,
    pub ranges: Vec<CycleRange>,
    pub cycleinfo: Vec<CycleInfo>,
    pub enhanced: Vec<EnhancedColourCycle>,
    pub dpps: Option<DeluxePaintPrivateState>,
    pub dpxt: Option<DeluxePaintPrivateExtended>,
    pub dppv: Option<DeluxePaintPerspective>,
    pub tiny: Option<DeluxePaintThumbnail>,
    pub dpi: Option<DotsPerInch>,
    pub spans: Option<UpdateSpans>,
    pub body: Option<Body>,
    /// Tags of chunks that no decoder knew, in order, filler tags left out.
    pub unknown: Vec<u32>,
}

/// A decoded document: its type, its header, and every chunk collected
/// (whose header slot holds that same header).
pub struct LBMView {
    pub iff_type: LBMType,
    pub header: LBMHeader,
    pub chunks: ReaderView,
}

impl View for LBM {
    type V = LBMView;

    open spec fn view(&self) -> LBMView {
        LBMView {
            iff_type: self.iff_type,
            header: self.header,
            chunks: ReaderView {
                annotation: text_view(self.annotation),
                name: text_view(self.name),
                author: text_view(self.author),
                copyright: text_view(self.copyright),
                text: text_view(self.text),
                header: Some(self.header),
                palette: palette_view(self.palette),
                grab: self.grab,
                amiga: self.amiga,
                ranges: self.ranges@,
                cycleinfo: self.cycleinfo@,
                enhanced: enhanced_view(self.enhanced@),
                dpps: self.dpps,
                dpxt: self.dpxt,
                dppv: self.dppv,
                tiny: self.tiny,
                dpi: self.dpi,
                spans: spans_view(self.spans),
                body: self.body,
                unknown: self.unknown@,
            },
        }
    }
}

/// A declared length rounded up to a whole number of 16-bit words.
pub open spec fn padded(size: int) -> int {
    size + size % 2
}

pub open spec fn is_filler(id: u32) -> bool {
    id == JUNK_ID || id == SNFO_ID || id == OGGV_ID
}

/// `st` after meeting a tag that no decoder knows.
pub open spec fn note_unknown(st: ReaderView, id: u32) -> ReaderView {
    if is_filler(id) {
        st
    } else {
        ReaderView { unknown: st.unknown.push(id), ..st }
    }
}

/// Where the next chunk starts: past the padded payload, or past what the
/// decoder consumed where it went further.
pub open spec fn next_chunk(p: int, consumed: int, size: int) -> int {
    p + 8 + if consumed > padded(size) { consumed } else { padded(size) }
}

/// The bytes that the chunk at `p` accounts for: its tag and length
/// fields and its padded payload.
pub open spec fn chunk_span(s: Seq<u8>, p: int) -> int {
    8 + padded(spec_u32_at(s, p + 4) as int)
}

#[verifier::opaque]
/// Handling the chunk whose tag and length stand at `p`: the collected
/// chunks after it and where the next chunk starts.
pub open spec fn spec_step(st: ReaderView, s: Seq<u8>, p: int) -> Result<(ReaderView, int), LBMError> {
    let id = spec_u32_at(s, p);
    let size = spec_u32_at(s, p + 4) as int;
    match spec_read_chunk(st, s, id, p + 8, size) {
        Err(e) => Err(e),
        Ok(None) => Ok((note_unknown(st, id), next_chunk(p, 0, size))),
        Ok(Some((st2, n))) => Ok((st2, next_chunk(p, n, size))),
    }
}

pub open spec fn remaining(count: int, form: int) -> int {
    if count < form { form - count } else { 0 }
}

#[verifier::opaque]
/// The chunk scan: from the chunk at `p`, with `count` bytes of the FORM
/// accounted for out of `form`, and `st` collected so far. Ends with the
/// collected chunks and the final count.
pub open spec fn spec_scan(s: Seq<u8>, p: int, count: int, form: int, st: ReaderView) -> Result<(ReaderView, int), LBMError>
    decreases remaining(count, form),
{
    if count >= form {
        Ok((st, count))
    } else if !fits(s, p, 8) {
        Err(LBMError::ShortRead)
    } else {
        match spec_step(st, s, p) {
            Err(e) => Err(e),
            Ok((st2, q)) => spec_scan(s, q, count + chunk_span(s, p), form, st2),
        }
    }
}

proof fn lemma_scan_short(s: Seq<u8>, p: int, count: int, form: int, st: ReaderView)
    requires
        count < form,
        !fits(s, p, 8),
    ensures
        spec_scan(s, p, count, form, st) == Err::<(ReaderView, int), LBMError>(LBMError::ShortRead),
{
    reveal(spec_scan);
}

proof fn lemma_scan_step(s: Seq<u8>, p: int, count: int, form: int, st: ReaderView)
    requires
        count < form,
        fits(s, p, 8),
    ensures
        spec_scan(s, p, count, form, st) == match spec_step(st, s, p) {
            Err(e) => Err(e),
            Ok((st2, q)) => spec_scan(s, q, count + chunk_span(s, p), form, st2),
        },
{
    reveal(spec_scan);
}

proof fn lemma_scan_done(s: Seq<u8>, p: int, count: int, form: int, st: ReaderView)
    requires
        count >= form,
    ensures
        spec_scan(s, p, count, form, st) == Ok::<(ReaderView, int), LBMError>((st, count)),
{
    reveal(spec_scan);
}

/// Reads the tag and length at `pos`, decodes and stores the chunk, and
/// returns where the next chunk starts (the end of the input at most).
fn read_next_chunk(lbm: &mut LBMReader, data: &[u8], pos: usize) -> (r: Result<usize, LBMError>)
    requires
        fits(data@, pos as int, 8),
    ensures
        match spec_step(old(lbm)@, data@, pos as int) {
            Ok((v, q)) => r is Ok && final(lbm)@ == v
                && r->Ok_0 as int == (if q <= data@.len() { q } else { data@.len() as int }),
            Err(e) => r == Err::<usize, LBMError>(e),
        },
{
    reveal(spec_step);
    proof {
        assert(pos + 8 <= data.len());
    }
    let chunk_id = u32_at(data, pos);
    let chunk_size = u32_at(data, pos + 4);
    let size = chunk_size as usize;
    // Payloads are padded to a whole number of 16-bit words.
    let skip: u64 = chunk_size as u64 + (chunk_size as u64 % 2);
    let payload = pos + 8;
    let consumed: u64 = match lbm.read_chunk(chunk_id, size, data, payload) {
        Err(e) => {
            return Err(e);
        },
        Ok(Some(n)) => n as u64,
        Ok(None) => {
            if chunk_id != JUNK_ID && chunk_id != SNFO_ID && chunk_id != OGGV_ID {
                lbm.unknown.push(chunk_id);
            }
            assert(lbm@ == note_unknown(old(lbm)@, chunk_id));
            0
        },
    };
    let advance: u64 = if consumed > skip { consumed } else { skip };
    if advance > (data.len() - payload) as u64 {
        Ok(data.len())
    } else {
        Ok(payload + advance as usize)
    }
}

/// The FORM's declared size, when the container opens correctly.
pub open spec fn spec_form_size(s: Seq<u8>) -> int {
    spec_u32_at(s, 4) as int
}

/// Decoding a whole file.
pub open spec fn spec_parse(s: Seq<u8>) -> Result<LBMView, LBMError> {
    if !fits(s, 0, 4) {
        Err(LBMError::ShortRead)
    } else if spec_u32_at(s, 0) != FORM_ID {
        Err(LBMError::BadForm)
    } else if !fits(s, 4, 4) {
        Err(LBMError::ShortRead)
    } else if spec_form_size(s) < MIN_FORM_SIZE {
        Err(LBMError::BadSize)
    } else if !fits(s, 8, 4) {
        Err(LBMError::ShortRead)
    } else {
        match LBMType::spec_from_tag(spec_u32_at(s, 8)) {
            None => Err(LBMError::BadType),
            Some(t) => match spec_scan(s, 12, 4, spec_form_size(s), empty_reader()) {
                Err(e) => Err(e),
                Ok((st, _)) => match st.header {
                    None => Err(LBMError::MissingHeader),
                    Some(h) => Ok(LBMView { iff_type: t, header: h, chunks: st }),
                },
            },
        }
    }
}

/// Well-formed from the chunk at `p` on: each chunk's tag and length are
/// in the input, its padded extent ends within the declared FORM size, it
/// decodes, and its decoder stays within its padded payload.
pub open spec fn well_formed_from(s: Seq<u8>, p: int, count: int, form: int, st: ReaderView) -> bool
    decreases remaining(count, form),
{
    if count >= form {
        true
    } else {
        &&& fits(s, p, 8)
        &&& count + chunk_span(s, p) <= form
        &&& match spec_step(st, s, p) {
            Err(_) => false,
            Ok((st2, q)) => q == p + chunk_span(s, p) && well_formed_from(s, q, count + chunk_span(s, p), form, st2),
        }
    }
}

/// On well-formed input the scan accounts for exactly the declared FORM
/// size when it ends: no chunk runs past it and none stops short of it.
pub proof fn lemma_scan_accounts_for_form(s: Seq<u8>, p: int, count: int, form: int, st: ReaderView)
    requires
        count <= form,
        well_formed_from(s, p, count, form, st),
    ensures
        spec_scan(s, p, count, form, st) is Ok,
        spec_scan(s, p, count, form, st)->Ok_0.1 == form,
    decreases remaining(count, form),
{
    reveal(spec_scan);
    if count < form {
        let (st2, q) = spec_step(st, s, p)->Ok_0;
        lemma_scan_accounts_for_form(s, q, count + chunk_span(s, p), form, st2);
    }
}

/// Decoding depends on the bytes alone: equal inputs give equal documents
/// or equal errors.
pub proof fn lemma_decode_deterministic(a: Seq<u8>, b: Seq<u8>)
    requires
        a == b,
    ensures
        spec_parse(a) == spec_parse(b),
{
}

/// A chunk of a known kind whose declared length is below that kind's
/// minimum stops the scan with a malformed-chunk error.
pub proof fn lemma_undersized_chunk_stops_scan(s: Seq<u8>, p: int, count: int, form: int, st: ReaderView)
    requires
        count < form,
        fits(s, p, 8),
        spec_lookup(spec_u32_at(s, p)) is Some,
        (spec_u32_at(s, p + 4) as int) < spec_lookup(spec_u32_at(s, p))->Some_0.1,
    ensures
        spec_scan(s, p, count, form, st) == Err::<(ReaderView, int), LBMError>(LBMError::BadChunk),
{
    reveal(spec_scan);
    reveal(spec_step);
    lemma_undersized_chunk_is_malformed(s, spec_u32_at(s, p), p + 8, spec_u32_at(s, p + 4) as int);
}

/// The next tag is read right after the payload and one padding byte when
/// the declared length is odd, none when it is even (for a decoder that
/// consumed no more than the declared length).
pub proof fn lemma_padding(p: int, consumed: int, size: int)
    requires
        0 <= consumed <= size,
    ensures
        next_chunk(p, consumed, size) == p + 8 + size + (if size % 2 == 1 { 1int } else { 0int }),
{
}

/// The scan never meets a `BMHD` tag from the chunk at `p` on.
pub open spec fn no_header_tag_from(s: Seq<u8>, p: int, count: int, form: int, st: ReaderView) -> bool
    decreases remaining(count, form),
{
    if count >= form || !fits(s, p, 8) {
        true
    } else {
        spec_u32_at(s, p) != LBMHeader::ID && match spec_step(st, s, p) {
            Err(_) => true,
            Ok((st2, q)) => no_header_tag_from(s, q, count + chunk_span(s, p), form, st2),
        }
    }
}

proof fn lemma_scan_without_header_tag(s: Seq<u8>, p: int, count: int, form: int, st: ReaderView)
    requires
        st.header is None,
        no_header_tag_from(s, p, count, form, st),
        spec_scan(s, p, count, form, st) is Ok,
    ensures
        spec_scan(s, p, count, form, st)->Ok_0.0.header is None,
    decreases remaining(count, form),
{
    reveal(spec_scan);
    if count < form {
        reveal(spec_step);
        let id = spec_u32_at(s, p);
        let size = spec_u32_at(s, p + 4) as int;
        match spec_try_read_chunk(s, id, p + 8, size) {
            Ok(Some((c, n))) => {
                lemma_only_header_tag_gives_header(s, id, p + 8, size);
                lemma_store_keeps_header(st, c);
            },
            _ => {},
        }
        let (st2, q) = spec_step(st, s, p)->Ok_0;
        lemma_scan_without_header_tag(s, q, count + chunk_span(s, p), form, st2);
    }
}

/// A file whose scan never meets a `BMHD` chunk is refused for its missing
/// header, however sound its other chunks are.
pub proof fn lemma_missing_header(s: Seq<u8>)
    requires
        fits(s, 0, 12),
        spec_u32_at(s, 0) == FORM_ID,
        spec_form_size(s) >= MIN_FORM_SIZE,
        LBMType::spec_from_tag(spec_u32_at(s, 8)) is Some,
        no_header_tag_from(s, 12, 4, spec_form_size(s), empty_reader()),
        spec_scan(s, 12, 4, spec_form_size(s), empty_reader()) is Ok,
    ensures
        spec_parse(s) == Err::<LBMView, LBMError>(LBMError::MissingHeader),
{
    lemma_scan_without_header_tag(s, 12, 4, spec_form_size(s), empty_reader());
}

impl LBM {
    /// Decodes the bytes of a whole file.
    pub fn read(data: &[u8]) -> (r: Result<LBM, LBMError>)
        ensures
            match spec_parse(data@) {
                Ok(v) => r is Ok && r->Ok_0@ == v,
                Err(e) => r is Err && r->Err_0 == e,
            },
    {
        if !has_bytes(data, 0, 4) {
            return Err(LBMError::ShortRead);
        }
        if u32_at(data, 0) != FORM_ID {
            return Err(LBMError::BadForm);
        }
        if !has_bytes(data, 4, 4) {
            return Err(LBMError::ShortRead);
        }
        let form_size = u32_at(data, 4);
        if form_size < MIN_FORM_SIZE {
            return Err(LBMError::BadSize);
        }
        if !has_bytes(data, 8, 4) {
            return Err(LBMError::ShortRead);
        }
        let iff_type = match LBMType::from_tag(u32_at(data, 8)) {
            Some(t) => t,
            None => {
                return Err(LBMError::BadType);
            },
        };

        let mut lbm = LBMReader::new();
        let ghost whole = spec_scan(data@, 12, 4, form_size as int, empty_reader());
        let mut pos: usize = 12;
        let ghost mut spos: int = 12;
        let mut bytes_read: u64 = 4;
        while bytes_read < form_size as u64
            invariant
                fits(data@, 0, 12),
                spec_u32_at(data@, 0) == FORM_ID,
                form_size as int == spec_form_size(data@),
                form_size >= MIN_FORM_SIZE,
                LBMType::spec_from_tag(spec_u32_at(data@, 8)) == Some(iff_type),
                data@.len() <= usize::MAX,
                pos <= data@.len(),
                spos >= 0,
                pos as int == (if spos <= data@.len() { spos } else { data@.len() as int }),
                whole == spec_scan(data@, 12, 4, form_size as int, empty_reader()),
                whole == spec_scan(data@, spos, bytes_read as int, form_size as int, lbm@),
            decreases remaining(bytes_read as int, form_size as int),
        {
            if !has_bytes(data, pos, 8) {
                proof {
                    lemma_scan_short(data@, spos, bytes_read as int, form_size as int, lbm@);
                }
                return Err(LBMError::ShortRead);
            }
            let ghost st = lbm@;
            let chunk_size = u32_at(data, pos + 4);
            proof {
                assert(spos == pos);
                lemma_scan_step(data@, spos, bytes_read as int, form_size as int, st);
            }
            match read_next_chunk(&mut lbm, data, pos) {
                Err(e) => {
                    return Err(e);
                },
                Ok(next) => {
                    pos = next;
                },
            }
            proof {
                spos = spec_step(st, data@, spos)->Ok_0.1;
            }
            bytes_read = bytes_read + 8 + chunk_size as u64 + (chunk_size as u64 % 2);
        }

        proof {
            lemma_scan_done(data@, spos, bytes_read as int, form_size as int, lbm@);
        }
        let header = match lbm.header {
            Some(h) => h,
            None => {
                return Err(LBMError::MissingHeader);
            },
        };
        Ok(LBM {
            iff_type,
            annotation: lbm.annotation,
            name: lbm.name,
            author: lbm.author,
            copyright: lbm.copyright,
            text: lbm.text,
            header,
            palette: lbm.palette,
            grab: lbm.grab,
            amiga: lbm.amiga,
            ranges: lbm.ranges,
            cycleinfo: lbm.cycleinfo,
            enhanced: lbm.enhanced,
            dpps: lbm.dpps,
            dpxt: lbm.dpxt,
            dppv: lbm.dppv,
            tiny: lbm.tiny,
            dpi: lbm.dpi,
            spans: lbm.spans,
            body: lbm.body,
            unknown: lbm.unknown,
        })
    }
}

} // verus!
