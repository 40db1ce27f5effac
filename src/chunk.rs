//! Chunk payloads, one decoder per known tag, and the registry that picks
//! the decoder for a tag and holds each kind's minimum payload size.

use vstd::prelude::*;
use crate::bytes::fits;
use crate::error::LBMError;
use self::amiga::CommodoreAmiga;
use self::custom::{UpdateSpans, UpdateSpansView};
use self::dpaint::{DeluxePaintPerspective, DeluxePaintPrivateExtended, DeluxePaintPrivateState, DeluxePaintThumbnail};
use self::graphicraft::CycleInfo;
use self::header::LBMHeader;
use self::nonstandard::DotsPerInch;
use self::range::{CycleRange, EnhancedColourCycle, EnhancedColourCycleView};
use self::standard::{Body, ColourMap, Grab, Rgb};
use self::strings::{PlatformText, ANNOTATION_ID, AUTHOR_ID, COPYRIGHT_ID, NAME_ID, TEXT_ID};

pub mod amiga;
pub mod custom;
pub mod dpaint;
pub mod graphicraft;
pub mod header;
pub mod nonstandard;
pub mod range;
pub mod standard;
pub mod strings;

verus! {

/// Every chunk kind that has a decoder, in the order the registry tries them.
#[derive(Clone, Copy, Debug, PartialEq, Eq, Structural)]
pub enum ChunkKind {
    AnnotationText,
    NameText,
    AuthorText,
    CopyrightText,
    GenericText,
    LBMHeader,
    ColourMap,
    Grab,
    CommodoreAmiga,
    CycleRange,
    CycleInfo,
    EnhancedColourCycle,
    DeluxePaintPrivateState,
    DeluxePaintPrivateExtended,
    DeluxePaintPerspective,
    DeluxePaintThumbnail,
    DotsPerInch,
    UpdateSpans,
    Body,
}

/// The registry, as a sequence of (tag, minimum size, kind) in priority order.
pub open spec fn registry() -> Seq<(u32, int, ChunkKind)> {
    seq![
        (ANNOTATION_ID, 0int, ChunkKind::AnnotationText),
        (NAME_ID, 0int, ChunkKind::NameText),
        (AUTHOR_ID, 0int, ChunkKind::AuthorText),
        (COPYRIGHT_ID, 0int, ChunkKind::CopyrightText),
        (TEXT_ID, 0int, ChunkKind::GenericText),
        (LBMHeader::ID, 20int, ChunkKind::LBMHeader),
        (ColourMap::ID, 0int, ChunkKind::ColourMap),
        (Grab::ID, 4int, ChunkKind::Grab),
        (CommodoreAmiga::ID, 4int, ChunkKind::CommodoreAmiga),
        (CycleRange::ID, 8int, ChunkKind::CycleRange),
        (CycleInfo::ID, 14int, ChunkKind::CycleInfo),
        (EnhancedColourCycle::ID, 8int, ChunkKind::EnhancedColourCycle),
        (DeluxePaintPrivateState::ID, 0int, ChunkKind::DeluxePaintPrivateState),
        (DeluxePaintPrivateExtended::ID, 0int, ChunkKind::DeluxePaintPrivateExtended),
        (DeluxePaintPerspective::ID, 104int, ChunkKind::DeluxePaintPerspective),
        (DeluxePaintThumbnail::ID, 4int, ChunkKind::DeluxePaintThumbnail),
        (DotsPerInch::ID, 4int, ChunkKind::DotsPerInch),
        (UpdateSpans::ID, 4int, ChunkKind::UpdateSpans),
        (Body::ID, 0int, ChunkKind::Body),
    ]
}

/// The index of the first registry entry at or after `i` whose tag is `id`.
pub open spec fn first_match_from(id: u32, i: int) -> Option<int>
    decreases registry().len() - i,
{
    if i < 0 || i >= registry().len() {
        None
    } else if registry()[i].0 == id {
        Some(i)
    } else {
        first_match_from(id, i + 1)
    }
}

/// The kind and minimum size that the registry holds for `id`.
pub open spec fn spec_lookup(id: u32) -> Option<(ChunkKind, int)> {
    match first_match_from(id, 0) {
        Some(i) => Some((registry()[i].2, registry()[i].1)),
        None => None,
    }
}

impl ChunkKind {
    /// Looks `id` up in the registry.
    pub fn lookup(id: u32) -> (r: Option<(ChunkKind, usize)>)
        ensures
            match spec_lookup(id) {
                Some((k, m)) => r == Some((k, m as usize)),
                None => r is None,
            },
    {
        reveal_with_fuel(first_match_from, 20);
        if id == ANNOTATION_ID {
            Some((ChunkKind::AnnotationText, PlatformText::SIZE))
        } else if id == NAME_ID {
            Some((ChunkKind::NameText, PlatformText::SIZE))
        } else if id == AUTHOR_ID {
            Some((ChunkKind::AuthorText, PlatformText::SIZE))
        } else if id == COPYRIGHT_ID {
            Some((ChunkKind::CopyrightText, PlatformText::SIZE))
        } else if id == TEXT_ID {
            Some((ChunkKind::GenericText, PlatformText::SIZE))
        } else if id == LBMHeader::ID {
            Some((ChunkKind::LBMHeader, LBMHeader::SIZE))
        } else if id == ColourMap::ID {
            Some((ChunkKind::ColourMap, ColourMap::SIZE))
        } else if id == Grab::ID {
            Some((ChunkKind::Grab, Grab::SIZE))
        } else if id == CommodoreAmiga::ID {
            Some((ChunkKind::CommodoreAmiga, CommodoreAmiga::SIZE))
        } else if id == CycleRange::ID {
            Some((ChunkKind::CycleRange, CycleRange::SIZE))
        } else if id == CycleInfo::ID {
            Some((ChunkKind::CycleInfo, CycleInfo::SIZE))
        } else if id == EnhancedColourCycle::ID {
            Some((ChunkKind::EnhancedColourCycle, EnhancedColourCycle::SIZE))
        } else if id == DeluxePaintPrivateState::ID {
            Some((ChunkKind::DeluxePaintPrivateState, DeluxePaintPrivateState::SIZE))
        } else if id == DeluxePaintPrivateExtended::ID {
            Some((ChunkKind::DeluxePaintPrivateExtended, DeluxePaintPrivateExtended::SIZE))
        } else if id == DeluxePaintPerspective::ID {
            Some((ChunkKind::DeluxePaintPerspective, DeluxePaintPerspective::SIZE))
        } else if id == DeluxePaintThumbnail::ID {
            Some((ChunkKind::DeluxePaintThumbnail, DeluxePaintThumbnail::SIZE))
        } else if id == DotsPerInch::ID {
            Some((ChunkKind::DotsPerInch, DotsPerInch::SIZE))
        } else if id == UpdateSpans::ID {
            Some((ChunkKind::UpdateSpans, UpdateSpans::SIZE))
        } else if id == Body::ID {
            Some((ChunkKind::Body, Body::SIZE))
        } else {
            None
        }
    }
}

/// A decoded chunk payload.
#[derive(Clone, Debug, PartialEq, Eq)]
pub enum Chunk {
    AnnotationText(PlatformText),
    NameText(PlatformText),
    AuthorText(PlatformText),
    CopyrightText(PlatformText),
    GenericText(PlatformText),
    LBMHeader(LBMHeader),
    ColourMap(ColourMap),
    Grab(Grab),
    CommodoreAmiga(CommodoreAmiga),
    CycleRange(CycleRange),
    CycleInfo(CycleInfo),
    EnhancedColourCycle(EnhancedColourCycle),
    DeluxePaintPrivateState(DeluxePaintPrivateState),
    DeluxePaintPrivateExtended(DeluxePaintPrivateExtended),
    DeluxePaintPerspective(DeluxePaintPerspective),
    DeluxePaintThumbnail(DeluxePaintThumbnail),
    DotsPerInch(DotsPerInch),
    UpdateSpans(UpdateSpans),
    Body(Body),
}

/// The mathematical value of a decoded chunk payload.
pub enum ChunkView {
    AnnotationText(Seq<u8>),
    NameText(Seq<u8>),
    AuthorText(Seq<u8>),
    CopyrightText(Seq<u8>),
    GenericText(Seq<u8>),
    LBMHeader(LBMHeader),
    ColourMap(Seq<Rgb>),
    Grab(Grab),
    CommodoreAmiga(CommodoreAmiga),
    CycleRange(CycleRange),
    CycleInfo(CycleInfo),
    EnhancedColourCycle(EnhancedColourCycleView),
    DeluxePaintPrivateState(DeluxePaintPrivateState),
    DeluxePaintPrivateExtended(DeluxePaintPrivateExtended),
    DeluxePaintPerspective(DeluxePaintPerspective),
    DeluxePaintThumbnail(DeluxePaintThumbnail),
    DotsPerInch(DotsPerInch),
    UpdateSpans(UpdateSpansView),
    Body(Body),
}

impl View for Chunk {
    type V = ChunkView;

    open spec fn view(&self) -> ChunkView {
        match self {
            Chunk::AnnotationText(c) => ChunkView::AnnotationText(c@),
            Chunk::NameText(c) => ChunkView::NameText(c@),
            Chunk::AuthorText(c) => ChunkView::AuthorText(c@),
            Chunk::CopyrightText(c) => ChunkView::CopyrightText(c@),
            Chunk::GenericText(c) => ChunkView::GenericText(c@),
            Chunk::LBMHeader(c) => ChunkView::LBMHeader(*c),
            Chunk::ColourMap(c) => ChunkView::ColourMap(c@),
            Chunk::Grab(c) => ChunkView::Grab(*c),
            Chunk::CommodoreAmiga(c) => ChunkView::CommodoreAmiga(*c),
            Chunk::CycleRange(c) => ChunkView::CycleRange(*c),
            Chunk::CycleInfo(c) => ChunkView::CycleInfo(*c),
            Chunk::EnhancedColourCycle(c) => ChunkView::EnhancedColourCycle(c@),
            Chunk::DeluxePaintPrivateState(c) => ChunkView::DeluxePaintPrivateState(*c),
            Chunk::DeluxePaintPrivateExtended(c) => ChunkView::DeluxePaintPrivateExtended(*c),
            Chunk::DeluxePaintPerspective(c) => ChunkView::DeluxePaintPerspective(*c),
            Chunk::DeluxePaintThumbnail(c) => ChunkView::DeluxePaintThumbnail(*c),
            Chunk::DotsPerInch(c) => ChunkView::DotsPerInch(*c),
            Chunk::UpdateSpans(c) => ChunkView::UpdateSpans(c@),
            Chunk::Body(c) => ChunkView::Body(*c),
        }
    }
}

/// A fixed-layout payload: `v` with `n` bytes when they are there.
pub open spec fn fixed_payload(s: Seq<u8>, p: int, n: int, v: ChunkView) -> Result<(ChunkView, int), LBMError> {
    if fits(s, p, n) { Ok((v, n)) } else { Err(LBMError::ShortRead) }
}

#[verifier::opaque]
/// What the decoder of `kind` makes of the payload at `p` declared `size` bytes long,
/// with the number of bytes it consumed.
pub open spec fn spec_decode(kind: ChunkKind, s: Seq<u8>, p: int, size: int) -> Result<(ChunkView, int), LBMError> {
    match kind {
        ChunkKind::AnnotationText => Ok((ChunkView::AnnotationText(PlatformText::spec_read(s, p, size)), size)),
        ChunkKind::NameText => Ok((ChunkView::NameText(PlatformText::spec_read(s, p, size)), size)),
        ChunkKind::AuthorText => Ok((ChunkView::AuthorText(PlatformText::spec_read(s, p, size)), size)),
        ChunkKind::CopyrightText => Ok((ChunkView::CopyrightText(PlatformText::spec_read(s, p, size)), size)),
        ChunkKind::GenericText => Ok((ChunkView::GenericText(PlatformText::spec_read(s, p, size)), size)),
        ChunkKind::LBMHeader => fixed_payload(s, p, 20, ChunkView::LBMHeader(LBMHeader::spec_read(s, p))),
        ChunkKind::ColourMap => Ok((ChunkView::ColourMap(ColourMap::spec_read(s, p, size)), ColourMap::spec_consumed(s, p, size))),
        ChunkKind::Grab => fixed_payload(s, p, 4, ChunkView::Grab(Grab::spec_read(s, p))),
        ChunkKind::CommodoreAmiga => fixed_payload(s, p, 4, ChunkView::CommodoreAmiga(CommodoreAmiga::spec_read(s, p))),
        ChunkKind::CycleRange => fixed_payload(s, p, 8, ChunkView::CycleRange(CycleRange::spec_read(s, p))),
        ChunkKind::CycleInfo => fixed_payload(s, p, 14, ChunkView::CycleInfo(CycleInfo::spec_read(s, p))),
        ChunkKind::EnhancedColourCycle => match EnhancedColourCycle::spec_read(s, p, size) {
            Ok((v, n)) => Ok((ChunkView::EnhancedColourCycle(v), n)),
            Err(e) => Err(e),
        },
        ChunkKind::DeluxePaintPrivateState => Ok((ChunkView::DeluxePaintPrivateState(DeluxePaintPrivateState), 0)),
        ChunkKind::DeluxePaintPrivateExtended => Ok((ChunkView::DeluxePaintPrivateExtended(DeluxePaintPrivateExtended), 0)),
        ChunkKind::DeluxePaintPerspective => fixed_payload(s, p, 104, ChunkView::DeluxePaintPerspective(DeluxePaintPerspective::spec_read(s, p))),
        ChunkKind::DeluxePaintThumbnail => fixed_payload(s, p, 4, ChunkView::DeluxePaintThumbnail(DeluxePaintThumbnail::spec_read(s, p, size))),
        ChunkKind::DotsPerInch => fixed_payload(s, p, 4, ChunkView::DotsPerInch(DotsPerInch::spec_read(s, p))),
        ChunkKind::UpdateSpans => match UpdateSpans::spec_read(s, p) {
            Ok((v, n)) => Ok((ChunkView::UpdateSpans(v), n)),
            Err(e) => Err(e),
        },
        ChunkKind::Body => Ok((ChunkView::Body(Body { len: Body::spec_len(size) as usize }), 0)),
    }
}

/// The kind of a decoded payload.
pub open spec fn kind_of(c: ChunkView) -> ChunkKind {
    match c {
        ChunkView::AnnotationText(_) => ChunkKind::AnnotationText,
        ChunkView::NameText(_) => ChunkKind::NameText,
        ChunkView::AuthorText(_) => ChunkKind::AuthorText,
        ChunkView::CopyrightText(_) => ChunkKind::CopyrightText,
        ChunkView::GenericText(_) => ChunkKind::GenericText,
        ChunkView::LBMHeader(_) => ChunkKind::LBMHeader,
        ChunkView::ColourMap(_) => ChunkKind::ColourMap,
        ChunkView::Grab(_) => ChunkKind::Grab,
        ChunkView::CommodoreAmiga(_) => ChunkKind::CommodoreAmiga,
        ChunkView::CycleRange(_) => ChunkKind::CycleRange,
        ChunkView::CycleInfo(_) => ChunkKind::CycleInfo,
        ChunkView::EnhancedColourCycle(_) => ChunkKind::EnhancedColourCycle,
        ChunkView::DeluxePaintPrivateState(_) => ChunkKind::DeluxePaintPrivateState,
        ChunkView::DeluxePaintPrivateExtended(_) => ChunkKind::DeluxePaintPrivateExtended,
        ChunkView::DeluxePaintPerspective(_) => ChunkKind::DeluxePaintPerspective,
        ChunkView::DeluxePaintThumbnail(_) => ChunkKind::DeluxePaintThumbnail,
        ChunkView::DotsPerInch(_) => ChunkKind::DotsPerInch,
        ChunkView::UpdateSpans(_) => ChunkKind::UpdateSpans,
        ChunkView::Body(_) => ChunkKind::Body,
    }
}

pub open spec fn decoded_view(r: Result<(Chunk, usize), LBMError>) -> Result<(ChunkView, int), LBMError> {
    match r {
        Ok((c, n)) => Ok((c@, n as int)),
        Err(e) => Err(e),
    }
}

#[verifier::opaque]
/// What the registry makes of a chunk tagged `id` whose payload of
/// `size` bytes starts at `p`: no match, a decoded payload with the
/// bytes consumed, or an error.
pub open spec fn spec_try_read_chunk(s: Seq<u8>, id: u32, p: int, size: int) -> Result<Option<(ChunkView, int)>, LBMError> {
    match spec_lookup(id) {
        None => Ok(None),
        Some((kind, min)) => if size < min {
            Err(LBMError::BadChunk)
        } else {
            match spec_decode(kind, s, p, size) {
                Ok(x) => Ok(Some(x)),
                Err(e) => Err(e),
            }
        },
    }
}

/// A chunk whose declared length is below its kind's minimum is
/// malformed; no decoder runs on it.
pub proof fn lemma_undersized_chunk_is_malformed(s: Seq<u8>, id: u32, p: int, size: int)
    requires
        spec_lookup(id) is Some,
        size < spec_lookup(id)->Some_0.1,
    ensures
        spec_try_read_chunk(s, id, p, size) == Err::<Option<(ChunkView, int)>, LBMError>(LBMError::BadChunk),
{
    reveal(spec_try_read_chunk);
}

/// The registry knows `BMHD` as the header kind only: any other tag that it
/// decodes gives a payload of another kind.
pub proof fn lemma_only_header_tag_gives_header(s: Seq<u8>, id: u32, p: int, size: int)
    requires
        id != LBMHeader::ID,
        spec_try_read_chunk(s, id, p, size) is Ok,
        spec_try_read_chunk(s, id, p, size)->Ok_0 is Some,
    ensures
        kind_of(spec_try_read_chunk(s, id, p, size)->Ok_0->Some_0.0) != ChunkKind::LBMHeader,
{
    reveal(spec_try_read_chunk);
    reveal(spec_decode);
    reveal_with_fuel(first_match_from, 20);
}

/// Runs the decoder of `kind`.
pub fn decode(kind: ChunkKind, data: &[u8], pos: usize, size: usize) -> (r: Result<(Chunk, usize), LBMError>)
    requires
        pos <= data@.len(),
        kind == ChunkKind::DeluxePaintThumbnail ==> size >= 4,
    ensures
        decoded_view(r) == spec_decode(kind, data@, pos as int, size as int),
{
    reveal(spec_decode);
    match kind {
        ChunkKind::AnnotationText => {
            let (t, n) = PlatformText::read(data, pos, size);
            Ok((Chunk::AnnotationText(t), n))
        },
        ChunkKind::NameText => {
            let (t, n) = PlatformText::read(data, pos, size);
            Ok((Chunk::NameText(t), n))
        },
        ChunkKind::AuthorText => {
            let (t, n) = PlatformText::read(data, pos, size);
            Ok((Chunk::AuthorText(t), n))
        },
        ChunkKind::CopyrightText => {
            let (t, n) = PlatformText::read(data, pos, size);
            Ok((Chunk::CopyrightText(t), n))
        },
        ChunkKind::GenericText => {
            let (t, n) = PlatformText::read(data, pos, size);
            Ok((Chunk::GenericText(t), n))
        },
        ChunkKind::LBMHeader => match LBMHeader::read(data, pos) {
            Ok((c, n)) => Ok((Chunk::LBMHeader(c), n)),
            Err(e) => Err(e),
        },
        ChunkKind::ColourMap => {
            let (c, n) = ColourMap::read(data, pos, size);
            Ok((Chunk::ColourMap(c), n))
        },
        ChunkKind::Grab => match Grab::read(data, pos) {
            Ok((c, n)) => Ok((Chunk::Grab(c), n)),
            Err(e) => Err(e),
        },
        ChunkKind::CommodoreAmiga => match CommodoreAmiga::read(data, pos) {
            Ok((c, n)) => Ok((Chunk::CommodoreAmiga(c), n)),
            Err(e) => Err(e),
        },
        ChunkKind::CycleRange => match CycleRange::read(data, pos) {
            Ok((c, n)) => Ok((Chunk::CycleRange(c), n)),
            Err(e) => Err(e),
        },
        ChunkKind::CycleInfo => match CycleInfo::read(data, pos) {
            Ok((c, n)) => Ok((Chunk::CycleInfo(c), n)),
            Err(e) => Err(e),
        },
        ChunkKind::EnhancedColourCycle => match EnhancedColourCycle::read(data, pos, size) {
            Ok((c, n)) => Ok((Chunk::EnhancedColourCycle(c), n)),
            Err(e) => Err(e),
        },
        ChunkKind::DeluxePaintPrivateState => Ok((Chunk::DeluxePaintPrivateState(DeluxePaintPrivateState), DeluxePaintPrivateState::SIZE)),
        ChunkKind::DeluxePaintPrivateExtended => Ok((Chunk::DeluxePaintPrivateExtended(DeluxePaintPrivateExtended), DeluxePaintPrivateExtended::SIZE)),
        ChunkKind::DeluxePaintPerspective => match DeluxePaintPerspective::read(data, pos) {
            Ok((c, n)) => Ok((Chunk::DeluxePaintPerspective(c), n)),
            Err(e) => Err(e),
        },
        ChunkKind::DeluxePaintThumbnail => match DeluxePaintThumbnail::read(data, pos, size) {
            Ok((c, n)) => Ok((Chunk::DeluxePaintThumbnail(c), n)),
            Err(e) => Err(e),
        },
        ChunkKind::DotsPerInch => match DotsPerInch::read(data, pos) {
            Ok((c, n)) => Ok((Chunk::DotsPerInch(c), n)),
            Err(e) => Err(e),
        },
        ChunkKind::UpdateSpans => match UpdateSpans::read(data, pos) {
            Ok((c, n)) => Ok((Chunk::UpdateSpans(c), n)),
            Err(e) => Err(e),
        },
        ChunkKind::Body => {
            let (c, n) = Body::read(size);
            Ok((Chunk::Body(c), n))
        },
    }
}

/// Finds the decoder for `id`, holds the declared `size` to its minimum,
/// and decodes the payload at `pos`. `Ok(None)` means that no decoder
/// knows the tag.
pub fn try_read_chunk(id: u32, size: usize, data: &[u8], pos: usize) -> (r: Result<Option<(Chunk, usize)>, LBMError>)
    requires
        pos <= data@.len(),
    ensures
        match spec_try_read_chunk(data@, id, pos as int, size as int) {
            Ok(None) => r == Ok::<Option<(Chunk, usize)>, LBMError>(None),
            Ok(Some((v, n))) => r is Ok && r->Ok_0 is Some && r->Ok_0->Some_0.0@ == v && r->Ok_0->Some_0.1 == n,
            Err(e) => r == Err::<Option<(Chunk, usize)>, LBMError>(e),
        },
{
    reveal(spec_try_read_chunk);
    match ChunkKind::lookup(id) {
        None => Ok(None),
        Some((kind, min)) => {
            proof {
                reveal_with_fuel(first_match_from, 20);
            }
            if size < min {
                return Err(LBMError::BadChunk);
            }
            match decode(kind, data, pos, size) {
                Ok(x) => Ok(Some(x)),
                Err(e) => Err(e),
            }
        },
    }
}

} // verus!
