//! Collects decoded chunks while a FORM is scanned.

use vstd::prelude::*;
use crate::chunk::amiga::CommodoreAmiga;
use crate::chunk::custom::{UpdateSpans, UpdateSpansView};
use crate::chunk::dpaint::{DeluxePaintPerspective, DeluxePaintPrivateExtended, DeluxePaintPrivateState, DeluxePaintThumbnail};
use crate::chunk::graphicraft::CycleInfo;
use crate::chunk::header::LBMHeader;
use crate::chunk::nonstandard::DotsPerInch;
use crate::chunk::range::{CycleRange, EnhancedColourCycle, EnhancedColourCycleView};
use crate::chunk::standard::{Body, ColourMap, Grab, Rgb};
use crate::chunk::strings::PlatformText;
use crate::chunk::{kind_of, spec_try_read_chunk, try_read_chunk, Chunk, ChunkKind, ChunkView};
use crate::error::LBMError;

verus! {

/// The chunks met so far: one slot for each kind that may occur once, a
/// sequence in order of appearance for each kind that may repeat, and the
/// tags that no decoder knew.
#[derive(Clone, Debug, PartialEq, Eq)]
pub struct LBMReader {
    pub annotation: Option<PlatformText>,
    pub name: Option<PlatformText>,
    pub author: Option<PlatformText>,
    pub copyright: Option<PlatformText>,
    pub text: Option<PlatformText>,
    pub header: Option<LBMHeader>,
    pub palette: Option<ColourMap>,
    pub grab: Option<Grab>,
    pub amiga: Option<CommodoreAmiga>,
    pub ranges: Vec<CycleRange>,
    pub cycleinfo: Vec<CycleInfo>,
    pub enhanced: Vec<EnhancedColourCycle>,
    pub dpps: Option<DeluxePaintPrivateState>,
    pub dpxt: Option<DeluxePaintPrivateExtended>,
    pub dppv: Option<DeluxePaintPerspective>,
    pub tiny: Option<DeluxePaintThumbnail>,
    pub dpi: Option<DotsPerInch>,
    pub spans: Option<UpdateSpans>,
    pub body: Option<Body>,
    pub unknown: Vec<u32>,
}

pub struct ReaderView {
    pub annotation: Option<Seq<u8>>,
    pub name: Option<Seq<u8>>,
    pub author: Option<Seq<u8>>,
    pub copyright: Option<Seq<u8>>,
    pub text: Option<Seq<u8>>,
    pub header: Option<LBMHeader>,
    pub palette: Option<Seq<Rgb>>,
    pub grab: Option<Grab>,
    pub amiga: Option<CommodoreAmiga>,
    pub ranges: Seq<CycleRange>,
    pub cycleinfo: Seq<CycleInfo>,
    pub enhanced: Seq<EnhancedColourCycleView>,
    pub dpps: Option<DeluxePaintPrivateState>,
    pub dpxt: Option<DeluxePaintPrivateExtended>,
    pub dppv: Option<DeluxePaintPerspective>,
    pub tiny: Option<DeluxePaintThumbnail>,
    pub dpi: Option<DotsPerInch>,
    pub spans: Option<UpdateSpansView>,
    pub body: Option<Body>,
    pub unknown: Seq<u32>,
}

pub open spec fn text_view(t: Option<PlatformText>) -> Option<Seq<u8>> {
    match t {
        Some(t) => Some(t@),
        None => None,
    }
}

pub open spec fn palette_view(p: Option<ColourMap>) -> Option<Seq<Rgb>> {
    match p {
        Some(p) => Some(p@),
        None => None,
    }
}

pub open spec fn spans_view(s: Option<UpdateSpans>) -> Option<UpdateSpansView> {
    match s {
        Some(s) => Some(s@),
        None => None,
    }
}

pub open spec fn enhanced_view(e: Seq<EnhancedColourCycle>) -> Seq<EnhancedColourCycleView> {
    e.map_values(|c: EnhancedColourCycle| c@)
}

impl View for LBMReader {
    type V = ReaderView;

    open spec fn view(&self) -> ReaderView {
        ReaderView {
            annotation: text_view(self.annotation),
            name: text_view(self.name),
            author: text_view(self.author),
            copyright: text_view(self.copyright),
            text: text_view(self.text),
            header: self.header,
            palette: palette_view(self.palette),
            grab: self.grab,
            amiga: self.amiga,
            ranges: self.ranges@,
            cycleinfo: self.cycleinfo@,
            enhanced: enhanced_view(self.enhanced@),
            dpps: self.dpps,
            dpxt: self.dpxt,
            dppv: self.dppv,
            tiny: self.tiny,
            dpi: self.dpi,
            spans: spans_view(self.spans),
            body: self.body,
            unknown: self.unknown@,
        }
    }
}

/// Nothing collected yet.
pub open spec fn empty_reader() -> ReaderView {
    ReaderView {
        annotation: None,
        name: None,
        author: None,
        copyright: None,
        text: None,
        header: None,
        palette: None,
        grab: None,
        amiga: None,
        ranges: Seq::empty(),
        cycleinfo: Seq::empty(),
        enhanced: Seq::empty(),
        dpps: None,
        dpxt: None,
        dppv: None,
        tiny: None,
        dpi: None,
        spans: None,
        body: None,
        unknown: Seq::empty(),
    }
}

/// Chunk kinds that may repeat; every other kind may occur once.
pub open spec fn is_repeatable(c: ChunkView) -> bool {
    c is CycleRange || c is CycleInfo || c is EnhancedColourCycle
}

/// Whether the slot for the kind of `c` is already taken.
pub open spec fn slot_taken(st: ReaderView, c: ChunkView) -> bool {
    match c {
        ChunkView::AnnotationText(_) => st.annotation is Some,
        ChunkView::NameText(_) => st.name is Some,
        ChunkView::AuthorText(_) => st.author is Some,
        ChunkView::CopyrightText(_) => st.copyright is Some,
        ChunkView::GenericText(_) => st.text is Some,
        ChunkView::LBMHeader(_) => st.header is Some,
        ChunkView::ColourMap(_) => st.palette is Some,
        ChunkView::Grab(_) => st.grab is Some,
        ChunkView::CommodoreAmiga(_) => st.amiga is Some,
        ChunkView::CycleRange(_) => false,
        ChunkView::CycleInfo(_) => false,
        ChunkView::EnhancedColourCycle(_) => false,
        ChunkView::DeluxePaintPrivateState(_) => st.dpps is Some,
        ChunkView::DeluxePaintPrivateExtended(_) => st.dpxt is Some,
        ChunkView::DeluxePaintPerspective(_) => st.dppv is Some,
        ChunkView::DeluxePaintThumbnail(_) => st.tiny is Some,
        ChunkView::DotsPerInch(_) => st.dpi is Some,
        ChunkView::UpdateSpans(_) => st.spans is Some,
        ChunkView::Body(_) => st.body is Some,
    }
}

#[verifier::opaque]
/// `c` placed into `st`: appended to its sequence, or put into its empty
/// slot; a taken slot is a conflict.
pub open spec fn spec_store(st: ReaderView, c: ChunkView) -> Result<ReaderView, LBMError> {
    if slot_taken(st, c) {
        Err(LBMError::ChunkConflict)
    } else {
        Ok(match c {
            ChunkView::AnnotationText(t) => ReaderView { annotation: Some(t), ..st },
            ChunkView::NameText(t) => ReaderView { name: Some(t), ..st },
            ChunkView::AuthorText(t) => ReaderView { author: Some(t), ..st },
            ChunkView::CopyrightText(t) => ReaderView { copyright: Some(t), ..st },
            ChunkView::GenericText(t) => ReaderView { text: Some(t), ..st },
            ChunkView::LBMHeader(h) => ReaderView { header: Some(h), ..st },
            ChunkView::ColourMap(p) => ReaderView { palette: Some(p), ..st },
            ChunkView::Grab(g) => ReaderView { grab: Some(g), ..st },
            ChunkView::CommodoreAmiga(a) => ReaderView { amiga: Some(a), ..st },
            ChunkView::CycleRange(r) => ReaderView { ranges: st.ranges.push(r), ..st },
            ChunkView::CycleInfo(i) => ReaderView { cycleinfo: st.cycleinfo.push(i), ..st },
            ChunkView::EnhancedColourCycle(e) => ReaderView { enhanced: st.enhanced.push(e), ..st },
            ChunkView::DeluxePaintPrivateState(d) => ReaderView { dpps: Some(d), ..st },
            ChunkView::DeluxePaintPrivateExtended(d) => ReaderView { dpxt: Some(d), ..st },
            ChunkView::DeluxePaintPerspective(d) => ReaderView { dppv: Some(d), ..st },
            ChunkView::DeluxePaintThumbnail(t) => ReaderView { tiny: Some(t), ..st },
            ChunkView::DotsPerInch(d) => ReaderView { dpi: Some(d), ..st },
            ChunkView::UpdateSpans(s) => ReaderView { spans: Some(s), ..st },
            ChunkView::Body(b) => ReaderView { body: Some(b), ..st },
        })
    }
}

/// A second chunk of a kind that may occur once is a conflict, whatever
/// its kind and whatever else has been collected.
pub proof fn lemma_second_singleton_conflicts(st: ReaderView, first: ChunkView, second: ChunkView)
    requires
        !is_repeatable(first),
        kind_of(first) == kind_of(second),
        spec_store(st, first) is Ok,
    ensures
        spec_store(spec_store(st, first)->Ok_0, second) == Err::<ReaderView, LBMError>(LBMError::ChunkConflict),
{
    reveal(spec_store);
}

/// Storing a payload of any kind but the header leaves the header slot as it was.
pub proof fn lemma_store_keeps_header(st: ReaderView, c: ChunkView)
    requires
        kind_of(c) != ChunkKind::LBMHeader,
        spec_store(st, c) is Ok,
    ensures
        spec_store(st, c)->Ok_0.header == st.header,
{
    reveal(spec_store);
}

/// Dispatching a chunk and storing what it decoded to: the new state and
/// the bytes consumed, or `None` for a tag that no decoder knows.
pub open spec fn spec_read_chunk(st: ReaderView, s: Seq<u8>, id: u32, p: int, size: int) -> Result<Option<(ReaderView, int)>, LBMError> {
    match spec_try_read_chunk(s, id, p, size) {
        Err(e) => Err(e),
        Ok(None) => Ok(None),
        Ok(Some((c, n))) => match spec_store(st, c) {
            Err(e) => Err(e),
            Ok(st2) => Ok(Some((st2, n))),
        },
    }
}

impl LBMReader {
    pub fn new() -> (r: LBMReader)
        ensures
            r@ == empty_reader(),
    {
        let r = LBMReader {
            annotation: None,
            name: None,
            author: None,
            copyright: None,
            text: None,
            header: None,
            palette: None,
            grab: None,
            amiga: None,
            ranges: Vec::new(),
            cycleinfo: Vec::new(),
            enhanced: Vec::new(),
            dpps: None,
            dpxt: None,
            dppv: None,
            tiny: None,
            dpi: None,
            spans: None,
            body: None,
            unknown: Vec::new(),
        };
        proof {
            assert(enhanced_view(r.enhanced@) =~= Seq::empty());
        }
        r
    }

    /// Places a decoded chunk; a second chunk of a kind that may occur once
    /// is a conflict.
    pub fn store(&mut self, c: Chunk) -> (r: Result<(), LBMError>)
        ensures
            match spec_store(old(self)@, c@) {
                Ok(v) => r is Ok && final(self)@ == v,
                Err(e) => r == Err::<(), LBMError>(e),
            },
    {
        reveal(spec_store);
        match c {
            Chunk::AnnotationText(t) => {
                if self.annotation.is_some() {
                    return Err(LBMError::ChunkConflict);
                }
                self.annotation = Some(t);
            },
            Chunk::NameText(t) => {
                if self.name.is_some() {
                    return Err(LBMError::ChunkConflict);
                }
                self.name = Some(t);
            },
            Chunk::AuthorText(t) => {
                if self.author.is_some() {
                    return Err(LBMError::ChunkConflict);
                }
                self.author = Some(t);
            },
            Chunk::CopyrightText(t) => {
                if self.copyright.is_some() {
                    return Err(LBMError::ChunkConflict);
                }
                self.copyright = Some(t);
            },
            Chunk::GenericText(t) => {
                if self.text.is_some() {
                    return Err(LBMError::ChunkConflict);
                }
                self.text = Some(t);
            },
            Chunk::LBMHeader(h) => {
                if self.header.is_some() {
                    return Err(LBMError::ChunkConflict);
                }
                self.header = Some(h);
            },
            Chunk::ColourMap(p) => {
                if self.palette.is_some() {
                    return Err(LBMError::ChunkConflict);
                }
                self.palette = Some(p);
            },
            Chunk::Grab(g) => {
                if self.grab.is_some() {
                    return Err(LBMError::ChunkConflict);
                }
                self.grab = Some(g);
            },
            Chunk::CommodoreAmiga(a) => {
                if self.amiga.is_some() {
                    return Err(LBMError::ChunkConflict);
                }
                self.amiga = Some(a);
            },
            Chunk::CycleRange(r) => {
                self.ranges.push(r);
            },
            Chunk::CycleInfo(i) => {
                self.cycleinfo.push(i);
            },
            Chunk::EnhancedColourCycle(e) => {
                let ghost before = self.enhanced@;
                let ghost ev = e@;
                self.enhanced.push(e);
                proof {
                    assert(enhanced_view(self.enhanced@) =~= enhanced_view(before).push(ev));
                }
            },
            Chunk::DeluxePaintPrivateState(d) => {
                if self.dpps.is_some() {
                    return Err(LBMError::ChunkConflict);
                }
                self.dpps = Some(d);
            },
            Chunk::DeluxePaintPrivateExtended(d) => {
                if self.dpxt.is_some() {
                    return Err(LBMError::ChunkConflict);
                }
                self.dpxt = Some(d);
            },
            Chunk::DeluxePaintPerspective(d) => {
                if self.dppv.is_some() {
                    return Err(LBMError::ChunkConflict);
                }
                self.dppv = Some(d);
            },
            Chunk::DeluxePaintThumbnail(t) => {
                if self.tiny.is_some() {
                    return Err(LBMError::ChunkConflict);
                }
                self.tiny = Some(t);
            },
            Chunk::DotsPerInch(d) => {
                if self.dpi.is_some() {
                    return Err(LBMError::ChunkConflict);
                }
                self.dpi = Some(d);
            },
            Chunk::UpdateSpans(s) => {
                if self.spans.is_some() {
                    return Err(LBMError::ChunkConflict);
                }
                self.spans = Some(s);
            },
            Chunk::Body(b) => {
                if self.body.is_some() {
                    return Err(LBMError::ChunkConflict);
                }
                self.body = Some(b);
            },
        }
        Ok(())
    }

    /// Decodes the chunk tagged `id` whose payload of `size` bytes starts at
    /// `pos`, and stores it. Returns the bytes the decoder consumed, or
    /// `None` where no decoder knows the tag.
    pub fn read_chunk(&mut self, id: u32, size: usize, data: &[u8], pos: usize) -> (r: Result<Option<usize>, LBMError>)
        requires
            pos <= data@.len(),
        ensures
            match spec_read_chunk(old(self)@, data@, id, pos as int, size as int) {
                Ok(None) => r == Ok::<Option<usize>, LBMError>(None) && final(self)@ == old(self)@,
                Ok(Some((v, n))) => r is Ok && r->Ok_0 is Some && r->Ok_0->Some_0 as int == n && final(self)@ == v,
                Err(e) => r == Err::<Option<usize>, LBMError>(e),
            },
    {
        match try_read_chunk(id, size, data, pos) {
            Err(e) => Err(e),
            Ok(None) => Ok(None),
            Ok(Some((c, n))) => {
                match self.store(c) {
                    Err(e) => Err(e),
                    Ok(()) => Ok(Some(n)),
                }
            },
        }
    }
}

} // verus!
