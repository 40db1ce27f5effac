//! Guessing which program or platform wrote a file, from the chunks it holds.

use vstd::prelude::*;
use crate::chunk::header::Compression;
use crate::flags::{AmigaViewportFlags, RangeFlags};
use crate::lbm::{LBMType, LBMView, LBM};

verus! {

#[derive(Clone, Copy, Debug, PartialEq, Eq, Structural)]
pub enum PlatformGuess {
    Unknown,
    AmigaGeneric,
    AmigaGraphicraft,
    AmigaDeluxePaint,
    AmigaDeluxePaintIV,
    AmigaDeluxePaintV,
    AtariST,
    DOSGeneric,
    DOSDeluxePaint2,
    DOSDeluxePaint2Enhanced,
}

/// Whether any of the chunks that Deluxe Paint II for MS-DOS writes is there.
pub open spec fn has_dos_paint_chunks(d: LBMView) -> bool {
    d.chunks.dpps is Some || d.chunks.dppv is Some || d.chunks.tiny is Some
}

/// Whether some enhanced range has the fade flag.
pub open spec fn any_fade(d: LBMView) -> bool {
    exists|i: int| 0 <= i < d.chunks.enhanced.len() && d.chunks.enhanced[i].flags.spec_contains(RangeFlags::FADE)
}

/// The decision list, first matching rule first.
pub open spec fn spec_guess(d: LBMView) -> PlatformGuess {
    if d.iff_type == LBMType::Chunky {
        // PBM comes from later versions of Deluxe Paint II for the PC.
        if has_dos_paint_chunks(d) {
            PlatformGuess::DOSDeluxePaint2Enhanced
        } else {
            PlatformGuess::DOSGeneric
        }
    } else if d.header.compression.0 == Compression::VERTICAL_RLE {
        // Vertical RLE is what Deluxe Paint for the Atari ST writes.
        PlatformGuess::AtariST
    } else if d.chunks.amiga is Some {
        if d.chunks.amiga->Some_0.viewport.spec_contains(AmigaViewportFlags::SPRITES) && d.chunks.cycleinfo.len() == 0 {
            PlatformGuess::AmigaGraphicraft
        } else if d.chunks.enhanced.len() > 0 {
            if any_fade(d) {
                PlatformGuess::AmigaDeluxePaintV
            } else {
                PlatformGuess::AmigaDeluxePaintIV
            }
        } else if d.chunks.dpps is Some {
            PlatformGuess::AmigaDeluxePaint
        } else {
            PlatformGuess::AmigaGeneric
        }
    } else if has_dos_paint_chunks(d) {
        PlatformGuess::DOSDeluxePaint2
    } else if d.chunks.grab is None && d.chunks.enhanced.len() == 0 && d.header.size == (320u16, 200u16) {
        PlatformGuess::DOSGeneric
    } else {
        PlatformGuess::Unknown
    }
}

impl PlatformGuess {
    /// The label shown for the guess.
    pub open spec fn spec_name(self) -> &'static str {
        match self {
            PlatformGuess::Unknown => "?",
            PlatformGuess::AmigaGeneric => "Amiga",
            PlatformGuess::AmigaGraphicraft => "Commodore Graphicraft",
            PlatformGuess::AmigaDeluxePaint => "Deluxe Paint (Amiga)",
            PlatformGuess::AmigaDeluxePaintIV => "Deluxe Paint IV (Amiga)",
            PlatformGuess::AmigaDeluxePaintV => "Deluxe Paint V (Amiga)",
            PlatformGuess::AtariST => "Atari",
            PlatformGuess::DOSGeneric => "MS-DOS",
            PlatformGuess::DOSDeluxePaint2 => "Deluxe Paint II (MS-DOS)",
            PlatformGuess::DOSDeluxePaint2Enhanced => "Deluxe Paint II Enhanced",
        }
    }

    pub fn name(&self) -> (r: &'static str)
        ensures
            r == self.spec_name(),
    {
        match self {
            PlatformGuess::Unknown => "?",
            PlatformGuess::AmigaGeneric => "Amiga",
            PlatformGuess::AmigaGraphicraft => "Commodore Graphicraft",
            PlatformGuess::AmigaDeluxePaint => "Deluxe Paint (Amiga)",
            PlatformGuess::AmigaDeluxePaintIV => "Deluxe Paint IV (Amiga)",
            PlatformGuess::AmigaDeluxePaintV => "Deluxe Paint V (Amiga)",
            PlatformGuess::AtariST => "Atari",
            PlatformGuess::DOSGeneric => "MS-DOS",
            PlatformGuess::DOSDeluxePaint2 => "Deluxe Paint II (MS-DOS)",
            PlatformGuess::DOSDeluxePaint2Enhanced => "Deluxe Paint II Enhanced",
        }
    }
}

impl LBM {
    /// Guesses where the file came from.
    pub fn guess(&self) -> (r: PlatformGuess)
        ensures
            r == spec_guess(self@),
    {
        let dos_paint = self.dpps.is_some() || self.dppv.is_some() || self.tiny.is_some();
        if self.iff_type == LBMType::Chunky {
            if dos_paint {
                return PlatformGuess::DOSDeluxePaint2Enhanced;
            }
            return PlatformGuess::DOSGeneric;
        }
        if self.header.compression.0 == Compression::VERTICAL_RLE {
            return PlatformGuess::AtariST;
        }
        if let Some(amiga) = &self.amiga {
            // Commodore Graphicraft sets SPRITES and writes cycle info chunks.
            if amiga.viewport.contains(AmigaViewportFlags::SPRITES) && self.cycleinfo.len() == 0 {
                return PlatformGuess::AmigaGraphicraft;
            }
            // Enhanced ranges came with Deluxe Paint IV; the fade flag with V.
            if self.enhanced.len() > 0 {
                let mut i: usize = 0;
                while i < self.enhanced.len()
                    invariant
                        spec_guess(self@) == (if any_fade(self@) {
                            PlatformGuess::AmigaDeluxePaintV
                        } else {
                            PlatformGuess::AmigaDeluxePaintIV
                        }),
                        i <= self.enhanced@.len(),
                        forall|j: int| 0 <= j < i ==> !self@.chunks.enhanced[j].flags.spec_contains(RangeFlags::FADE),
                    decreases self.enhanced@.len() - i,
                {
                    if self.enhanced[i].flags.contains(RangeFlags::FADE) {
                        proof {
                            assert(self@.chunks.enhanced[i as int].flags.spec_contains(RangeFlags::FADE));
                        }
                        return PlatformGuess::AmigaDeluxePaintV;
                    }
                    i = i + 1;
                }
                return PlatformGuess::AmigaDeluxePaintIV;
            }
            if self.dpps.is_some() {
                return PlatformGuess::AmigaDeluxePaint;
            }
            return PlatformGuess::AmigaGeneric;
        }
        if dos_paint {
            return PlatformGuess::DOSDeluxePaint2;
        }
        // No Amiga chunks and a PC resolution.
        if self.grab.is_none() && self.enhanced.len() == 0 && self.header.size.0 == 320 && self.header.size.1 == 200 {
            return PlatformGuess::DOSGeneric;
        }
        PlatformGuess::Unknown
    }
}

} // verus!
