//! Colour cycling ranges as Deluxe Paint writes them.

use vstd::prelude::*;
use crate::bytes::{fits, has_bytes, i16_at, spec_i16_at, u8_at};
use crate::chunk::standard::Rgb;
use crate::error::LBMError;
use crate::flags::RangeFlags;

verus! {

/// A colour cycling range, "CRNG".
#[derive(Clone, Copy, Debug, PartialEq, Eq)]
pub struct CycleRange {
    pub pad1: i16,
    pub rate: i16,
    pub flags: RangeFlags,
    pub low: u8,
    pub high: u8,
}

impl CycleRange {
    pub const ID: u32 = 0x43524e47;
    pub const SIZE: usize = 8;

    pub open spec fn spec_read(s: Seq<u8>, p: int) -> CycleRange {
        CycleRange {
            pad1: spec_i16_at(s, p),
            rate: spec_i16_at(s, p + 2),
            flags: RangeFlags(spec_i16_at(s, p + 4)),
            low: s[p + 6],
            high: s[p + 7],
        }
    }

    pub fn read(data: &[u8], pos: usize) -> (r: Result<(CycleRange, usize), LBMError>)
        ensures
            r == (if fits(data@, pos as int, 8) {
                Ok((Self::spec_read(data@, pos as int), 8usize))
            } else {
                Err(LBMError::ShortRead)
            }),
    {
        if !has_bytes(data, pos, Self::SIZE) {
            return Err(LBMError::ShortRead);
        }
        let range = CycleRange {
            pad1: i16_at(data, pos),
            rate: i16_at(data, pos + 2),
            flags: RangeFlags(i16_at(data, pos + 4)),
            low: u8_at(data, pos + 6),
            high: u8_at(data, pos + 7),
        };
        Ok((range, Self::SIZE))
    }
}

/// A true-colour entry of an enhanced range.
#[derive(Clone, Copy, Debug, Default, PartialEq, Eq)]
pub struct EnhancedColour {
    pub cell: u8,
    pub rgb: Rgb,
}

/// A palette-index entry of an enhanced range.
#[derive(Clone, Copy, Debug, Default, PartialEq, Eq)]
pub struct EnhancedIndex {
    pub cell: u8,
    pub index: u8,
}

/// A fade entry of the fade extension.
#[derive(Clone, Copy, Debug, Default, PartialEq, Eq)]
pub struct EnhancedFade {
    pub cell: u8,
    pub fade: u8,
}

/// The fade block that follows an enhanced range whose flags hold `FADE`.
#[derive(Clone, Debug, PartialEq, Eq)]
pub struct EnhancedColourCycleFadeExt {
    pub num_fade: u8,
    pub fade_pad: u8,
    pub fade_range: Vec<EnhancedFade>,
}

pub struct FadeExtView {
    pub num_fade: u8,
    pub fade_pad: u8,
    pub fade_range: Seq<EnhancedFade>,
}

impl View for EnhancedColourCycleFadeExt {
    type V = FadeExtView;

    open spec fn view(&self) -> FadeExtView {
        FadeExtView { num_fade: self.num_fade, fade_pad: self.fade_pad, fade_range: self.fade_range@ }
    }
}

/// An "enhanced" colour cycling range, "DRNG".
#[derive(Clone, Debug, PartialEq, Eq)]
pub struct EnhancedColourCycle {
    pub min: u8,
    pub max: u8,
    pub rate: i16,
    pub flags: RangeFlags,
    pub num_true: u8,
    pub num_regs: u8,
    pub true_range: Vec<EnhancedColour>,
    pub regs_range: Vec<EnhancedIndex>,
    pub fade_ext: Option<EnhancedColourCycleFadeExt>,
}

pub struct EnhancedColourCycleView {
    pub min: u8,
    pub max: u8,
    pub rate: i16,
    pub flags: RangeFlags,
    pub num_true: u8,
    pub num_regs: u8,
    pub true_range: Seq<EnhancedColour>,
    pub regs_range: Seq<EnhancedIndex>,
    pub fade_ext: Option<FadeExtView>,
}

impl View for EnhancedColourCycle {
    type V = EnhancedColourCycleView;

    open spec fn view(&self) -> EnhancedColourCycleView {
        EnhancedColourCycleView {
            min: self.min,
            max: self.max,
            rate: self.rate,
            flags: self.flags,
            num_true: self.num_true,
            num_regs: self.num_regs,
            true_range: self.true_range@,
            regs_range: self.regs_range@,
            fade_ext: match self.fade_ext {
                Some(f) => Some(f@),
                None => None,
            },
        }
    }
}

pub open spec fn spec_true_at(s: Seq<u8>, p: int) -> EnhancedColour {
    EnhancedColour { cell: s[p], rgb: Rgb { r: s[p + 1], g: s[p + 2], b: s[p + 3] } }
}

pub open spec fn spec_index_at(s: Seq<u8>, p: int) -> EnhancedIndex {
    EnhancedIndex { cell: s[p], index: s[p + 1] }
}

pub open spec fn spec_fade_at(s: Seq<u8>, p: int) -> EnhancedFade {
    EnhancedFade { cell: s[p], fade: s[p + 1] }
}

impl EnhancedColourCycle {
    pub const ID: u32 = 0x44524e47;
    pub const SIZE: usize = 8;

    pub open spec fn spec_has_fade(s: Seq<u8>, p: int) -> bool {
        RangeFlags(spec_i16_at(s, p + 4)).spec_contains(RangeFlags::FADE)
    }

    /// The bytes that the prefix, both arrays and (with `FADE`) the fade
    /// block's own header need, as counted before the arrays are read.
    pub open spec fn spec_required(s: Seq<u8>, p: int) -> int {
        8 + 4 * s[p + 6] + 2 * s[p + 7] + if Self::spec_has_fade(s, p) { 2int } else { 0int }
    }

    /// The range at `p` in a chunk of `size` bytes, and the bytes it takes.
    pub open spec fn spec_read(s: Seq<u8>, p: int, size: int) -> Result<(EnhancedColourCycleView, int), LBMError> {
        if !fits(s, p, 8) {
            Err(LBMError::ShortRead)
        } else {
            let nt = s[p + 6] as int;
            let nr = s[p + 7] as int;
            let q = p + 8 + 4 * nt + 2 * nr;
            if Self::spec_required(s, p) > size {
                Err(LBMError::BadChunk)
            } else if !fits(s, p + 8, 4 * nt + 2 * nr) {
                Err(LBMError::ShortRead)
            } else {
                let trues = Seq::new(nt as nat, |i: int| spec_true_at(s, p + 8 + 4 * i));
                let regs = Seq::new(nr as nat, |j: int| spec_index_at(s, p + 8 + 4 * nt + 2 * j));
                if !Self::spec_has_fade(s, p) {
                    Ok((EnhancedColourCycleView {
                        min: s[p], max: s[p + 1], rate: spec_i16_at(s, p + 2), flags: RangeFlags(spec_i16_at(s, p + 4)),
                        num_true: s[p + 6], num_regs: s[p + 7], true_range: trues, regs_range: regs, fade_ext: None,
                    }, q - p))
                } else if !fits(s, q, 2) {
                    Err(LBMError::ShortRead)
                } else if Self::spec_required(s, p) + 2 * s[q] > size {
                    Err(LBMError::BadChunk)
                } else if !fits(s, q + 2, 2 * s[q]) {
                    Err(LBMError::ShortRead)
                } else {
                    let fades = Seq::new(s[q] as nat, |k: int| spec_fade_at(s, q + 2 + 2 * k));
                    Ok((EnhancedColourCycleView {
                        min: s[p], max: s[p + 1], rate: spec_i16_at(s, p + 2), flags: RangeFlags(spec_i16_at(s, p + 4)),
                        num_true: s[p + 6], num_regs: s[p + 7], true_range: trues, regs_range: regs,
                        fade_ext: Some(FadeExtView { num_fade: s[q], fade_pad: s[q + 1], fade_range: fades }),
                    }, q + 2 + 2 * s[q] - p))
                }
            }
        }
    }

    /// A range whose declared length cannot hold its prefix and its
    /// true-colour array is malformed, whatever follows: it is refused
    /// before any entry is read.
    pub proof fn lemma_short_true_array_is_malformed(s: Seq<u8>, p: int, size: int)
        requires
            fits(s, p, 8),
            size < 8 + 4 * s[p + 6],
        ensures
            Self::spec_read(s, p, size) == Err::<(EnhancedColourCycleView, int), LBMError>(LBMError::BadChunk),
    {
    }

    /// Decodes the range, checking before each variable block that the
    /// declared `size` holds it, so that nothing past the chunk is read.
    pub fn read(data: &[u8], pos: usize, size: usize) -> (r: Result<(EnhancedColourCycle, usize), LBMError>)
        ensures
            match Self::spec_read(data@, pos as int, size as int) {
                Ok((v, n)) => r is Ok && r->Ok_0.0@ == v && r->Ok_0.1 == n,
                Err(e) => r is Err && r->Err_0 == e,
            },
    {
        if !has_bytes(data, pos, Self::SIZE) {
            return Err(LBMError::ShortRead);
        }
        let min = u8_at(data, pos);
        let max = u8_at(data, pos + 1);
        let rate = i16_at(data, pos + 2);
        let flags = RangeFlags(i16_at(data, pos + 4));
        let num_true = u8_at(data, pos + 6);
        let num_regs = u8_at(data, pos + 7);
        let has_fade = flags.contains(RangeFlags::FADE);

        // The chunk must hold both arrays, and the fade header if flagged.
        let required: usize = Self::SIZE + num_true as usize * 4 + num_regs as usize * 2 + if has_fade { 2 } else { 0 };
        if required > size {
            return Err(LBMError::BadChunk);
        }
        let arrays = num_true as usize * 4 + num_regs as usize * 2;
        if !has_bytes(data, pos + 8, arrays) {
            return Err(LBMError::ShortRead);
        }

        let base = pos + 8;
        let mut true_range: Vec<EnhancedColour> = Vec::new();
        let mut i: usize = 0;
        while i < num_true as usize
            invariant
                data@.len() <= usize::MAX,
                fits(data@, base as int, arrays as int),
                arrays == num_true * 4 + num_regs * 2,
                i <= num_true,
                true_range@.len() == i,
                forall|j: int| 0 <= j < i ==> true_range@[j] == spec_true_at(data@, base + 4 * j),
            decreases num_true - i,
        {
            let at = base + 4 * i;
            let entry = EnhancedColour {
                cell: u8_at(data, at),
                rgb: Rgb { r: u8_at(data, at + 1), g: u8_at(data, at + 2), b: u8_at(data, at + 3) },
            };
            true_range.push(entry);
            i = i + 1;
        }

        let base = pos + 8 + num_true as usize * 4;
        let mut regs_range: Vec<EnhancedIndex> = Vec::new();
        let mut i: usize = 0;
        while i < num_regs as usize
            invariant
                data@.len() <= usize::MAX,
                fits(data@, pos + 8, arrays as int),
                arrays == num_true * 4 + num_regs * 2,
                base == pos + 8 + num_true * 4,
                i <= num_regs,
                regs_range@.len() == i,
                forall|j: int| 0 <= j < i ==> regs_range@[j] == spec_index_at(data@, base + 2 * j),
            decreases num_regs - i,
        {
            let at = base + 2 * i;
            regs_range.push(EnhancedIndex { cell: u8_at(data, at), index: u8_at(data, at + 1) });
            i = i + 1;
        }

        let q = pos + 8 + arrays;
        let mut fade_ext = None;
        let mut consumed = 8 + arrays;
        if has_fade {
            if !has_bytes(data, q, 2) {
                return Err(LBMError::ShortRead);
            }
            let num_fade = u8_at(data, q);
            let fade_pad = u8_at(data, q + 1);
            // The chunk must also hold the fade entries.
            if required + num_fade as usize * 2 > size {
                return Err(LBMError::BadChunk);
            }
            if !has_bytes(data, q + 2, num_fade as usize * 2) {
                return Err(LBMError::ShortRead);
            }
            let mut fade_range: Vec<EnhancedFade> = Vec::new();
            let mut k: usize = 0;
            while k < num_fade as usize
                invariant
                    data@.len() <= usize::MAX,
                    fits(data@, q + 2, num_fade * 2),
                    k <= num_fade,
                    fade_range@.len() == k,
                    forall|j: int| 0 <= j < k ==> fade_range@[j] == spec_fade_at(data@, q + 2 + 2 * j),
                decreases num_fade - k,
            {
                let at = q + 2 + 2 * k;
                fade_range.push(EnhancedFade { cell: u8_at(data, at), fade: u8_at(data, at + 1) });
                k = k + 1;
            }
            proof {
                assert(fade_range@ =~= Seq::new(num_fade as nat, |k: int| spec_fade_at(data@, q + 2 + 2 * k)));
            }
            consumed = consumed + 2 + num_fade as usize * 2;
            fade_ext = Some(EnhancedColourCycleFadeExt { num_fade, fade_pad, fade_range });
        }
        proof {
            assert(true_range@ =~= Seq::new(num_true as nat, |i: int| spec_true_at(data@, pos + 8 + 4 * i)));
            assert(regs_range@ =~= Seq::new(num_regs as nat, |j: int| spec_index_at(data@, pos + 8 + 4 * num_true + 2 * j)));
        }
        let cycle = EnhancedColourCycle { min, max, rate, flags, num_true, num_regs, true_range, regs_range, fade_ext };
        Ok((cycle, consumed))
    }
}

} // verus!
