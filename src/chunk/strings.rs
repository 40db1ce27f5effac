//! Text chunks: annotation, name, author, copyright and generic text.

use vstd::prelude::*;
use crate::bytes::{byte_or_zero, spec_byte_or_zero};

verus! {

/// Single-byte text in the platform's own character set, as stored.
#[derive(Clone, Debug, PartialEq, Eq)]
pub struct PlatformText {
    pub bytes: Vec<u8>,
}

impl View for PlatformText {
    type V = Seq<u8>;

    open spec fn view(&self) -> Seq<u8> {
        self.bytes@
    }
}

pub const ANNOTATION_ID: u32 = 0x414e4e4f;
pub const NAME_ID: u32 = 0x4e414d45;
pub const AUTHOR_ID: u32 = 0x41555448;
pub const COPYRIGHT_ID: u32 = 0x28632920;
pub const TEXT_ID: u32 = 0x54455854;

impl PlatformText {
    pub const SIZE: usize = 0;

    /// The `size` bytes from `p` on, those past the end of `s` reading as zero.
    pub open spec fn spec_read(s: Seq<u8>, p: int, size: int) -> Seq<u8> {
        Seq::new(size as nat, |i: int| spec_byte_or_zero(s, p + i))
    }

    /// Takes the whole declared payload; where the input ends early the
    /// missing bytes read as zero.
    pub fn read(data: &[u8], pos: usize, size: usize) -> (r: (PlatformText, usize))
        requires
            pos <= data@.len(),
        ensures
            r.0@ == Self::spec_read(data@, pos as int, size as int),
            r.1 == size,
    {
        let mut bytes: Vec<u8> = Vec::new();
        let mut i: usize = 0;
        while i < size
            invariant
                i <= size,
                pos <= data@.len(),
                bytes@.len() == i,
                forall|j: int| 0 <= j < i ==> bytes@[j] == spec_byte_or_zero(data@, pos + j),
            decreases size - i,
        {
            bytes.push(byte_or_zero(data, pos, i));
            i = i + 1;
        }
        proof {
            assert(bytes@ =~= Self::spec_read(data@, pos as int, size as int));
        }
        (PlatformText { bytes }, size)
    }

    /// The text as shown: the bytes before the first zero byte.
    pub fn visible(&self) -> (r: Vec<u8>)
        ensures
            r@.len() <= self@.len(),
            r@ == self@.take(r@.len() as int),
            forall|i: int| 0 <= i < r@.len() ==> r@[i] != 0,
            r@.len() < self@.len() ==> self@[r@.len() as int] == 0,
    {
        let mut out: Vec<u8> = Vec::new();
        let mut i: usize = 0;
        while i < self.bytes.len() && self.bytes[i] != 0
            invariant
                i <= self@.len(),
                out@ == self@.take(i as int),
                forall|j: int| 0 <= j < i ==> self@[j] != 0,
            decreases self@.len() - i,
        {
            out.push(self.bytes[i]);
            i = i + 1;
            proof {
                assert(out@ =~= self@.take(i as int));
            }
        }
        out
    }
}

} // verus!
