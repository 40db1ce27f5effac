//! Update spans, "SPAN": the rows of an image that change while colours cycle.

use vstd::prelude::*;
use crate::bytes::{fits, has_bytes, i16_at, spec_i16_at};
use crate::error::LBMError;

verus! {

/// One record of a span list. A negative `left` marks a gap record; a
/// negative `inner_left` marks a span with no inner range cut out of it.
/// Fields that the record does not store hold zero.
#[derive(Clone, Copy, Debug, Default, PartialEq, Eq)]
pub struct Span {
    pub left: i16,
    pub right: i16,
    pub inner_left: i16,
    pub inner_right: i16,
}

#[derive(Clone, Debug, PartialEq, Eq)]
pub struct UpdateSpans {
    pub start_offset: i16,
    pub num_spans: i16,
    pub spans: Vec<Span>,
}

pub struct UpdateSpansView {
    pub start_offset: i16,
    pub num_spans: i16,
    pub spans: Seq<Span>,
}

impl View for UpdateSpans {
    type V = UpdateSpansView;

    open spec fn view(&self) -> UpdateSpansView {
        UpdateSpansView { start_offset: self.start_offset, num_spans: self.num_spans, spans: self.spans@ }
    }
}

/// The record at `p` and its length in bytes (2, 6 or 8), or `None`
/// where the input ends inside it.
pub open spec fn spec_span_at(s: Seq<u8>, p: int) -> Option<(Span, int)> {
    if !fits(s, p, 2) {
        None
    } else if spec_i16_at(s, p) < 0 {
        Some((Span { left: spec_i16_at(s, p), right: 0, inner_left: 0, inner_right: 0 }, 2))
    } else if !fits(s, p, 6) {
        None
    } else if spec_i16_at(s, p + 4) < 0 {
        Some((Span { left: spec_i16_at(s, p), right: spec_i16_at(s, p + 2), inner_left: spec_i16_at(s, p + 4), inner_right: 0 }, 6))
    } else if !fits(s, p, 8) {
        None
    } else {
        Some((Span { left: spec_i16_at(s, p), right: spec_i16_at(s, p + 2), inner_left: spec_i16_at(s, p + 4), inner_right: spec_i16_at(s, p + 6) }, 8))
    }
}

/// `n` records read one after another from `p`, with the position after the last.
pub open spec fn spec_spans_from(s: Seq<u8>, p: int, n: nat) -> Result<(Seq<Span>, int), LBMError>
    decreases n,
{
    if n == 0 {
        Ok((Seq::empty(), p))
    } else {
        match spec_span_at(s, p) {
            None => Err(LBMError::ShortRead),
            Some((span, len)) => prepend_spans(seq![span], spec_spans_from(s, p + len, (n - 1) as nat)),
        }
    }
}

pub open spec fn prepend_spans(front: Seq<Span>, r: Result<(Seq<Span>, int), LBMError>) -> Result<(Seq<Span>, int), LBMError> {
    match r {
        Ok((rest, end)) => Ok((front + rest, end)),
        Err(e) => Err(e),
    }
}

/// A negative record count stands for no records.
pub open spec fn spec_span_count(n: i16) -> nat {
    if n < 0 { 0 } else { n as nat }
}

impl UpdateSpans {
    pub const ID: u32 = 0x5350414e;
    pub const SIZE: usize = 4;

    /// The chunk at `p` and the number of bytes its records take.
    pub open spec fn spec_read(s: Seq<u8>, p: int) -> Result<(UpdateSpansView, int), LBMError> {
        if !fits(s, p, 4) {
            Err(LBMError::ShortRead)
        } else {
            let count = spec_i16_at(s, p + 2);
            match spec_spans_from(s, p + 4, spec_span_count(count)) {
                Ok((spans, end)) => Ok((UpdateSpansView { start_offset: spec_i16_at(s, p), num_spans: count, spans }, end - p)),
                Err(e) => Err(e),
            }
        }
    }

    pub fn read(data: &[u8], pos: usize) -> (r: Result<(UpdateSpans, usize), LBMError>)
        ensures
            match Self::spec_read(data@, pos as int) {
                Ok((v, n)) => r is Ok && r->Ok_0.0@ == v && r->Ok_0.1 == n,
                Err(e) => r is Err && r->Err_0 == e,
            },
    {
        if !has_bytes(data, pos, Self::SIZE) {
            return Err(LBMError::ShortRead);
        }
        let start_offset = i16_at(data, pos);
        let num_spans = i16_at(data, pos + 2);
        let n: usize = if num_spans < 0 { 0 } else { num_spans as usize };
        let ghost whole = spec_spans_from(data@, pos + 4, n as nat);
        let mut spans: Vec<Span> = Vec::new();
        let mut cur: usize = pos + 4;
        let mut i: usize = 0;
        while i < n
            invariant
                i <= n,
                pos + 4 <= cur <= data@.len(),
                fits(data@, pos as int, 4),
                start_offset == spec_i16_at(data@, pos as int),
                num_spans == spec_i16_at(data@, pos + 2),
                n as nat == spec_span_count(num_spans),
                whole == spec_spans_from(data@, pos + 4, n as nat),
                whole == prepend_spans(spans@, spec_spans_from(data@, cur as int, (n - i) as nat)),
            decreases n - i,
        {
            let ghost rest = spec_spans_from(data@, cur as int, (n - i - 1) as nat);
            if !has_bytes(data, cur, 2) {
                proof {
                    assert(spec_spans_from(data@, cur as int, (n - i) as nat) == Err::<(Seq<Span>, int), LBMError>(LBMError::ShortRead));
                }
                return Err(LBMError::ShortRead);
            }
            let left = i16_at(data, cur);
            let span;
            let len: usize;
            if left < 0 {
                span = Span { left, right: 0, inner_left: 0, inner_right: 0 };
                len = 2;
            } else {
                if !has_bytes(data, cur, 6) {
                    proof {
                        assert(spec_spans_from(data@, cur as int, (n - i) as nat) == Err::<(Seq<Span>, int), LBMError>(LBMError::ShortRead));
                    }
                    return Err(LBMError::ShortRead);
                }
                let right = i16_at(data, cur + 2);
                let inner_left = i16_at(data, cur + 4);
                if inner_left < 0 {
                    span = Span { left, right, inner_left, inner_right: 0 };
                    len = 6;
                } else {
                    if !has_bytes(data, cur, 8) {
                        proof {
                        assert(spec_spans_from(data@, cur as int, (n - i) as nat) == Err::<(Seq<Span>, int), LBMError>(LBMError::ShortRead));
                    }
                    return Err(LBMError::ShortRead);
                    }
                    span = Span { left, right, inner_left, inner_right: i16_at(data, cur + 6) };
                    len = 8;
                }
            }
            proof {
                assert(spec_span_at(data@, cur as int) == Some((span, len as int)));
                let rest = spec_spans_from(data@, cur + len, (n - i - 1) as nat);
                match rest {
                    Ok((tail, end)) => {
                        assert(spans@ + (seq![span] + tail) =~= spans@.push(span) + tail);
                    },
                    Err(e) => {},
                }
            }
            spans.push(span);
            cur = cur + len;
            i = i + 1;
        }
        proof {
            assert(spans@ + Seq::<Span>::empty() =~= spans@);
        }
        Ok((UpdateSpans { start_offset, num_spans, spans }, cur - pos))
    }
}

} // verus!
