//! The byte source: an addressable, length-bounded, read-only run of bytes
//! that the view queries for contiguous sub-ranges.

use std::ops::Range;
use vstd::prelude::*;
use vstd::slice::slice_subrange;

verus! {

/// What a query for `[start, end)` yields from a source that holds `bytes`:
/// nothing when the range is empty or starts at or beyond the end of the
/// source, and otherwise the bytes from `start` up to `end`, cut short at the
/// end of the source.
pub open spec fn clamped_range(bytes: Seq<u8>, start: int, end: int) -> Option<Seq<u8>> {
    if start >= end || start >= bytes.len() {
        None
    } else if end <= bytes.len() {
        Some(bytes.subrange(start, end))
    } else {
        Some(bytes.subrange(start, bytes.len() as int))
    }
}

/// The view of an optional borrowed slice as an optional sequence of bytes.
pub open spec fn range_view(found: Option<&[u8]>) -> Option<Seq<u8>> {
    match found {
        Some(slice) => Some(slice@),
        None => None,
    }
}

/// A read-only source of bytes, addressable from `0` up to its length.
pub trait ByteProvider {
    /// The bytes that the source holds, in address order.
    spec fn bytes(&self) -> Seq<u8>;

    /// The bytes in `range`, clamped to the end of the source. A range that is
    /// empty or that starts at or beyond the end yields `None`; no range is an
    /// error.
    fn get_range(&self, range: Range<usize>) -> (found: Option<&[u8]>)
        ensures
            range_view(found) == clamped_range(self.bytes(), range.start as int, range.end as int),
            range.start >= self.bytes().len() ==> found is None,
    ;

    /// The number of addressable bytes.
    fn len(&self) -> (n: usize)
        ensures
            n == self.bytes().len(),
    ;
}

impl ByteProvider for &[u8] {
    open spec fn bytes(&self) -> Seq<u8> {
        (*self)@
    }

    fn get_range(&self, range: Range<usize>) -> (found: Option<&[u8]>) {
        let this: &[u8] = self;
        let total: usize = this.len();
        if range.start >= range.end || range.start >= total {
            return None;
        }
        let end: usize = if range.end < total { range.end } else { total };
        Some(slice_subrange(this, range.start, end))
    }

    fn len(&self) -> (n: usize) {
        let this: &[u8] = self;
        this.len()
    }
}

} // verus!
