//! The header that encodes a run's length, and its one-byte realisation.

use vstd::prelude::*;

verus! {

/// The run is longer than the chosen header can encode.
#[derive(Copy, Clone, Debug, PartialEq, Eq)]
pub struct TooLong;

impl TooLong {
    /// The text that describes this error.
    pub fn message(&self) -> (r: String)
        ensures
            r@ == "Too long"@,
    {
        let r = String::from_str("Too long");
        proof {
            reveal_strlit("Too long");
        }
        r
    }
}

/// How the length of a run is stored at the front of its block, and the
/// header's answer to whether a block could be shared.
///
/// The length may be split between the header value itself and a region of
/// overflow bytes that follows it in the block.
///
/// [`OwnedSlice`](crate::OwnedSlice) holds each block by value and never
/// shares one: it does not call `inc` or `dec`, and every clone is an
/// independent copy. Those two methods state the header's own policy for
/// code that keeps its own count of handles.
pub trait Header: Sized {
    /// Whether this header can encode a run of `len` elements.
    spec fn can_encode(len: usize) -> bool;

    /// How many overflow bytes a run of `len` elements needs.
    spec fn extra_for(len: usize) -> usize;

    /// The length that this header, with the overflow bytes `extra`, encodes.
    spec fn decoded(&self, extra: Seq<u8>) -> usize;

    /// Whether this header's policy lets a clone share the block.
    spec fn shares(&self) -> bool;

    /// Whether this header's policy treats a dropped handle as the last one.
    spec fn releases_last(&self) -> bool;

    /// The number of overflow bytes a run of `len` elements needs, or
    /// `TooLong` where the run cannot be encoded.
    fn extra_needed(len: usize) -> (r: Result<usize, TooLong>)
        ensures
            r is Ok <==> Self::can_encode(len),
            r matches Ok(e) ==> e == Self::extra_for(len),
    ;

    /// Encodes `len`, writing into `extra` what does not fit in the header.
    fn encode_len(len: usize, extra: &mut Vec<u8>) -> (h: Self)
        requires
            Self::can_encode(len),
            old(extra)@.len() == Self::extra_for(len),
        ensures
            final(extra)@.len() == old(extra)@.len(),
            h.decoded(final(extra)@) == len,
    ;

    /// Reads the length back from the header and its overflow bytes.
    fn decode_len(&self, extra: &Vec<u8>) -> (r: usize)
        ensures
            r == self.decoded(extra@),
    ;

    /// The sharing policy on a clone: `true` where the clone may share the
    /// block. Not called by [`OwnedSlice`](crate::OwnedSlice).
    fn inc(&self) -> (r: bool)
        ensures
            r == self.shares(),
    ;

    /// The policy on a drop: `true` where the dropped handle is the last
    /// one. Not called by [`OwnedSlice`](crate::OwnedSlice).
    fn dec(&self) -> (r: bool)
        ensures
            r == self.releases_last(),
    ;
}

/// The largest length that a [`BoxHeader`] encodes.
pub const BOX_HEADER_MAX: usize = 255;

/// A header of one byte for a block with a single owner: lengths up to 255,
/// no overflow bytes, no sharing.
#[derive(Debug)]
pub struct BoxHeader(u8);

impl BoxHeader {
    /// The length this header holds.
    pub closed spec fn len_spec(&self) -> usize {
        self.0 as usize
    }
}

impl Header for BoxHeader {
    open spec fn can_encode(len: usize) -> bool {
        len <= BOX_HEADER_MAX
    }

    open spec fn extra_for(len: usize) -> usize {
        0
    }

    open spec fn decoded(&self, extra: Seq<u8>) -> usize {
        self.len_spec()
    }

    open spec fn shares(&self) -> bool {
        false
    }

    open spec fn releases_last(&self) -> bool {
        true
    }

    fn extra_needed(len: usize) -> (r: Result<usize, TooLong>) {
        if len > BOX_HEADER_MAX {
            Err(TooLong)
        } else {
            Ok(0)
        }
    }

    fn encode_len(len: usize, extra: &mut Vec<u8>) -> (h: Self) {
        BoxHeader(len as u8)
    }

    fn decode_len(&self, extra: &Vec<u8>) -> (r: usize) {
        self.0 as usize
    }

    fn inc(&self) -> (r: bool) {
        false
    }

    fn dec(&self) -> (r: bool) {
        true
    }
}

} // verus!
