//! The owned slice: one handle to a block that holds a header, the header's
//! overflow bytes and a run of elements.

use vstd::prelude::*;
use vstd::layout::{align_of, size_of};

use crate::header::{BoxHeader, Header, TooLong, BOX_HEADER_MAX};
use crate::layout::{fits, padded, Layout};

verus! {

broadcast use vstd::layout::layout_of_primitives, vstd::layout::align_of_u8;

/// A run of elements owned through one handle.
///
/// A non-empty run lives in a block made of a header `H`, the overflow bytes
/// that the header asked for, and the elements. Its length is read back from
/// the header. An empty run has no block at all: the handle is then the
/// sentinel, which every operation recognises before it looks for a header.
#[derive(Debug)]
pub struct OwnedSlice<T, H: Header = BoxHeader> {
    head: Option<H>,
    extra: Vec<u8>,
    items: Vec<T>,
}

impl<T, H: Header> View for OwnedSlice<T, H> {
    type V = Seq<T>;

    closed spec fn view(&self) -> Seq<T> {
        self.items@
    }
}

impl<T, H: Header> OwnedSlice<T, H> {
    /// Where the block of a run of `len` elements places its parts: the
    /// whole layout, the offset of the overflow bytes and the offset of the
    /// elements. The overflow bytes follow the header directly; the elements
    /// start at the next multiple of their alignment; the block takes the
    /// larger of the two alignments. `None` where the header cannot encode
    /// `len`, or where the header with its overflow bytes, the elements or
    /// the whole block would not fit the address space.
    pub open spec fn block_spec(len: usize) -> Option<(Layout, usize, usize)> {
        let head_size = size_of::<H>() + H::extra_for(len);
        let data_size = size_of::<T>() * len;
        let data_off = padded(head_size, align_of::<T>() as int);
        let align = if align_of::<H>() >= align_of::<T>() {
            align_of::<H>()
        } else {
            align_of::<T>()
        };
        if H::can_encode(len) && fits(head_size, align_of::<H>() as int) && fits(
            data_size,
            align_of::<T>() as int,
        ) && fits(data_off + data_size, align as int) {
            Some(
                (
                    Layout { size: (data_off + data_size) as usize, align: align as usize },
                    size_of::<H>() as usize,
                    data_off as usize,
                ),
            )
        } else {
            None
        }
    }

    /// Whether a run of `len` elements can be held: it is empty, or the
    /// header can encode its length.
    pub open spec fn holds(len: usize) -> bool {
        len == 0 || H::can_encode(len)
    }

    #[verifier::type_invariant]
    spec fn inv(&self) -> bool {
        match self.head {
            None => self.items@.len() == 0 && self.extra@.len() == 0,
            Some(h) => {
                let len = self.items@.len() as usize;
                &&& self.items@.len() > 0
                &&& H::can_encode(len)
                &&& self.extra@.len() == H::extra_for(len)
                &&& h.decoded(self.extra@) as int == self.items@.len()
            },
        }
    }

    /// The sentinel: a handle with no block.
    pub fn sentinel() -> (r: Self)
        ensures
            r@.len() == 0,
    {
        OwnedSlice { head: None, extra: Vec::new(), items: Vec::new() }
    }

    /// Whether this handle is the sentinel, which is so exactly for an empty run.
    pub fn is_sentinel(&self) -> (r: bool)
        ensures
            r == (self@.len() == 0),
    {
        proof {
            use_type_invariant(self);
        }
        self.head.is_none()
    }

    /// The number of elements, read from the header.
    pub fn len(&self) -> (r: usize)
        ensures
            r == self@.len(),
            r == 0 || H::can_encode(r),
    {
        proof {
            use_type_invariant(self);
        }
        match &self.head {
            None => 0,
            Some(h) => h.decode_len(&self.extra),
        }
    }

    /// The offset of the overflow bytes: they follow the header directly.
    pub fn len_offset() -> (r: usize)
        ensures
            r as nat == size_of::<H>(),
    {
        let head = Layout::of::<H>();
        let bytes = Layout { size: 0, align: 1 };
        proof {
            assert(bytes.valid()) by {
                vstd::arithmetic::power2::lemma2_to64();
            }
        }
        match head.extend(bytes) {
            Some((_, off)) => off,
            None => {
                proof {
                    assert(head.size % 1 == 0);
                }
                head.size
            },
        }
    }

    /// The layout of the block for a run of `len` elements, with the offsets
    /// of the overflow bytes and of the elements, or `TooLong` where the
    /// header cannot encode `len`. A run whose block would not fit the address
    /// space is left out.
    pub fn layout_and_offsets(len: usize) -> (r: Result<(Layout, usize, usize), TooLong>)
        requires
            H::can_encode(len) ==> Self::block_spec(len) is Some,
        ensures
            r is Err <==> !H::can_encode(len),
            r matches Ok(parts) ==> Self::block_spec(len) == Some(parts),
    {
        vstd::layout::layout_for_type_is_valid::<T>();
        vstd::layout::layout_for_type_is_valid::<H>();
        let extra = match H::extra_needed(len) {
            Ok(e) => e,
            Err(e) => return Err(e),
        };
        let extra_layout = match Layout::array::<u8>(extra) {
            Some(l) => l,
            None => return Err(TooLong),
        };
        let (head, len_off) = match Layout::of::<H>().extend(extra_layout) {
            Some(p) => p,
            None => return Err(TooLong),
        };
        let data = match Layout::array::<T>(len) {
            Some(l) => l,
            None => return Err(TooLong),
        };
        match head.extend(data) {
            Some((whole, data_off)) => Ok((whole, len_off, data_off)),
            None => Err(TooLong),
        }
    }

    /// The layout of the block for a run of `len` elements.
    pub fn layout(len: usize) -> (r: Layout)
        requires
            Self::block_spec(len) is Some,
        ensures
            r == Self::block_spec(len)->Some_0.0,
    {
        match Self::layout_and_offsets(len) {
            Ok((whole, _, _)) => whole,
            Err(_) => Layout { size: 0, align: 1 },
        }
    }

    /// The offset of the elements in the block for a run of `len` elements.
    pub fn data_offset(len: usize) -> (r: usize)
        requires
            Self::block_spec(len) is Some,
        ensures
            r == Self::block_spec(len)->Some_0.2,
    {
        match Self::layout_and_offsets(len) {
            Ok((_, _, data_off)) => data_off,
            Err(_) => 0,
        }
    }

    /// A handle to a copy of `src`: the sentinel where `src` is empty, else a
    /// new block holding a clone of each element in order. `TooLong` where
    /// the header cannot encode the length.
    pub fn new(src: &[T]) -> (r: Result<Self, TooLong>)
        where
            T: Clone,
        ensures
            r is Ok <==> Self::holds(src@.len() as usize),
            r matches Ok(s) ==> {
                &&& s@.len() == src@.len()
                &&& forall|i: int| 0 <= i < src@.len() ==> cloned::<T>(src@[i], #[trigger] s@[i])
            },
    {
        if src.len() == 0 {
            return Ok(Self::sentinel());
        }
        let len = src.len();
        let extra_len = match H::extra_needed(len) {
            Ok(e) => e,
            Err(e) => return Err(e),
        };
        let mut extra: Vec<u8> = vec![0u8; extra_len];
        let head = H::encode_len(len, &mut extra);
        let mut items: Vec<T> = Vec::new();
        items.extend_from_slice(src);
        Ok(OwnedSlice { head: Some(head), extra, items })
    }

    /// The elements, as a slice.
    pub fn as_slice(&self) -> (r: &[T])
        ensures
            r@ == self@,
    {
        self.items.as_slice()
    }
}

/// Any two empty handles, whether made from an empty run or by `default`,
/// view the same (empty) run.
pub proof fn lemma_empty_handles_agree<T, H: Header>(a: OwnedSlice<T, H>, b: OwnedSlice<T, H>)
    requires
        a@.len() == 0,
        b@.len() == 0,
    ensures
        a@ == b@,
{
    assert(a@ =~= b@);
}

/// No run longer than the one-byte header's capacity can be held with it,
/// whatever the element type.
pub proof fn lemma_box_header_rejects_long<T>(len: usize)
    requires
        len > BOX_HEADER_MAX,
    ensures
        !OwnedSlice::<T, BoxHeader>::holds(len),
{
}

/// Every run of at most the one-byte header's capacity is held with it,
/// whatever the element type.
pub proof fn lemma_box_header_holds_short<T>(len: usize)
    requires
        len <= BOX_HEADER_MAX,
    ensures
        OwnedSlice::<T, BoxHeader>::holds(len),
{
}

impl<T> OwnedSlice<T, BoxHeader> {
    /// Replaces the element at `i`. Only a handle whose header never shares
    /// its block may change it.
    pub fn set(&mut self, i: usize, value: T)
        requires
            i < old(self)@.len(),
        ensures
            final(self)@ == old(self)@.update(i as int, value),
    {
        proof {
            use_type_invariant(&*self);
        }
        let mut taken = Self::sentinel();
        core::mem::swap(self, &mut taken);
        proof {
            use_type_invariant(&taken);
        }
        let OwnedSlice { head, extra, mut items } = taken;
        items.set(i, value);
        *self = OwnedSlice { head, extra, items };
    }
}

impl<T, H: Header> Default for OwnedSlice<T, H> {
    fn default() -> (r: Self)
        ensures
            r@.len() == 0,
    {
        Self::sentinel()
    }
}

impl<T: Clone, H: Header> Clone for OwnedSlice<T, H> {
    /// An independent copy: the sentinel for the sentinel, else a new block
    /// with a clone of each element. Blocks are held by value here, so a
    /// clone never shares one, whatever the header would allow.
    fn clone(&self) -> (r: Self)
        ensures
            r@.len() == self@.len(),
            forall|i: int| 0 <= i < self@.len() ==> cloned::<T>(self@[i], #[trigger] r@[i]),
    {
        proof {
            use_type_invariant(self);
        }
        if self.is_sentinel() {
            return Self::sentinel();
        }
        match Self::new(self.items.as_slice()) {
            Ok(s) => s,
            Err(_) => Self::sentinel(),
        }
    }
}

impl<T, H: Header> core::ops::Deref for OwnedSlice<T, H> {
    type Target = [T];

    fn deref(&self) -> (r: &[T])
        ensures
            r@ == self@,
    {
        self.as_slice()
    }
}

} // verus!
