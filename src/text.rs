//! UTF-8 text held in an owned slice of bytes.

use vstd::prelude::*;
use vstd::string::StringSliceAdditionalSpecFns;
use vstd::utf8::{decode_utf8, encode_utf8, valid_utf8};

use crate::header::{BoxHeader, Header, TooLong};
use crate::slice::OwnedSlice;

verus! {

broadcast use vstd::utf8::encode_utf8_valid_utf8, vstd::utf8::encode_utf8_decode_utf8,
    vstd::utf8::decode_utf8_encode_utf8;

/// Relies on std::str::from_utf8: bytes that are valid UTF-8 are returned
/// as a `str` over those same bytes.
#[verifier::external_body]
fn utf8_text(bytes: &[u8]) -> (r: &str)
    requires
        valid_utf8(bytes@),
    ensures
        r.spec_bytes() == bytes@,
{
    std::str::from_utf8(bytes).unwrap()
}

/// Text whose bytes, held in an owned slice, are always valid UTF-8.
#[derive(Debug)]
pub struct Str<H: Header = BoxHeader>(OwnedSlice<u8, H>);

impl<H: Header> View for Str<H> {
    type V = Seq<char>;

    closed spec fn view(&self) -> Seq<char> {
        decode_utf8(self.0@)
    }
}

impl<H: Header> Str<H> {
    #[verifier::type_invariant]
    spec fn inv(&self) -> bool {
        valid_utf8(self.0@)
    }

    /// The UTF-8 bytes of this text.
    pub closed spec fn bytes(&self) -> Seq<u8> {
        self.0@
    }

    /// A copy of `s`, or `TooLong` where the header cannot encode the length
    /// of its UTF-8 bytes.
    pub fn new(s: &str) -> (r: Result<Self, TooLong>)
        ensures
            r is Ok <==> OwnedSlice::<u8, H>::holds(s.spec_bytes().len() as usize),
            r matches Ok(t) ==> t@ == s@ && t.bytes() == s.spec_bytes(),
    {
        let bytes = s.as_bytes();
        match OwnedSlice::new(bytes) {
            Ok(o) => {
                proof {
                    assert(o@ =~= bytes@);
                }
                Ok(Str(o))
            },
            Err(e) => Err(e),
        }
    }

    /// The text, as a `str`.
    pub fn as_str(&self) -> (r: &str)
        ensures
            r@ == self@,
            r.spec_bytes() == self.bytes(),
    {
        proof {
            use_type_invariant(self);
        }
        utf8_text(self.0.as_slice())
    }

    /// The text, as an owned `String`.
    pub fn to_string(&self) -> (r: String)
        ensures
            r@ == self@,
    {
        self.as_str().to_owned()
    }
}

impl Str<BoxHeader> {
    /// Replaces the byte at `i`. Only text whose header never shares its
    /// block may change, and the bytes must stay valid UTF-8.
    pub fn set_byte(&mut self, i: usize, b: u8)
        requires
            i < old(self).bytes().len(),
            valid_utf8(old(self).bytes().update(i as int, b)),
        ensures
            final(self).bytes() == old(self).bytes().update(i as int, b),
            final(self)@ == decode_utf8(old(self).bytes().update(i as int, b)),
    {
        let mut taken = Self::default();
        core::mem::swap(self, &mut taken);
        let Str(mut bytes) = taken;
        bytes.set(i, b);
        *self = Str(bytes);
    }
}

impl<H: Header> Default for Str<H> {
    fn default() -> (r: Self)
        ensures
            r@.len() == 0,
    {
        let r = Str(OwnedSlice::sentinel());
        proof {
            assert(r.0@ =~= encode_utf8(Seq::empty()));
        }
        r
    }
}

impl<H: Header> Clone for Str<H> {
    fn clone(&self) -> (r: Self)
        ensures
            r@ == self@,
    {
        proof {
            use_type_invariant(self);
        }
        let bytes = self.0.clone();
        proof {
            assert(bytes@ =~= self.0@);
        }
        Str(bytes)
    }
}

impl<H: Header> core::ops::Deref for Str<H> {
    type Target = str;

    fn deref(&self) -> (r: &str)
        ensures
            r@ == self@,
    {
        self.as_str()
    }
}

} // verus!
