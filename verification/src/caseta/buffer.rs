//! The buffer that one read from the transport fills, and the text that its
//! bytes spell.

use bytes::BytesMut;
use vstd::prelude::*;
use vstd::utf8::{encode_utf8, valid_utf8};

verus! {

/// `bytes::BytesMut`, a growable buffer of bytes. Its inside is not visible
/// here; [`buffered`] names what it holds.
#[verifier::external_type_specification]
#[verifier::external_body]
pub struct ExBytesMut(bytes::BytesMut);

/// The bytes that a buffer holds, first byte first.
pub uninterp spec fn buffered(buffer: &BytesMut) -> Seq<u8>;

/// `BytesMut::with_capacity` returns a buffer that holds no bytes, whatever
/// capacity was asked for.
pub assume_specification[ BytesMut::with_capacity ](capacity: usize) -> (buffer: BytesMut)
    ensures
        buffered(&buffer) == Seq::<u8>::empty(),
;

/// `BytesMut::is_empty` tells whether the buffer holds no bytes.
pub assume_specification[ BytesMut::is_empty ](buffer: &BytesMut) -> (empty: bool)
    ensures
        empty == (buffered(buffer).len() == 0),
;

/// `BytesMut`'s `Deref::deref` gives the held bytes as a slice.
pub assume_specification<'a>[ <BytesMut as core::ops::Deref>::deref ](
    buffer: &'a BytesMut,
) -> (bytes: &'a [u8])
    ensures
        bytes@ == buffered(buffer),
;

/// `std::str::from_utf8`: the bytes as text, if they are valid UTF-8, and
/// nothing if they are not. The text is the given bytes themselves, so its
/// encoding is those bytes.
#[verifier::external_body]
pub(crate) fn utf8_text(bytes: &[u8]) -> (text: Option<&str>)
    ensures
        text is Some <==> valid_utf8(bytes@),
        text matches Some(text) ==> encode_utf8(text@) == bytes@,
{
    match std::str::from_utf8(bytes) {
        Ok(text) => Some(text),
        Err(_) => None,
    }
}

} // verus!
