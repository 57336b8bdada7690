//! Data chunks: the byte buffers of the `bytes` crate that relayed data travels in.

use bytes::{Bytes, BytesMut};
use vstd::prelude::*;

verus! {

/// `bytes::Bytes`, a cheaply clonable immutable buffer.
#[verifier::external_type_specification]
#[verifier::external_body]
pub struct ExBytes(bytes::Bytes);

/// `bytes::BytesMut`, a growable buffer.
#[verifier::external_type_specification]
#[verifier::external_body]
pub struct ExBytesMut(bytes::BytesMut);

/// The bytes that a chunk holds.
pub uninterp spec fn chunk(b: Bytes) -> Seq<u8>;

/// The bytes that a growable buffer holds.
pub uninterp spec fn buffered(b: BytesMut) -> Seq<u8>;

/// `Bytes::new` makes a chunk that holds nothing.
pub assume_specification[ bytes::Bytes::new ]() -> (b: Bytes)
    ensures
        chunk(b) == Seq::<u8>::empty(),
;

/// `Bytes::len` is the number of bytes that the chunk holds.
pub assume_specification[ bytes::Bytes::len ](b: &Bytes) -> (n: usize)
    ensures
        n == chunk(*b).len(),
;

/// `Bytes::is_empty` says whether the chunk holds no byte.
pub assume_specification[ bytes::Bytes::is_empty ](b: &Bytes) -> (r: bool)
    ensures
        r == (chunk(*b).len() == 0),
;

/// `Bytes::copy_from_slice` makes a chunk that holds what the slice holds.
pub assume_specification[ bytes::Bytes::copy_from_slice ](data: &[u8]) -> (b: Bytes)
    ensures
        chunk(b) == data@,
;

/// `Bytes::as_ref` gives the bytes that the chunk holds.
#[verifier::external_body]
pub(crate) fn bytes_of(b: &Bytes) -> (r: &[u8])
    ensures
        r@ == chunk(*b),
{
    b.as_ref()
}

/// `BytesMut::freeze` turns a buffer into a chunk that holds the same bytes.
pub assume_specification[ bytes::BytesMut::freeze ](b: BytesMut) -> (c: Bytes)
    ensures
        chunk(c) == buffered(b),
;

} // verus!
