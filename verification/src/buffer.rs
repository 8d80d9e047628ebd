//! Shared byte buffers.
//!
//! Packets carry their data in `bytes::Bytes` and containers are assembled in
//! `bytes::BytesMut`. Both are outside types: the contracts below are what the
//! library believes of them.
use crate::bits::be32_bytes;
use bytes::{BufMut, Bytes, BytesMut};
use vstd::prelude::*;

verus! {

/// `bytes::Bytes`, an immutable reference-counted byte buffer.
#[verifier::external_type_specification]
#[verifier::external_body]
pub struct ExBytes(bytes::Bytes);

/// `bytes::BytesMut`, a growable byte buffer.
#[verifier::external_type_specification]
#[verifier::external_body]
pub struct ExBytesMut(bytes::BytesMut);

/// The bytes a `Bytes` holds, first to last.
pub uninterp spec fn bytes_of(b: bytes::Bytes) -> Seq<u8>;

/// The bytes a `BytesMut` holds, first to last.
pub uninterp spec fn bytes_mut_of(b: bytes::BytesMut) -> Seq<u8>;

/// `Bytes::new` holds no bytes.
pub assume_specification[ bytes::Bytes::new ]() -> (r: bytes::Bytes)
    ensures
        bytes_of(r) == Seq::<u8>::empty(),
;

/// `Bytes::len` is the number of bytes held.
pub assume_specification[ bytes::Bytes::len ](b: &bytes::Bytes) -> (r: usize)
    ensures
        r == bytes_of(*b).len(),
;

/// `Bytes::is_empty` says whether no bytes are held.
pub assume_specification[ bytes::Bytes::is_empty ](b: &bytes::Bytes) -> (r: bool)
    ensures
        r == (bytes_of(*b).len() == 0),
;

/// `Bytes::copy_from_slice` holds a copy of the slice.
pub assume_specification[ bytes::Bytes::copy_from_slice ](data: &[u8]) -> (r: bytes::Bytes)
    ensures
        bytes_of(r) == data@,
;

/// `BytesMut::new` holds no bytes.
pub assume_specification[ bytes::BytesMut::new ]() -> (r: bytes::BytesMut)
    ensures
        bytes_mut_of(r) == Seq::<u8>::empty(),
;

/// `BytesMut::freeze` keeps the bytes.
pub assume_specification[ bytes::BytesMut::freeze ](b: bytes::BytesMut) -> (r: bytes::Bytes)
    ensures
        bytes_of(r) == bytes_mut_of(b),
;

/// `BytesMut::extend_from_slice` appends the slice. The buffer grows by
/// reallocation and panics beyond the largest allocation.
pub assume_specification[ bytes::BytesMut::extend_from_slice ](
    b: &mut bytes::BytesMut,
    extend: &[u8],
)
    requires
        bytes_mut_of(*old(b)).len() + extend@.len() <= isize::MAX,
    ensures
        bytes_mut_of(*final(b)) == bytes_mut_of(*old(b)) + extend@,
;

/// `<BytesMut as BufMut>::put_u8` appends one byte.
#[verifier::external_body]
pub(crate) fn put_u8(b: &mut BytesMut, n: u8)
    requires
        bytes_mut_of(*old(b)).len() < isize::MAX,
    ensures
        bytes_mut_of(*final(b)) == bytes_mut_of(*old(b)).push(n),
{
    b.put_u8(n)
}

/// `<BytesMut as BufMut>::put_u32` appends the four big-endian bytes.
#[verifier::external_body]
pub(crate) fn put_u32(b: &mut BytesMut, n: u32)
    requires
        bytes_mut_of(*old(b)).len() + 4 <= isize::MAX,
    ensures
        bytes_mut_of(*final(b)) == bytes_mut_of(*old(b)) + be32_bytes(n),
{
    b.put_u32(n)
}

/// `<Bytes as From<Vec<u8>>>::from` keeps the bytes of the vector.
#[verifier::external_body]
pub(crate) fn bytes_from_vec(v: Vec<u8>) -> (r: Bytes)
    ensures
        bytes_of(r) == v@,
{
    Bytes::from(v)
}

/// `<Bytes as Deref>::deref` borrows the bytes held.
#[verifier::external_body]
pub(crate) fn bytes_as_slice(b: &Bytes) -> (r: &[u8])
    ensures
        r@ == bytes_of(*b),
{
    b
}

/// `<Bytes as Clone>::clone` shares the buffer: the clone holds the same bytes.
pub assume_specification[ <bytes::Bytes as Clone>::clone ](b: &bytes::Bytes) -> (r: bytes::Bytes)
    ensures
        bytes_of(r) == bytes_of(*b),
;

/// The bytes of an optional buffer.
pub open spec fn opt_bytes(b: Option<Bytes>) -> Option<Seq<u8>> {
    match b {
        Some(x) => Some(bytes_of(x)),
        None => None,
    }
}

/// Clones an optional buffer.
pub(crate) fn clone_opt_bytes(b: &Option<Bytes>) -> (r: Option<Bytes>)
    ensures
        opt_bytes(r) == opt_bytes(*b),
{
    match b {
        Some(x) => Some(x.clone()),
        None => None,
    }
}

} // verus!
