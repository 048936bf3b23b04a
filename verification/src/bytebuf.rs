// The staging buffer behind the copy loop is a `bytes::BytesMut`.  Verus sees
// it through the spec function `buf_model` (the bytes it currently holds, in
// order) and the trusted wrappers below; everything proved about the copier
// rests on these contracts.

use vstd::prelude::*;
use bytes::BytesMut;

verus! {

/// Declares `bytes::BytesMut` to Verus as an opaque type; `buf_model` below
/// gives its contents a name the wrappers' contracts speak over.
#[verifier::external_type_specification]
#[verifier::external_body]
pub struct ExBytesMut(BytesMut);

/// The bytes currently held by a `bytes::BytesMut`, oldest first.
pub uninterp spec fn buf_model(b: BytesMut) -> Seq<u8>;

/// Relies on bytes::BytesMut::with_capacity: the new buffer holds no bytes.
#[verifier::external_body]
pub(crate) fn buf_with_capacity(cap: usize) -> (r: BytesMut)
    ensures
        buf_model(r) == Seq::<u8>::empty(),
{
    BytesMut::with_capacity(cap)
}

/// Relies on bytes::BytesMut::extend_from_slice: appends the slice's bytes
/// after the bytes already held, in order.
#[verifier::external_body]
pub(crate) fn buf_extend(b: &mut BytesMut, chunk: &[u8])
    ensures
        buf_model(*final(b)) == buf_model(*old(b)) + chunk@,
{
    b.extend_from_slice(chunk);
}

/// Relies on bytes::BytesMut::clear: removes every byte held.
#[verifier::external_body]
pub(crate) fn buf_clear(b: &mut BytesMut)
    ensures
        buf_model(*final(b)) == Seq::<u8>::empty(),
{
    b.clear();
}

/// Relies on bytes::BytesMut's deref to `[u8]` and slice::to_vec: returns a
/// copy of the bytes held, in order, leaving the buffer as it was.
#[verifier::external_body]
pub(crate) fn buf_contents(b: &BytesMut) -> (r: Vec<u8>)
    ensures
        r@ == buf_model(*b),
{
    b.as_ref().to_vec()
}

} // verus!
