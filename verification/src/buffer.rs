use vstd::prelude::*;
use bytes::Bytes;
use bytes::BytesMut;

verus! {

#[verifier::external_type_specification]
#[verifier::external_body]
pub struct ExBytes(Bytes);

#[verifier::external_type_specification]
#[verifier::external_body]
pub struct ExBytesMut(BytesMut);

/// The byte contents of a shared, reference-counted buffer.
pub uninterp spec fn bytes_data(b: Bytes) -> Seq<u8>;

/// The byte contents of an exclusively owned, mutable buffer.
pub uninterp spec fn bytes_mut_data(b: BytesMut) -> Seq<u8>;

/// Relies on `Bytes::len`: the number of bytes contained.
#[verifier::external_body]
pub(crate) fn bytes_len(b: &Bytes) -> (r: usize)
    ensures
        r == bytes_data(*b).len(),
{
    b.len()
}

/// Relies on `BytesMut::len`: the number of bytes contained.
#[verifier::external_body]
pub(crate) fn bytes_mut_len(b: &BytesMut) -> (r: usize)
    ensures
        r == bytes_mut_data(*b).len(),
{
    b.len()
}

/// Relies on `Bytes::as_ref`: a view of the contained bytes as a slice.
#[verifier::external_body]
pub(crate) fn bytes_as_slice(b: &Bytes) -> (r: &[u8])
    ensures
        r@ == bytes_data(*b),
{
    b.as_ref()
}

/// Relies on `BytesMut::as_ref`: a view of the contained bytes as a slice.
#[verifier::external_body]
pub(crate) fn bytes_mut_as_slice(b: &BytesMut) -> (r: &[u8])
    ensures
        r@ == bytes_mut_data(*b),
{
    b.as_ref()
}

/// Relies on `BytesMut::with_capacity`: the returned buffer contains no
/// data, and its storage is a heap allocation of at least the asked-for
/// capacity, never inline storage, so its address is stable.
#[verifier::external_body]
pub(crate) fn bytes_mut_with_capacity(capacity: usize) -> (r: BytesMut)
    ensures
        bytes_mut_data(r) == Seq::<u8>::empty(),
{
    BytesMut::with_capacity(capacity)
}

/// Relies on `BytesMut::extend_from_slice`: appends the given bytes.
#[verifier::external_body]
pub(crate) fn bytes_mut_extend_from_slice(b: &mut BytesMut, src: &[u8])
    ensures
        bytes_mut_data(*final(b)) == bytes_mut_data(*old(b)) + src@,
{
    b.extend_from_slice(src);
}

/// Relies on `BytesMut::freeze`: converts into a shared buffer with the
/// same contents, without moving the data.
#[verifier::external_body]
pub(crate) fn bytes_mut_freeze(b: BytesMut) -> (r: Bytes)
    ensures
        bytes_data(r) == bytes_mut_data(b),
{
    b.freeze()
}

/// How (or whether) a request owns the memory the kernel will touch while
/// the request is in flight.
#[derive(Debug)]
pub enum Buffer {
    /// No buffer to own: fsync-style requests, or requests over
    /// caller-managed raw memory.
    Empty,
    /// Immutable shared ownership of a reference-counted byte buffer.
    Bytes(Bytes),
    /// Mutable unique ownership of a byte buffer.
    BytesMut(BytesMut),
    /// A caller-held slice: nothing is owned here, and the caller must keep
    /// the memory alive and at a fixed address for the operation's duration.
    Phantom,
}

/// The abstract value of a `Buffer`: which kind it is, and the byte
/// contents of an owned buffer.
pub enum BufferView {
    Empty,
    Bytes(Seq<u8>),
    BytesMut(Seq<u8>),
    Phantom,
}

impl View for Buffer {
    type V = BufferView;

    open spec fn view(&self) -> BufferView {
        match self {
            Buffer::Empty => BufferView::Empty,
            Buffer::Bytes(b) => BufferView::Bytes(bytes_data(*b)),
            Buffer::BytesMut(b) => BufferView::BytesMut(bytes_mut_data(*b)),
            Buffer::Phantom => BufferView::Phantom,
        }
    }
}

impl Buffer {
    /// Return the inner shared buffer, if this owns one.
    pub fn bytes(&self) -> (r: Option<&Bytes>)
        ensures
            r is Some <==> self@ is Bytes,
            r is Some ==> self@ == BufferView::Bytes(bytes_data(*r->Some_0)),
    {
        match self {
            Buffer::Bytes(x) => Some(x),
            _ => None,
        }
    }

    /// Return the inner exclusively owned buffer, if this owns one.
    pub fn bytes_mut(&self) -> (r: Option<&BytesMut>)
        ensures
            r is Some <==> self@ is BytesMut,
            r is Some ==> self@ == BufferView::BytesMut(bytes_mut_data(*r->Some_0)),
    {
        match self {
            Buffer::BytesMut(x) => Some(x),
            _ => None,
        }
    }

    /// Does this own or refer to no memory at all?
    pub fn is_none(&self) -> (r: bool)
        ensures
            r == (self@ is Empty),
    {
        match self {
            Buffer::Empty => true,
            _ => false,
        }
    }
}

} // verus!
