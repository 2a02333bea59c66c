//! The in-memory buffer of the buffered forwarder, held in a `bytes::BytesMut`
//! and handed on as a frozen `bytes::Bytes`.
use vstd::prelude::*;
use bytes::{Bytes, BytesMut};

verus! {

#[verifier::external_type_specification]
#[verifier::external_body]
pub struct ExBytesMut(BytesMut);

#[verifier::external_type_specification]
#[verifier::external_body]
pub struct ExBytes(Bytes);

/// The bytes that a `BytesMut` holds, in order.
pub uninterp spec fn bytes_mut_contents(b: BytesMut) -> Seq<u8>;

/// The bytes that a `Bytes` holds, in order.
pub uninterp spec fn bytes_contents(b: Bytes) -> Seq<u8>;

/// Size of the dictionary upload that the buffer is sized for.
pub const DICTIONARY_BYTES: usize = 2493109;

/// Initial capacity of a buffered body: room for twenty dictionaries. It is a
/// hint against reallocation, not a limit.
pub const INITIAL_CAPACITY: usize = DICTIONARY_BYTES * 20;

/// Largest number of bytes a buffer may hold (the allocator's limit).
pub const MAX_BUFFERED: usize = usize::MAX / 2;

/// Relies on `BytesMut::with_capacity`: an empty buffer; the capacity is only
/// reserved (the underlying `Vec::with_capacity` panics above `isize::MAX`).
#[verifier::external_body]
fn bytes_mut_with_capacity(capacity: usize) -> (r: BytesMut)
    requires
        capacity <= MAX_BUFFERED,
    ensures
        bytes_mut_contents(r) == Seq::<u8>::empty(),
{
    BytesMut::with_capacity(capacity)
}

/// Relies on `BytesMut::extend_from_slice`: appends the slice at the end and
/// grows the allocation when needed (it panics only when the new capacity
/// overflows).
#[verifier::external_body]
fn bytes_mut_extend(b: &mut BytesMut, s: &[u8])
    requires
        bytes_mut_contents(*old(b)).len() + s@.len() <= MAX_BUFFERED,
    ensures
        bytes_mut_contents(*final(b)) == bytes_mut_contents(*old(b)) + s@,
{
    b.extend_from_slice(s)
}

/// Relies on `BytesMut::len`: the number of bytes held.
#[verifier::external_body]
fn bytes_mut_len(b: &BytesMut) -> (r: usize)
    ensures
        r == bytes_mut_contents(*b).len(),
{
    b.len()
}

/// Relies on `BytesMut::freeze`: the same bytes, made immutable.
#[verifier::external_body]
fn bytes_mut_freeze(b: BytesMut) -> (r: Bytes)
    ensures
        bytes_contents(r) == bytes_mut_contents(b),
{
    b.freeze()
}

/// A body assembled in memory: the payloads appended so far, joined with no
/// separator.
pub struct BufferedBody {
    buf: BytesMut,
}

impl View for BufferedBody {
    type V = Seq<u8>;

    closed spec fn view(&self) -> Seq<u8> {
        bytes_mut_contents(self.buf)
    }
}

impl BufferedBody {
    /// An empty body with the generous initial capacity.
    pub fn new() -> (r: BufferedBody)
        ensures
            r@ == Seq::<u8>::empty(),
    {
        BufferedBody { buf: bytes_mut_with_capacity(INITIAL_CAPACITY) }
    }

    /// An empty body with the given initial capacity; appending past it
    /// reallocates.
    pub fn with_capacity(capacity: usize) -> (r: BufferedBody)
        requires
            capacity <= MAX_BUFFERED,
        ensures
            r@ == Seq::<u8>::empty(),
    {
        BufferedBody { buf: bytes_mut_with_capacity(capacity) }
    }

    /// Number of bytes held.
    pub fn len(&self) -> (r: usize)
        ensures
            r == self@.len(),
    {
        bytes_mut_len(&self.buf)
    }

    /// Whether `extra` more bytes can still be appended.
    pub fn can_take(&self, extra: usize) -> (r: bool)
        ensures
            r == (self@.len() + extra <= MAX_BUFFERED),
    {
        let n = self.len();
        n <= MAX_BUFFERED && extra <= MAX_BUFFERED - n
    }

    /// Appends a payload at the end, whatever the capacity reserved so far.
    pub fn append(&mut self, payload: &[u8])
        requires
            old(self)@.len() + payload@.len() <= MAX_BUFFERED,
        ensures
            final(self)@ == old(self)@ + payload@,
    {
        bytes_mut_extend(&mut self.buf, payload);
    }

    /// The assembled body, ready to be sent.
    pub fn freeze(self) -> (r: Bytes)
        ensures
            bytes_contents(r) == self@,
    {
        bytes_mut_freeze(self.buf)
    }
}

} // verus!
