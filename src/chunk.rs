//! Bounded byte chunks, the unit that moves through a channel.
use vstd::prelude::*;

verus! {

/// The largest number of bytes any chunk can hold.
pub const CHUNK_CAPACITY: usize = 64;

/// The bytes held by a fixed-capacity `heapless` vector.
pub uninterp spec fn stored_bytes(v: heapless::Vec<u8, 64>) -> Seq<u8>;

#[verifier::external_type_specification]
#[verifier::external_body]
#[verifier::reject_recursive_types(T)]
pub struct ExHeaplessVec<T, const N: usize>(heapless::Vec<T, N>);

/// `heapless::Vec`'s `Clone`, which chunks derive so that a channel can hold
/// them; nothing is claimed of the copy.
pub assume_specification<T, const N: usize>[ <heapless::Vec<T, N> as core::clone::Clone>::clone ](
    v: &heapless::Vec<T, N>,
) -> heapless::Vec<T, N>
    where
        T: core::clone::Clone,
;

/// Relies on `heapless::Vec::from_slice`: it copies the slice when it fits
/// the capacity and fails otherwise.
#[verifier::external_body]
fn bounded_from_slice(s: &[u8]) -> (r: Result<heapless::Vec<u8, 64>, ()>)
    ensures
        r is Ok <==> s@.len() <= CHUNK_CAPACITY,
        r matches Ok(v) ==> stored_bytes(v) == s@,
{
    heapless::Vec::from_slice(s)
}

/// Relies on `heapless::Vec::as_slice`: the stored elements, never more
/// than the capacity.
#[verifier::external_body]
fn bounded_as_slice(v: &heapless::Vec<u8, 64>) -> (r: &[u8])
    ensures
        r@ == stored_bytes(*v),
        r@.len() <= CHUNK_CAPACITY,
{
    v.as_slice()
}

/// An immutable run of at most `CHUNK_CAPACITY` bytes.
#[derive(Clone)]
pub struct Chunk {
    data: heapless::Vec<u8, 64>,
}

impl View for Chunk {
    type V = Seq<u8>;

    closed spec fn view(&self) -> Seq<u8> {
        stored_bytes(self.data)
    }
}

impl Chunk {
    /// Copies `bytes` into a new chunk, or returns `None` when they do not fit.
    pub fn from_bytes(bytes: &[u8]) -> (r: Option<Chunk>)
        ensures
            r is Some <==> bytes@.len() <= CHUNK_CAPACITY,
            r matches Some(c) ==> c@ == bytes@,
    {
        match bounded_from_slice(bytes) {
            Ok(data) => Some(Chunk { data }),
            Err(_) => None,
        }
    }

    /// The bytes of the chunk.
    pub fn as_bytes(&self) -> (r: &[u8])
        ensures
            r@ == self@,
            r@.len() <= CHUNK_CAPACITY,
    {
        bounded_as_slice(&self.data)
    }

    /// A second chunk holding the same bytes.
    pub fn copy(&self) -> (r: Chunk)
        ensures
            r@ == self@,
    {
        Chunk::from_bytes(self.as_bytes()).unwrap()
    }

    /// The number of bytes in the chunk.
    pub fn len(&self) -> (r: usize)
        ensures
            r == self@.len(),
            r <= CHUNK_CAPACITY,
    {
        self.as_bytes().len()
    }
}

} // verus!
