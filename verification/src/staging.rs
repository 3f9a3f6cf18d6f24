use vstd::prelude::*;

verus! {

/// heapless's fixed-capacity vector. One `heapless::Vec<u8, 64>` serves as
/// the staging buffer in which a chunk is assembled before it is handed to
/// the host sink.
#[verifier::external_type_specification]
#[verifier::external_body]
#[verifier::reject_recursive_types(T)]
pub struct ExHeaplessVec<T, const N: usize>(heapless::Vec<T, N>);

/// The bytes a staging buffer holds, in order.
pub uninterp spec fn staging_bytes(v: heapless::Vec<u8, 64>) -> Seq<u8>;

/// Relies on heapless::Vec::new: a freshly constructed vector holds no
/// elements.
#[verifier::external_body]
pub(crate) fn staging_new() -> (v: heapless::Vec<u8, 64>)
    ensures
        staging_bytes(v) == Seq::<u8>::empty(),
{
    heapless::Vec::new()
}

/// Relies on heapless::Vec::clear: removes every element, so the previous
/// chunk's bytes are gone before the next chunk is staged.
#[verifier::external_body]
pub(crate) fn staging_clear(v: &mut heapless::Vec<u8, 64>)
    ensures
        staging_bytes(*final(v)) == Seq::<u8>::empty(),
{
    v.clear()
}

/// Relies on heapless::Vec::push: appends the element at the back and
/// returns `Ok` whenever the vector is below its capacity of 64.
#[verifier::external_body]
pub(crate) fn staging_push(v: &mut heapless::Vec<u8, 64>, b: u8)
    requires
        staging_bytes(*old(v)).len() < 64,
    ensures
        staging_bytes(*final(v)) == staging_bytes(*old(v)).push(b),
{
    let _ = v.push(b);
}

/// Relies on heapless::Vec::as_slice: a view of the stored elements in
/// order, which is then copied out.
#[verifier::external_body]
pub(crate) fn staging_to_vec(v: &heapless::Vec<u8, 64>) -> (r: Vec<u8>)
    ensures
        r@ == staging_bytes(*v),
{
    v.as_slice().to_vec()
}

} // verus!
