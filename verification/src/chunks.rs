use vstd::prelude::*;
use vstd::arithmetic::div_mod::lemma_basic_div;
use vstd::arithmetic::div_mod::lemma_div_plus_one;

verus! {

/// Capacity of one staging buffer, terminator byte included.
pub open spec fn staging_capacity() -> nat {
    64
}

/// Payload bytes that fit in one chunk beside the terminator.
pub open spec fn payload_max() -> nat {
    (staging_capacity() - 1) as nat
}

/// The in-order partition of `text` into payloads of at most `bound`
/// bytes each: no gaps, no overlaps, the last payload possibly shorter
/// than the rest, and no payload empty.
pub open spec fn payloads_bounded(text: Seq<u8>, bound: nat) -> Seq<Seq<u8>>
    decreases text.len(),
    when bound >= 1
{
    if text.len() == 0 {
        Seq::empty()
    } else if text.len() <= bound {
        seq![text]
    } else {
        seq![text.take(bound as int)] + payloads_bounded(text.skip(bound as int), bound)
    }
}

/// The partition the writer transmits: payloads of at most
/// `payload_max()` bytes.
pub open spec fn payloads(text: Seq<u8>) -> Seq<Seq<u8>> {
    payloads_bounded(text, payload_max())
}

/// A payload framed for the host sink: the payload bytes followed by
/// exactly one terminator byte.
pub open spec fn frame(payload: Seq<u8>) -> Seq<u8> {
    payload.push(0)
}

/// The framed chunks that transmitting `text` hands to the sink, in order.
pub open spec fn frames(text: Seq<u8>) -> Seq<Seq<u8>> {
    payloads(text).map_values(|p: Seq<u8>| frame(p))
}

/// The line terminator transmitted after each full line.
pub open spec fn newline() -> Seq<u8> {
    seq![10u8]
}

/// An input of length `len` carved into payloads of at most `bound`
/// bytes yields exactly this many chunks: `len / bound`, rounded up.
pub open spec fn chunk_count_bounded(len: nat, bound: nat) -> nat {
    ((len + bound - 1) / bound as int) as nat
}

/// How many chunks the writer transmits for an input of length `len`.
pub open spec fn chunk_count(len: nat) -> nat {
    chunk_count_bounded(len, payload_max())
}

/// Law: for every payload bound of at least one byte — in particular for
/// every staging capacity greater than one — partitioning an input of
/// length `len` produces exactly `ceil(len / bound)` chunks, none when
/// the input is empty; every payload holds between 1 and `bound` bytes;
/// and the payloads concatenated in order rebuild the input exactly, so
/// no byte is skipped, duplicated or reordered across chunk boundaries.
pub proof fn lemma_partition_bounded(text: Seq<u8>, bound: nat)
    requires
        bound >= 1,
    ensures
        payloads_bounded(text, bound).len() == chunk_count_bounded(text.len(), bound),
        forall|i: int|
            0 <= i < payloads_bounded(text, bound).len() ==> 1 <= (#[trigger] payloads_bounded(
                text,
                bound,
            )[i]).len() <= bound,
        payloads_bounded(text, bound).flatten() == text,
    decreases text.len(),
{
    if text.len() == 0 {
        lemma_basic_div(bound - 1, bound as int);
        assert(payloads_bounded(text, bound).flatten() =~= text);
    } else if text.len() <= bound {
        lemma_basic_div(text.len() - 1, bound as int);
        lemma_div_plus_one(text.len() - 1, bound as int);
        payloads_bounded(text, bound).lemma_flatten_one_element();
        assert(payloads_bounded(text, bound).flatten() =~= text);
    } else {
        let head = text.take(bound as int);
        let tail = text.skip(bound as int);
        lemma_partition_bounded(tail, bound);
        lemma_div_plus_one(text.len() - 1, bound as int);
        let ps = payloads_bounded(text, bound);
        assert(ps.drop_first() =~= payloads_bounded(tail, bound));
        assert(ps.flatten() == head + payloads_bounded(tail, bound).flatten());
        assert(ps.flatten() =~= text);
    }
}

/// Law: the partition the writer transmits obeys
/// [`lemma_partition_bounded`] at its own bound of `payload_max()` bytes.
pub proof fn lemma_write_partition(text: Seq<u8>)
    ensures
        payloads(text).len() == chunk_count(text.len()),
        forall|i: int|
            0 <= i < payloads(text).len() ==> 1 <= (#[trigger] payloads(text)[i]).len()
                <= payload_max(),
        payloads(text).flatten() == text,
{
    lemma_partition_bounded(text, payload_max());
}

/// Law: every framed chunk carries its terminator byte at the position
/// right after its payload — the chunk is exactly the payload, then one
/// zero byte, and nothing beyond it.
pub proof fn lemma_chunk_terminated(text: Seq<u8>, i: int)
    requires
        0 <= i < frames(text).len(),
    ensures
        frames(text)[i].len() == payloads(text)[i].len() + 1,
        frames(text)[i].last() == 0u8,
        frames(text)[i].drop_last() == payloads(text)[i],
{
    let p = payloads(text)[i];
    assert(frames(text)[i] == frame(p));
    assert(frame(p).drop_last() =~= p);
}

} // verus!
