use vstd::prelude::*;

use crate::chunks::frame;
use crate::chunks::frames;
use crate::chunks::newline;
use crate::chunks::payloads;
use crate::staging::staging_bytes;
use crate::staging::staging_clear;
use crate::staging::staging_new;
use crate::staging::staging_push;
use crate::staging::staging_to_vec;

verus! {

/// The console writer. It carves a text of any length into payloads of at
/// most `payload_max()` bytes, stages each payload with a terminator byte
/// in a fixed-capacity buffer, and hands the framed chunks to the host's
/// byte sink strictly in stream order.
///
/// The chunks handed over so far are recorded in transmission order, so
/// contracts and callers can speak of exactly what reached the sink; the
/// host-facing layer replays them through the real sink primitive.
pub struct Printk {
    sent: Vec<Vec<u8>>,
}

impl View for Printk {
    type V = Seq<Seq<u8>>;

    /// Every chunk handed to the sink so far, in order, terminator included.
    closed spec fn view(&self) -> Seq<Seq<u8>> {
        self.sent@.map_values(|c: Vec<u8>| c@)
    }
}

impl Printk {
    /// A writer that has not yet handed anything to the sink.
    pub fn new() -> (w: Printk)
        ensures
            w@ == Seq::<Seq<u8>>::empty(),
    {
        let w = Printk { sent: Vec::new() };
        proof {
            assert(w@ =~= Seq::<Seq<u8>>::empty());
        }
        w
    }

    /// How many chunks have been handed to the sink.
    pub fn chunk_count(&self) -> (n: usize)
        ensures
            n == self@.len(),
    {
        self.sent.len()
    }

    /// The `i`-th chunk handed to the sink, terminator included.
    pub fn chunk(&self, i: usize) -> (c: &Vec<u8>)
        requires
            i < self@.len(),
        ensures
            c@ == self@[i as int],
    {
        &self.sent[i]
    }

    /// Hand one staged chunk to the sink: it is recorded as transmitted
    /// before the staging buffer may be reused.
    fn transmit(&mut self, staging: &heapless::Vec<u8, 64>)
        ensures
            final(self)@ == old(self)@.push(staging_bytes(*staging)),
    {
        let bytes = staging_to_vec(staging);
        self.sent.push(bytes);
        proof {
            assert(self@ =~= old(self)@.push(staging_bytes(*staging)));
        }
    }

    /// Transmit `text` through the sink. The input is partitioned, in
    /// order and without gaps or overlaps, into payloads of at most
    /// `payload_max()` bytes; each payload is staged, terminated with one
    /// zero byte, and handed to the sink before the staging buffer is
    /// reused. An empty input transmits no chunk at all.
    pub fn write_str(&mut self, text: &[u8])
        ensures
            final(self)@ == old(self)@ + frames(text@),
    {
        let mut staging = staging_new();
        let n = text.len();
        let mut pos: usize = 0;
        proof {
            assert(text@.skip(0) =~= text@);
        }
        while pos < n
            invariant
                pos <= n,
                n == text@.len(),
                self@ + frames(text@.skip(pos as int)) == old(self)@ + frames(text@),
            decreases n - pos,
        {
            let remaining = n - pos;
            let k: usize = if remaining < 63 {
                remaining
            } else {
                63
            };
            staging_clear(&mut staging);
            let mut j: usize = 0;
            while j < k
                invariant
                    j <= k,
                    n == text@.len(),
                    pos + k <= n,
                    k <= 63,
                    staging_bytes(staging) == text@.subrange(pos as int, pos + j),
                decreases k - j,
            {
                staging_push(&mut staging, text[pos + j]);
                j += 1;
                proof {
                    assert(staging_bytes(staging) =~= text@.subrange(pos as int, pos + j));
                }
            }
            staging_push(&mut staging, 0);
            let ghost payload = text@.subrange(pos as int, pos + k);
            let ghost pre = self@;
            self.transmit(&staging);
            proof {
                let rest = text@.skip(pos as int);
                assert(rest.len() == text@.len() - pos);
                if rest.len() <= 63 {
                    assert(payload =~= rest);
                    assert(text@.skip(pos + k) =~= Seq::<u8>::empty());
                    assert(payloads(rest) == seq![rest]);
                    assert(frames(rest) =~= seq![frame(payload)] + frames(text@.skip(pos + k)));
                } else {
                    assert(payload =~= rest.take(63));
                    assert(text@.skip(pos + k) =~= rest.skip(63));
                    assert(payloads(rest) == seq![rest.take(63)] + payloads(rest.skip(63)));
                    assert(frames(rest) =~= seq![frame(payload)] + frames(text@.skip(pos + k)));
                }
                assert(self@ =~= pre.push(frame(payload)));
                assert(pre.push(frame(payload)) =~= pre + seq![frame(payload)]);
                assert(self@ + frames(text@.skip(pos + k)) =~= pre + frames(text@.skip(pos as int)));
            }
            pos += k;
        }
        proof {
            assert(text@.skip(pos as int) =~= Seq::<u8>::empty());
            assert(frames(Seq::<u8>::empty()) =~= Seq::<Seq<u8>>::empty());
            assert(self@ + frames(text@.skip(pos as int)) =~= self@);
        }
    }

    /// Transmit a single line terminator as its own chunk.
    pub fn write_newline(&mut self)
        ensures
            final(self)@ == old(self)@ + frames(newline()),
    {
        let mut nl: Vec<u8> = Vec::new();
        nl.push(10u8);
        proof {
            assert(nl@ =~= newline());
        }
        self.write_str(nl.as_slice());
    }

    /// Transmit `text`, then a line terminator: the full message goes out
    /// first, and the newline is handed to the sink as its own final
    /// chunk. With an empty `text`, exactly the newline chunk goes out.
    pub fn write_line(&mut self, text: &[u8])
        ensures
            final(self)@ == old(self)@ + frames(text@) + frames(newline()),
    {
        self.write_str(text);
        self.write_newline();
    }
}

} // verus!
