//! Accumulates raw capture samples and emits fixed-size audio chunks.
//!
//! The real-time audio callback hands every incoming buffer of samples
//! to the accumulator and sends each emitted chunk into the channel.
//! No sample is dropped, duplicated or reordered: the emitted chunks
//! followed by the samples still pending are exactly the samples
//! received, in arrival order, and every emitted chunk has exactly the
//! configured length.

use vstd::prelude::*;

verus! {

/// Samples per chunk for a capture configuration: sample rate times
/// the fixed chunk duration of one and a half seconds, times the
/// channel count. The default configuration of 16 000 Hz mono gives
/// 24 000 samples.
pub fn frames_per_chunk(sample_rate: u32, channels: u16) -> (n: u64)
    ensures
        n as int == (sample_rate as int * 3 / 2) * channels as int,
{
    let samples: u64 = sample_rate as u64 * 3 / 2;
    proof {
        assert(samples as int * channels as int <= 0x1_8000_0000int * 0x1_0000int)
            by (nonlinear_arith)
            requires
                0 <= samples as int <= 0x1_8000_0000int,
                0 <= channels as int <= 0xFFFFint,
        ;
    }
    samples * channels as u64
}

/// The sample accumulator behind the capture callback.
pub struct ChunkAccumulator {
    pending: Vec<i16>,
    chunk_len: usize,
}

impl ChunkAccumulator {
    /// The samples received but not yet emitted, in arrival order.
    pub closed spec fn pending_samples(self) -> Seq<i16> {
        self.pending@
    }

    /// The configured chunk length, in samples.
    pub closed spec fn chunk_size(self) -> int {
        self.chunk_len as int
    }

    /// Fewer than one chunk's worth of samples is ever left pending:
    /// the accumulator emits every full chunk it holds.
    pub open spec fn wf(self) -> bool {
        &&& 0 < self.chunk_size()
        &&& self.pending_samples().len() < self.chunk_size()
    }

    /// A fresh accumulator for the given chunk length holds nothing.
    pub fn new(chunk_len: usize) -> (r: Self)
        requires
            0 < chunk_len,
        ensures
            r.wf(),
            r.chunk_size() == chunk_len,
            r.pending_samples() == Seq::<i16>::empty(),
    {
        let r = ChunkAccumulator { pending: Vec::new(), chunk_len };
        proof {
            assert(r.pending@ =~= Seq::<i16>::empty());
        }
        r
    }

    /// One callback invocation: appends the incoming samples and emits
    /// one chunk per loop turn while a full chunk is accumulated. The
    /// emitted chunks followed by the remaining pending samples are
    /// exactly the old pending samples followed by the incoming ones.
    pub fn accept(&mut self, data: &[i16]) -> (chunks: Vec<Vec<i16>>)
        requires
            old(self).wf(),
        ensures
            final(self).wf(),
            final(self).chunk_size() == old(self).chunk_size(),
            forall|i: int|
                0 <= i < chunks.deep_view().len() ==> (#[trigger] chunks.deep_view()[i]).len()
                    == old(self).chunk_size(),
            chunks.deep_view().flatten() + final(self).pending_samples() == old(
                self,
            ).pending_samples() + data@,
    {
        let ghost total = self.pending@ + data@;
        self.pending.extend_from_slice(data);
        let mut chunks: Vec<Vec<i16>> = Vec::new();
        proof {
            assert(chunks.deep_view() =~= Seq::<Seq<i16>>::empty());
            assert(chunks.deep_view().flatten() + self.pending@ =~= total);
        }
        while self.pending.len() >= self.chunk_len
            invariant
                0 < self.chunk_len == old(self).chunk_len,
                forall|i: int|
                    0 <= i < chunks.deep_view().len() ==> (#[trigger] chunks.deep_view()[i]).len()
                        == self.chunk_len,
                chunks.deep_view().flatten() + self.pending@ == total,
            decreases self.pending.len(),
        {
            let ghost flat_pre = chunks.deep_view().flatten();
            let ghost pending_pre = self.pending@;
            let mut emitted = self.pending.split_off(0);
            let rest = emitted.split_off(self.chunk_len);
            self.pending = rest;
            proof {
                assert(emitted@ =~= pending_pre.subrange(0, self.chunk_len as int));
                let ghost pre = chunks.deep_view();
                pre.lemma_flatten_push(emitted@);
                assert(chunks.deep_view().push(emitted@).flatten() =~= flat_pre + emitted@);
            }
            let ghost pre = chunks.deep_view();
            let ghost e = emitted@;
            chunks.push(emitted);
            proof {
                assert(chunks.deep_view() =~~= pre.push(e));
                assert(flat_pre + e + self.pending@ =~= flat_pre + pending_pre);
            }
        }
        chunks
    }
}

} // verus!
