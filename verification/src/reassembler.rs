//! The block reassembler: owns the current decoded block, remaps its planar
//! storage to frame-major order, normalizes bit depth, and tracks exhaustion.

use vstd::prelude::*;

verus! {

/// A raw sample of bit depth `bits` scaled to the full 32-bit signed range:
/// the sample is shifted left so that its most significant bit lands on the
/// sign bit. At depth 32 the sample is unchanged.
pub open spec fn normalized(v: i32, bits: u32) -> i32
    recommends
        1 <= bits <= 32,
{
    v << ((32 - bits) as u32)
}

/// Scale a raw sample of bit depth `bits` to the full 32-bit signed range.
pub fn normalize(v: i32, bits: u32) -> (r: i32)
    requires
        1 <= bits <= 32,
    ensures
        r == normalized(v, bits),
{
    v << (32 - bits)
}

/// At full bit depth no shift is applied: a 32-bit raw sample is returned
/// unchanged by normalization.
pub proof fn lemma_normalize_full_depth(v: i32)
    ensures
        normalized(v, 32) == v,
{
    assert(v << 0u32 == v) by (bit_vector);
}

/// The planar storage position that holds the sample consumed at frame-major
/// position `off`: channel `off % channels`, frame `off / channels`, stored as
/// all frames of one channel contiguously before the next channel.
pub open spec fn planar_index(off: int, channels: int, channel_len: int) -> int
    recommends
        channels >= 1,
{
    (off % channels) * channel_len + off / channels
}

/// The frame-major, bit-depth-normalized reading of a planar block that holds
/// `channels * channel_len` raw samples.
pub open spec fn interleaved(block: Seq<i32>, channels: int, channel_len: int, bits: u32) -> Seq<
    i32,
>
    recommends
        channels >= 1,
        block.len() == channels * channel_len,
{
    Seq::new((channels * channel_len) as nat, |k: int| normalized(block[planar_index(k, channels, channel_len)], bits))
}

/// The planar position of every frame-major position lies inside the block.
pub proof fn lemma_planar_index_bounds(off: int, channels: int, channel_len: int)
    requires
        channels >= 1,
        channel_len >= 0,
        0 <= off < channels * channel_len,
    ensures
        0 <= planar_index(off, channels, channel_len) < channels * channel_len,
{
    assert(0 <= off % channels < channels);
    assert(off / channels < channel_len) by (nonlinear_arith)
        requires
            channels >= 1,
            channel_len >= 0,
            0 <= off < channels * channel_len,
    ;
    assert(off / channels >= 0) by (nonlinear_arith)
        requires
            channels >= 1,
            off >= 0,
    ;
    assert((off % channels) * channel_len + off / channels < channels * channel_len)
        by (nonlinear_arith)
        requires
            channels >= 1,
            channel_len >= 0,
            0 <= off % channels < channels,
            0 <= off / channels < channel_len,
    ;
}

/// Interleaving is a permutation of the planar block: the sample of channel
/// `c` in frame `f`, stored planar at `c * channel_len + f`, is consumed at
/// frame-major position `f * channels + c`.
pub proof fn lemma_interleaving(
    block: Seq<i32>,
    channels: int,
    channel_len: int,
    bits: u32,
    f: int,
    c: int,
)
    requires
        channels >= 1,
        channel_len >= 0,
        block.len() == channels * channel_len,
        0 <= f < channel_len,
        0 <= c < channels,
    ensures
        0 <= f * channels + c < channels * channel_len,
        interleaved(block, channels, channel_len, bits)[f * channels + c] == normalized(
            block[c * channel_len + f],
            bits,
        ),
{
    let k = f * channels + c;
    assert(0 <= k < channels * channel_len) by (nonlinear_arith)
        requires
            channels >= 1,
            0 <= f < channel_len,
            0 <= c < channels,
            k == f * channels + c,
    ;
    assert(0 <= c * channel_len + f < channels * channel_len) by (nonlinear_arith)
        requires
            channel_len >= 0,
            0 <= f < channel_len,
            0 <= c < channels,
    ;
    assert(k % channels == c && k / channels == f) by (nonlinear_arith)
        requires
            channels >= 1,
            0 <= c < channels,
            k == f * channels + c,
    ;
}

/// The interleaved reading has exactly one sample for each raw sample of the
/// block: a block of `channel_len` frames over `channels` channels is served
/// as exactly `channel_len * channels` samples, no more and no fewer.
pub proof fn lemma_interleaved_len(block: Seq<i32>, channels: int, channel_len: int, bits: u32)
    requires
        channels >= 1,
        channel_len >= 0,
        block.len() == channels * channel_len,
    ensures
        interleaved(block, channels, channel_len, bits).len() == block.len(),
        interleaved(block, channels, channel_len, bits).len() == channel_len * channels,
{
}

/// The block reassembler. It owns the most recently decoded block in its
/// planar storage, serves its samples one at a time in frame-major order with
/// bit-depth normalization, and latches a terminal exhausted state once the
/// block supply has ended.
pub struct Reassembler {
    block: Vec<i32>,
    channel_len: usize,
    off: usize,
    channels: u16,
    bits_per_sample: u32,
    exhausted: bool,
}

impl Reassembler {
    /// Well-formedness: at least one channel, a bit depth of 1 through 32,
    /// planar storage of exactly `channel_len` samples per channel, and a
    /// consumption offset no further than the end of the block.
    pub closed spec fn wf(self) -> bool {
        &&& self.channels >= 1
        &&& 1 <= self.bits_per_sample <= 32
        &&& self.block@.len() == self.channel_len * self.channels
        &&& self.off <= self.block@.len()
    }

    pub closed spec fn spec_channels(self) -> u16 {
        self.channels
    }

    pub closed spec fn spec_bits_per_sample(self) -> u32 {
        self.bits_per_sample
    }

    pub closed spec fn spec_exhausted(self) -> bool {
        self.exhausted
    }

    /// The raw planar storage of the current block.
    pub closed spec fn raw_block(self) -> Seq<i32> {
        self.block@
    }

    /// The samples of the current block not yet served, in the order they
    /// will be served: frame-major, channel-minor, normalized.
    pub closed spec fn remaining(self) -> Seq<i32> {
        interleaved(
            self.block@,
            self.channels as int,
            self.channel_len as int,
            self.bits_per_sample,
        ).skip(self.off as int)
    }

    /// A fresh reassembler with no block buffered. `capacity` is a storage
    /// reuse hint, not a bound on block size.
    pub fn new(channels: u16, bits_per_sample: u32, capacity: usize) -> (r: Reassembler)
        requires
            channels >= 1,
            1 <= bits_per_sample <= 32,
        ensures
            r.wf(),
            r.spec_channels() == channels,
            r.spec_bits_per_sample() == bits_per_sample,
            !r.spec_exhausted(),
            r.remaining().len() == 0,
    {
        Reassembler {
            block: Vec::with_capacity(capacity),
            channel_len: 0,
            off: 0,
            channels,
            bits_per_sample,
            exhausted: false,
        }
    }

    pub fn channels(&self) -> (r: u16)
        ensures
            r == self.spec_channels(),
    {
        self.channels
    }

    pub fn bits_per_sample(&self) -> (r: u32)
        ensures
            r == self.spec_bits_per_sample(),
    {
        self.bits_per_sample
    }

    pub fn is_exhausted(&self) -> (r: bool)
        ensures
            r == self.spec_exhausted(),
    {
        self.exhausted
    }

    /// Latch the terminal state: entered when the block supply reports end of
    /// stream or failure, and never left.
    pub fn mark_exhausted(&mut self)
        ensures
            final(self).wf() == old(self).wf(),
            final(self).spec_channels() == old(self).spec_channels(),
            final(self).spec_bits_per_sample() == old(self).spec_bits_per_sample(),
            final(self).spec_exhausted(),
            final(self).remaining() == old(self).remaining(),
    {
        self.exhausted = true;
    }

    /// Serve the next buffered sample, if the current block still has one:
    /// the sample at the planar position of the consumption offset, shifted
    /// to the full 32-bit range. Serving consumes exactly the head of
    /// `remaining()`; an empty buffer leaves the reassembler unchanged.
    pub fn take_buffered(&mut self) -> (r: Option<i32>)
        requires
            old(self).wf(),
        ensures
            final(self).wf(),
            final(self).spec_channels() == old(self).spec_channels(),
            final(self).spec_bits_per_sample() == old(self).spec_bits_per_sample(),
            final(self).spec_exhausted() == old(self).spec_exhausted(),
            old(self).remaining().len() == 0 ==> r is None && *final(self) == *old(self),
            old(self).remaining().len() > 0 ==> r == Some(old(self).remaining()[0])
                && final(self).remaining() == old(self).remaining().skip(1),
    {
        proof {
            assert(self.remaining().len() == self.block@.len() - self.off);
        }
        if self.off < self.block.len() {
            let c = self.channels as usize;
            proof {
                lemma_planar_index_bounds(
                    self.off as int,
                    self.channels as int,
                    self.channel_len as int,
                );
                assert(planar_index(self.off as int, c as int, self.channel_len as int)
                    < self.block@.len());
            }
            let idx = (self.off % c) * self.channel_len + self.off / c;
            let v = self.block[idx];
            let out = normalize(v, self.bits_per_sample);
            self.off = self.off + 1;
            proof {
                assert(out == old(self).remaining()[0]);
                assert(self.remaining() =~= old(self).remaining().skip(1));
            }
            Some(out)
        } else {
            None
        }
    }

    /// Replace the current block wholesale with a freshly decoded planar
    /// block and reset consumption to its start. Every sample of the new
    /// block is then pending, in frame-major order.
    pub fn load_block(&mut self, samples: Vec<i32>)
        requires
            old(self).wf(),
            samples@.len() as int % (old(self).spec_channels() as int) == 0,
        ensures
            final(self).wf(),
            final(self).spec_channels() == old(self).spec_channels(),
            final(self).spec_bits_per_sample() == old(self).spec_bits_per_sample(),
            final(self).spec_exhausted() == old(self).spec_exhausted(),
            final(self).remaining() == interleaved(
                samples@,
                old(self).spec_channels() as int,
                samples@.len() as int / old(self).spec_channels() as int,
                old(self).spec_bits_per_sample(),
            ),
            final(self).remaining().len() == samples@.len(),
    {
        let c = self.channels as usize;
        let channel_len = samples.len() / c;
        proof {
            assert(c as int * (samples@.len() as int / c as int) == samples@.len()) by (
            nonlinear_arith)
                requires
                    c >= 1,
                    samples@.len() as int % (c as int) == 0,
            ;
        }
        self.channel_len = channel_len;
        self.block = samples;
        self.off = 0;
        proof {
            assert(self.remaining() =~= interleaved(
                self.block@,
                self.channels as int,
                self.channel_len as int,
                self.bits_per_sample,
            ));
        }
    }

    /// Move the current block's storage out for reuse by the next decode,
    /// leaving the reassembler with nothing buffered. Only meaningful once
    /// every sample of the block has been served.
    pub fn take_storage(&mut self) -> (r: Vec<i32>)
        requires
            old(self).wf(),
            old(self).remaining().len() == 0,
        ensures
            final(self).wf(),
            final(self).spec_channels() == old(self).spec_channels(),
            final(self).spec_bits_per_sample() == old(self).spec_bits_per_sample(),
            final(self).spec_exhausted() == old(self).spec_exhausted(),
            final(self).remaining().len() == 0,
            r@ == old(self).raw_block(),
    {
        let mut storage: Vec<i32> = Vec::new();
        std::mem::swap(&mut storage, &mut self.block);
        self.channel_len = 0;
        self.off = 0;
        storage
    }
}

} // verus!

