//! A per-channel sample buffer read from the front: consumed samples are
//! skipped by a read position and dropped in bulk once enough of them have
//! piled up, so that reading frame after frame stays linear in the input.

use vstd::prelude::*;

verus! {

/// Consumed samples are dropped once the read position reaches this many.
pub const COMPACTION_THRESHOLD: usize = 32768;

/// The samples of `ch` from `read_pos` on (none when it lies beyond them).
pub open spec fn visible<S>(ch: Seq<S>, read_pos: int) -> Seq<S> {
    if read_pos <= ch.len() {
        ch.subrange(read_pos, ch.len() as int)
    } else {
        Seq::empty()
    }
}

/// Consuming `count` of the pending samples drops exactly the first `count`
/// of them: what is visible from `read_pos + count` is what was visible from
/// `read_pos`, less its first `count` samples.
pub proof fn lemma_consume_skips<S>(ch: Seq<S>, read_pos: int, count: int)
    requires
        0 <= read_pos,
        0 <= count,
        read_pos + count <= ch.len(),
    ensures
        visible(ch, read_pos + count) == visible(ch, read_pos).skip(count),
{
    assert(visible(ch, read_pos + count) =~= visible(ch, read_pos).skip(count));
}

/// Per-channel samples with a shared read position.
pub struct SampleBuffer<S> {
    channels: Vec<Vec<S>>,
    read_pos: usize,
}

impl<S: Copy> SampleBuffer<S> {
    /// The stored samples of each channel, consumed ones included.
    pub closed spec fn stored(&self) -> Seq<Seq<S>> {
        self.channels@.map_values(|c: Vec<S>| c@)
    }

    /// The read position.
    pub closed spec fn position(&self) -> usize {
        self.read_pos
    }

    /// The samples of channel `ch` not yet consumed.
    pub open spec fn pending(&self, ch: int) -> Seq<S> {
        visible(self.stored()[ch], self.position() as int)
    }

    /// The number of channels.
    pub open spec fn channel_count(&self) -> nat {
        self.stored().len()
    }

    /// `channels` empty channels, reading from the start.
    pub fn new(channels: usize, capacity: usize) -> (b: SampleBuffer<S>)
        ensures
            b.channel_count() == channels,
            b.position() == 0,
            forall|c: int| 0 <= c < channels ==> (#[trigger] b.stored()[c]).len() == 0,
    {
        let mut chans: Vec<Vec<S>> = Vec::new();
        let mut i: usize = 0;
        while i < channels
            invariant
                i <= channels,
                chans@.len() == i,
                forall|c: int| 0 <= c < i ==> (#[trigger] chans@[c])@.len() == 0,
            decreases channels - i,
        {
            chans.push(Vec::with_capacity(capacity));
            i += 1;
        }
        SampleBuffer { channels: chans, read_pos: 0 }
    }

    /// Number of samples of the first channel not yet consumed.
    pub fn available(&self) -> (n: usize)
        requires
            self.channel_count() > 0,
        ensures
            n == self.pending(0).len(),
    {
        let len = self.channels[0].len();
        if len >= self.read_pos {
            len - self.read_pos
        } else {
            0
        }
    }

    /// Number of samples of channel `ch` not yet consumed.
    pub fn len(&self, ch: usize) -> (n: usize)
        requires
            ch < self.channel_count(),
        ensures
            n == self.pending(ch as int).len(),
    {
        let len = self.channels[ch].len();
        if len >= self.read_pos {
            len - self.read_pos
        } else {
            0
        }
    }

    /// Consume `count` samples of every channel.  Once the read position
    /// reaches the compaction threshold the consumed samples are dropped and
    /// reading starts over from the front; either way, what is left to read
    /// is the same.
    pub fn consume(&mut self, count: usize)
        requires
            old(self).position() + count <= usize::MAX,
            old(self).position() + count >= COMPACTION_THRESHOLD ==> forall|c: int|
                0 <= c < old(self).channel_count() ==> old(self).position() + count <= (
                #[trigger] old(self).stored()[c]).len(),
        ensures
            final(self).channel_count() == old(self).channel_count(),
            forall|c: int| 0 <= c < old(self).channel_count() ==> #[trigger] final(self).pending(c)
                == visible(old(self).stored()[c], old(self).position() + count),
            old(self).position() + count >= COMPACTION_THRESHOLD ==> final(self).position() == 0,
            old(self).position() + count < COMPACTION_THRESHOLD ==> final(self).position()
                == old(self).position() + count && final(self).stored() == old(self).stored(),
    {
        self.read_pos = self.read_pos + count;
        assert(self.stored() == old(self).stored());
        if self.read_pos >= COMPACTION_THRESHOLD {
            self.drop_consumed();
        }
    }

    /// Drop the consumed samples of every channel and read from the front.
    fn drop_consumed(&mut self)
        requires
            forall|c: int| 0 <= c < old(self).channel_count() ==> old(self).position() <= (
            #[trigger] old(self).stored()[c]).len(),
        ensures
            final(self).channel_count() == old(self).channel_count(),
            final(self).position() == 0,
            forall|c: int| 0 <= c < old(self).channel_count() ==> (#[trigger] final(self).stored()[c])
                == old(self).pending(c),
    {
        let n = self.channels.len();
        let pos = self.read_pos;
        proof {
            assert forall|c: int| 0 <= c < n implies pos <= (#[trigger] old(self).channels@[c])@.len() by {
                assert(old(self).stored()[c] == old(self).channels@[c]@);
            }
        }
        let mut i: usize = 0;
        while i < n
            invariant
                n == self.channels@.len(),
                n == old(self).channels@.len(),
                pos == old(self).read_pos,
                i <= n,
                forall|c: int| 0 <= c < n ==> pos <= (#[trigger] old(self).channels@[c])@.len(),
                forall|c: int| 0 <= c < i ==> (#[trigger] self.channels@[c])@ == old(self).channels@[c]@.subrange(
                    pos as int,
                    old(self).channels@[c]@.len() as int,
                ),
                forall|c: int| i <= c < n ==> #[trigger] self.channels@[c] == old(self).channels@[c],
            decreases n - i,
        {
            let rest = self.channels[i].split_off(pos);
            self.channels.set(i, rest);
            i += 1;
        }
        self.read_pos = 0;
        proof {
            assert forall|c: int| 0 <= c < old(self).channel_count() implies (#[trigger] self.stored()[c])
                == old(self).pending(c) by {
                assert(self.stored()[c] == self.channels@[c]@);
                assert(old(self).stored()[c] == old(self).channels@[c]@);
            }
        }
    }

    /// The next `count` samples of channel `ch`, without consuming them.
    pub fn read(&self, ch: usize, count: usize) -> (r: &[S])
        requires
            ch < self.channel_count(),
            self.position() + count <= self.stored()[ch as int].len(),
        ensures
            r@ == self.pending(ch as int).take(count as int),
    {
        let start = self.read_pos;
        let len = self.channels[ch].len();
        proof {
            assert(len == self.stored()[ch as int].len());
            assert(self.stored()[ch as int] == self.channels@[ch as int]@);
            assert(self.pending(ch as int).take(count as int) =~= self.channels@[ch as int]@.subrange(
                start as int,
                start + count,
            ));
        }
        vstd::slice::slice_subrange(self.channels[ch].as_slice(), start, start + count)
    }

    /// Append samples to channel `ch`.
    pub fn extend(&mut self, ch: usize, samples: &[S])
        requires
            ch < old(self).channel_count(),
        ensures
            final(self).channel_count() == old(self).channel_count(),
            final(self).position() == old(self).position(),
            final(self).stored()[ch as int].len() == old(self).stored()[ch as int].len() + samples@.len(),
            final(self).stored()[ch as int].take(old(self).stored()[ch as int].len() as int)
                == old(self).stored()[ch as int],
            forall|i: int| 0 <= i < samples@.len() ==> cloned::<S>(
                samples@[i],
                #[trigger] final(self).stored()[ch as int][old(self).stored()[ch as int].len() + i],
            ),
            forall|c: int| 0 <= c < old(self).channel_count() && c != ch ==> #[trigger] final(self).stored()[c]
                == old(self).stored()[c],
    {
        let ghost before = self.channels@;
        self.channels[ch].extend_from_slice(samples);
        proof {
            assert(self.stored()[ch as int] == self.channels@[ch as int]@);
            assert(old(self).stored()[ch as int] == before[ch as int]@);
            assert(self.stored()[ch as int].take(before[ch as int]@.len() as int) =~= before[ch as int]@);
            assert forall|c: int| 0 <= c < old(self).channel_count() && c != ch implies #[trigger] self.stored()[c]
                == old(self).stored()[c] by {
                assert(self.channels@[c] == before[c]);
            }
        }
    }

    /// Make `new_len` samples of channel `ch` readable: extra ones are
    /// dropped from the end, missing ones added as copies of `fill`.
    pub fn resize(&mut self, ch: usize, new_len: usize, fill: S)
        requires
            ch < old(self).channel_count(),
            new_len + old(self).position() <= usize::MAX,
        ensures
            final(self).channel_count() == old(self).channel_count(),
            final(self).position() == old(self).position(),
            ({
                let before = old(self).stored()[ch as int];
                let actual = new_len + old(self).position();
                let after = final(self).stored()[ch as int];
                &&& actual <= before.len() ==> after == before.take(actual)
                &&& actual > before.len() ==> after.len() == actual && after.take(before.len() as int) == before
                    && forall|i: int| before.len() <= i < actual ==> cloned::<S>(fill, #[trigger] after[i])
            }),
            forall|c: int| 0 <= c < old(self).channel_count() && c != ch ==> #[trigger] final(self).stored()[c]
                == old(self).stored()[c],
    {
        let actual_len = new_len + self.read_pos;
        let ghost before = self.channels@;
        if self.channels[ch].len() < actual_len {
            self.channels[ch].resize(actual_len, fill);
        } else {
            self.channels[ch].truncate(actual_len);
        }
        proof {
            assert(self.stored()[ch as int] == self.channels@[ch as int]@);
            assert(old(self).stored()[ch as int] == before[ch as int]@);
            assert forall|c: int| 0 <= c < old(self).channel_count() && c != ch implies #[trigger] self.stored()[c]
                == old(self).stored()[c] by {
                assert(self.channels@[c] == before[c]);
            }
        }
    }

    /// Drop whatever has been consumed (before the final flush).
    pub fn compact(&mut self)
        requires
            forall|c: int| 0 <= c < old(self).channel_count() ==> old(self).position() <= (
            #[trigger] old(self).stored()[c]).len(),
        ensures
            final(self).channel_count() == old(self).channel_count(),
            final(self).position() == 0,
            forall|c: int| 0 <= c < old(self).channel_count() ==> (#[trigger] final(self).stored()[c])
                == old(self).pending(c),
    {
        if self.read_pos > 0 {
            self.drop_consumed();
        } else {
            proof {
                assert forall|c: int| 0 <= c < old(self).channel_count() implies (#[trigger] self.stored()[c])
                    == old(self).pending(c) by {
                    assert(old(self).pending(c) =~= old(self).stored()[c]);
                }
            }
        }
    }
}

} // verus!
