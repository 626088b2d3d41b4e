//! Audio transport: reusable sample buffers, the bounded buffer pool that
//! keeps the hot production path free of per-chunk allocation, and the FIFO
//! queue that carries filled buffers to the playback thread.
//!
//! A buffer is owned by exactly one party at a time — the pool while idle,
//! the producer while being filled, the queue while in flight, the consumer
//! while draining — and changes hands only by move.

use vstd::prelude::*;

verus! {

/// Stereo audio: interleaved left and right samples.
pub const AUDIO_CHANNELS: usize = 2;

/// Sample rate in Hertz.
pub const SAMPLE_RATE: usize = 48000;

/// Duration of one standard audio chunk in milliseconds.
pub const BUFFER_DURATION_MS: usize = 64;

/// Number of samples in one standard chunk.
pub const BUFFER_LENGTH: usize = SAMPLE_RATE * BUFFER_DURATION_MS / 1000;

/// Advisory number of pre-allocated buffers kept by the pool.
pub const POOL_SIZE: usize = 20;

/// A sequence of `len` zero samples: the contents of a freshly allocated buffer.
pub open spec fn zero_samples(len: nat) -> Seq<i16> {
    Seq::new(len, |i: int| 0i16)
}

/// An ordered, mutable sequence of signed 16-bit interleaved stereo samples.
pub struct AudioBuffer {
    data: Vec<i16>,
}

impl View for AudioBuffer {
    type V = Seq<i16>;

    closed spec fn view(&self) -> Seq<i16> {
        self.data@
    }
}

impl AudioBuffer {
    /// A new zero-filled buffer holding `size` samples.
    pub fn new(size: usize) -> (buffer: Self)
        ensures
            buffer@ == zero_samples(size as nat),
    {
        let buffer = AudioBuffer { data: vec![0i16; size] };
        proof {
            assert(buffer@ =~= zero_samples(size as nat));
        }
        buffer
    }

    /// Removes all samples.
    pub fn clear(&mut self)
        ensures
            final(self)@.len() == 0,
    {
        self.data.clear();
    }

    /// Appends the samples of `slice`, in order, after the current contents.
    pub fn extend_from_slice(&mut self, slice: &[i16])
        ensures
            final(self)@ == old(self)@ + slice@,
    {
        self.data.extend_from_slice(slice);
        proof {
            assert(self@ =~= old(self)@ + slice@);
        }
    }

    /// Read-only access to the samples.
    pub fn as_ptr(&self) -> (samples: &[i16])
        ensures
            samples@ == self@,
    {
        self.data.as_slice()
    }

    /// The number of samples held.
    pub fn len(&self) -> (n: usize)
        ensures
            n == self@.len(),
    {
        self.data.len()
    }
}

/// A bounded free-list of reusable sample buffers.
///
/// `acquire` never blocks: when the free list is empty a fresh buffer is
/// allocated instead, so the computation core is never stalled on audio.
/// The ghost counters record the history needed to state conservation:
/// the number of buffer identities in circulation never exceeds the pool
/// capacity plus the number of acquisitions that found the pool empty.
pub struct BufferPool {
    free: Vec<AudioBuffer>,
    capacity: usize,
    chunk_len: usize,
    handed_out: Ghost<nat>,
    empty_acquires: Ghost<nat>,
}

impl BufferPool {
    /// The advisory capacity: how many idle buffers the pool retains.
    pub closed spec fn capacity(&self) -> usize {
        self.capacity
    }

    /// The standard chunk size, in samples, of a freshly allocated buffer.
    pub closed spec fn chunk_len(&self) -> usize {
        self.chunk_len
    }

    /// The idle buffers, in stack order: `acquire` pops the last.
    pub closed spec fn free_buffers(&self) -> Seq<AudioBuffer> {
        self.free@
    }

    /// How many buffers are currently out of the pool (held by a producer,
    /// in flight, or with the consumer).
    pub closed spec fn handed_out(&self) -> nat {
        self.handed_out@
    }

    /// How many `acquire` calls found the free list empty and allocated.
    pub closed spec fn empty_acquires(&self) -> nat {
        self.empty_acquires@
    }

    /// Every buffer identity in existence: idle in the pool or handed out.
    pub open spec fn in_circulation(&self) -> int {
        self.handed_out() + self.free_buffers().len() as int
    }

    /// The pool's invariant: it never retains more than `capacity` idle
    /// buffers, and circulation is bounded by the buffers ever allocated —
    /// `capacity` at construction plus one per empty acquisition.
    pub open spec fn well_formed(&self) -> bool {
        &&& self.free_buffers().len() <= self.capacity()
        &&& self.in_circulation() <= self.capacity() + self.empty_acquires()
    }

    /// A new pool with `capacity` pre-allocated zero-filled buffers of
    /// `chunk_len` samples each.
    pub fn new(capacity: usize, chunk_len: usize) -> (pool: Self)
        ensures
            pool.well_formed(),
            pool.capacity() == capacity,
            pool.chunk_len() == chunk_len,
            pool.free_buffers().len() == capacity,
            pool.handed_out() == 0,
            pool.empty_acquires() == 0,
            forall|i: int|
                0 <= i < capacity ==> pool.free_buffers()[i]@ == zero_samples(chunk_len as nat),
    {
        let mut free: Vec<AudioBuffer> = Vec::new();
        let mut i: usize = 0;
        while i < capacity
            invariant
                i <= capacity,
                free@.len() == i,
                forall|j: int| 0 <= j < i ==> free@[j]@ == zero_samples(chunk_len as nat),
            decreases capacity - i,
        {
            free.push(AudioBuffer::new(chunk_len));
            i = i + 1;
        }
        BufferPool {
            free,
            capacity,
            chunk_len,
            handed_out: Ghost(0),
            empty_acquires: Ghost(0),
        }
    }

    /// The number of idle buffers currently in the pool.
    pub fn free_len(&self) -> (n: usize)
        ensures
            n == self.free_buffers().len(),
    {
        self.free.len()
    }

    /// Pops an idle buffer if one is available, otherwise allocates a fresh
    /// zero-filled buffer of the standard chunk size. Never blocks.
    pub fn acquire(&mut self) -> (buffer: AudioBuffer)
        requires
            old(self).well_formed(),
        ensures
            final(self).well_formed(),
            final(self).capacity() == old(self).capacity(),
            final(self).chunk_len() == old(self).chunk_len(),
            final(self).handed_out() == old(self).handed_out() + 1,
            old(self).free_buffers().len() > 0 ==> {
                &&& buffer == old(self).free_buffers().last()
                &&& final(self).free_buffers() == old(self).free_buffers().drop_last()
                &&& final(self).empty_acquires() == old(self).empty_acquires()
            },
            old(self).free_buffers().len() == 0 ==> {
                &&& buffer@ == zero_samples(old(self).chunk_len() as nat)
                &&& final(self).free_buffers() == old(self).free_buffers()
                &&& final(self).empty_acquires() == old(self).empty_acquires() + 1
            },
    {
        proof {
            self.handed_out@ = self.handed_out@ + 1;
        }
        match self.free.pop() {
            Some(buffer) => buffer,
            None => {
                proof {
                    self.empty_acquires@ = self.empty_acquires@ + 1;
                }
                AudioBuffer::new(self.chunk_len)
            },
        }
    }

    /// Returns a buffer to the free list. A pool already holding `capacity`
    /// idle buffers drops the excess buffer instead of retaining it, so
    /// steady-state memory stays bounded.
    pub fn release(&mut self, buffer: AudioBuffer)
        requires
            old(self).well_formed(),
            old(self).handed_out() >= 1,
        ensures
            final(self).well_formed(),
            final(self).capacity() == old(self).capacity(),
            final(self).chunk_len() == old(self).chunk_len(),
            final(self).handed_out() == old(self).handed_out() - 1,
            final(self).empty_acquires() == old(self).empty_acquires(),
            old(self).free_buffers().len() < old(self).capacity() ==> final(self).free_buffers()
                == old(self).free_buffers().push(buffer),
            old(self).free_buffers().len() >= old(self).capacity() ==> final(self).free_buffers()
                == old(self).free_buffers(),
    {
        proof {
            self.handed_out@ = (self.handed_out@ - 1) as nat;
        }
        if self.free.len() < self.capacity {
            self.free.push(buffer);
        }
    }
}

/// Buffer-pool conservation: however `acquire` and `release` have been
/// interleaved, the number of distinct buffer identities in circulation —
/// idle in the pool plus handed out — never exceeds the pool capacity plus
/// the number of acquisitions that found the pool empty. The bound is an
/// invariant: `new` establishes `well_formed` and every operation preserves
/// it, so it holds after any call sequence.
pub proof fn lemma_buffer_pool_conservation(pool: &BufferPool)
    requires
        pool.well_formed(),
    ensures
        pool.in_circulation() <= pool.capacity() + pool.empty_acquires(),
{
}

/// A first-in-first-out transport of filled audio buffers from the producing
/// sink to the playback thread. Buffers travel by ownership transfer.
pub struct AudioQueue {
    chunks: std::collections::VecDeque<AudioBuffer>,
}

impl View for AudioQueue {
    type V = Seq<AudioBuffer>;

    closed spec fn view(&self) -> Seq<AudioBuffer> {
        self.chunks@
    }
}

impl AudioQueue {
    /// A new, empty queue.
    pub fn new() -> (queue: Self)
        ensures
            queue@.len() == 0,
    {
        AudioQueue { chunks: std::collections::VecDeque::new() }
    }

    /// The number of chunks waiting to be played.
    pub fn len(&self) -> (n: usize)
        ensures
            n == self@.len(),
    {
        self.chunks.len()
    }

    /// Appends a chunk after every chunk submitted before it.
    pub fn send(&mut self, buffer: AudioBuffer)
        ensures
            final(self)@ == old(self)@.push(buffer),
    {
        self.chunks.push_back(buffer);
    }

    /// Takes the oldest waiting chunk, or `None` when the queue is empty.
    pub fn recv(&mut self) -> (received: Option<AudioBuffer>)
        ensures
            old(self)@.len() == 0 ==> received is None && final(self)@ == old(self)@,
            old(self)@.len() > 0 ==> received == Some(old(self)@[0]) && final(self)@ == old(
                self,
            )@.drop_first(),
    {
        let received = self.chunks.pop_front();
        proof {
            if old(self)@.len() > 0 {
                assert(self@ =~= old(self)@.drop_first());
            }
        }
        received
    }

    /// Takes every waiting chunk at once, in submission order: the playback
    /// thread observes chunks exactly as the producer queued them, with no
    /// reordering and no duplication.
    pub fn drain(&mut self) -> (received: Vec<AudioBuffer>)
        ensures
            received@ == old(self)@,
            final(self)@.len() == 0,
    {
        let mut received: Vec<AudioBuffer> = Vec::new();
        while self.chunks.len() > 0
            invariant
                received@ + self.chunks@ == old(self).chunks@,
            decreases self.chunks@.len(),
        {
            match self.chunks.pop_front() {
                Some(buffer) => {
                    received.push(buffer);
                    proof {
                        assert(received@ + self.chunks@ =~= old(self).chunks@);
                    }
                },
                None => {},
            }
        }
        proof {
            assert(received@ =~= old(self)@);
        }
        received
    }
}

/// The queue contents after submitting the chunks of `sent`, in order, to a
/// queue currently holding `pending`.
pub open spec fn after_sends(pending: Seq<AudioBuffer>, sent: Seq<AudioBuffer>) -> Seq<
    AudioBuffer,
>
    decreases sent.len(),
{
    if sent.len() == 0 {
        pending
    } else {
        after_sends(pending.push(sent[0]), sent.drop_first())
    }
}

/// Order preservation: submitting chunks `c1 … cN` one by one leaves them
/// queued behind the chunks already pending, in exactly the submitted order —
/// so a consumer that drains the queue observes `c1 … cN` with no
/// reordering and no duplication.
pub proof fn lemma_order_preservation(pending: Seq<AudioBuffer>, sent: Seq<AudioBuffer>)
    ensures
        after_sends(pending, sent) == pending + sent,
    decreases sent.len(),
{
    if sent.len() == 0 {
        assert(after_sends(pending, sent) =~= pending + sent);
    } else {
        lemma_order_preservation(pending.push(sent[0]), sent.drop_first());
        assert(pending.push(sent[0]) + sent.drop_first() =~= pending + sent);
    }
}

} // verus!
