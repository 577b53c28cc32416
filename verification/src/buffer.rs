//! Bounded utterance buffer shared by the audio callback and the worker.
//!
//! The buffer holds the most recent samples of the utterance being
//! accumulated, FIFO ordered, with ring semantics: when an append would pass
//! the capacity, the oldest samples are evicted first. The storage is
//! `circular_buffer::HeapCircularBuffer`, used through trusted contracts
//! stated over the abstract contents `ring_contents`.

use vstd::prelude::*;
use circular_buffer::HeapCircularBuffer;

verus! {

/// Default capacity: 60 s of audio at 16 kHz.
pub const DEFAULT_CAPACITY: usize = 960000;

#[verifier::external_type_specification]
#[verifier::external_body]
#[verifier::reject_recursive_types(T)]
pub struct ExHeapCircularBuffer<T>(HeapCircularBuffer<T>);

/// The samples a ring holds, front (oldest) first.
pub uninterp spec fn ring_contents(b: HeapCircularBuffer<i16>) -> Seq<i16>;

/// The fixed capacity the ring was allocated with.
pub uninterp spec fn ring_capacity(b: HeapCircularBuffer<i16>) -> nat;

/// Relies on `HeapCircularBuffer::with_capacity`: returns an empty buffer of
/// the requested capacity.
#[verifier::external_body]
fn ring_with_capacity(capacity: usize) -> (r: HeapCircularBuffer<i16>)
    ensures
        ring_contents(r) == Seq::<i16>::empty(),
        ring_capacity(r) == capacity as nat,
{
    HeapCircularBuffer::with_capacity(capacity)
}

/// Relies on `CircularBuffer::push_back`: appends at the back; when the
/// buffer is full the front element is overwritten and returned; a
/// zero-capacity buffer returns the element and stays empty.
#[verifier::external_body]
fn ring_push_back(b: &mut HeapCircularBuffer<i16>, x: i16) -> (r: Option<i16>)
    ensures
        ring_capacity(*final(b)) == ring_capacity(*old(b)),
        ring_capacity(*old(b)) == 0 ==> {
            &&& ring_contents(*final(b)) == ring_contents(*old(b))
            &&& r == Some(x)
        },
        ring_capacity(*old(b)) > 0 && ring_contents(*old(b)).len() < ring_capacity(*old(b)) ==> {
            &&& ring_contents(*final(b)) == ring_contents(*old(b)).push(x)
            &&& r is None
        },
        ring_capacity(*old(b)) > 0 && ring_contents(*old(b)).len() >= ring_capacity(*old(b)) ==> {
            &&& ring_contents(*final(b)) == ring_contents(*old(b)).drop_first().push(x)
            &&& r == Some(ring_contents(*old(b))[0])
        },
{
    b.push_back(x)
}

/// Relies on `CircularBuffer::pop_front`: removes and returns the front
/// (oldest) element, or `None` when the buffer is empty.
#[verifier::external_body]
fn ring_pop_front(b: &mut HeapCircularBuffer<i16>) -> (r: Option<i16>)
    ensures
        ring_capacity(*final(b)) == ring_capacity(*old(b)),
        ring_contents(*old(b)).len() == 0 ==> {
            &&& ring_contents(*final(b)) == ring_contents(*old(b))
            &&& r is None
        },
        ring_contents(*old(b)).len() > 0 ==> {
            &&& ring_contents(*final(b)) == ring_contents(*old(b)).drop_first()
            &&& r == Some(ring_contents(*old(b))[0])
        },
{
    b.pop_front()
}

/// Relies on `CircularBuffer::len`: the number of elements in the buffer.
#[verifier::external_body]
fn ring_len(b: &HeapCircularBuffer<i16>) -> (r: usize)
    ensures
        r as nat == ring_contents(*b).len(),
{
    b.len()
}

/// One ring push on the abstract contents.
pub open spec fn ring_push_spec(s: Seq<i16>, x: i16, cap: nat) -> Seq<i16> {
    if cap == 0 {
        s
    } else if s.len() < cap {
        s.push(x)
    } else {
        s.drop_first().push(x)
    }
}

/// A whole append on the abstract contents: the last `cap` samples of the
/// concatenation, in order.
pub open spec fn ring_append_spec(s: Seq<i16>, xs: Seq<i16>, cap: nat) -> Seq<i16> {
    if s.len() + xs.len() <= cap {
        s + xs
    } else if xs.len() >= cap {
        xs.skip(xs.len() - cap)
    } else {
        (s + xs).skip(s.len() + xs.len() - cap)
    }
}

/// Bounded FIFO sample buffer with ring eviction.
pub struct UtteranceBuffer {
    ring: HeapCircularBuffer<i16>,
}

impl UtteranceBuffer {
    /// The buffered samples, oldest first.
    pub closed spec fn view(&self) -> Seq<i16> {
        ring_contents(self.ring)
    }

    /// The capacity the buffer was created with.
    pub closed spec fn capacity(&self) -> nat {
        ring_capacity(self.ring)
    }

    /// The buffer never holds more than its capacity.
    pub closed spec fn wf(&self) -> bool {
        self.view().len() <= self.capacity()
    }

    /// An empty buffer that will keep the most recent `capacity` samples.
    pub fn new(capacity: usize) -> (b: UtteranceBuffer)
        ensures
            b.view() == Seq::<i16>::empty(),
            b.capacity() == capacity as nat,
            b.wf(),
    {
        UtteranceBuffer { ring: ring_with_capacity(capacity) }
    }

    /// Occupied sample count.
    pub fn len(&self) -> (n: usize)
        ensures
            n as nat == self.view().len(),
    {
        ring_len(&self.ring)
    }

    /// Append samples at the tail, evicting from the head once the capacity
    /// is passed: afterwards the buffer holds exactly the last `capacity`
    /// samples of the old contents followed by `samples`, in order.
    pub fn append(&mut self, samples: &Vec<i16>)
        requires
            old(self).wf(),
        ensures
            final(self).wf(),
            final(self).capacity() == old(self).capacity(),
            final(self).view() == ring_append_spec(old(self).view(), samples@, old(self).capacity()),
    {
        let ghost cap = ring_capacity(self.ring);
        let ghost s0 = ring_contents(self.ring);
        let n = samples.len();
        let mut i: usize = 0;
        while i < n
            invariant
                i <= n,
                n == samples@.len(),
                ring_capacity(self.ring) == cap,
                ring_contents(self.ring).len() <= cap,
                ring_contents(self.ring) == ring_append_spec(s0, samples@.take(i as int), cap),
                s0.len() <= cap,
            decreases n - i,
        {
            let ghost before = ring_contents(self.ring);
            let x = samples[i];
            let _evicted = ring_push_back(&mut self.ring, x);
            proof {
                assert(ring_contents(self.ring) == ring_push_spec(before, x, cap));
                lemma_ring_append_step(s0, samples@, i as int, cap);
                assert(samples@.take(i as int).push(samples@[i as int]) =~= samples@.take(i + 1));
            }
            i += 1;
        }
        proof {
            assert(samples@.take(n as int) =~= samples@);
        }
    }

    /// Atomically remove and return every buffered sample, oldest first,
    /// leaving the buffer empty. On an empty buffer this returns an empty
    /// vector, and repeating it returns an empty vector again.
    pub fn drain_all(&mut self) -> (out: Vec<i16>)
        requires
            old(self).wf(),
        ensures
            final(self).wf(),
            final(self).capacity() == old(self).capacity(),
            out@ == old(self).view(),
            final(self).view() == Seq::<i16>::empty(),
    {
        let ghost s0 = ring_contents(self.ring);
        let mut out: Vec<i16> = Vec::new();
        loop
            invariant
                s0 == old(self).view(),
                ring_capacity(self.ring) == ring_capacity(old(self).ring),
                out@ + ring_contents(self.ring) == s0,
                ring_contents(self.ring).len() <= s0.len(),
            decreases ring_contents(self.ring).len(),
        {
            let ghost before = ring_contents(self.ring);
            match ring_pop_front(&mut self.ring) {
                Some(x) => {
                    out.push(x);
                    proof {
                        assert(out@ + ring_contents(self.ring) =~= s0) by {
                            assert(before == ring_contents(self.ring).insert(0, x));
                            assert(before =~= seq![x] + ring_contents(self.ring));
                        }
                    }
                }
                None => {
                    proof {
                        assert(out@ + ring_contents(self.ring) =~= out@);
                        assert(out@ =~= s0);
                        assert(ring_contents(self.ring) =~= Seq::<i16>::empty());
                    }
                    return out;
                }
            }
        }
    }
}

/// Pushing one more sample keeps the "last `cap` of the concatenation" shape.
proof fn lemma_ring_append_step(s0: Seq<i16>, xs: Seq<i16>, i: int, cap: nat)
    requires
        s0.len() <= cap,
        0 <= i < xs.len(),
    ensures
        ring_push_spec(ring_append_spec(s0, xs.take(i), cap), xs[i], cap)
            == ring_append_spec(s0, xs.take(i + 1), cap),
{
    let a = ring_append_spec(s0, xs.take(i), cap);
    let b = ring_append_spec(s0, xs.take(i + 1), cap);
    assert(xs.take(i + 1) =~= xs.take(i).push(xs[i]));
    if cap == 0 {
        assert(s0.len() == 0);
        assert(a =~= xs.take(i).skip(i));
        assert(a.len() == 0);
        assert(b =~= xs.take(i + 1).skip(i + 1));
        assert(ring_push_spec(a, xs[i], cap) =~= b);
    } else if s0.len() + i < cap {
        assert(a == s0 + xs.take(i));
        assert(a.len() < cap);
        assert(ring_push_spec(a, xs[i], cap) == a.push(xs[i]));
        assert(a.push(xs[i]) =~= ring_append_spec(s0, xs.take(i + 1), cap));
    } else {
        assert(a.len() == cap);
        assert(ring_push_spec(a, xs[i], cap) == a.drop_first().push(xs[i]));
        assert(a.drop_first().push(xs[i]) =~= b);
    }
}

/// Law: consecutive appends compose: what the buffer holds after appending
/// `xs` and then `ys` is what it would hold after appending `xs + ys` in one
/// call, so a drain returns exactly the samples appended since the previous
/// drain, in order, modulo eviction of the oldest.
pub proof fn lemma_ring_append_compose(s: Seq<i16>, xs: Seq<i16>, ys: Seq<i16>, cap: nat)
    requires
        s.len() <= cap,
    ensures
        ring_append_spec(ring_append_spec(s, xs, cap), ys, cap)
            == ring_append_spec(s, xs + ys, cap),
    decreases ys.len(),
{
    if ys.len() == 0 {
        let a = ring_append_spec(s, xs, cap);
        assert(a.len() <= cap);
        assert(ring_append_spec(a, ys, cap) =~= a);
        assert(xs + ys =~= xs);
    } else {
        let ys0 = ys.drop_last();
        let y = ys.last();
        lemma_ring_append_compose(s, xs, ys0, cap);
        let a = ring_append_spec(s, xs, cap);
        assert(a.len() <= cap);
        // One more push on each side.
        lemma_ring_append_step(a, ys, ys.len() - 1, cap);
        assert(ys.take(ys.len() - 1) =~= ys0);
        assert(ys.take(ys.len() as int) =~= ys);
        lemma_ring_append_step(s, xs + ys, xs.len() + ys.len() - 1, cap);
        assert((xs + ys).take(xs.len() + ys.len() - 1) =~= xs + ys0);
        assert((xs + ys).take((xs + ys).len() as int) =~= xs + ys);
        assert((xs + ys)[xs.len() + ys.len() - 1] == y);
        assert(ys[ys.len() - 1] == y);
    }
}

/// Law: appending `capacity + k` samples to an empty buffer leaves exactly
/// the last `capacity` samples, in order.
pub proof fn lemma_ring_keeps_most_recent(xs: Seq<i16>, cap: nat)
    requires
        xs.len() >= cap,
    ensures
        ring_append_spec(Seq::<i16>::empty(), xs, cap) == xs.skip(xs.len() - cap),
{
    if xs.len() == cap {
        assert(ring_append_spec(Seq::<i16>::empty(), xs, cap) =~= xs.skip(xs.len() - cap));
    }
}

} // verus!
