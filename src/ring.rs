//! The capture ring: a bounded buffer of samples kept in arrival order.
//!
//! A sample is carried as the bit pattern of an IEEE-754 single-precision
//! value (`f32::to_bits` on the audio side), so the ring copies it exactly.
use vstd::prelude::*;

verus! {

/// Heap ring buffer of `ringbuf`, seen by proofs only through
/// `store_contents` and `store_capacity`.
#[verifier::external_body]
pub struct SampleStore {
    rb: ringbuf::HeapRb<u32>,
}

/// What the store holds, oldest first.
pub uninterp spec fn store_contents(s: SampleStore) -> Seq<u32>;

/// The capacity the store was made with.
pub uninterp spec fn store_capacity(s: SampleStore) -> nat;

impl SampleStore {
    /// Relies on `HeapRb::new`: an empty ring of that capacity (it panics on zero).
    #[verifier::external_body]
    fn with_capacity(capacity: usize) -> (r: SampleStore)
        requires
            capacity > 0,
        ensures
            store_contents(r) == Seq::<u32>::empty(),
            store_capacity(r) == capacity,
    {
        SampleStore { rb: ringbuf::HeapRb::<u32>::new(capacity) }
    }

    /// Relies on `Rb::len`: the number of items stored.
    #[verifier::external_body]
    fn len(&self) -> (r: usize)
        ensures
            r == store_contents(*self).len(),
    {
        ringbuf::Rb::len(&self.rb)
    }

    /// Relies on `Rb::capacity`: the capacity given at construction.
    #[verifier::external_body]
    fn capacity(&self) -> (r: usize)
        ensures
            r == store_capacity(*self),
    {
        ringbuf::Rb::capacity(&self.rb)
    }

    /// Relies on `Rb::push_overwrite`: when the ring is full the oldest item is
    /// popped first, then the new one is appended.
    #[verifier::external_body]
    fn push_overwrite(&mut self, x: u32)
        ensures
            store_capacity(*final(self)) == store_capacity(*old(self)),
            store_contents(*final(self)) == (if store_contents(*old(self)).len()
                == store_capacity(*old(self)) {
                store_contents(*old(self)).drop_first().push(x)
            } else {
                store_contents(*old(self)).push(x)
            }),
    {
        ringbuf::Rb::push_overwrite(&mut self.rb, x);
    }

    /// Relies on `Rb::clear`: every item is removed.
    #[verifier::external_body]
    fn clear(&mut self)
        ensures
            store_capacity(*final(self)) == store_capacity(*old(self)),
            store_contents(*final(self)) == Seq::<u32>::empty(),
    {
        ringbuf::Rb::clear(&mut self.rb);
    }

    /// Relies on `Rb::iter`: the items front to back, copied out.
    #[verifier::external_body]
    fn to_vec(&self) -> (r: Vec<u32>)
        ensures
            r@ == store_contents(*self),
    {
        ringbuf::Rb::iter(&self.rb).copied().collect()
    }
}

/// How a ring admits a new sample once it is full.
#[derive(Clone, Copy, Debug, PartialEq, Eq, Structural)]
pub enum FillMode {
    /// Before alignment: a push that fills the ring empties it instead, so
    /// stale audio never piles up.
    DropWhenFull,
    /// After alignment: the oldest sample is evicted for the new one.
    OverwriteOldest,
}

/// The contents after one push of `x` into a ring of capacity `cap` holding `s`.
pub open spec fn after_push(mode: FillMode, cap: nat, s: Seq<u32>, x: u32) -> Seq<u32> {
    match mode {
        FillMode::DropWhenFull => if s.len() + 1 >= cap {
            Seq::empty()
        } else {
            s.push(x)
        },
        FillMode::OverwriteOldest => if s.len() >= cap {
            s.drop_first().push(x)
        } else {
            s.push(x)
        },
    }
}

/// The contents after pushing every sample of `xs`, in order.
pub open spec fn after_pushes(mode: FillMode, cap: nat, s: Seq<u32>, xs: Seq<u32>) -> Seq<u32>
    decreases xs.len(),
{
    if xs.len() == 0 {
        s
    } else {
        after_push(mode, cap, after_pushes(mode, cap, s, xs.drop_last()), xs.last())
    }
}

/// The newest `n` samples of `s` (all of them when there are fewer).
pub open spec fn newest(s: Seq<u32>, n: nat) -> Seq<u32> {
    if s.len() <= n {
        s
    } else {
        s.subrange(s.len() - n, s.len() as int)
    }
}

/// A fixed-capacity sample buffer, for one producer and one consumer.
pub struct CaptureRing {
    store: SampleStore,
    mode: FillMode,
}

impl View for CaptureRing {
    type V = Seq<u32>;

    closed spec fn view(&self) -> Seq<u32> {
        store_contents(self.store)
    }
}

impl CaptureRing {
    /// The fixed capacity.
    pub closed spec fn cap(&self) -> nat {
        store_capacity(self.store)
    }

    /// The current fill mode.
    pub closed spec fn fill_mode(&self) -> FillMode {
        self.mode
    }

    /// Well-formed: a positive capacity, never exceeded.
    pub closed spec fn wf(&self) -> bool {
        &&& 0 < store_capacity(self.store)
        &&& store_contents(self.store).len() <= store_capacity(self.store)
    }

    /// An empty ring of `capacity` samples, in the pre-alignment mode.
    pub fn new(capacity: usize) -> (r: CaptureRing)
        requires
            capacity > 0,
        ensures
            r.wf(),
            r@ == Seq::<u32>::empty(),
            r.cap() == capacity,
            r.fill_mode() == FillMode::DropWhenFull,
    {
        CaptureRing { store: SampleStore::with_capacity(capacity), mode: FillMode::DropWhenFull }
    }

    /// Number of samples held.
    pub fn len(&self) -> (r: usize)
        ensures
            r == self@.len(),
    {
        self.store.len()
    }

    /// The fixed capacity.
    pub fn capacity(&self) -> (r: usize)
        ensures
            r == self.cap(),
    {
        self.store.capacity()
    }

    /// The current fill mode.
    pub fn mode(&self) -> (r: FillMode)
        ensures
            r == self.fill_mode(),
    {
        self.mode
    }

    /// Stores one sample, making room as the fill mode says.
    pub fn push(&mut self, sample: u32)
        requires
            old(self).wf(),
        ensures
            final(self).wf(),
            final(self).cap() == old(self).cap(),
            final(self).fill_mode() == old(self).fill_mode(),
            final(self)@ == after_push(old(self).fill_mode(), old(self).cap(), old(self)@, sample),
    {
        if self.mode == FillMode::DropWhenFull && self.store.len() >= self.store.capacity() - 1 {
            self.store.clear();
        } else {
            self.store.push_overwrite(sample);
        }
    }

    /// Stores every sample of `samples`, in order.
    pub fn push_all(&mut self, samples: &[u32])
        requires
            old(self).wf(),
        ensures
            final(self).wf(),
            final(self).cap() == old(self).cap(),
            final(self).fill_mode() == old(self).fill_mode(),
            final(self)@ == after_pushes(old(self).fill_mode(), old(self).cap(), old(self)@, samples@),
    {
        let ghost start = self@;
        let mut i: usize = 0;
        while i < samples.len()
            invariant
                i <= samples@.len(),
                self.wf(),
                self.cap() == old(self).cap(),
                self.fill_mode() == old(self).fill_mode(),
                self@ == after_pushes(old(self).fill_mode(), old(self).cap(), start, samples@.take(i as int)),
            decreases samples@.len() - i,
        {
            self.push(samples[i]);
            assert(samples@.take(i + 1).drop_last() == samples@.take(i as int));
            i = i + 1;
        }
        assert(samples@.take(i as int) == samples@);
    }

    /// Empties the ring; capacity and mode stay.
    pub fn clear(&mut self)
        requires
            old(self).wf(),
        ensures
            final(self).wf(),
            final(self).cap() == old(self).cap(),
            final(self).fill_mode() == old(self).fill_mode(),
            final(self)@ == Seq::<u32>::empty(),
    {
        self.store.clear();
    }

    /// Switches to overwriting the oldest sample; there is no way back.
    pub fn enter_overwrite_mode(&mut self)
        requires
            old(self).wf(),
        ensures
            final(self).wf(),
            final(self).cap() == old(self).cap(),
            final(self)@ == old(self)@,
            final(self).fill_mode() == FillMode::OverwriteOldest,
    {
        self.mode = FillMode::OverwriteOldest;
    }

    /// A copy of the contents, oldest first.
    pub fn snapshot(&self) -> (r: Vec<u32>)
        ensures
            r@ == self@,
    {
        self.store.to_vec()
    }

    /// The newest `n` samples, oldest first; `None` when fewer are held.
    pub fn tail(&self, n: usize) -> (r: Option<Vec<u32>>)
        ensures
            r is None <==> self@.len() < n,
            r matches Some(v) ==> v@ == newest(self@, n as nat),
    {
        let all = self.store.to_vec();
        if all.len() < n {
            return None;
        }
        let start: usize = all.len() - n;
        let mut out: Vec<u32> = Vec::with_capacity(n);
        let mut i: usize = start;
        while i < all.len()
            invariant
                start <= i <= all@.len(),
                start == all@.len() - n,
                out@ == all@.subrange(start as int, i as int),
            decreases all@.len() - i,
        {
            out.push(all[i]);
            i = i + 1;
        }
        Some(out)
    }
}

/// Pushes never take a ring past its capacity.
pub proof fn lemma_pushes_within_capacity(mode: FillMode, cap: nat, s: Seq<u32>, xs: Seq<u32>)
    requires
        0 < cap,
        s.len() <= cap,
    ensures
        after_pushes(mode, cap, s, xs).len() <= cap,
    decreases xs.len(),
{
    if xs.len() > 0 {
        lemma_pushes_within_capacity(mode, cap, s, xs.drop_last());
    }
}

/// Whatever was done to a well-formed ring, it holds between zero and
/// `capacity` samples.
pub proof fn lemma_len_within_capacity(ring: &CaptureRing)
    requires
        ring.wf(),
    ensures
        0 < ring.cap(),
        0 <= ring@.len() <= ring.cap(),
{
}

/// Reads keep arrival order: after any pushes, in either mode, the ring holds
/// the newest samples of everything it held and was given, as one unbroken
/// run, oldest first.
pub proof fn lemma_pushes_keep_order(mode: FillMode, cap: nat, s: Seq<u32>, xs: Seq<u32>)
    requires
        0 < cap,
    ensures
        ({
            let r = after_pushes(mode, cap, s, xs);
            let all = s + xs;
            r.len() <= all.len() && r == all.subrange(all.len() - r.len(), all.len() as int)
        }),
    decreases xs.len(),
{
    let all = s + xs;
    if xs.len() == 0 {
        assert(all == s);
        assert(s == all.subrange(0, all.len() as int));
    } else {
        let prev = after_pushes(mode, cap, s, xs.drop_last());
        let before = s + xs.drop_last();
        lemma_pushes_keep_order(mode, cap, s, xs.drop_last());
        assert(all == before.push(xs.last()));
        let r = after_pushes(mode, cap, s, xs);
        let grows = match mode {
            FillMode::DropWhenFull => prev.len() + 1 < cap,
            FillMode::OverwriteOldest => prev.len() < cap,
        };
        if !grows {
            match mode {
                FillMode::DropWhenFull => {
                    assert(r =~= all.subrange(all.len() as int, all.len() as int));
                },
                FillMode::OverwriteOldest => {
                    assert(r =~= all.subrange(all.len() - prev.len(), all.len() as int));
                },
            }
        } else {
            assert(r =~= all.subrange(all.len() - prev.len() - 1, all.len() as int));
        }
    }
}

/// Before alignment a ring filled from empty is emptied by each push that
/// fills it: after `n` pushes it holds `n % capacity` samples, so it is empty
/// at the `capacity`-th push and never holds `capacity` samples.
pub proof fn lemma_drop_when_full_len(cap: nat, xs: Seq<u32>)
    requires
        0 < cap,
    ensures
        after_pushes(FillMode::DropWhenFull, cap, Seq::empty(), xs).len() == xs.len() as int % (
        cap as int),
        after_pushes(FillMode::DropWhenFull, cap, Seq::empty(), xs).len() < cap,
    decreases xs.len(),
{
    let n = xs.len() as int;
    let c = cap as int;
    if n == 0 {
        vstd::arithmetic::div_mod::lemma_fundamental_div_mod_converse(0, c, 0, 0);
    } else {
        lemma_drop_when_full_len(cap, xs.drop_last());
        let r = (n - 1) % c;
        let q = (n - 1) / c;
        vstd::arithmetic::div_mod::lemma_fundamental_div_mod(n - 1, c);
        vstd::arithmetic::div_mod::lemma_mod_pos_bound(n - 1, c);
        if r + 1 < c {
            assert(n == q * c + (r + 1)) by (nonlinear_arith)
                requires
                    n - 1 == c * q + r,
            ;
            vstd::arithmetic::div_mod::lemma_fundamental_div_mod_converse(n, c, q, r + 1);
        } else {
            assert(n == (q + 1) * c) by (nonlinear_arith)
                requires
                    n - 1 == c * q + r,
                    r + 1 == c,
            ;
            vstd::arithmetic::div_mod::lemma_fundamental_div_mod_converse(n, c, q + 1, 0);
        }
    }
}

/// After alignment a ring slides: it holds the newest `capacity` samples of
/// what it held and was given.
pub proof fn lemma_overwrite_window(cap: nat, s: Seq<u32>, xs: Seq<u32>)
    requires
        0 < cap,
        s.len() <= cap,
    ensures
        after_pushes(FillMode::OverwriteOldest, cap, s, xs) == newest(s + xs, cap),
    decreases xs.len(),
{
    let all = s + xs;
    if xs.len() == 0 {
        assert(all == s);
    } else {
        let before = s + xs.drop_last();
        lemma_overwrite_window(cap, s, xs.drop_last());
        assert(all == before.push(xs.last()));
        let prev = newest(before, cap);
        if before.len() >= cap {
            assert(prev.drop_first().push(xs.last()) == newest(all, cap));
        }
    }
}

/// With `k <= capacity` pushes into a full ring after alignment, the new
/// contents are the old ones shifted left by `k`, with the `k` new samples
/// appended.
pub proof fn lemma_overwrite_shift(cap: nat, s: Seq<u32>, xs: Seq<u32>)
    requires
        0 < cap,
        s.len() == cap,
        xs.len() <= cap,
    ensures
        after_pushes(FillMode::OverwriteOldest, cap, s, xs) == s.subrange(xs.len() as int, cap as int)
            + xs,
{
    lemma_overwrite_window(cap, s, xs);
    assert(newest(s + xs, cap) == s.subrange(xs.len() as int, cap as int) + xs);
}

} // verus!
