//! Tiered pool of sample buffers.
//!
//! The pool keeps four free lists of buffers, one for each size tier, filled
//! when it is made. A buffer is taken from the smallest tier that holds the
//! length asked for and goes back to that tier's list, filled with silence,
//! when it is released. A drained tier is served from the heap.

use std::collections::VecDeque;
use vstd::prelude::*;

verus! {

/// Size class of a pooled buffer.
#[derive(Debug, Clone, Copy, PartialEq, Eq, Structural)]
pub enum PoolTier {
    Small,
    Medium,
    Large,
    Huge,
}

impl PoolTier {
    /// Samples in a buffer of the tier.
    pub open spec fn spec_size(&self) -> nat {
        match self {
            PoolTier::Small => 512,
            PoolTier::Medium => 2048,
            PoolTier::Large => 8192,
            PoolTier::Huge => 65536,
        }
    }

    /// Buffers that the tier's free list holds at most, and holds at the start.
    pub open spec fn spec_count(&self) -> nat {
        match self {
            PoolTier::Small => 128,
            PoolTier::Medium => 64,
            PoolTier::Large => 32,
            PoolTier::Huge => 8,
        }
    }

    /// The smallest tier whose buffers hold `samples` samples; `Huge` where none does.
    pub open spec fn spec_for_samples(samples: nat) -> PoolTier {
        if samples <= 512 {
            PoolTier::Small
        } else if samples <= 2048 {
            PoolTier::Medium
        } else if samples <= 8192 {
            PoolTier::Large
        } else {
            PoolTier::Huge
        }
    }

    pub fn size(&self) -> (n: usize)
        ensures
            n == self.spec_size(),
    {
        match self {
            PoolTier::Small => 512,
            PoolTier::Medium => 2048,
            PoolTier::Large => 8192,
            PoolTier::Huge => 65536,
        }
    }

    pub fn count(&self) -> (n: usize)
        ensures
            n == self.spec_count(),
    {
        match self {
            PoolTier::Small => 128,
            PoolTier::Medium => 64,
            PoolTier::Large => 32,
            PoolTier::Huge => 8,
        }
    }

    /// The tier that serves a request for `samples` samples.
    pub fn for_samples(samples: usize) -> (tier: PoolTier)
        ensures
            tier == PoolTier::spec_for_samples(samples as nat),
            samples <= 65536 ==> samples <= tier.spec_size(),
            forall|other: PoolTier| samples <= other.spec_size() ==> tier.spec_size() <= other.spec_size(),
    {
        if samples <= PoolTier::Small.size() {
            PoolTier::Small
        } else if samples <= PoolTier::Medium.size() {
            PoolTier::Medium
        } else if samples <= PoolTier::Large.size() {
            PoolTier::Large
        } else {
            PoolTier::Huge
        }
    }
}

/// `n` samples of silence.
pub open spec fn silent<T>(n: nat, silence: T) -> Seq<T> {
    Seq::new(n, |i: int| silence)
}

/// A free list after a buffer was asked of it: the front buffer leaves.
pub open spec fn free_after_allocate<T>(free: Seq<Seq<T>>) -> Seq<Seq<T>> {
    if free.len() > 0 {
        free.drop_first()
    } else {
        free
    }
}

/// A free list of at most `cap` buffers after a buffer of `len` samples came
/// back: it joins the list, silenced, unless the list is full.
pub open spec fn free_after_release<T>(free: Seq<Seq<T>>, cap: nat, len: nat, silence: T) -> Seq<
    Seq<T>,
> {
    if free.len() < cap {
        free.push(silent(len, silence))
    } else {
        free
    }
}

/// A free list after each of `requests` was allocated and released again
/// before the next: `requests` holds the lengths asked for.
pub open spec fn free_after_pairs<T>(
    free: Seq<Seq<T>>,
    cap: nat,
    silence: T,
    requests: Seq<nat>,
) -> Seq<Seq<T>>
    decreases requests.len(),
{
    if requests.len() == 0 {
        free
    } else {
        free_after_release(
            free_after_allocate(free_after_pairs(free, cap, silence, requests.drop_last())),
            cap,
            requests.last(),
            silence,
        )
    }
}

/// Every buffer of the free list holds silence only.
pub open spec fn all_silent<T>(free: Seq<Seq<T>>, silence: T) -> bool {
    forall|i: int, j: int| 0 <= i < free.len() && 0 <= j < free[i].len() ==> free[i][j] == silence
}

/// Allocating and releasing in pairs loses no buffer and hoards none: a free
/// list that holds buffers at the start holds as many after any number of
/// pairs, never more than its cap, and every buffer in it is silent.
pub proof fn lemma_pairs_keep_free_list<T>(
    free: Seq<Seq<T>>,
    cap: nat,
    silence: T,
    requests: Seq<nat>,
)
    requires
        0 < free.len() <= cap,
        all_silent(free, silence),
    ensures
        free_after_pairs(free, cap, silence, requests).len() == free.len(),
        all_silent(free_after_pairs(free, cap, silence, requests), silence),
    decreases requests.len(),
{
    if requests.len() > 0 {
        lemma_pairs_keep_free_list(free, cap, silence, requests.drop_last());
    }
}

/// What the buffers of a list hold, buffer by buffer.
pub open spec fn contents<T>(list: Seq<Vec<T>>) -> Seq<Seq<T>> {
    Seq::new(list.len(), |i: int| list[i]@)
}

/// `Vec::capacity`: the number of elements that the vector can hold without
/// reallocating, which is never below its length.
#[verifier::external_body]
fn vec_capacity<T>(v: &Vec<T>) -> (c: usize)
    ensures
        c >= v@.len(),
{
    v.capacity()
}

/// A vector of `n` copies of `value`, allocated in one piece.
fn filled<T: Copy>(value: T, n: usize) -> (v: Vec<T>)
    ensures
        v@ == silent(n as nat, value),
{
    let mut v: Vec<T> = Vec::with_capacity(n);
    let mut i: usize = 0;
    while i < n
        invariant
            i <= n,
            v@ == silent(i as nat, value),
        decreases n - i,
    {
        v.push(value);
        i += 1;
        assert(v@ =~= silent(i as nat, value));
    }
    v
}

/// A buffer on loan from the pool. It holds as many samples as were asked
/// for and remembers the tier that it goes back to.
pub struct PooledBuffer<T> {
    data: Vec<T>,
    tier: PoolTier,
}

impl<T> View for PooledBuffer<T> {
    type V = Seq<T>;

    closed spec fn view(&self) -> Seq<T> {
        self.data@
    }
}

impl<T: Copy> PooledBuffer<T> {
    /// The tier that the buffer goes back to.
    pub closed spec fn spec_tier(&self) -> PoolTier {
        self.tier
    }

    pub fn tier(&self) -> (tier: PoolTier)
        ensures
            tier == self.spec_tier(),
    {
        self.tier
    }

    /// The samples, for writing. The length cannot change.
    pub fn as_mut_slice(&mut self) -> (slice: &mut [T])
        ensures
            slice@ == old(self)@,
            final(self)@ == final(slice)@,
            final(self).spec_tier() == old(self).spec_tier(),
    {
        self.data.as_mut_slice()
    }

    /// The samples.
    pub fn as_slice(&self) -> (slice: &[T])
        ensures
            slice@ == self@,
    {
        self.data.as_slice()
    }

    /// Number of samples.
    pub fn len(&self) -> (n: usize)
        ensures
            n == self@.len(),
    {
        self.data.len()
    }

    /// Samples that the storage holds without growing: at least `len()`. For a
    /// buffer from a free list this is what the storage was made with.
    pub fn capacity(&self) -> (c: usize)
        ensures
            c >= self@.len(),
    {
        vec_capacity(&self.data)
    }
}

/// Counters and free-list lengths of a pool.
#[derive(Debug, Clone)]
pub struct PoolStats {
    pub allocations: usize,
    pub deallocations: usize,
    pub heap_fallbacks: usize,
    pub small_available: usize,
    pub medium_available: usize,
    pub large_available: usize,
    pub huge_available: usize,
}

/// The pool: four free lists, the sample value that stands for silence, and
/// advisory counters that stop at `usize::MAX`.
pub struct AudioMemoryPool<T> {
    small_pool: VecDeque<Vec<T>>,
    medium_pool: VecDeque<Vec<T>>,
    large_pool: VecDeque<Vec<T>>,
    huge_pool: VecDeque<Vec<T>>,
    silence: T,
    allocations: usize,
    deallocations: usize,
    heap_fallbacks: usize,
}

/// A counter after one more event.
pub open spec fn counted(n: usize) -> usize {
    if n < usize::MAX {
        (n + 1) as usize
    } else {
        n
    }
}

impl<T: Copy> AudioMemoryPool<T> {
    /// The contents of the buffers on the free list of `tier`, front first.
    pub closed spec fn free_list(&self, tier: PoolTier) -> Seq<Seq<T>> {
        match tier {
            PoolTier::Small => contents(self.small_pool@),
            PoolTier::Medium => contents(self.medium_pool@),
            PoolTier::Large => contents(self.large_pool@),
            PoolTier::Huge => contents(self.huge_pool@),
        }
    }

    /// The sample value that released buffers are filled with.
    pub closed spec fn spec_silence(&self) -> T {
        self.silence
    }

    pub closed spec fn spec_allocations(&self) -> usize {
        self.allocations
    }

    pub closed spec fn spec_deallocations(&self) -> usize {
        self.deallocations
    }

    pub closed spec fn spec_heap_fallbacks(&self) -> usize {
        self.heap_fallbacks
    }

    /// No free list is longer than its tier's count, and every buffer on a
    /// free list holds silence only.
    pub open spec fn wf(&self) -> bool {
        forall|tier: PoolTier|
            #![trigger self.free_list(tier)]
            {
                &&& self.free_list(tier).len() <= tier.spec_count()
                &&& all_silent(self.free_list(tier), self.spec_silence())
            }
    }

    /// The free lists as they are when the pool is made: for each tier its
    /// count of buffers, each of the tier's size and silent.
    pub open spec fn is_fresh(&self) -> bool {
        forall|tier: PoolTier|
            #![trigger self.free_list(tier)]
            self.free_list(tier) == Seq::new(
                tier.spec_count(),
                |i: int| silent(tier.spec_size(), self.spec_silence()),
            )
    }

    /// `count` buffers of `size` samples of silence.
    fn preallocate(silence: T, size: usize, count: usize) -> (list: VecDeque<Vec<T>>)
        ensures
            contents(list@) == Seq::new(
                count as nat,
                |i: int| silent(size as nat, silence),
            ),
    {
        let mut list: VecDeque<Vec<T>> = VecDeque::new();
        let mut i: usize = 0;
        while i < count
            invariant
                i <= count,
                contents(list@) == Seq::new(
                    i as nat,
                    |k: int| silent(size as nat, silence),
                ),
            decreases count - i,
        {
            let ghost before = list@;
            let buffer = filled(silence, size);
            list.push_back(buffer);
            i += 1;
            proof {
                let wanted = Seq::new(i as nat, |k: int| silent(size as nat, silence));
                assert(contents(before).len() == before.len());
                assert(list@ == before.push(buffer));
                assert(contents(list@).len() == wanted.len());
                assert forall|k: int| 0 <= k < i implies #[trigger] contents(list@)[k]
                    == wanted[k] by {
                    if k < i - 1 {
                        assert(contents(before)[k] == silent(size as nat, silence));
                        assert(list@[k] == before[k]);
                    }
                }
                assert(contents(list@) =~= wanted);
            }
        }
        list
    }

    /// A pool with every free list full of silent buffers and all counters at 0.
    pub fn new(silence: T) -> (pool: Self)
        ensures
            pool.wf(),
            pool.is_fresh(),
            pool.spec_silence() == silence,
            pool.spec_allocations() == 0,
            pool.spec_deallocations() == 0,
            pool.spec_heap_fallbacks() == 0,
    {
        AudioMemoryPool {
            small_pool: Self::preallocate(
                silence,
                PoolTier::Small.size(),
                PoolTier::Small.count(),
            ),
            medium_pool: Self::preallocate(
                silence,
                PoolTier::Medium.size(),
                PoolTier::Medium.count(),
            ),
            large_pool: Self::preallocate(
                silence,
                PoolTier::Large.size(),
                PoolTier::Large.count(),
            ),
            huge_pool: Self::preallocate(silence, PoolTier::Huge.size(), PoolTier::Huge.count()),
            silence,
            allocations: 0,
            deallocations: 0,
            heap_fallbacks: 0,
        }
    }

    /// Takes the front buffer from the free list of `tier`, if there is one.
    fn take_free(&mut self, tier: PoolTier) -> (taken: Option<Vec<T>>)
        ensures
            final(self).free_list(tier) == free_after_allocate(old(self).free_list(tier)),
            forall|other: PoolTier|
                other != tier ==> final(self).free_list(other) == old(self).free_list(other),
            final(self).spec_silence() == old(self).spec_silence(),
            final(self).spec_allocations() == old(self).spec_allocations(),
            final(self).spec_deallocations() == old(self).spec_deallocations(),
            final(self).spec_heap_fallbacks() == old(self).spec_heap_fallbacks(),
            taken is Some <==> old(self).free_list(tier).len() > 0,
            taken matches Some(v) ==> v@ == old(self).free_list(tier)[0],
    {
        let taken = match tier {
            PoolTier::Small => self.small_pool.pop_front(),
            PoolTier::Medium => self.medium_pool.pop_front(),
            PoolTier::Large => self.large_pool.pop_front(),
            PoolTier::Huge => self.huge_pool.pop_front(),
        };
        assert(self.free_list(tier) =~= free_after_allocate(old(self).free_list(tier)));
        taken
    }

    /// Puts `buffer` at the back of the free list of `tier`.
    fn put_free(&mut self, tier: PoolTier, buffer: Vec<T>)
        ensures
            final(self).free_list(tier) == old(self).free_list(tier).push(buffer@),
            forall|other: PoolTier|
                other != tier ==> final(self).free_list(other) == old(self).free_list(other),
            final(self).spec_silence() == old(self).spec_silence(),
            final(self).spec_allocations() == old(self).spec_allocations(),
            final(self).spec_deallocations() == old(self).spec_deallocations(),
            final(self).spec_heap_fallbacks() == old(self).spec_heap_fallbacks(),
    {
        match tier {
            PoolTier::Small => self.small_pool.push_back(buffer),
            PoolTier::Medium => self.medium_pool.push_back(buffer),
            PoolTier::Large => self.large_pool.push_back(buffer),
            PoolTier::Huge => self.huge_pool.push_back(buffer),
        };
        assert(self.free_list(tier) =~= old(self).free_list(tier).push(buffer@));
    }

    /// Number of buffers on the free list of `tier`.
    fn free_count(&self, tier: PoolTier) -> (n: usize)
        ensures
            n == self.free_list(tier).len(),
    {
        match tier {
            PoolTier::Small => self.small_pool.len(),
            PoolTier::Medium => self.medium_pool.len(),
            PoolTier::Large => self.large_pool.len(),
            PoolTier::Huge => self.huge_pool.len(),
        }
    }

    /// A buffer of `samples` samples of silence.
    ///
    /// It comes from the free list of the smallest tier that holds `samples`
    /// (of `Huge` where none does), resized in place; where that list is
    /// empty it is allocated afresh and the fallback is counted.
    pub fn allocate(&mut self, samples: usize) -> (buffer: PooledBuffer<T>)
        requires
            old(self).wf(),
        ensures
            final(self).wf(),
            buffer@ == silent(samples as nat, old(self).spec_silence()),
            buffer.spec_tier() == PoolTier::spec_for_samples(samples as nat),
            final(self).free_list(buffer.spec_tier()) == free_after_allocate(
                old(self).free_list(buffer.spec_tier()),
            ),
            forall|other: PoolTier|
                other != buffer.spec_tier() ==> final(self).free_list(other) == old(
                    self,
                ).free_list(other),
            final(self).spec_silence() == old(self).spec_silence(),
            final(self).spec_allocations() == counted(old(self).spec_allocations()),
            final(self).spec_deallocations() == old(self).spec_deallocations(),
            final(self).spec_heap_fallbacks() == if old(self).free_list(
                buffer.spec_tier(),
            ).len() > 0 {
                old(self).spec_heap_fallbacks()
            } else {
                counted(old(self).spec_heap_fallbacks())
            },
    {
        let tier = PoolTier::for_samples(samples);
        let ghost free = self.free_list(tier);
        let ghost silence = self.silence;
        self.allocations = self.allocations.saturating_add(1);
        assert(forall|t: PoolTier| self.free_list(t) == old(self).free_list(t));
        let data = match self.take_free(tier) {
            Some(mut buffer) => {
                assert forall|j: int| 0 <= j < buffer@.len() implies buffer@[j] == silence by {
                    assert(free[0][j] == silence);
                }
                buffer.truncate(samples);
                let mut i: usize = buffer.len();
                while i < samples
                    invariant
                        i <= samples,
                        buffer@.len() == i,
                        silence == self.silence,
                        forall|j: int| 0 <= j < i ==> buffer@[j] == silence,
                    decreases samples - i,
                {
                    buffer.push(self.silence);
                    i += 1;
                }
                assert(buffer@ =~= silent(samples as nat, silence));
                buffer
            },
            None => {
                let ghost taken = *self;
                self.heap_fallbacks = self.heap_fallbacks.saturating_add(1);
                assert(forall|t: PoolTier| self.free_list(t) == taken.free_list(t));
                filled(self.silence, samples)
            },
        };
        proof {
            assert forall|t: PoolTier|
                #![trigger self.free_list(t)]
                self.free_list(t).len() <= t.spec_count() && all_silent(
                    self.free_list(t),
                    self.spec_silence(),
                ) by {
                let before = old(self).free_list(t);
                assert(all_silent(before, silence));
                if t == tier && before.len() > 0 {
                    assert forall|i: int, j: int|
                        0 <= i < self.free_list(t).len() && 0 <= j < self.free_list(
                            t,
                        )[i].len() implies self.free_list(t)[i][j] == silence by {
                        assert(before[i + 1][j] == silence);
                    }
                }
            }
        }
        PooledBuffer { data, tier }
    }

    /// Takes `buffer` back: it is filled with silence and joins the free list
    /// of its tier, unless that list is full, in which case its storage is freed.
    pub fn release(&mut self, buffer: PooledBuffer<T>)
        requires
            old(self).wf(),
        ensures
            final(self).wf(),
            final(self).free_list(buffer.spec_tier()) == free_after_release(
                old(self).free_list(buffer.spec_tier()),
                buffer.spec_tier().spec_count(),
                buffer@.len(),
                old(self).spec_silence(),
            ),
            forall|other: PoolTier|
                other != buffer.spec_tier() ==> final(self).free_list(other) == old(
                    self,
                ).free_list(other),
            final(self).spec_silence() == old(self).spec_silence(),
            final(self).spec_allocations() == old(self).spec_allocations(),
            final(self).spec_deallocations() == counted(old(self).spec_deallocations()),
            final(self).spec_heap_fallbacks() == old(self).spec_heap_fallbacks(),
    {
        let tier = buffer.tier;
        let mut data = buffer.data;
        let n = data.len();
        let mut i: usize = 0;
        while i < n
            invariant
                i <= n,
                data@.len() == n,
                forall|j: int| 0 <= j < i ==> data@[j] == self.silence,
            decreases n - i,
        {
            data[i] = self.silence;
            i += 1;
        }
        assert(data@ =~= silent(n as nat, self.silence));
        let ghost silence = self.silence;
        self.deallocations = self.deallocations.saturating_add(1);
        assert(forall|t: PoolTier| self.free_list(t) == old(self).free_list(t));
        if self.free_count(tier) < tier.count() {
            self.put_free(tier, data);
        }
        proof {
            assert forall|t: PoolTier|
                #![trigger self.free_list(t)]
                self.free_list(t).len() <= t.spec_count() && all_silent(
                    self.free_list(t),
                    self.spec_silence(),
                ) by {
                let before = old(self).free_list(t);
                assert(all_silent(before, silence));
                if t == tier && before.len() < t.spec_count() {
                    assert forall|i: int, j: int|
                        0 <= i < self.free_list(t).len() && 0 <= j < self.free_list(
                            t,
                        )[i].len() implies self.free_list(t)[i][j] == silence by {
                        if i < before.len() {
                            assert(before[i][j] == silence);
                        }
                    }
                }
            }
        }
    }

    /// The counters and the lengths of the free lists.
    pub fn stats(&self) -> (stats: PoolStats)
        requires
            self.wf(),
        ensures
            stats.allocations == self.spec_allocations(),
            stats.deallocations == self.spec_deallocations(),
            stats.heap_fallbacks == self.spec_heap_fallbacks(),
            stats.small_available == self.free_list(PoolTier::Small).len() <= 128,
            stats.medium_available == self.free_list(PoolTier::Medium).len() <= 64,
            stats.large_available == self.free_list(PoolTier::Large).len() <= 32,
            stats.huge_available == self.free_list(PoolTier::Huge).len() <= 8,
    {
        PoolStats {
            allocations: self.allocations,
            deallocations: self.deallocations,
            heap_fallbacks: self.heap_fallbacks,
            small_available: self.free_count(PoolTier::Small),
            medium_available: self.free_count(PoolTier::Medium),
            large_available: self.free_count(PoolTier::Large),
            huge_available: self.free_count(PoolTier::Huge),
        }
    }

    /// Sets the three counters back to 0. The free lists stay as they are.
    pub fn reset_stats(&mut self)
        ensures
            forall|tier: PoolTier| final(self).free_list(tier) == old(self).free_list(tier),
            final(self).spec_silence() == old(self).spec_silence(),
            final(self).spec_allocations() == 0,
            final(self).spec_deallocations() == 0,
            final(self).spec_heap_fallbacks() == 0,
    {
        self.allocations = 0;
        self.deallocations = 0;
        self.heap_fallbacks = 0;
    }
}

} // verus!
