//! Single-producer single-consumer ring buffer and its audio wrapper.
//!
//! The buffer keeps two counters that only ever grow and wrap in unsigned
//! arithmetic; a slot is found by masking a counter with `capacity - 1`. One
//! slot stays empty so that a full buffer can be told from an empty one.
//!
//! `LockFreeRingBuffer` is the queue as one owner sees it: every method that
//! changes it takes it exclusively. `plan_write` and `plan_read` are the
//! arithmetic of a bulk transfer on the bare counters; a host that shares a
//! ring between a producer and a consumer thread publishes the counters
//! itself and asks them where the elements go.

use vstd::arithmetic::div_mod::{
    lemma_fundamental_div_mod, lemma_mod_multiples_vanish, lemma_small_mod,
};
use vstd::arithmetic::power2::{lemma2_to64, lemma_pow2_adds, lemma_pow2_pos, lemma_pow2_strictly_increases, lemma_pow2_unfold, pow2};
use vstd::bits::{lemma_usize_low_bits_mask_is_mod, low_bits_mask};
use vstd::layout::unsigned_int_max_values;
use vstd::prelude::*;
use crate::ratio::Ratio;

verus! {

/// `n` is 1, 2, 4, 8, ...
pub open spec fn is_power_of_two(n: int) -> bool {
    exists|e: nat| n == pow2(e)
}

/// The powers of two are 1 and the doubles of the powers of two.
pub proof fn lemma_power_of_two_unfold(n: int)
    ensures
        is_power_of_two(n) <==> n == 1 || (n > 1 && n % 2 == 0 && is_power_of_two(n / 2)),
{
    if is_power_of_two(n) {
        let e = choose|e: nat| n == pow2(e);
        lemma_pow2_pos(e);
        if e == 0 {
            lemma2_to64();
        } else {
            lemma_pow2_unfold(e);
            assert(n / 2 == pow2((e - 1) as nat));
            lemma_pow2_pos((e - 1) as nat);
        }
    }
    if n == 1 {
        lemma2_to64();
        assert(n == pow2(0));
    }
    if n > 1 && n % 2 == 0 && is_power_of_two(n / 2) {
        let f = choose|f: nat| n / 2 == pow2(f);
        lemma_pow2_unfold(f + 1);
        assert(n == pow2(f + 1));
    }
}

/// The least power of two that is at least `n`.
pub open spec fn is_next_power_of_two(n: int, p: int) -> bool {
    &&& is_power_of_two(p)
    &&& n <= p
    &&& forall|q: int| is_power_of_two(q) && n <= q ==> p <= q
}

/// The largest capacity a buffer can have: the largest power of two that `usize` holds.
pub open spec fn max_capacity() -> int {
    usize::MAX / 2 + 1
}

proof fn lemma_usize_range()
    ensures
        usize::MAX + 1 == pow2(usize::BITS as nat),
        usize::MAX / 2 + 1 == pow2((usize::BITS - 1) as nat),
{
    unsigned_int_max_values();
    lemma_pow2_unfold(usize::BITS as nat);
}

/// A counter that wrapped around names the same slot as one that did not.
proof fn lemma_wrap_keeps_slot(a: int, e: nat)
    requires
        e < usize::BITS,
    ensures
        (a + usize::MAX + 1) % (pow2(e) as int) == a % (pow2(e) as int),
        (a - usize::MAX - 1) % (pow2(e) as int) == a % (pow2(e) as int),
{
    lemma_usize_range();
    let rest = (usize::BITS - e) as nat;
    lemma_pow2_adds(e, rest);
    lemma_pow2_pos(e);
    let c = pow2(e) as int;
    let k = pow2(rest) as int;
    assert(usize::MAX + 1 == c * k);
    lemma_mod_multiples_vanish(k, a, c);
    lemma_mod_multiples_vanish(-k, a, c);
    assert(c * (-k) == -(c * k)) by (nonlinear_arith);
}

/// Stepping `i` slots on from `a`, in terms of the slot of `a`.
proof fn lemma_slot_step(a: int, i: int, c: int)
    requires
        0 < c,
        0 <= i < c,
    ensures
        (a + i) % c == if a % c + i < c {
            a % c + i
        } else {
            a % c + i - c
        },
{
    lemma_fundamental_div_mod(a, c);
    let q = a / c;
    let s = a % c;
    assert(a + i == c * q + (s + i));
    if s + i < c {
        lemma_mod_multiples_vanish(q, s + i, c);
        lemma_small_mod((s + i) as nat, c as nat);
    } else {
        assert(a + i == c * (q + 1) + (s + i - c)) by (nonlinear_arith)
            requires
                a + i == c * q + (s + i),
        ;
        lemma_mod_multiples_vanish(q + 1, s + i - c, c);
        lemma_small_mod((s + i - c) as nat, c as nat);
    }
}

/// The least power of two that is at least `n`.
pub fn next_power_of_two(n: usize) -> (p: usize)
    requires
        0 < n <= max_capacity(),
    ensures
        is_next_power_of_two(n as int, p as int),
{
    let mut p: usize = 1;
    let ghost mut e: nat = 0;
    proof {
        lemma2_to64();
        lemma_usize_range();
    }
    while p < n
        invariant
            0 < n <= max_capacity(),
            0 < p == pow2(e),
            p / 2 < n,
            p <= max_capacity(),
            max_capacity() == pow2((usize::BITS - 1) as nat),
        decreases 2 * n - p,
    {
        proof {
            let top = (usize::BITS - 1) as nat;
            lemma_pow2_unfold(e + 1);
            if e >= top {
                if e > top {
                    lemma_pow2_strictly_increases(top, e);
                }
            } else if e + 1 < top {
                lemma_pow2_strictly_increases(e + 1, top);
            }
        }
        p = 2 * p;
        proof {
            e = e + 1;
        }
    }
    proof {
        assert forall|q: int| is_power_of_two(q) && n <= q implies p <= q by {
            let f = choose|f: nat| q == pow2(f);
            if q < p {
                if e == 0 {
                    lemma_pow2_pos(f);
                } else {
                    lemma_pow2_unfold(e);
                    let h = (e - 1) as nat;
                    assert(pow2(h) == p / 2);
                    if f <= h {
                        if f < h {
                            lemma_pow2_strictly_increases(f, h);
                        }
                    } else {
                        if f > e {
                            lemma_pow2_strictly_increases(e, f);
                        }
                    }
                }
            }
        }
    }
    p
}


/// Whether `n` is a power of two.
pub fn power_of_two(n: usize) -> (yes: bool)
    ensures
        yes == is_power_of_two(n as int),
{
    proof {
        lemma_usize_range();
    }
    if n == 0 {
        proof {
            assert forall|e: nat| 0 != pow2(e) by {
                lemma_pow2_pos(e);
            }
        }
        return false;
    }
    if n > usize::MAX / 2 + 1 {
        proof {
            if is_power_of_two(n as int) {
                lemma_exponent_of(n);
            }
        }
        return false;
    }
    let p = next_power_of_two(n);
    proof {
        if is_power_of_two(n as int) {
            assert(p <= n);
        }
    }
    p == n
}

/// The queue after `element` was offered to a ring of `capacity` slots: it is
/// appended unless `capacity - 1` elements are waiting already.
pub open spec fn after_write<T>(queue: Seq<T>, capacity: nat, element: T) -> Seq<T> {
    if queue.len() + 1 < capacity {
        queue.push(element)
    } else {
        queue
    }
}

/// The queue after one element was asked for.
pub open spec fn after_read<T>(queue: Seq<T>) -> Seq<T> {
    if queue.len() > 0 {
        queue.drop_first()
    } else {
        queue
    }
}

/// What a bulk write accepts of `offered` elements when `queued` are waiting
/// in a ring of `capacity` slots.
pub open spec fn admissible(capacity: nat, queued: nat, offered: nat) -> nat {
    if offered <= capacity - 1 - queued {
        offered
    } else {
        (capacity - 1 - queued) as nat
    }
}

/// Where a bulk transfer of `count` elements touches the ring: a first run
/// of slots from the slot of the counter on, a second run from slot 0 on
/// where the first reached the end of the ring, and the counter afterwards.
#[derive(Debug, Clone, Copy, PartialEq, Eq, Structural)]
pub struct TransferPlan {
    pub count: usize,
    pub first_start: usize,
    pub first_len: usize,
    pub second_len: usize,
    pub next_pos: usize,
}

/// The plan of a transfer of `count` elements at the counter `pos`.
pub open spec fn transfer_plan(capacity: usize, pos: usize, count: usize) -> TransferPlan {
    let start = (pos % capacity) as usize;
    let first = if capacity - start < count {
        (capacity - start) as usize
    } else {
        count
    };
    TransferPlan {
        count,
        first_start: start,
        first_len: first,
        second_len: (count - first) as usize,
        next_pos: vstd::wrapping::usize_specs::wrapping_add(pos, count),
    }
}

/// What is queued between the two counters.
pub open spec fn queued_between(write_pos: usize, read_pos: usize) -> usize {
    vstd::wrapping::usize_specs::wrapping_sub(write_pos, read_pos)
}

proof fn lemma_exponent_of(capacity: usize) -> (e: nat)
    requires
        is_power_of_two(capacity as int),
    ensures
        e < usize::BITS,
        capacity == pow2(e),
        capacity - 1 == low_bits_mask(e),
        0 < capacity <= max_capacity(),
{
    let e = choose|e: nat| capacity == pow2(e);
    lemma_pow2_pos(e);
    lemma_usize_range();
    let top = (usize::BITS - 1) as nat;
    if e < top {
        lemma_pow2_strictly_increases(e, top);
    } else if e > top {
        lemma_pow2_unfold(top + 1);
        if e > top + 1 {
            lemma_pow2_strictly_increases(top + 1, e);
        }
    }
    e
}

/// Plans the write of up to `offered` elements into a ring of `capacity`
/// slots whose counters stand at `write_pos` and `read_pos`: as many as fit
/// are written at the write counter.
pub fn plan_write(capacity: usize, write_pos: usize, read_pos: usize, offered: usize) -> (plan:
    TransferPlan)
    requires
        is_power_of_two(capacity as int),
        queued_between(write_pos, read_pos) < capacity,
    ensures
        plan == transfer_plan(
            capacity,
            write_pos,
            admissible(
                capacity as nat,
                queued_between(write_pos, read_pos) as nat,
                offered as nat,
            ) as usize,
        ),
        plan.first_start + plan.first_len <= capacity,
        plan.first_len + plan.second_len == plan.count <= offered,
        plan.second_len > 0 ==> plan.first_start + plan.first_len == capacity,
{
    let room = capacity - write_pos.wrapping_sub(read_pos) - 1;
    let count = if offered < room {
        offered
    } else {
        room
    };
    plan_at(capacity, write_pos, count)
}

/// Plans the read of up to `wanted` elements from a ring of `capacity` slots
/// whose counters stand at `write_pos` and `read_pos`: as many as are queued
/// are read at the read counter.
pub fn plan_read(capacity: usize, write_pos: usize, read_pos: usize, wanted: usize) -> (plan:
    TransferPlan)
    requires
        is_power_of_two(capacity as int),
        queued_between(write_pos, read_pos) < capacity,
    ensures
        plan == transfer_plan(
            capacity,
            read_pos,
            if wanted <= queued_between(write_pos, read_pos) {
                wanted
            } else {
                queued_between(write_pos, read_pos)
            },
        ),
        plan.first_start + plan.first_len <= capacity,
        plan.first_len + plan.second_len == plan.count <= wanted,
        plan.second_len > 0 ==> plan.first_start + plan.first_len == capacity,
{
    let queued = write_pos.wrapping_sub(read_pos);
    let count = if wanted < queued {
        wanted
    } else {
        queued
    };
    plan_at(capacity, read_pos, count)
}

/// The plan of a transfer of `count` elements at the counter `pos`; the slot
/// of the counter is found by masking it with `capacity - 1`.
fn plan_at(capacity: usize, pos: usize, count: usize) -> (plan: TransferPlan)
    requires
        is_power_of_two(capacity as int),
        count < capacity,
    ensures
        plan == transfer_plan(capacity, pos, count),
        plan.first_start + plan.first_len <= capacity,
        plan.first_len + plan.second_len == count,
        plan.second_len > 0 ==> plan.first_start + plan.first_len == capacity,
{
    proof {
        let e = lemma_exponent_of(capacity);
        lemma_usize_low_bits_mask_is_mod(pos, e);
    }
    let first_start = pos & (capacity - 1);
    let first_len = if capacity - first_start < count {
        capacity - first_start
    } else {
        count
    };
    TransferPlan {
        count,
        first_start,
        first_len,
        second_len: count - first_len,
        next_pos: pos.wrapping_add(count),
    }
}

/// One call of the producer or of the consumer.
pub enum RingOp<T> {
    Write(T),
    Read,
}

/// What a run of calls has done: the elements still queued, those that the
/// producer got accepted, and those that the consumer was handed, each in order.
pub struct RingTrace<T> {
    pub queue: Seq<T>,
    pub accepted: Seq<T>,
    pub delivered: Seq<T>,
}

/// The trace of the calls `ops`, made in that order on an empty ring of `capacity` slots.
pub open spec fn replay<T>(capacity: nat, ops: Seq<RingOp<T>>) -> RingTrace<T>
    decreases ops.len(),
{
    if ops.len() == 0 {
        RingTrace { queue: Seq::empty(), accepted: Seq::empty(), delivered: Seq::empty() }
    } else {
        let prev = replay(capacity, ops.drop_last());
        match ops.last() {
            RingOp::Write(x) => RingTrace {
                queue: after_write(prev.queue, capacity, x),
                accepted: if prev.queue.len() + 1 < capacity {
                    prev.accepted.push(x)
                } else {
                    prev.accepted
                },
                delivered: prev.delivered,
            },
            RingOp::Read => RingTrace {
                queue: after_read(prev.queue),
                accepted: prev.accepted,
                delivered: if prev.queue.len() > 0 {
                    prev.delivered.push(prev.queue[0])
                } else {
                    prev.delivered
                },
            },
        }
    }
}

/// Whatever the producer and the consumer call, in whatever order, the
/// consumer is handed exactly what the producer got accepted, in the same
/// order: what was delivered, followed by what is still queued, is what was
/// accepted. Nothing is lost, doubled or reordered, and the queue never holds
/// more than `capacity - 1` elements.
pub proof fn lemma_fifo_order<T>(capacity: nat, ops: Seq<RingOp<T>>)
    requires
        capacity > 0,
    ensures
        replay(capacity, ops).delivered + replay(capacity, ops).queue == replay(
            capacity,
            ops,
        ).accepted,
        replay(capacity, ops).queue.len() < capacity,
    decreases ops.len(),
{
    let now = replay(capacity, ops);
    if ops.len() == 0 {
        assert(now.delivered + now.queue =~= now.accepted);
    } else {
        lemma_fifo_order(capacity, ops.drop_last());
        let prev = replay(capacity, ops.drop_last());
        assert(prev.delivered + prev.queue == prev.accepted);
        assert(now.delivered + now.queue =~= now.accepted);
    }
}

/// A bulk write queues what writing the same elements one by one would queue.
pub proof fn lemma_write_slice_is_repeated_write<T>(queue: Seq<T>, capacity: nat, elements: Seq<T>)
    requires
        queue.len() < capacity,
    ensures
        queue + elements.take(
            admissible(capacity, queue.len(), elements.len()) as int,
        ) == elements.fold_left(queue, |q: Seq<T>, x: T| after_write(q, capacity, x)),
    decreases elements.len(),
{
    let step = |q: Seq<T>, x: T| after_write(q, capacity, x);
    let n = admissible(capacity, queue.len(), elements.len()) as int;
    if elements.len() == 0 {
        assert(queue + elements.take(n) =~= queue);
    } else {
        let front = elements.drop_last();
        let m = admissible(capacity, queue.len(), front.len()) as int;
        lemma_write_slice_is_repeated_write(queue, capacity, front);
        let mid = front.fold_left(queue, step);
        assert(mid == queue + front.take(m));
        assert(elements.fold_left(queue, step) == step(mid, elements.last()));
        assert(queue + elements.take(n) =~= after_write(mid, capacity, elements.last()));
    }
}

/// Bounded first-in first-out queue over a power-of-two ring of slots.
///
/// Its view is the sequence of queued elements, oldest first. A ring of
/// `capacity()` slots queues at most `capacity() - 1` elements.
pub struct LockFreeRingBuffer<T> {
    buffer: Vec<T>,
    capacity: usize,
    write_pos: usize,
    read_pos: usize,
}

impl<T> View for LockFreeRingBuffer<T> {
    type V = Seq<T>;

    closed spec fn view(&self) -> Seq<T> {
        Seq::new(
            self.queued(),
            |i: int| self.buffer@[self.slot(i)],
        )
    }
}

impl<T> LockFreeRingBuffer<T> {
    #[verifier::type_invariant]
    spec fn well_formed(&self) -> bool {
        &&& exists|e: nat| e < usize::BITS && self.capacity == pow2(e)
        &&& self.buffer@.len() == self.capacity
        &&& self.queued() < self.capacity
    }

    /// Distance from the read counter to the write counter, in wrapping arithmetic.
    closed spec fn queued(&self) -> nat {
        vstd::wrapping::usize_specs::wrapping_sub(self.write_pos, self.read_pos) as nat
    }

    /// Number of slots in the ring.
    pub closed spec fn spec_capacity(&self) -> nat {
        self.capacity as nat
    }

    proof fn lemma_exponent(&self) -> (e: nat)
        requires
            self.well_formed(),
        ensures
            e < usize::BITS,
            self.capacity == pow2(e),
            self.capacity - 1 == low_bits_mask(e),
            0 < self.capacity <= max_capacity(),
            is_power_of_two(self.capacity as int),
    {
        lemma_exponent_of(self.capacity)
    }

    /// The slot that the masked counter `pos` names.
    proof fn lemma_mask(&self, pos: usize)
        requires
            self.well_formed(),
        ensures
            0 < self.capacity,
            (pos & ((self.capacity - 1) as usize)) == pos % self.capacity,
    {
        let e = self.lemma_exponent();
        lemma_usize_low_bits_mask_is_mod(pos, e);
    }

    /// The write counter names the slot that follows the queued elements.
    proof fn lemma_write_slot(&self)
        requires
            self.well_formed(),
        ensures
            0 < self.capacity,
            self.write_pos % self.capacity == (self.read_pos + self.queued()) % (
            self.capacity as int),
    {
        let e = self.lemma_exponent();
        if self.write_pos < self.read_pos {
            lemma_wrap_keeps_slot(self.write_pos as int, e);
        }
    }

    /// Stepping a counter by `n` in wrapping arithmetic steps its slot by `n`.
    proof fn lemma_advance_slot(&self, pos: usize, n: usize, i: int)
        requires
            self.well_formed(),
        ensures
            0 < self.capacity,
            (vstd::wrapping::usize_specs::wrapping_add(pos, n) + i) % (self.capacity as int) == (pos
                + n + i) % (self.capacity as int),
    {
        let e = self.lemma_exponent();
        if pos + n > usize::MAX {
            lemma_wrap_keeps_slot(pos + n + i, e);
        }
    }

    /// The slot of the element `i` places behind the oldest one.
    closed spec fn slot(&self, i: int) -> int {
        (self.read_pos + i) % (self.capacity as int)
    }

    /// The slot `t` places behind the last queued element, counted from the
    /// slot that the write counter names.
    proof fn lemma_run_slot(&self, t: int)
        requires
            self.well_formed(),
            0 <= t < self.capacity,
        ensures
            0 < self.capacity,
            self.slot(self.queued() + t) == if self.write_pos % self.capacity + t
                < self.capacity {
                self.write_pos % self.capacity + t
            } else {
                self.write_pos % self.capacity + t - self.capacity
            },
    {
        self.lemma_write_slot();
        lemma_slot_step(self.read_pos + self.queued(), t, self.capacity as int);
    }

    /// Two different offsets below the capacity name two different slots.
    proof fn lemma_slots_differ(&self, i: int, j: int)
        requires
            self.well_formed(),
            0 <= i < j < self.capacity,
        ensures
            self.slot(i) != self.slot(j),
            0 <= self.slot(i) < self.capacity,
            0 <= self.slot(j) < self.capacity,
    {
        let e = self.lemma_exponent();
        lemma_slot_step(self.read_pos as int, i, self.capacity as int);
        lemma_slot_step(self.read_pos as int, j, self.capacity as int);
    }
}

impl<T: Default + Copy> LockFreeRingBuffer<T> {
    /// An empty buffer whose ring has the least power-of-two number of slots
    /// that is at least `capacity`.
    pub fn new(capacity: usize) -> (rb: Self)
        requires
            0 < capacity <= max_capacity(),
        ensures
            rb@ == Seq::<T>::empty(),
            is_next_power_of_two(capacity as int, rb.spec_capacity() as int),
    {
        let capacity = next_power_of_two(capacity);
        let buffer = vec![T::default(); capacity];
        proof {
            let e = lemma_exponent_of(capacity);
            assert(e < usize::BITS && capacity == pow2(e));
        }
        let rb = LockFreeRingBuffer { buffer, capacity, write_pos: 0, read_pos: 0 };
        assert(rb@ =~= Seq::<T>::empty());
        rb
    }

    /// Number of slots in the ring, a power of two.
    pub fn capacity(&self) -> (c: usize)
        ensures
            c == self.spec_capacity(),
            is_power_of_two(c as int),
            self@.len() < c,
    {
        proof {
            use_type_invariant(self);
            self.lemma_exponent();
        }
        self.capacity
    }

    /// Number of queued elements.
    pub fn available(&self) -> (n: usize)
        ensures
            n == self@.len(),
            n < self.spec_capacity(),
    {
        proof {
            use_type_invariant(self);
        }
        self.write_pos.wrapping_sub(self.read_pos)
    }

    /// Number of elements that can still be queued.
    pub fn free_space(&self) -> (n: usize)
        ensures
            n == self.spec_capacity() - 1 - self@.len(),
    {
        proof {
            use_type_invariant(self);
        }
        self.capacity - self.available() - 1
    }

    pub fn is_empty(&self) -> (empty: bool)
        ensures
            empty == (self@.len() == 0),
    {
        proof {
            use_type_invariant(self);
        }
        self.write_pos == self.read_pos
    }

    /// Whether the next `write` will be refused.
    pub fn is_full(&self) -> (full: bool)
        ensures
            full == (self@.len() + 1 == self.spec_capacity()),
    {
        self.free_space() == 0
    }

    /// Queues `element` behind the others, or hands it back when the buffer is full.
    pub fn write(&mut self, element: T) -> (r: Result<(), T>)
        ensures
            final(self).spec_capacity() == old(self).spec_capacity(),
            final(self)@ == after_write(old(self)@, old(self).spec_capacity(), element),
            old(self)@.len() + 1 < old(self).spec_capacity() ==> r is Ok,
            old(self)@.len() + 1 >= old(self).spec_capacity() ==> r == Err::<(), T>(element),
    {
        proof {
            use_type_invariant(&*self);
            self.lemma_exponent();
        }
        let write = self.write_pos;
        let read = self.read_pos;
        let next_write = write.wrapping_add(1);
        if next_write.wrapping_sub(read) > self.capacity - 1 {
            return Err(element);
        }
        proof {
            self.lemma_mask(write);
            self.lemma_write_slot();
        }
        let ghost before = *self;
        self.buffer[write & (self.capacity - 1)] = element;
        self.write_pos = next_write;
        proof {
            let wanted = before@.push(element);
            assert(self@.len() == wanted.len());
            assert forall|i: int| 0 <= i < wanted.len() implies self@[i] == wanted[i] by {
                if i < before@.len() {
                    before.lemma_slots_differ(i, before@.len() as int);
                }
            }
            assert(self@ =~= wanted);
        }
        Ok(())
    }

    /// Takes the oldest queued element, if there is one.
    pub fn read(&mut self) -> (r: Option<T>)
        ensures
            final(self).spec_capacity() == old(self).spec_capacity(),
            final(self)@ == after_read(old(self)@),
            old(self)@.len() == 0 ==> r is None,
            old(self)@.len() > 0 ==> r == Some(old(self)@[0]),
    {
        proof {
            use_type_invariant(&*self);
            self.lemma_exponent();
        }
        let write = self.write_pos;
        let read = self.read_pos;
        if write == read {
            return None;
        }
        proof {
            self.lemma_mask(read);
        }
        let ghost before = *self;
        let element = self.buffer[read & (self.capacity - 1)];
        self.read_pos = read.wrapping_add(1);
        proof {
            let wanted = before@.drop_first();
            assert(self@.len() == wanted.len());
            assert forall|i: int| 0 <= i < wanted.len() implies self@[i] == wanted[i] by {
                before.lemma_advance_slot(read, 1, i);
            }
            assert(self@ =~= wanted);
        }
        Some(element)
    }

    /// Queues as many of `elements` as fit, in order, and returns how many.
    pub fn write_slice(&mut self, elements: &[T]) -> (n: usize)
        ensures
            final(self).spec_capacity() == old(self).spec_capacity(),
            n == admissible(old(self).spec_capacity(), old(self)@.len(), elements@.len()),
            final(self)@ == old(self)@ + elements@.take(n as int),
    {
        proof {
            use_type_invariant(&*self);
            self.lemma_exponent();
        }
        let write = self.write_pos;
        let read = self.read_pos;
        let plan = plan_write(self.capacity, write, read, elements.len());
        let to_write = plan.count;
        if to_write == 0 {
            assert(self@ + elements@.take(0) =~= self@);
            return 0;
        }
        let write_idx = plan.first_start;
        let first_chunk = plan.first_len;
        let ghost before = *self;
        let ghost queued = before.queued() as int;
        let mut i: usize = 0;
        while i < first_chunk
            invariant
                before.well_formed(),
                self.capacity == before.capacity,
                self.write_pos == before.write_pos,
                self.read_pos == before.read_pos,
                self.buffer@.len() == self.capacity,
                write_idx == before.write_pos % before.capacity,
                queued == before.queued(),
                first_chunk <= to_write <= elements@.len(),
                queued + to_write < before.capacity,
                write_idx + first_chunk <= before.capacity,
                i <= first_chunk,
                forall|k: int|
                    0 <= k < queued ==> self.buffer@[#[trigger] before.slot(k)]
                        == before.buffer@[before.slot(k)],
                forall|m: int|
                    0 <= m < i ==> self.buffer@[#[trigger] before.slot(queued + m)] == elements@[m],
            decreases first_chunk - i,
        {
            proof {
                before.lemma_run_slot(i as int);
                assert forall|o: int| 0 <= o < queued + i implies before.slot(o) != write_idx
                    + i by {
                    before.lemma_slots_differ(o, queued + i);
                }
            }
            self.buffer[write_idx + i] = elements[i];
            i += 1;
        }
        if to_write > first_chunk {
            let remaining = to_write - first_chunk;
            let mut j: usize = 0;
            while j < remaining
                invariant
                    before.well_formed(),
                    self.capacity == before.capacity,
                    self.write_pos == before.write_pos,
                    self.read_pos == before.read_pos,
                    self.buffer@.len() == self.capacity,
                    write_idx == before.write_pos % before.capacity,
                    queued == before.queued(),
                    first_chunk + remaining == to_write <= elements@.len(),
                    queued + to_write < before.capacity,
                    write_idx + first_chunk == before.capacity,
                    j <= remaining,
                    forall|k: int|
                        0 <= k < queued ==> self.buffer@[#[trigger] before.slot(k)]
                            == before.buffer@[before.slot(k)],
                    forall|m: int|
                        0 <= m < first_chunk + j ==> self.buffer@[#[trigger] before.slot(
                            queued + m,
                        )] == elements@[m],
                decreases remaining - j,
            {
                proof {
                    before.lemma_run_slot(first_chunk + j);
                    assert forall|o: int| 0 <= o < queued + first_chunk + j implies before.slot(o)
                        != j by {
                        before.lemma_slots_differ(o, queued + first_chunk + j);
                    }
                }
                self.buffer[j] = elements[first_chunk + j];
                j += 1;
            }
        }
        self.write_pos = plan.next_pos;
        proof {
            let wanted = before@ + elements@.take(to_write as int);
            assert(self@.len() == wanted.len());
            assert forall|k: int| 0 <= k < wanted.len() implies self@[k] == wanted[k] by {
                if k < queued {
                    assert(self.buffer@[before.slot(k)] == before.buffer@[before.slot(k)]);
                } else {
                    assert(self.buffer@[before.slot(queued + (k - queued))] == elements@[k
                        - queued]);
                }
            }
            assert(self@ =~= wanted);
        }
        to_write
    }

    /// Moves the oldest queued elements to the front of `output`, as many as
    /// are queued and fit, and returns how many. The rest of `output` stays as it was.
    pub fn read_slice(&mut self, output: &mut [T]) -> (n: usize)
        ensures
            final(self).spec_capacity() == old(self).spec_capacity(),
            n == if old(output)@.len() <= old(self)@.len() {
                old(output)@.len()
            } else {
                old(self)@.len()
            },
            final(output)@ == old(self)@.take(n as int) + old(output)@.skip(n as int),
            final(self)@ == old(self)@.skip(n as int),
    {
        proof {
            use_type_invariant(&*self);
            self.lemma_exponent();
        }
        let write = self.write_pos;
        let read = self.read_pos;
        let plan = plan_read(self.capacity, write, read, output.len());
        let to_read = plan.count;
        if to_read == 0 {
            assert(self@.take(0) + output@.skip(0) =~= output@);
            assert(self@.skip(0) =~= self@);
            return 0;
        }
        let read_idx = plan.first_start;
        let first_chunk = plan.first_len;
        let ghost before = *self;
        let ghost out_before = output@;
        let mut i: usize = 0;
        while i < first_chunk
            invariant
                before.well_formed(),
                *self == before,
                read_idx == before.read_pos % before.capacity,
                first_chunk <= to_read <= before.queued(),
                to_read <= out_before.len(),
                output@.len() == out_before.len(),
                read_idx + first_chunk <= before.capacity,
                i <= first_chunk,
                forall|m: int| 0 <= m < i ==> output@[m] == before@[m],
                forall|m: int| i <= m < out_before.len() ==> output@[m] == out_before[m],
            decreases first_chunk - i,
        {
            proof {
                lemma_slot_step(before.read_pos as int, i as int, before.capacity as int);
            }
            output[i] = self.buffer[read_idx + i];
            i += 1;
        }
        if to_read > first_chunk {
            let remaining = to_read - first_chunk;
            let mut j: usize = 0;
            while j < remaining
                invariant
                    before.well_formed(),
                    *self == before,
                    read_idx == before.read_pos % before.capacity,
                    first_chunk + remaining == to_read <= before.queued(),
                    to_read <= out_before.len(),
                    output@.len() == out_before.len(),
                    read_idx + first_chunk == before.capacity,
                    j <= remaining,
                    forall|m: int| 0 <= m < first_chunk + j ==> output@[m] == before@[m],
                    forall|m: int|
                        first_chunk + j <= m < out_before.len() ==> output@[m] == out_before[m],
                decreases remaining - j,
            {
                proof {
                    lemma_slot_step(
                        before.read_pos as int,
                        first_chunk + j,
                        before.capacity as int,
                    );
                }
                output[first_chunk + j] = self.buffer[j];
                j += 1;
            }
        }
        self.read_pos = plan.next_pos;
        proof {
            let wanted = before@.skip(to_read as int);
            assert(self@.len() == wanted.len());
            assert forall|k: int| 0 <= k < wanted.len() implies self@[k] == wanted[k] by {
                before.lemma_advance_slot(read, to_read, k);
            }
            assert(self@ =~= wanted);
            assert(output@ =~= before@.take(to_read as int) + out_before.skip(to_read as int));
        }
        to_read
    }

    /// Drops every queued element.
    pub fn clear(&mut self)
        ensures
            final(self).spec_capacity() == old(self).spec_capacity(),
            final(self)@ == Seq::<T>::empty(),
    {
        proof {
            use_type_invariant(&*self);
            self.lemma_exponent();
        }
        self.read_pos = self.write_pos;
        assert(self@ =~= Seq::<T>::empty());
    }
}


/// The ring capacity asked for by a buffer of `duration_ms` milliseconds of
/// `channels` interleaved channels at `sample_rate` frames a second: the
/// number of frames, rounded up, times the channels.
pub open spec fn requested_samples(duration_ms: int, sample_rate: int, channels: int) -> int {
    ((duration_ms * sample_rate + 999) / 1000) * channels
}

/// A ring buffer of interleaved samples that knows its sample rate and its
/// number of channels. Its view is the sequence of queued samples.
pub struct AudioRingBuffer<T> {
    buffer: LockFreeRingBuffer<T>,
    sample_rate: u32,
    channels: usize,
}

impl<T> View for AudioRingBuffer<T> {
    type V = Seq<T>;

    closed spec fn view(&self) -> Seq<T> {
        self.buffer@
    }
}

impl<T> AudioRingBuffer<T> {
    /// The sample rate and the number of channels are positive. `new`
    /// establishes this and every method keeps it.
    pub closed spec fn wf(&self) -> bool {
        &&& self.sample_rate > 0
        &&& self.channels > 0
    }

    /// Number of slots in the underlying ring.
    pub closed spec fn spec_capacity(&self) -> nat {
        self.buffer.spec_capacity()
    }

    /// Frames a second.
    pub closed spec fn spec_sample_rate(&self) -> nat {
        self.sample_rate as nat
    }

    /// Samples in a frame.
    pub closed spec fn spec_channels(&self) -> nat {
        self.channels as nat
    }
}

impl<T: Default + Copy> AudioRingBuffer<T> {
    /// An empty buffer for `duration_ms` milliseconds of audio.
    pub fn new(duration_ms: usize, sample_rate: u32, channels: usize) -> (rb: Self)
        requires
            0 < requested_samples(duration_ms as int, sample_rate as int, channels as int)
                <= max_capacity(),
        ensures
            rb.wf(),
            rb@ == Seq::<T>::empty(),
            rb.spec_sample_rate() == sample_rate,
            rb.spec_channels() == channels,
            is_next_power_of_two(
                requested_samples(duration_ms as int, sample_rate as int, channels as int),
                rb.spec_capacity() as int,
            ),
    {
        assert(duration_ms * sample_rate <= 0xffff_ffff_ffff_ffff * 0xffff_ffff)
            by (nonlinear_arith)
            requires
                0 <= duration_ms <= 0xffff_ffff_ffff_ffff,
                0 <= sample_rate <= 0xffff_ffff,
        ;
        let product: u128 = (duration_ms as u128) * (sample_rate as u128);
        let frames: u128 = (product + 999) / 1000;
        proof {
            let f = frames as int;
            let c = channels as int;
            assert(f * c == requested_samples(
                duration_ms as int,
                sample_rate as int,
                channels as int,
            ));
            assert(c > 0 && f > 0) by (nonlinear_arith)
                requires
                    f * c > 0,
                    f >= 0,
                    c >= 0,
            ;
            assert(sample_rate > 0) by (nonlinear_arith)
                requires
                    (duration_ms * sample_rate + 999) / 1000 > 0,
                    sample_rate >= 0,
                    duration_ms >= 0,
            ;
        }
        let capacity: u128 = frames * (channels as u128);
        let buffer = LockFreeRingBuffer::new(capacity as usize);
        AudioRingBuffer { buffer, sample_rate, channels }
    }

    /// Number of whole frames that are queued.
    pub fn available_frames(&self) -> (n: usize)
        requires
            self.wf(),
        ensures
            n == self@.len() / self.spec_channels(),
    {
        self.buffer.available() / self.channels
    }

    /// Queued samples over ring slots: a value in `[0, 1)`.
    pub fn fill_percentage(&self) -> (fill: Ratio)
        ensures
            fill.numerator == self@.len(),
            fill.denominator == self.spec_capacity(),
            fill.numerator < fill.denominator,
    {
        Ratio {
            numerator: self.buffer.available() as u128,
            denominator: self.buffer.capacity() as u128,
        }
    }

    /// Queues as many of `samples` as fit, in order, and returns how many.
    pub fn write_samples(&mut self, samples: &[T]) -> (n: usize)
        requires
            old(self).wf(),
        ensures
            final(self).wf(),
            final(self).spec_capacity() == old(self).spec_capacity(),
            final(self).spec_sample_rate() == old(self).spec_sample_rate(),
            final(self).spec_channels() == old(self).spec_channels(),
            n == admissible(
                old(self).spec_capacity(),
                old(self)@.len(),
                samples@.len(),
            ),
            final(self)@ == old(self)@ + samples@.take(n as int),
    {
        self.buffer.write_slice(samples)
    }

    /// Moves the oldest queued samples to the front of `output`, as many as
    /// are queued and fit, and returns how many.
    pub fn read_samples(&mut self, output: &mut [T]) -> (n: usize)
        requires
            old(self).wf(),
        ensures
            final(self).wf(),
            final(self).spec_capacity() == old(self).spec_capacity(),
            final(self).spec_sample_rate() == old(self).spec_sample_rate(),
            final(self).spec_channels() == old(self).spec_channels(),
            n == if old(output)@.len() <= old(self)@.len() {
                old(output)@.len()
            } else {
                old(self)@.len()
            },
            final(output)@ == old(self)@.take(n as int) + old(output)@.skip(n as int),
            final(self)@ == old(self)@.skip(n as int),
    {
        self.buffer.read_slice(output)
    }

    /// Whether fewer than `required_frames` whole frames are queued.
    pub fn check_underrun(&self, required_frames: usize) -> (underrun: bool)
        requires
            self.wf(),
        ensures
            underrun == (self@.len() / self.spec_channels() < required_frames),
    {
        self.available_frames() < required_frames
    }

    /// Time that the queued frames take to play, in milliseconds: the number
    /// of whole frames times 1000, over the sample rate.
    pub fn latency_ms(&self) -> (latency: Ratio)
        requires
            self.wf(),
        ensures
            latency.numerator == (self@.len() / self.spec_channels()) * 1000,
            latency.denominator == self.spec_sample_rate(),
            latency.denominator > 0,
    {
        let frames = self.available_frames() as u128;
        Ratio { numerator: frames * 1000, denominator: self.sample_rate as u128 }
    }
}

} // verus!
