//! The key buffer: a fixed-capacity first-in, first-out queue of decoded
//! bytes, filled at interrupt time and emptied by whoever polls for input.

use vstd::prelude::*;

verus! {

/// How many bytes the key buffer holds.
pub const MAX_BUFFER_LEN: usize = 255;

/// The error of `push` on a full buffer. The byte offered is dropped.
#[derive(Clone, Copy, Debug, PartialEq, Eq, Structural)]
pub struct BufferFull;

/// Where the queued bytes lie in the ring. `head` is the slot of the oldest
/// byte, `tail` the slot that the next byte goes to, and `count` the number
/// of bytes queued, kept apart from the two indices so that a full ring and
/// an empty one are told apart. The three change together, in one
/// assignment.
#[derive(Clone, Copy)]
struct Cursor {
    head: usize,
    tail: usize,
    count: usize,
}

/// A ring of `MAX_BUFFER_LEN` bytes.
pub struct RingBuffer {
    queue: [u8; 255],
    at: Cursor,
}

/// The slot that lies `offset` slots after `head`, going round the ring.
pub open spec fn slot_at(head: int, offset: int) -> int {
    (head + offset) % (MAX_BUFFER_LEN as int)
}

/// The slot after `slot`, going round the ring.
pub open spec fn next_slot(slot: int) -> int {
    (slot + 1) % (MAX_BUFFER_LEN as int)
}

/// One call on the buffer.
pub enum BufferOp {
    /// `push` of this byte.
    Push(u8),
    /// `pop`.
    Pop,
}

/// The buffer with its indices: the slot of the oldest byte, the slot that
/// the next byte goes to, and the queued bytes, oldest first.
pub struct RingView {
    pub head: int,
    pub tail: int,
    pub queued: Seq<u8>,
}

/// What holds of every buffer: both indices lie inside the ring, no more is
/// queued than it has slots, and the tail lies as many slots after the head
/// as bytes are queued.
pub open spec fn is_ring(ring: RingView) -> bool {
    &&& 0 <= ring.head < MAX_BUFFER_LEN
    &&& 0 <= ring.tail < MAX_BUFFER_LEN
    &&& ring.queued.len() <= MAX_BUFFER_LEN
    &&& ring.tail == slot_at(ring.head, ring.queued.len() as int)
}

/// What one call does to the buffer. A push moves the tail on and leaves the
/// head, a pop moves the head on and leaves the tail, and a push on a full
/// buffer or a pop on an empty one changes nothing.
pub open spec fn ring_step(ring: RingView, op: BufferOp) -> RingView {
    match op {
        BufferOp::Push(byte) => if ring.queued.len() < MAX_BUFFER_LEN {
            RingView {
                head: ring.head,
                tail: next_slot(ring.tail),
                queued: ring.queued.push(byte),
            }
        } else {
            ring
        },
        BufferOp::Pop => if ring.queued.len() > 0 {
            RingView {
                head: next_slot(ring.head),
                tail: ring.tail,
                queued: ring.queued.drop_first(),
            }
        } else {
            ring
        },
    }
}

/// The buffer after each call of `ops` was made in turn.
pub open spec fn ring_run(ring: RingView, ops: Seq<BufferOp>) -> RingView
    decreases ops.len(),
{
    if ops.len() == 0 {
        ring
    } else {
        ring_step(ring_run(ring, ops.drop_last()), ops.last())
    }
}

/// What a queue holds after `byte` was offered to it: a full queue drops it.
pub open spec fn push_model(queued: Seq<u8>, byte: u8) -> Seq<u8> {
    if queued.len() < MAX_BUFFER_LEN {
        queued.push(byte)
    } else {
        queued
    }
}

/// What a queue holds after one byte was asked of it.
pub open spec fn pop_model(queued: Seq<u8>) -> Seq<u8> {
    if queued.len() > 0 {
        queued.drop_first()
    } else {
        queued
    }
}

/// What a queue hands out when one byte is asked of it.
pub open spec fn front_model(queued: Seq<u8>) -> Option<u8> {
    if queued.len() > 0 {
        Some(queued[0])
    } else {
        None
    }
}

impl View for RingBuffer {
    type V = Seq<u8>;

    /// The queued bytes, oldest first.
    closed spec fn view(&self) -> Seq<u8> {
        Seq::new(
            self.at.count as nat,
            |i: int| self.queue@[slot_at(self.at.head as int, i)],
        )
    }
}

impl RingBuffer {
    #[verifier::type_invariant]
    spec fn well_formed(&self) -> bool {
        &&& self.at.head < MAX_BUFFER_LEN
        &&& self.at.tail < MAX_BUFFER_LEN
        &&& self.at.count <= MAX_BUFFER_LEN
        &&& self.at.tail == (self.at.head + self.at.count) % (MAX_BUFFER_LEN as int)
    }

    /// The slot of the oldest byte.
    pub closed spec fn head_index(&self) -> int {
        self.at.head as int
    }

    /// The slot that the next byte goes to.
    pub closed spec fn tail_index(&self) -> int {
        self.at.tail as int
    }

    /// The buffer with its indices.
    pub open spec fn ring(&self) -> RingView {
        RingView { head: self.head_index(), tail: self.tail_index(), queued: self@ }
    }

    /// An empty buffer.
    pub fn new() -> (buffer: RingBuffer)
        ensures
            buffer.ring() == (RingView { head: 0, tail: 0, queued: Seq::empty() }),
    {
        let buffer = RingBuffer { queue: [0u8; 255], at: Cursor { head: 0, tail: 0, count: 0 } };
        assert(buffer@ =~= Seq::<u8>::empty());
        buffer
    }

    /// The number of bytes queued.
    pub fn count(&self) -> (n: usize)
        ensures
            n == self@.len(),
            n <= MAX_BUFFER_LEN,
    {
        proof {
            use_type_invariant(self);
        }
        self.at.count
    }

    /// The slot of the oldest byte.
    pub fn head(&self) -> (slot: usize)
        ensures
            slot == self.head_index(),
            slot < MAX_BUFFER_LEN,
    {
        proof {
            use_type_invariant(self);
        }
        self.at.head
    }

    /// The slot that the next byte goes to. It lies `count` slots after the
    /// head, going round the ring.
    pub fn tail(&self) -> (slot: usize)
        ensures
            slot == self.tail_index(),
            slot < MAX_BUFFER_LEN,
            is_ring(self.ring()),
    {
        proof {
            use_type_invariant(self);
        }
        self.at.tail
    }

    /// Whether nothing is queued.
    pub fn is_empty(&self) -> (yes: bool)
        ensures
            yes == (self@.len() == 0),
    {
        self.at.count == 0
    }

    /// Whether the buffer is full, so that the next `push` fails.
    pub fn is_full(&self) -> (yes: bool)
        ensures
            yes == (self@.len() == MAX_BUFFER_LEN),
    {
        self.at.count == MAX_BUFFER_LEN
    }

    /// Queues `byte` behind the bytes already there. A full buffer refuses
    /// it and stays as it is: the newest byte is the one that is lost.
    pub fn push(&mut self, byte: u8) -> (done: Result<(), BufferFull>)
        ensures
            done.is_ok() == (old(self)@.len() < MAX_BUFFER_LEN),
            final(self)@ == push_model(old(self)@, byte),
            final(self).ring() == ring_step(old(self).ring(), BufferOp::Push(byte)),
            done.is_err() ==> *final(self) == *old(self),
            is_ring(old(self).ring()),
            is_ring(final(self).ring()),
    {
        proof {
            use_type_invariant(&*self);
        }
        if self.at.count == MAX_BUFFER_LEN {
            return Err(BufferFull);
        }
        let ghost before = *self;
        self.queue[self.at.tail] = byte;
        self.at = Cursor {
            head: self.at.head,
            tail: (self.at.tail + 1) % MAX_BUFFER_LEN,
            count: self.at.count + 1,
        };
        proof {
            lemma_ring_slots(before.at.head as int, before.at.count as int);
            assert forall|i: int| 0 <= i < before.at.count implies #[trigger] slot_at(
                before.at.head as int,
                i,
            ) != before.at.tail by {
                lemma_slots_differ(before.at.head as int, i, before.at.count as int);
            }
            assert(self@ =~= before@.push(byte));
        }
        Ok(())
    }

    /// Takes the oldest byte out. An empty buffer gives `None` and stays as
    /// it is.
    pub fn pop(&mut self) -> (byte: Option<u8>)
        ensures
            byte == front_model(old(self)@),
            final(self)@ == pop_model(old(self)@),
            final(self).ring() == ring_step(old(self).ring(), BufferOp::Pop),
            byte.is_none() ==> *final(self) == *old(self),
            is_ring(old(self).ring()),
            is_ring(final(self).ring()),
    {
        proof {
            use_type_invariant(&*self);
        }
        if self.at.count == 0 {
            return None;
        }
        let ghost before = *self;
        let byte = self.queue[self.at.head];
        self.at = Cursor {
            head: (self.at.head + 1) % MAX_BUFFER_LEN,
            tail: self.at.tail,
            count: self.at.count - 1,
        };
        proof {
            lemma_ring_advance(before.at.head as int, before.at.count as int);
            assert forall|i: int| 0 <= i < self.at.count implies #[trigger] slot_at(
                self.at.head as int,
                i,
            ) == slot_at(before.at.head as int, i + 1) by {
                lemma_ring_shift(before.at.head as int, i);
            }
            assert(self@ =~= before@.drop_first());
        }
        Some(byte)
    }
}

/// What a queue holds after each byte of `items` was offered to it in turn.
pub open spec fn after_pushes(queued: Seq<u8>, items: Seq<u8>) -> Seq<u8>
    decreases items.len(),
{
    if items.len() == 0 {
        queued
    } else {
        after_pushes(push_model(queued, items[0]), items.drop_first())
    }
}

/// What a queue holds after `n` bytes were asked of it in turn.
pub open spec fn after_pops(queued: Seq<u8>, n: nat) -> Seq<u8>
    decreases n,
{
    if n == 0 {
        queued
    } else {
        after_pops(pop_model(queued), (n - 1) as nat)
    }
}

/// How many bytes of `offered` a queue of `len` bytes still takes.
pub open spec fn room_for(len: nat, offered: nat) -> nat {
    if len + offered <= MAX_BUFFER_LEN {
        offered
    } else {
        (MAX_BUFFER_LEN - len) as nat
    }
}

/// A run of pushes queues the bytes offered, in the order offered, behind
/// what was there, as long as there is room, and drops the rest. So the
/// count grows by the number of pushes that succeeded.
pub proof fn lemma_pushes_queue_in_order(queued: Seq<u8>, items: Seq<u8>)
    requires
        queued.len() <= MAX_BUFFER_LEN,
    ensures
        after_pushes(queued, items) == queued + items.take(
            room_for(queued.len(), items.len()) as int,
        ),
        after_pushes(queued, items).len() == queued.len() + room_for(queued.len(), items.len()),
    decreases items.len(),
{
    let room = room_for(queued.len(), items.len()) as int;
    if items.len() == 0 {
        assert(queued + items.take(room) =~= queued);
    } else {
        let next = push_model(queued, items[0]);
        let rest = items.drop_first();
        lemma_pushes_queue_in_order(next, rest);
        let rest_room = room_for(next.len(), rest.len()) as int;
        if queued.len() < MAX_BUFFER_LEN {
            assert(rest_room == room - 1);
            assert(next + rest.take(rest_room) =~= queued + items.take(room));
        } else {
            assert(rest_room == 0 && room == 0);
            assert(next + rest.take(rest_room) =~= queued + items.take(room));
        }
    }
}

/// A run of pops takes the queued bytes out from the front: after `n` pops
/// the first `n` bytes are gone, or all of them if there were fewer.
pub proof fn lemma_pops_take_from_front(queued: Seq<u8>, n: nat)
    ensures
        n <= queued.len() ==> after_pops(queued, n) == queued.skip(n as int),
        n > queued.len() ==> after_pops(queued, n) == Seq::<u8>::empty(),
    decreases n,
{
    if n == 0 {
        assert(queued.skip(0) =~= queued);
    } else {
        let next = pop_model(queued);
        lemma_pops_take_from_front(next, (n - 1) as nat);
        if queued.len() > 0 {
            if n <= queued.len() {
                assert(next.skip(n - 1) =~= queued.skip(n as int));
            }
        } else {
            assert(queued =~= Seq::<u8>::empty());
            if n - 1 <= next.len() {
                assert(next.skip(n - 1) =~= Seq::<u8>::empty());
            }
        }
    }
}

/// First in, first out: when no more bytes are pushed into an empty buffer
/// than it holds, the pops that follow hand them out one by one in the order
/// pushed, and the buffer is empty after the last.
pub proof fn lemma_first_in_first_out(items: Seq<u8>, k: nat)
    requires
        items.len() <= MAX_BUFFER_LEN,
        k < items.len(),
    ensures
        after_pushes(Seq::<u8>::empty(), items) == items,
        front_model(after_pops(after_pushes(Seq::<u8>::empty(), items), k)) == Some(items[k as int]),
        after_pops(after_pushes(Seq::<u8>::empty(), items), items.len()) == Seq::<u8>::empty(),
{
    let empty = Seq::<u8>::empty();
    lemma_pushes_queue_in_order(empty, items);
    assert(empty + items.take(items.len() as int) =~= items);
    lemma_pops_take_from_front(items, k);
    lemma_pops_take_from_front(items, items.len());
    assert(items.skip(items.len() as int) =~= empty);
}

/// A byte pushed into an empty buffer is the byte that the next pop hands
/// out, and the buffer is empty again after it.
pub proof fn lemma_push_then_pop(byte: u8)
    ensures
        front_model(push_model(Seq::<u8>::empty(), byte)) == Some(byte),
        pop_model(push_model(Seq::<u8>::empty(), byte)) == Seq::<u8>::empty(),
{
    let one = push_model(Seq::<u8>::empty(), byte);
    assert(one.drop_first() =~= Seq::<u8>::empty());
}

/// The successful pushes among `ops`, made in turn on a buffer that stands
/// as `ring` says.
pub open spec fn pushes_in(ring: RingView, ops: Seq<BufferOp>) -> nat
    decreases ops.len(),
{
    if ops.len() == 0 {
        0
    } else {
        let before = ring_run(ring, ops.drop_last());
        let earlier = pushes_in(ring, ops.drop_last());
        if ops.last() is Push && before.queued.len() < MAX_BUFFER_LEN {
            earlier + 1
        } else {
            earlier
        }
    }
}

/// The successful pops among `ops`, made in turn on a buffer that stands as
/// `ring` says.
pub open spec fn pops_in(ring: RingView, ops: Seq<BufferOp>) -> nat
    decreases ops.len(),
{
    if ops.len() == 0 {
        0
    } else {
        let before = ring_run(ring, ops.drop_last());
        let earlier = pops_in(ring, ops.drop_last());
        if ops.last() is Pop && before.queued.len() > 0 {
            earlier + 1
        } else {
            earlier
        }
    }
}

/// However many pushes and pops are made, in whatever order, and however
/// often the indices have gone round: both indices lie inside the ring, the
/// head has gone on by the number of successful pops and the tail by the
/// number of successful pushes, each round the ring, and the count is the
/// difference of the two.
pub proof fn lemma_indices_stay_in_ring(ring: RingView, ops: Seq<BufferOp>)
    requires
        is_ring(ring),
    ensures
        is_ring(ring_run(ring, ops)),
        ring_run(ring, ops).head == slot_at(ring.head, pops_in(ring, ops) as int),
        ring_run(ring, ops).tail == slot_at(ring.tail, pushes_in(ring, ops) as int),
        ring_run(ring, ops).queued.len() == ring.queued.len() + pushes_in(ring, ops) - pops_in(
            ring,
            ops,
        ),
    decreases ops.len(),
{
    if ops.len() > 0 {
        lemma_indices_stay_in_ring(ring, ops.drop_last());
        let before = ring_run(ring, ops.drop_last());
        let pushes = pushes_in(ring, ops.drop_last()) as int;
        let pops = pops_in(ring, ops.drop_last()) as int;
        lemma_slot_goes_on(ring.head, pops);
        lemma_slot_goes_on(ring.tail, pushes);
        lemma_slot_goes_on(before.head, before.queued.len() as int);
        if before.queued.len() > 0 {
            lemma_ring_advance(before.head, before.queued.len() as int);
        }
    }
}

/// The slot after the slot `offset` after `head` is the slot `offset + 1`
/// after `head`.
proof fn lemma_slot_goes_on(head: int, offset: int)
    requires
        0 <= head < MAX_BUFFER_LEN,
        0 <= offset,
    ensures
        next_slot(slot_at(head, offset)) == slot_at(head, offset + 1),
        0 <= slot_at(head, offset) < MAX_BUFFER_LEN,
{
}

/// Going one slot on from the slot `count` after `head` gives the slot
/// `count + 1` after `head`.
proof fn lemma_ring_slots(head: int, count: int)
    requires
        0 <= head < MAX_BUFFER_LEN,
        0 <= count < MAX_BUFFER_LEN,
    ensures
        ((head + count) % (MAX_BUFFER_LEN as int) + 1) % (MAX_BUFFER_LEN as int) == (head + count
            + 1) % (MAX_BUFFER_LEN as int),
{
}

/// Two slots less than a whole turn apart are different slots.
proof fn lemma_slots_differ(head: int, i: int, count: int)
    requires
        0 <= head < MAX_BUFFER_LEN,
        0 <= i < count < MAX_BUFFER_LEN,
    ensures
        (head + i) % (MAX_BUFFER_LEN as int) != (head + count) % (MAX_BUFFER_LEN as int),
{
}

/// With the head one slot on and one byte fewer, the tail stays where it is.
proof fn lemma_ring_advance(head: int, count: int)
    requires
        0 <= head < MAX_BUFFER_LEN,
        0 < count <= MAX_BUFFER_LEN,
    ensures
        ((head + 1) % (MAX_BUFFER_LEN as int) + (count - 1)) % (MAX_BUFFER_LEN as int) == (head
            + count) % (MAX_BUFFER_LEN as int),
{
}

/// The slot `i` after the next head is the slot `i + 1` after the head.
proof fn lemma_ring_shift(head: int, i: int)
    requires
        0 <= head < MAX_BUFFER_LEN,
        0 <= i < MAX_BUFFER_LEN,
    ensures
        ((head + 1) % (MAX_BUFFER_LEN as int) + i) % (MAX_BUFFER_LEN as int) == (head + (i + 1))
            % (MAX_BUFFER_LEN as int),
{
}

} // verus!
