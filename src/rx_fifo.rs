//! Queues for received messages
//!
//! Messages can be placed in the queues by filter actions.
use vstd::prelude::*;
use std::convert::Infallible;
use crate::message::rx;
use crate::poll::{PollError, PollResult};
use crate::reg::{field, lemma_field_bounds, with_field, RxFifoRegs};
use vstd::arithmetic::div_mod::lemma_small_mod;
use crate::reg::rxfa;
use crate::reg::rxfs;

verus! {

/// Value of the FIFO selection representing FIFO 0.
#[derive(Clone, Copy, Debug, PartialEq, Eq, Structural)]
pub struct Fifo0;

/// Value of the FIFO selection representing FIFO 1.
#[derive(Clone, Copy, Debug, PartialEq, Eq, Structural)]
pub struct Fifo1;

/// The elements a FIFO holds, oldest first: `fill` elements of `memory`
/// from `get` on, wrapping at its end.
pub open spec fn fifo_queue<T>(memory: Seq<T>, get: nat, fill: nat) -> Seq<T> {
    Seq::new(fill, |k: int| memory[((get + k) % (memory.len() as int))])
}

/// Receive FIFO `F`: its slots in Message RAM and its status and acknowledge
/// registers, owned by this value alone.
pub struct RxFifo<F> {
    memory: Vec<rx::Message>,
    regs: RxFifoRegs,
    fifo: F,
}

/// Provides access to the registers controlling the RX FIFO.
pub trait GetRxFifoRegs {
    /// Current register values.
    spec fn registers_spec(&self) -> RxFifoRegs;

    /// Current register values.
    fn registers(&self) -> (r: RxFifoRegs)
        ensures
            r == self.registers_spec(),
    ;
}

impl<F> GetRxFifoRegs for RxFifo<F> {
    closed spec fn registers_spec(&self) -> RxFifoRegs {
        self.regs
    }

    fn registers(&self) -> (r: RxFifoRegs) {
        self.regs
    }
}

impl<F> RxFifo<F> {
    /// Slots of the FIFO.
    pub closed spec fn memory_spec(&self) -> Seq<rx::Message> {
        self.memory@
    }

    /// Fill level reported by the status register.
    pub open spec fn fill_spec(&self) -> nat {
        field(self.registers_spec().s, 0, 7) as nat
    }

    /// Get index reported by the status register.
    pub open spec fn get_spec(&self) -> nat {
        field(self.registers_spec().s, 8, 6) as nat
    }

    /// The status register is one the peripheral can report for this FIFO:
    /// the get index names a slot and the fill level does not exceed the
    /// capacity.
    pub open spec fn status_consistent(&self) -> bool {
        self.get_spec() < self.memory_spec().len() && self.fill_spec() <= self.memory_spec().len()
    }

    /// The messages waiting, oldest first.
    pub open spec fn pending(&self) -> Seq<(u32, u32, Seq<u8>)> {
        fifo_queue(self.memory_spec().map_values(|m: rx::Message| m@), self.get_spec(), self.fill_spec())
    }

    /// Takes over the slots of FIFO `fifo`, with its registers at `regs`.
    pub fn new(memory: Vec<rx::Message>, regs: RxFifoRegs, fifo: F) -> (r: Self)
        ensures
            r.memory_spec() == memory@,
            r.registers_spec() == regs,
    {
        RxFifo { memory, regs, fifo }
    }

    /// Takes the register values the peripheral reports.
    pub fn set_registers(&mut self, regs: RxFifoRegs)
        ensures
            final(self).registers_spec() == regs,
            final(self).memory_spec() == old(self).memory_spec(),
    {
        self.regs = regs;
    }

    /// Stores a message in slot `index`, as the peripheral does on reception.
    /// Returns `false`, changing nothing, if there is no such slot.
    pub fn store(&mut self, index: usize, message: rx::Message) -> (r: bool)
        ensures
            r == (index < old(self).memory_spec().len()),
            r ==> final(self).memory_spec() == old(self).memory_spec().update(index as int, message),
            !r ==> final(self).memory_spec() == old(self).memory_spec(),
            final(self).registers_spec() == old(self).registers_spec(),
    {
        if index < self.memory.len() {
            self.memory.set(index, message);
            true
        } else {
            false
        }
    }

    /// Returns the number of elements in the queue
    pub fn len(&self) -> (r: usize)
        ensures
            r == self.fill_spec(),
    {
        rxfs::R { bits: self.regs.s }.ffl() as usize
    }

    /// Returns `true` if the queue is empty
    pub fn is_empty(&self) -> (r: bool)
        ensures
            r == (self.fill_spec() == 0),
    {
        self.len() == 0
    }

    /// Returns the number of elements the queue can hold
    pub fn capacity(&self) -> (r: usize)
        ensures
            r == self.memory_spec().len(),
    {
        self.memory.len()
    }

    /// Returns the oldest received frame if there is one, and acknowledges
    /// it by writing its index to the acknowledge register, after the slot
    /// has been read. An empty FIFO gives `WouldBlock`.
    pub fn receive(&mut self) -> (r: PollResult<rx::Message, Infallible>)
        requires
            old(self).fill_spec() > 0 ==> old(self).status_consistent(),
        ensures
            r is Err <==> old(self).fill_spec() == 0,
            r is Err ==> *final(self) == *old(self),
            r matches Err(e) ==> e is WouldBlock,
            r matches Ok(m) ==> m@ == old(self).pending()[0],
            r is Ok ==> final(self).registers_spec() == (RxFifoRegs {
                a: with_field(old(self).registers_spec().a, 0, 6, old(self).get_spec() as u32),
                ..old(self).registers_spec()
            }),
            final(self).memory_spec() == old(self).memory_spec(),
    {
        let status = rxfs::R { bits: self.regs.s };
        let len = status.ffl();
        if len == 0 {
            return Err(PollError::WouldBlock);
        }
        let get_index = status.fgi() as usize;
        let message = self.memory[get_index].copy();
        proof {
            let q = self.memory@.map_values(|m: rx::Message| m@);
            lemma_small_mod(get_index as nat, q.len());
            assert((get_index + 0) % (q.len() as int) == get_index as int);
            lemma_field_bounds(self.regs.s);
            lemma_small_mod(get_index as nat, 64);
        }
        let mut ack = rxfa::W { bits: self.regs.a };
        ack.fai(rxfa::FAI_W::bits(get_index as u8));
        self.regs.a = ack.bits;
        Ok(message)
    }
}

/// The peripheral storing a message in a FIFO that is not full appends it
/// to the queue of waiting messages.
pub proof fn lemma_store_appends<T>(memory: Seq<T>, get: nat, fill: nat, message: T)
    requires
        get < memory.len(),
        fill < memory.len(),
    ensures
        fifo_queue(
            memory.update((get as int + fill as int) % (memory.len() as int), message),
            get,
            fill + 1,
        ) == fifo_queue(memory, get, fill).push(message),
{
    let n = memory.len() as int;
    let put = (get as int + fill as int) % n;
    let after = memory.update(put, message);
    assert forall|k: int| 0 <= k < fill implies #[trigger] ((get as int + k) % n) != put by {
        lemma_mod_distinct(get as int, k, fill as int, n);
    }
    assert(fifo_queue(after, get, fill + 1) =~= fifo_queue(memory, get, fill).push(message));
}

proof fn lemma_mod_distinct(g: int, k: int, f: int, n: int)
    requires
        0 <= g < n,
        0 <= k < f,
        f < n,
    ensures
        (g + k) % n != (g + f) % n,
{
    assert((g + k) % n != (g + f) % n) by (nonlinear_arith)
        requires
            0 <= g < n,
            0 <= k < f,
            f < n,
    ;
}

/// Acknowledging the oldest message of a non-empty FIFO, after which the
/// peripheral advances its get index, removes exactly that message from the
/// queue: messages are received in the order they were stored.
pub proof fn lemma_acknowledge_pops<T>(memory: Seq<T>, get: nat, fill: nat)
    requires
        get < memory.len(),
        0 < fill <= memory.len(),
    ensures
        fifo_queue(memory, get, fill)[0] == memory[get as int],
        fifo_queue(memory, ((get as int + 1) % (memory.len() as int)) as nat, (fill - 1) as nat)
            == fifo_queue(memory, get, fill).drop_first(),
{
    let n = memory.len() as int;
    let next = ((get as int + 1) % n) as nat;
    assert forall|k: int| 0 <= k < fill - 1 implies #[trigger] ((next as int + k) % n) == (get as int + (k + 1))
        % n by {
        lemma_mod_shift(get as int, k, n);
    }
    lemma_small_mod(get, memory.len());
    assert((get as int + 0) % n == get as int);
    assert(fifo_queue(memory, next, (fill - 1) as nat) =~= fifo_queue(memory, get, fill).drop_first());
}

proof fn lemma_mod_shift(g: int, k: int, n: int)
    requires
        0 <= g < n,
        0 <= k,
    ensures
        ((g + 1) % n + k) % n == (g + (k + 1)) % n,
{
    assert(((g + 1) % n + k) % n == (g + (k + 1)) % n) by (nonlinear_arith)
        requires
            0 <= g < n,
            0 <= k,
    ;
}


/// Slots after the peripheral has stored `messages`, one after the other,
/// into a FIFO that was empty with get index `get`.
pub open spec fn stored_all<T>(memory: Seq<T>, get: nat, messages: Seq<T>) -> Seq<T>
    decreases messages.len(),
{
    if messages.len() == 0 {
        memory
    } else {
        stored_all(memory, get, messages.drop_last()).update(
            (get + messages.len() - 1) as int % (memory.len() as int),
            messages.last(),
        )
    }
}

proof fn lemma_stored_all<T>(memory: Seq<T>, get: nat, messages: Seq<T>)
    requires
        get < memory.len(),
        messages.len() <= memory.len(),
    ensures
        stored_all(memory, get, messages).len() == memory.len(),
        fifo_queue(stored_all(memory, get, messages), get, messages.len()) == messages,
    decreases messages.len(),
{
    if messages.len() == 0 {
        assert(fifo_queue(memory, get, 0) =~= messages);
    } else {
        let before = messages.drop_last();
        lemma_stored_all(memory, get, before);
        let prev = stored_all(memory, get, before);
        lemma_store_appends(prev, get, before.len(), messages.last());
        assert(before.push(messages.last()) =~= messages);
    }
}

proof fn lemma_received_from<T>(memory: Seq<T>, get: nat, messages: Seq<T>, k: nat)
    requires
        get < memory.len(),
        messages.len() <= memory.len(),
        k <= messages.len(),
    ensures
        fifo_queue(
            stored_all(memory, get, messages),
            ((get + k) as int % (memory.len() as int)) as nat,
            (messages.len() - k) as nat,
        ) == messages.subrange(k as int, messages.len() as int),
    decreases k,
{
    let n = memory.len() as int;
    lemma_stored_all(memory, get, messages);
    let slots = stored_all(memory, get, messages);
    if k == 0 {
        lemma_small_mod(get, memory.len());
        assert(messages.subrange(0, messages.len() as int) =~= messages);
    } else {
        lemma_received_from(memory, get, messages, (k - 1) as nat);
        let g = ((get + (k - 1)) % n) as nat;
        vstd::arithmetic::div_mod::lemma_mod_bound((get + (k - 1)) as int, n);
        lemma_acknowledge_pops(slots, g, (messages.len() - (k - 1)) as nat);
        vstd::arithmetic::div_mod::lemma_add_mod_noop_right(1, (get + (k - 1)) as int, n);
        assert(((g + 1) as int % n) == (get + k) as int % n);
        assert(messages.subrange((k - 1) as int, messages.len() as int).drop_first()
            =~= messages.subrange(k as int, messages.len() as int));
    }
}

/// FIFO order: after the peripheral has stored `messages` into an empty
/// FIFO, the message received after `k` acknowledgements (each of which
/// advances the get index by one) is the `k`-th message stored.
pub proof fn lemma_fifo_order<T>(memory: Seq<T>, get: nat, messages: Seq<T>, k: nat)
    requires
        get < memory.len(),
        messages.len() <= memory.len(),
        k < messages.len(),
    ensures
        fifo_queue(
            stored_all(memory, get, messages),
            ((get + k) as int % (memory.len() as int)) as nat,
            (messages.len() - k) as nat,
        )[0] == messages[k as int],
{
    lemma_received_from(memory, get, messages, k);
}


/// FIFO order of receptions. Let the peripheral have stored `messages`, one
/// after the other, into FIFO slots that were empty with get index `first`,
/// and let the status register report the state after `k` acknowledgements:
/// get index `first + k` (wrapping) and fill level `N - k`. Then the messages
/// waiting are exactly `messages[k..]`, so [`RxFifo::receive`] returns the
/// `k`-th message stored, and once all `N` are acknowledged it gives
/// `WouldBlock`.
pub proof fn lemma_receive_order<F>(
    fifo: RxFifo<F>,
    empty_slots: Seq<rx::Message>,
    first: nat,
    messages: Seq<rx::Message>,
    k: nat,
)
    requires
        first < empty_slots.len(),
        messages.len() <= empty_slots.len(),
        k <= messages.len(),
        fifo.memory_spec() == stored_all(empty_slots, first, messages),
        fifo.get_spec() == (first + k) as int % (empty_slots.len() as int),
        fifo.fill_spec() == messages.len() - k,
    ensures
        fifo.status_consistent(),
        fifo.pending() == messages.subrange(k as int, messages.len() as int).map_values(
            |m: rx::Message| m@,
        ),
        k < messages.len() ==> fifo.pending()[0] == messages[k as int]@,
        k == messages.len() ==> fifo.fill_spec() == 0,
{
    let n = empty_slots.len() as int;
    lemma_stored_all(empty_slots, first, messages);
    lemma_received_from(empty_slots, first, messages, k);
    vstd::arithmetic::div_mod::lemma_mod_bound((first + k) as int, n);
    let slots = fifo.memory_spec();
    let q = fifo_queue(slots, fifo.get_spec(), fifo.fill_spec());
    assert forall|j: int| 0 <= j < fifo.fill_spec() implies #[trigger] fifo.pending()[j] == q[j]@ by {
        vstd::arithmetic::div_mod::lemma_mod_bound(fifo.get_spec() + j, n);
    }
    assert(fifo.pending() =~= messages.subrange(k as int, messages.len() as int).map_values(
        |m: rx::Message| m@,
    ));
}

} // verus!
