//! Information about successfully transmitted messages
//!
//! Events are only generated for messages built with `store_tx_event` set.
use vstd::prelude::*;
use crate::message::TxEvent;
use crate::reg::{field, get_field, lemma_field_bounds, set_field, with_field, TxEventRegs};

verus! {

/// Transmit event queue: its slots in Message RAM and its status and
/// acknowledge registers, owned by this value alone.
pub struct TxEventFifo {
    memory: Vec<TxEvent>,
    regs: TxEventRegs,
}

/// Common queries of the TX event queue.
pub trait DynTxEventFifo {
    /// Fill level reported by the status register.
    spec fn fill_spec(&self) -> nat;

    /// Number of slots.
    spec fn capacity_spec(&self) -> nat;

    /// Returns the number of elements in the queue
    fn len(&self) -> (r: usize)
        ensures
            r == self.fill_spec(),
    ;

    /// Returns `true` if the queue is empty
    fn is_empty(&self) -> (r: bool)
        ensures
            r == (self.fill_spec() == 0),
    ;

    /// Returns the number of elements the queue can hold
    fn capacity(&self) -> (r: usize)
        ensures
            r == self.capacity_spec(),
    ;
}

impl TxEventFifo {
    /// Slots of the queue.
    pub closed spec fn memory_spec(&self) -> Seq<TxEvent> {
        self.memory@
    }

    /// Current register values.
    pub closed spec fn registers_spec(&self) -> TxEventRegs {
        self.regs
    }

    /// Get index reported by the status register.
    pub open spec fn get_spec(&self) -> nat {
        field(self.registers_spec().txefs, 8, 5) as nat
    }

    /// Takes over the slots of the queue, with its registers at `regs`.
    pub fn new(memory: Vec<TxEvent>, regs: TxEventRegs) -> (r: Self)
        ensures
            r.memory_spec() == memory@,
            r.registers_spec() == regs,
    {
        TxEventFifo { memory, regs }
    }

    /// Current register values.
    pub fn registers(&self) -> (r: TxEventRegs)
        ensures
            r == self.registers_spec(),
    {
        self.regs
    }

    /// Takes the register values the peripheral reports.
    pub fn set_registers(&mut self, regs: TxEventRegs)
        ensures
            final(self).registers_spec() == regs,
            final(self).memory_spec() == old(self).memory_spec(),
    {
        self.regs = regs;
    }

    /// Stores an event in slot `index`, as the peripheral does when a
    /// transmission completes. Returns `false`, changing nothing, if there is
    /// no such slot.
    pub fn store(&mut self, index: usize, event: TxEvent) -> (r: bool)
        ensures
            r == (index < old(self).memory_spec().len()),
            r ==> final(self).memory_spec() == old(self).memory_spec().update(index as int, event),
            !r ==> final(self).memory_spec() == old(self).memory_spec(),
            final(self).registers_spec() == old(self).registers_spec(),
    {
        if index < self.memory.len() {
            self.memory.set(index, event);
            true
        } else {
            false
        }
    }

    /// Takes the oldest event from the queue and acknowledges it by writing
    /// its index to the acknowledge register. `None` if the queue is empty
    /// or its get index names no slot.
    pub fn pop(&mut self) -> (r: Option<TxEvent>)
        ensures
            r is None <==> old(self).fill_spec() == 0 || old(self).get_spec() >= old(
                self,
            ).memory_spec().len(),
            r is None ==> *final(self) == *old(self),
            r matches Some(e) ==> e@ == old(self).memory_spec()[old(self).get_spec() as int]@,
            r is Some ==> final(self).registers_spec() == (TxEventRegs {
                txefa: with_field(old(self).registers_spec().txefa, 0, 5, old(self).get_spec() as u32),
                ..old(self).registers_spec()
            }),
            final(self).memory_spec() == old(self).memory_spec(),
    {
        if self.len() == 0 {
            return None;
        }
        let get_index = get_field(self.regs.txefs, 8, 5) as usize;
        if get_index >= self.memory.len() {
            return None;
        }
        let event = self.memory[get_index].copy();
        self.regs.txefa = set_field(self.regs.txefa, 0, 5, get_index as u32);
        Some(event)
    }
}

impl DynTxEventFifo for TxEventFifo {
    closed spec fn fill_spec(&self) -> nat {
        field(self.regs.txefs, 0, 6) as nat
    }

    closed spec fn capacity_spec(&self) -> nat {
        self.memory@.len()
    }

    fn len(&self) -> (r: usize) {
        get_field(self.regs.txefs, 0, 6) as usize
    }

    fn is_empty(&self) -> (r: bool) {
        self.len() == 0
    }

    fn capacity(&self) -> (r: usize) {
        self.memory.len()
    }
}

} // verus!
