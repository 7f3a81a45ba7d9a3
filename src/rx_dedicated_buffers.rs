//! Dedicated receive buffers, addressed by index.
use vstd::prelude::*;
use std::convert::Infallible;
use crate::interrupt::bit;
use crate::message::{id_field, xtd_bit, rx};
use crate::poll::{OutOfBounds, PollError, PollResult};
use crate::reg::NewDataRegs;

verus! {

/// Number of dedicated receive buffers the new data registers cover.
pub const MAX_DEDICATED_BUFFERS: usize = 64;

/// Arbitration priority of an identifier, lower first: the 11-bit base
/// identifier, then a standard frame before an extended one, then the 18
/// low bits of an extended identifier. This is the order in which the bus
/// arbitrates frames.
pub open spec fn priority_key(extended: bool, raw: u32) -> nat {
    if extended {
        (((raw / 0x4_0000) % 0x800) * 0x8_0000 + 0x4_0000 + raw % 0x4_0000) as nat
    } else {
        ((raw % 0x800) * 0x8_0000) as nat
    }
}

/// Arbitration priority of a received message.
pub open spec fn message_key(m: (u32, u32, Seq<u8>)) -> nat {
    priority_key(xtd_bit(m.0), id_field(m.0))
}

/// The new data flag of buffer `i`.
pub open spec fn new_data(ndat: NewDataRegs, i: int) -> bool {
    if 0 <= i < 32 {
        bit(ndat.ndat1, i as u32)
    } else if 32 <= i < 64 {
        bit(ndat.ndat2, (i - 32) as u32)
    } else {
        false
    }
}

/// The new data flags with the flag of buffer `i` cleared.
pub open spec fn cleared(ndat: NewDataRegs, i: int) -> NewDataRegs {
    if 0 <= i < 32 {
        NewDataRegs { ndat1: ndat.ndat1 & !(1u32 << (i as u32)), ..ndat }
    } else if 32 <= i < 64 {
        NewDataRegs { ndat2: ndat.ndat2 & !(1u32 << ((i - 32) as u32)), ..ndat }
    } else {
        ndat
    }
}

/// Dedicated receive buffers: their slots in Message RAM and the new data
/// registers, owned by this value alone.
pub struct RxDedicatedBuffer {
    memory: Vec<rx::Message>,
    ndat: NewDataRegs,
}

impl RxDedicatedBuffer {
    /// Slots of the buffers.
    pub closed spec fn memory_spec(&self) -> Seq<rx::Message> {
        self.memory@
    }

    /// New data registers.
    pub closed spec fn ndat_spec(&self) -> NewDataRegs {
        self.ndat
    }

    /// Takes over the buffer slots, with the new data registers at `ndat`.
    pub fn new(memory: Vec<rx::Message>, ndat: NewDataRegs) -> (r: Self)
        ensures
            r.memory_spec() == memory@,
            r.ndat_spec() == ndat,
    {
        RxDedicatedBuffer { memory, ndat }
    }

    /// Current values of the new data registers.
    pub fn registers(&self) -> (r: NewDataRegs)
        ensures
            r == self.ndat_spec(),
    {
        self.ndat
    }

    /// Takes the new data register values the peripheral reports.
    pub fn set_registers(&mut self, ndat: NewDataRegs)
        ensures
            final(self).ndat_spec() == ndat,
            final(self).memory_spec() == old(self).memory_spec(),
    {
        self.ndat = ndat;
    }

    /// Stores a message in buffer `index`, as the peripheral does on
    /// reception. Returns `false`, changing nothing, if there is no such
    /// buffer.
    pub fn store(&mut self, index: usize, message: rx::Message) -> (r: bool)
        ensures
            r == (index < old(self).memory_spec().len()),
            r ==> final(self).memory_spec() == old(self).memory_spec().update(index as int, message),
            !r ==> final(self).memory_spec() == old(self).memory_spec(),
            final(self).ndat_spec() == old(self).ndat_spec(),
    {
        if index < self.memory.len() {
            self.memory.set(index, message);
            true
        } else {
            false
        }
    }

    fn has_new_data(&self, index: usize) -> (r: bool)
        ensures
            r == new_data(self.ndat, index as int),
    {
        if index < 32 {
            (self.ndat.ndat1 >> (index as u32)) & 1 == 1
        } else if index < 64 {
            (self.ndat.ndat2 >> ((index - 32) as u32)) & 1 == 1
        } else {
            false
        }
    }

    fn has_new_data_checked(&self, index: usize) -> (r: Result<bool, OutOfBounds>)
        ensures
            r is Ok <==> index < MAX_DEDICATED_BUFFERS,
            r matches Ok(b) ==> b == new_data(self.ndat, index as int),
    {
        if index < MAX_DEDICATED_BUFFERS {
            Ok(self.has_new_data(index))
        } else {
            Err(OutOfBounds)
        }
    }

    /// Clears the new data flag of buffer `index` by writing a one to it.
    fn mark_buffer_read(&mut self, index: usize)
        ensures
            final(self).ndat == cleared(old(self).ndat, index as int),
            final(self).memory == old(self).memory,
    {
        if index < 32 {
            self.ndat.ndat1 = self.ndat.ndat1 & !(1u32 << (index as u32));
        } else if index < 64 {
            self.ndat.ndat2 = self.ndat.ndat2 & !(1u32 << ((index - 32) as u32));
        }
    }

    fn peek(&self, index: usize) -> (r: PollResult<rx::Message, OutOfBounds>)
        ensures
            r matches Err(PollError::Other(_)) <==> index >= MAX_DEDICATED_BUFFERS || index
                >= self.memory@.len(),
            r matches Err(PollError::WouldBlock) <==> index < MAX_DEDICATED_BUFFERS && index
                < self.memory@.len() && !new_data(self.ndat, index as int),
            r matches Ok(m) ==> index < self.memory@.len() && m@ == self.memory@[index as int]@,
    {
        if index >= self.memory.len() {
            return Err(PollError::Other(OutOfBounds));
        }
        let fresh = match self.has_new_data_checked(index) {
            Ok(b) => b,
            Err(e) => {
                return Err(PollError::Other(e));
            },
        };
        if fresh {
            Ok(self.memory[index].copy())
        } else {
            Err(PollError::WouldBlock)
        }
    }

    /// Returns a received frame from the selected buffer if it has new data,
    /// and clears its new data flag. An index without a buffer is an error,
    /// whatever its flag says; a buffer without new data gives `WouldBlock`.
    pub fn receive(&mut self, index: usize) -> (r: PollResult<rx::Message, OutOfBounds>)
        ensures
            r matches Err(PollError::Other(_)) <==> index >= MAX_DEDICATED_BUFFERS || index
                >= old(self).memory_spec().len(),
            r matches Err(PollError::WouldBlock) <==> index < MAX_DEDICATED_BUFFERS && index
                < old(self).memory_spec().len() && !new_data(old(self).ndat_spec(), index as int),
            r is Err ==> *final(self) == *old(self),
            r matches Ok(m) ==> m@ == old(self).memory_spec()[index as int]@,
            r is Ok ==> final(self).ndat_spec() == cleared(old(self).ndat_spec(), index as int),
            final(self).memory_spec() == old(self).memory_spec(),
    {
        let message = match self.peek(index) {
            Ok(m) => m,
            Err(e) => {
                return Err(e);
            },
        };
        self.mark_buffer_read(index);
        Ok(message)
    }

    /// Returns a received frame from any dedicated buffer with new data: the
    /// one whose identifier has the highest bus priority (the lowest
    /// identifier), the lowest index among equal ones. Its new data flag is
    /// cleared. Without new data in any buffer, gives `WouldBlock`.
    pub fn receive_any(&mut self) -> (r: PollResult<rx::Message, Infallible>)
        ensures
            r is Err <==> !exists|i: int| 0 <= i < old(self).memory_spec().len() && new_data(
                old(self).ndat_spec(),
                i,
            ),
            r is Err ==> *final(self) == *old(self),
            r matches Err(e) ==> e is WouldBlock,
            r is Ok ==> exists|i: int|
                {
                    &&& 0 <= i < old(self).memory_spec().len()
                    &&& new_data(old(self).ndat_spec(), i)
                    &&& r->Ok_0@ == old(self).memory_spec()[i]@
                    &&& final(self).ndat_spec() == cleared(old(self).ndat_spec(), i)
                    &&& forall|j: int|
                        0 <= j < old(self).memory_spec().len() && new_data(old(self).ndat_spec(), j)
                            ==> message_key(old(self).memory_spec()[i]@) <= message_key(
                            #[trigger] old(self).memory_spec()[j]@,
                        )
                    &&& forall|j: int|
                        0 <= j < i && new_data(old(self).ndat_spec(), j) ==> message_key(
                            old(self).memory_spec()[i]@,
                        ) < message_key(#[trigger] old(self).memory_spec()[j]@)
                },
            final(self).memory_spec() == old(self).memory_spec(),
    {
        let mut best: Option<(usize, u32)> = None;
        let mut i: usize = 0;
        while i < self.memory.len()
            invariant
                *self == *old(self),
                i <= self.memory@.len(),
                best is None ==> forall|j: int| 0 <= j < i ==> !new_data(self.ndat, j),
                best matches Some((b, key)) ==> {
                    &&& b < i
                    &&& new_data(self.ndat, b as int)
                    &&& key == message_key(self.memory@[b as int]@)
                    &&& forall|j: int|
                        0 <= j < i && new_data(self.ndat, j) ==> key <= message_key(
                            #[trigger] self.memory@[j]@,
                        )
                    &&& forall|j: int|
                        0 <= j < b && new_data(self.ndat, j) ==> key < message_key(
                            #[trigger] self.memory@[j]@,
                        )
                },
            decreases self.memory@.len() - i,
        {
            if self.has_new_data(i) {
                let key = id_priority(&self.memory[i]);
                let better = match best {
                    None => true,
                    Some((_, k)) => key < k,
                };
                if better {
                    best = Some((i, key));
                }
            }
            i = i + 1;
        }
        let ghost old_ndat = self.ndat;
        match best {
            None => {
                assert(!exists|j: int| 0 <= j < self.memory@.len() && new_data(self.ndat, j));
                assert(self.memory@ == old(self).memory_spec());
                assert(self.ndat == old(self).ndat_spec());
                Err(PollError::WouldBlock)
            },
            Some((b, _)) => {
                let message = self.memory[b].copy();
                self.mark_buffer_read(b);
                assert({
                    &&& 0 <= b < self.memory@.len()
                    &&& new_data(old_ndat, b as int)
                    &&& message@ == self.memory@[b as int]@
                    &&& self.ndat == cleared(old_ndat, b as int)
                    &&& forall|j: int|
                        0 <= j < self.memory@.len() && new_data(old_ndat, j) ==> message_key(
                            self.memory@[b as int]@,
                        ) <= message_key(#[trigger] self.memory@[j]@)
                    &&& forall|j: int|
                        0 <= j < b && new_data(old_ndat, j) ==> message_key(self.memory@[b as int]@)
                            < message_key(#[trigger] self.memory@[j]@)
                });
                assert(exists|j: int| 0 <= j < old(self).memory_spec().len() && new_data(old(self).ndat_spec(), j)) by {
                    assert(new_data(old(self).ndat_spec(), b as int));
                }
                Ok(message)
            },
        }
    }
}

/// Arbitration priority of the identifier of `m`.
fn id_priority(m: &rx::Message) -> (r: u32)
    ensures
        r == message_key(m@),
{
    let raw = m.0.id().raw_value();
    if m.0.is_extended() {
        ((raw / 0x4_0000) % 0x800) * 0x8_0000 + 0x4_0000 + raw % 0x4_0000
    } else {
        (raw % 0x800) * 0x8_0000
    }
}

} // verus!
