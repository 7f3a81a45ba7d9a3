//! Transmit buffers: dedicated buffers addressed by index, and a queue.
use vstd::prelude::*;
use std::convert::Infallible;
use crate::interrupt::bit;
use crate::message::tx;
use crate::poll::{OutOfBounds, PollError, PollResult};
use crate::reg::{field, get_field, TxRegs};

verus! {

/// Number of transmit buffers the registers cover.
pub const MAX_TX_BUFFERS: usize = 32;

/// A set of transmit buffers, which may be dedicated buffers or part of the
/// queue: bit `i` stands for buffer `i`.
#[derive(Clone, Copy, Debug, PartialEq, Eq, Structural)]
pub struct TxBufferSet(pub u32);

/// Buffer indices set in `flags`, from `from` upwards.
pub open spec fn buffers_from(flags: u32, from: nat) -> Seq<nat>
    decreases 32 - from,
{
    if from >= 32 {
        Seq::empty()
    } else if bit(flags, from as u32) {
        seq![from] + buffers_from(flags, from + 1)
    } else {
        buffers_from(flags, from + 1)
    }
}

/// Union of the buffers of `indices`.
pub open spec fn set_of(indices: Seq<usize>) -> u32
    decreases indices.len(),
{
    if indices.len() == 0 {
        0
    } else {
        set_of(indices.drop_last()) | (1u32 << (indices.last() as u32))
    }
}

impl TxBufferSet {
    /// Returns the set of all transmit buffers
    pub fn all() -> (r: Self)
        ensures
            r.0 == 0xffff_ffff,
    {
        TxBufferSet(0xffff_ffff)
    }

    /// The set of the buffers in `indices`, each below 32.
    pub fn from_iter(indices: Vec<usize>) -> (r: Self)
        requires
            forall|k: int| 0 <= k < indices@.len() ==> #[trigger] indices@[k] < MAX_TX_BUFFERS,
        ensures
            r.0 == set_of(indices@),
    {
        let mut set: u32 = 0;
        let mut i: usize = 0;
        while i < indices.len()
            invariant
                i <= indices.len(),
                forall|k: int| 0 <= k < indices@.len() ==> #[trigger] indices@[k] < MAX_TX_BUFFERS,
                set == set_of(indices@.subrange(0, i as int)),
            decreases indices.len() - i,
        {
            assert(indices@.subrange(0, i + 1).drop_last() =~= indices@.subrange(0, i as int));
            set = set | (1u32 << (indices[i] as u32));
            i = i + 1;
        }
        assert(indices@.subrange(0, i as int) =~= indices@);
        TxBufferSet(set)
    }

    /// An iterator visiting the buffer indices of the set, in order.
    pub fn iter(&self) -> (r: Iter)
        ensures
            r.remaining() == buffers_from(self.0, 0),
    {
        Iter { flags: *self, index: 0 }
    }
}

/// An iterator over the buffer indexes of the buffers in a [`TxBufferSet`].
///
/// This `struct` is created by [`TxBufferSet::iter`].
pub struct Iter {
    flags: TxBufferSet,
    index: u8,
}

impl Iter {
    /// Buffer indices still to be visited, in order.
    pub closed spec fn remaining(self) -> Seq<nat> {
        buffers_from(self.flags.0, self.index as nat)
    }

    /// The next buffer index of the set, or `None` once all have been
    /// visited.
    pub fn next(&mut self) -> (r: Option<usize>)
        ensures
            old(self).remaining().len() == 0 ==> r is None && final(self).remaining().len() == 0,
            old(self).remaining().len() > 0 ==> r == Some(old(self).remaining()[0] as usize),
            old(self).remaining().len() > 0 ==> final(self).remaining() == old(self).remaining().drop_first(),
    {
        let ghost start = self.remaining();
        while self.index < 32
            invariant
                self.remaining() == start,
                start == old(self).remaining(),
                self.flags == old(self).flags,
            decreases 32 - self.index,
        {
            let i = self.index;
            self.index = i + 1;
            proof {
                if bit(self.flags.0, i as u32) {
                    assert(start =~= seq![i as nat] + buffers_from(self.flags.0, (i + 1) as nat));
                } else {
                    assert(start =~= buffers_from(self.flags.0, (i + 1) as nat));
                }
            }
            if (self.flags.0 >> (i as u32)) & 1 == 1 {
                assert(start.drop_first() =~= self.remaining());
                return Some(i as usize);
            }
        }
        assert(buffers_from(self.flags.0, self.index as nat) =~= Seq::<nat>::empty());
        None
    }
}

/// Transmit queue and dedicated buffers: their slots in Message RAM and the
/// transmit registers, owned by this value alone. The first `dedicated`
/// buffers are dedicated; the rest form the queue.
pub struct Tx {
    memory: Vec<tx::Message>,
    regs: TxRegs,
    dedicated: usize,
}

impl Tx {
    /// Slots of the buffers.
    pub closed spec fn memory_spec(&self) -> Seq<tx::Message> {
        self.memory@
    }

    /// Current register values.
    pub closed spec fn registers_spec(&self) -> TxRegs {
        self.regs
    }

    /// Number of dedicated buffers.
    pub closed spec fn dedicated_spec(&self) -> nat {
        self.dedicated as nat
    }

    /// At most 32 buffers, the dedicated ones among them.
    pub closed spec fn wf(&self) -> bool {
        self.memory@.len() <= MAX_TX_BUFFERS && self.dedicated <= self.memory@.len()
    }

    /// The buffer has an add request or a pending transmission.
    pub open spec fn in_use(&self, index: nat) -> bool {
        bit(self.registers_spec().txbar | self.registers_spec().txbrp, index as u32)
    }

    /// The queue is full (TFQF).
    pub open spec fn queue_full(&self) -> bool {
        field(self.registers_spec().txfqs, 21, 1) == 1
    }

    /// Put index of the queue (TFQPI).
    pub open spec fn put_index(&self) -> nat {
        field(self.registers_spec().txfqs, 16, 5) as nat
    }

    /// `after` is `before` with `message` written to buffer `index` and its
    /// transmission requested.
    pub open spec fn transmitted(before: Tx, after: Tx, index: nat, message: tx::Message) -> bool {
        &&& after.memory_spec() == before.memory_spec().update(index as int, message)
        &&& after.registers_spec() == (TxRegs {
            txbar: before.registers_spec().txbar | (1u32 << (index as u32)),
            ..before.registers_spec()
        })
        &&& after.dedicated_spec() == before.dedicated_spec()
        &&& after.wf()
    }

    /// Takes over the transmit buffer slots, the first `dedicated` of them
    /// dedicated, with the registers at `regs`.
    pub fn new(memory: Vec<tx::Message>, regs: TxRegs, dedicated: usize) -> (r: Self)
        requires
            memory@.len() <= MAX_TX_BUFFERS,
            dedicated <= memory@.len(),
        ensures
            r.memory_spec() == memory@,
            r.registers_spec() == regs,
            r.dedicated_spec() == dedicated,
            r.wf(),
    {
        Tx { memory, regs, dedicated }
    }

    /// Current register values.
    pub fn registers(&self) -> (r: TxRegs)
        ensures
            r == self.registers_spec(),
    {
        self.regs
    }

    /// Takes the register values the peripheral reports.
    pub fn set_registers(&mut self, regs: TxRegs)
        requires
            old(self).wf(),
        ensures
            final(self).wf(),
            final(self).registers_spec() == regs,
            final(self).memory_spec() == old(self).memory_spec(),
            final(self).dedicated_spec() == old(self).dedicated_spec(),
    {
        self.regs = regs;
    }

    fn add_request(&mut self, index: usize)
        requires
            index < MAX_TX_BUFFERS,
        ensures
            final(self).regs == (TxRegs {
                txbar: old(self).regs.txbar | (1u32 << (index as u32)),
                ..old(self).regs
            }),
            final(self).memory == old(self).memory,
            final(self).dedicated == old(self).dedicated,
    {
        self.regs.txbar = self.regs.txbar | (1u32 << (index as u32));
    }

    fn is_buffer_in_use(&self, index: usize) -> (r: bool)
        requires
            index < MAX_TX_BUFFERS,
        ensures
            r == self.in_use(index as nat),
    {
        ((self.regs.txbar | self.regs.txbrp) >> (index as u32)) & 1 == 1
    }

    /// Puts a frame in the specified transmit buffer and requests its
    /// transmission. An index without a buffer is an error; a buffer in use
    /// gives `WouldBlock`.
    fn transmit(&mut self, index: usize, message: tx::Message) -> (r: PollResult<(), OutOfBounds>)
        requires
            old(self).wf(),
        ensures
            r matches Err(PollError::Other(_)) <==> index >= old(self).memory_spec().len(),
            r matches Err(PollError::WouldBlock) <==> index < old(self).memory_spec().len()
                && old(self).in_use(index as nat),
            r is Err ==> *final(self) == *old(self),
            r is Ok ==> Tx::transmitted(*old(self), *final(self), index as nat, message),
    {
        if index >= self.memory.len() {
            return Err(PollError::Other(OutOfBounds));
        }
        if self.is_buffer_in_use(index) {
            return Err(PollError::WouldBlock);
        }
        self.memory.set(index, message);
        self.add_request(index);
        Ok(())
    }

    /// Returns the put index if available. `None` if the queue is full.
    fn find_put_index(&self) -> (r: Option<usize>)
        ensures
            r is None <==> self.queue_full(),
            r matches Some(i) ==> i == self.put_index(),
    {
        if get_field(self.regs.txfqs, 21, 1) == 1 {
            None
        } else {
            Some(get_field(self.regs.txfqs, 16, 5) as usize)
        }
    }

    /// Puts a frame in the specified dedicated transmit buffer to be sent on
    /// the bus. An index that names no dedicated buffer is an error; a
    /// buffer in use gives `WouldBlock`.
    pub fn transmit_dedicated(&mut self, index: usize, message: tx::Message) -> (r: PollResult<
        (),
        OutOfBounds,
    >)
        requires
            old(self).wf(),
        ensures
            r matches Err(PollError::Other(_)) <==> index >= old(self).dedicated_spec(),
            r matches Err(PollError::WouldBlock) <==> index < old(self).dedicated_spec() && old(self).in_use(index as nat),
            r is Err ==> *final(self) == *old(self),
            r is Ok ==> Tx::transmitted(*old(self), *final(self), index as nat, message),
    {
        if index >= self.dedicated {
            return Err(PollError::Other(OutOfBounds));
        }
        self.transmit(index, message)
    }

    /// Puts a frame in the queue to be sent on the bus, at the put index the
    /// peripheral reports. A full queue gives `WouldBlock`.
    pub fn transmit_queued(&mut self, message: tx::Message) -> (r: PollResult<(), OutOfBounds>)
        requires
            old(self).wf(),
        ensures
            old(self).queue_full() ==> r matches Err(PollError::WouldBlock),
            !old(self).queue_full() ==> ((r matches Err(PollError::Other(_))) <==> old(self).put_index() >= old(self).memory_spec().len()),
            !old(self).queue_full() ==> ((r matches Err(PollError::WouldBlock)) <==> old(self).put_index() < old(self).memory_spec().len() && old(self).in_use(
                old(self).put_index(),
            )),
            r is Ok ==> Tx::transmitted(*old(self), *final(self), old(self).put_index(), message),
            r is Err ==> *final(self) == *old(self),
    {
        let index = match self.find_put_index() {
            Some(i) => i,
            None => {
                return Err(PollError::WouldBlock);
            },
        };
        self.transmit(index, message)
    }

    /// Allow the cancellation finished interrupt to be triggered by
    /// `to_be_enabled`. Interrupts for other buffers remain unchanged.
    pub fn enable_cancellation_interrupt(&mut self, to_be_enabled: TxBufferSet)
        ensures
            final(self).wf() == old(self).wf(),
            final(self).registers_spec() == (TxRegs {
                txbcie: old(self).registers_spec().txbcie | to_be_enabled.0,
                ..old(self).registers_spec()
            }),
            final(self).memory_spec() == old(self).memory_spec(),
            final(self).dedicated_spec() == old(self).dedicated_spec(),
    {
        self.regs.txbcie = self.regs.txbcie | to_be_enabled.0;
    }

    /// Disallow the cancellation finished interrupt to be triggered by
    /// `to_be_disabled`. Interrupts for other buffers remain unchanged.
    pub fn disable_cancellation_interrupt(&mut self, to_be_disabled: TxBufferSet)
        ensures
            final(self).wf() == old(self).wf(),
            final(self).registers_spec() == (TxRegs {
                txbcie: old(self).registers_spec().txbcie & !to_be_disabled.0,
                ..old(self).registers_spec()
            }),
            final(self).memory_spec() == old(self).memory_spec(),
            final(self).dedicated_spec() == old(self).dedicated_spec(),
    {
        self.regs.txbcie = self.regs.txbcie & !to_be_disabled.0;
    }

    /// Allow the transmission completed interrupt to be triggered by
    /// `to_be_enabled`. Interrupts for other buffers remain unchanged.
    pub fn enable_transmission_completed_interrupt(&mut self, to_be_enabled: TxBufferSet)
        ensures
            final(self).wf() == old(self).wf(),
            final(self).registers_spec() == (TxRegs {
                txbtie: old(self).registers_spec().txbtie | to_be_enabled.0,
                ..old(self).registers_spec()
            }),
            final(self).memory_spec() == old(self).memory_spec(),
            final(self).dedicated_spec() == old(self).dedicated_spec(),
    {
        self.regs.txbtie = self.regs.txbtie | to_be_enabled.0;
    }

    /// Disallow the transmission completed interrupt to be triggered by
    /// `to_be_disabled`. Interrupts for other buffers remain unchanged.
    pub fn disable_transmission_completed_interrupt(&mut self, to_be_disabled: TxBufferSet)
        ensures
            final(self).wf() == old(self).wf(),
            final(self).registers_spec() == (TxRegs {
                txbtie: old(self).registers_spec().txbtie & !to_be_disabled.0,
                ..old(self).registers_spec()
            }),
            final(self).memory_spec() == old(self).memory_spec(),
            final(self).dedicated_spec() == old(self).dedicated_spec(),
    {
        self.regs.txbtie = self.regs.txbtie & !to_be_disabled.0;
    }

    /// Returns the set of buffers that the peripheral indicates have been
    /// cancelled. The flags are only cleared when a new transmission is
    /// requested for the buffer.
    pub fn get_cancellation_flags(&self) -> (r: TxBufferSet)
        ensures
            r.0 == self.registers_spec().txbcf,
    {
        TxBufferSet(self.regs.txbcf)
    }

    /// Returns the set of buffers that the peripheral indicates have been
    /// successfully transmitted. The flags are only cleared when a new
    /// transmission is requested for the buffer.
    pub fn get_transmission_completed_flags(&self) -> (r: TxBufferSet)
        ensures
            r.0 == self.registers_spec().txbto,
    {
        TxBufferSet(self.regs.txbto)
    }

    /// Iterates over the buffers that the peripheral indicates have been
    /// cancelled.
    pub fn iter_cancellation_flags(&self) -> (r: Iter)
        ensures
            r.remaining() == buffers_from(self.registers_spec().txbcf, 0),
    {
        self.get_cancellation_flags().iter()
    }

    /// Iterates over the buffers that the peripheral indicates have been
    /// successfully transmitted.
    pub fn iter_transmission_completed_flags(&self) -> (r: Iter)
        ensures
            r.remaining() == buffers_from(self.registers_spec().txbto, 0),
    {
        self.get_transmission_completed_flags().iter()
    }

    fn poll_canceled(&self, to_be_canceled: TxBufferSet) -> (r: PollResult<(), Infallible>)
        ensures
            r is Ok <==> self.regs.txbcf & to_be_canceled.0 == to_be_canceled.0,
            r matches Err(e) ==> e is WouldBlock,
    {
        if self.regs.txbcf & to_be_canceled.0 == to_be_canceled.0 {
            Ok(())
        } else {
            Err(PollError::WouldBlock)
        }
    }

    /// Request cancellation of `to_be_canceled`. Returns `WouldBlock` until
    /// the peripheral reports all of them cancelled; while that is not so, a
    /// cancellation request is written for them. A buffer whose transmission
    /// had started may still finish successfully, in which case its
    /// transmission completed flag is set as well: the cancellation flag
    /// without the completed flag means the transmission was not started or
    /// was aborted due to an error.
    pub fn cancel_multi(&mut self, to_be_canceled: TxBufferSet) -> (r: PollResult<(), Infallible>)
        ensures
            final(self).wf() == old(self).wf(),
            r is Ok <==> old(self).registers_spec().txbcf & to_be_canceled.0 == to_be_canceled.0,
            r matches Err(e) ==> e is WouldBlock,
            r is Ok ==> *final(self) == *old(self),
            r is Err ==> final(self).registers_spec() == (TxRegs {
                txbcr: old(self).registers_spec().txbcr | to_be_canceled.0,
                ..old(self).registers_spec()
            }),
            final(self).memory_spec() == old(self).memory_spec(),
            final(self).dedicated_spec() == old(self).dedicated_spec(),
    {
        match self.poll_canceled(to_be_canceled) {
            Ok(()) => Ok(()),
            Err(_) => {
                self.regs.txbcr = self.regs.txbcr | to_be_canceled.0;
                self.poll_canceled(to_be_canceled)
            },
        }
    }

    /// Request cancellation of a transmit buffer. See [`Self::cancel_multi`].
    pub fn cancel(&mut self, index: usize) -> (r: PollResult<(), Infallible>)
        requires
            index < MAX_TX_BUFFERS,
        ensures
            final(self).wf() == old(self).wf(),
            r is Ok <==> bit(old(self).registers_spec().txbcf, index as u32),
            r matches Err(e) ==> e is WouldBlock,
            r is Ok ==> *final(self) == *old(self),
            r is Err ==> final(self).registers_spec() == (TxRegs {
                txbcr: old(self).registers_spec().txbcr | (1u32 << (index as u32)),
                ..old(self).registers_spec()
            }),
            final(self).memory_spec() == old(self).memory_spec(),
    {
        let mut indices: Vec<usize> = Vec::new();
        indices.push(index);
        let set = TxBufferSet::from_iter(indices);
        proof {
            assert(indices@.drop_last() =~= Seq::<usize>::empty());
            assert(set_of(indices@.drop_last()) == 0);
            assert(0u32 | (1u32 << (index as u32)) == 1u32 << (index as u32)) by (bit_vector);
            assert(set.0 == 1u32 << (index as u32));
            let f = self.regs.txbcf;
            let m = 1u32 << (index as u32);
            assert((f & m == m) == bit(f, index as u32)) by (bit_vector)
                requires
                    m == 1u32 << (index as u32),
                    index < 32,
            ;
        }
        self.cancel_multi(set)
    }
}

} // verus!
