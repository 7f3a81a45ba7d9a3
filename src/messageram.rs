//! Memory shared between the CPU and the peripheral (Message RAM): the
//! capacities of its regions, their layout, and the check that the
//! peripheral can address it.
use vstd::prelude::*;
use crate::filter::{FilterExtendedId, FilterStandardId};
use crate::message::{rx, tx, DataFieldSize, RawMessage, TxEvent};

verus! {

/// Most standard ID filters the peripheral supports.
pub const MAX_STANDARD_FILTERS: usize = 128;
/// Most extended ID filters the peripheral supports.
pub const MAX_EXTENDED_FILTERS: usize = 64;
/// Most elements of a dedicated RX buffer region or an RX FIFO.
pub const MAX_RX_ELEMENTS: usize = 64;
/// Most transmit buffers and TX event FIFO elements.
pub const MAX_TX_ELEMENTS: usize = 32;
/// Size of the window the peripheral addresses with its 16-bit pointers.
pub const ADDRESSABLE_WINDOW: usize = 0x1_0000;

/// Element capacities and payload widths of the Message RAM regions.
#[derive(Clone, Copy, Debug, PartialEq, Eq, Structural)]
pub struct Capacities {
    /// Number of standard ID filters (at most 128)
    pub standard_filters: usize,
    /// Number of extended ID filters (at most 64)
    pub extended_filters: usize,
    /// Number of dedicated receive buffers (at most 64)
    pub dedicated_rx_buffers: usize,
    /// RX FIFO 0 size (at most 64)
    pub rx_fifo_0: usize,
    /// RX FIFO 1 size (at most 64)
    pub rx_fifo_1: usize,
    /// Number of transmit buffers, dedicated and queued (at most 32)
    pub tx_buffers: usize,
    /// Number of transmit buffers exempt from queue use, dedicated to
    /// specific messages (at most `tx_buffers`); the rest form the queue
    pub dedicated_tx_buffers: usize,
    /// TX event FIFO size (at most 32)
    pub tx_event_fifo: usize,
    /// Payload width of the dedicated receive buffers
    pub rx_buffer_message: DataFieldSize,
    /// Payload width of RX FIFO 0
    pub rx_fifo_0_message: DataFieldSize,
    /// Payload width of RX FIFO 1
    pub rx_fifo_1_message: DataFieldSize,
    /// Payload width of the transmit buffers
    pub tx_message: DataFieldSize,
}

/// The capacity that exceeds what the peripheral supports.
#[derive(Clone, Copy, Debug, PartialEq, Eq, Structural)]
pub enum CapacityError {
    /// More than 128 standard ID filters
    StandardFilters,
    /// More than 64 extended ID filters
    ExtendedFilters,
    /// More than 64 dedicated receive buffers
    DedicatedRxBuffers,
    /// More than 64 elements in RX FIFO 0
    RxFifo0,
    /// More than 64 elements in RX FIFO 1
    RxFifo1,
    /// More than 32 transmit buffers
    TxBuffers,
    /// More dedicated transmit buffers than transmit buffers
    DedicatedTxBuffers,
    /// More than 32 elements in the TX event FIFO
    TxEventFifo,
}

/// Byte offsets of the regions from the start of the Message RAM, and its
/// total size.
#[derive(Clone, Copy, Debug, PartialEq, Eq, Structural)]
pub struct Layout {
    /// Standard ID filters
    pub filters_standard: usize,
    /// Extended ID filters
    pub filters_extended: usize,
    /// RX FIFO 0
    pub rx_fifo_0: usize,
    /// RX FIFO 1
    pub rx_fifo_1: usize,
    /// Dedicated receive buffers
    pub rx_dedicated_buffers: usize,
    /// TX event FIFO
    pub tx_event_fifo: usize,
    /// Transmit buffers, dedicated ones first
    pub tx_buffers: usize,
    /// Total size in bytes
    pub size: usize,
}

/// Bytes of one message element: two header words and the payload.
pub open spec fn element_size(width: DataFieldSize) -> nat {
    8 + width.bytes()
}

impl Capacities {
    /// The first capacity, in field order, that exceeds the peripheral's
    /// maximum; `None` if all fit.
    pub open spec fn error_spec(self) -> Option<CapacityError> {
        if self.standard_filters > MAX_STANDARD_FILTERS {
            Some(CapacityError::StandardFilters)
        } else if self.extended_filters > MAX_EXTENDED_FILTERS {
            Some(CapacityError::ExtendedFilters)
        } else if self.dedicated_rx_buffers > MAX_RX_ELEMENTS {
            Some(CapacityError::DedicatedRxBuffers)
        } else if self.rx_fifo_0 > MAX_RX_ELEMENTS {
            Some(CapacityError::RxFifo0)
        } else if self.rx_fifo_1 > MAX_RX_ELEMENTS {
            Some(CapacityError::RxFifo1)
        } else if self.tx_buffers > MAX_TX_ELEMENTS {
            Some(CapacityError::TxBuffers)
        } else if self.dedicated_tx_buffers > self.tx_buffers {
            Some(CapacityError::DedicatedTxBuffers)
        } else if self.tx_event_fifo > MAX_TX_ELEMENTS {
            Some(CapacityError::TxEventFifo)
        } else {
            None
        }
    }

    /// Every capacity is within the peripheral's maximum.
    pub open spec fn valid(self) -> bool {
        &&& self.standard_filters <= MAX_STANDARD_FILTERS
        &&& self.extended_filters <= MAX_EXTENDED_FILTERS
        &&& self.dedicated_rx_buffers <= MAX_RX_ELEMENTS
        &&& self.rx_fifo_0 <= MAX_RX_ELEMENTS
        &&& self.rx_fifo_1 <= MAX_RX_ELEMENTS
        &&& self.tx_buffers <= MAX_TX_ELEMENTS
        &&& self.dedicated_tx_buffers <= self.tx_buffers
        &&& self.tx_event_fifo <= MAX_TX_ELEMENTS
    }

    /// Region offsets and total size: the regions follow each other in the
    /// order standard filters, extended filters, RX FIFO 0, RX FIFO 1,
    /// dedicated RX buffers, TX event FIFO, TX buffers.
    pub open spec fn layout_spec(self) -> Layout {
        let sf: int = 0;
        let ef = sf + 4 * self.standard_filters;
        let f0 = ef + 8 * self.extended_filters;
        let f1 = f0 + self.rx_fifo_0 * element_size(self.rx_fifo_0_message);
        let rb = f1 + self.rx_fifo_1 * element_size(self.rx_fifo_1_message);
        let te = rb + self.dedicated_rx_buffers * element_size(self.rx_buffer_message);
        let tb = te + 8 * self.tx_event_fifo;
        let size = tb + self.tx_buffers * element_size(self.tx_message);
        Layout {
            filters_standard: sf as usize,
            filters_extended: ef as usize,
            rx_fifo_0: f0 as usize,
            rx_fifo_1: f1 as usize,
            rx_dedicated_buffers: rb as usize,
            tx_event_fifo: te as usize,
            tx_buffers: tb as usize,
            size: size as usize,
        }
    }

    /// Checks every capacity against the peripheral's maximum; names the
    /// first that exceeds it.
    pub fn check(&self) -> (r: Result<(), CapacityError>)
        ensures
            r is Ok <==> self.valid(),
            r matches Err(e) ==> self.error_spec() == Some(e),
    {
        if self.standard_filters > MAX_STANDARD_FILTERS {
            Err(CapacityError::StandardFilters)
        } else if self.extended_filters > MAX_EXTENDED_FILTERS {
            Err(CapacityError::ExtendedFilters)
        } else if self.dedicated_rx_buffers > MAX_RX_ELEMENTS {
            Err(CapacityError::DedicatedRxBuffers)
        } else if self.rx_fifo_0 > MAX_RX_ELEMENTS {
            Err(CapacityError::RxFifo0)
        } else if self.rx_fifo_1 > MAX_RX_ELEMENTS {
            Err(CapacityError::RxFifo1)
        } else if self.tx_buffers > MAX_TX_ELEMENTS {
            Err(CapacityError::TxBuffers)
        } else if self.dedicated_tx_buffers > self.tx_buffers {
            Err(CapacityError::DedicatedTxBuffers)
        } else if self.tx_event_fifo > MAX_TX_ELEMENTS {
            Err(CapacityError::TxEventFifo)
        } else {
            Ok(())
        }
    }

    /// Region offsets and total size.
    pub fn layout(&self) -> (r: Layout)
        requires
            self.valid(),
        ensures
            r == self.layout_spec(),
            r.size <= 17408,
            r.filters_extended <= r.rx_fifo_0 <= r.rx_fifo_1 <= r.rx_dedicated_buffers
                <= r.tx_event_fifo <= r.tx_buffers <= r.size,
    {
        proof {
            lemma_mul_bound(self.rx_fifo_0 as nat, element_size(self.rx_fifo_0_message), 64, 72);
            lemma_mul_bound(self.rx_fifo_1 as nat, element_size(self.rx_fifo_1_message), 64, 72);
            lemma_mul_bound(
                self.dedicated_rx_buffers as nat,
                element_size(self.rx_buffer_message),
                64,
                72,
            );
            lemma_mul_bound(self.tx_buffers as nat, element_size(self.tx_message), 32, 72);
        }
        let ef = 4 * self.standard_filters;
        let f0 = ef + 8 * self.extended_filters;
        let f1 = f0 + self.rx_fifo_0 * (8 + self.rx_fifo_0_message.len());
        let rb = f1 + self.rx_fifo_1 * (8 + self.rx_fifo_1_message.len());
        let te = rb + self.dedicated_rx_buffers * (8 + self.rx_buffer_message.len());
        let tb = te + 8 * self.tx_event_fifo;
        let size = tb + self.tx_buffers * (8 + self.tx_message.len());
        Layout {
            filters_standard: 0,
            filters_extended: ef,
            rx_fifo_0: f0,
            rx_fifo_1: f1,
            rx_dedicated_buffers: rb,
            tx_event_fifo: te,
            tx_buffers: tb,
            size,
        }
    }
}

proof fn lemma_mul_bound(a: nat, b: nat, amax: nat, bmax: nat)
    requires
        a <= amax,
        b <= bmax,
    ensures
        a * b <= amax * bmax,
{
    assert(a * b <= amax * bmax) by (nonlinear_arith)
        requires
            a <= amax,
            b <= bmax,
    ;
}

/// The region `[start, start + size)` lies in the 16-bit window that begins
/// at `eligible_start`.
pub open spec fn addressable(start: int, size: int, eligible_start: int) -> bool {
    eligible_start <= start && start + size - eligible_start <= ADDRESSABLE_WINDOW
}

/// The Message RAM: its capacities and the address at which it is placed.
/// Placing it is up to the application (a linker section); all
/// initialization is done by the driver that uses it.
pub struct SharedMemory {
    capacities: Capacities,
    address: usize,
}

/// The regions of an initialized Message RAM, each to be handed to the one
/// component that uses it.
pub struct SharedMemoryInner {
    /// Standard ID filters
    pub filters_standard: Vec<FilterStandardId>,
    /// Extended ID filters
    pub filters_extended: Vec<FilterExtendedId>,
    /// RX FIFO 0
    pub rx_fifo_0: Vec<rx::Message>,
    /// RX FIFO 1
    pub rx_fifo_1: Vec<rx::Message>,
    /// Dedicated receive buffers
    pub rx_dedicated_buffers: Vec<rx::Message>,
    /// TX event FIFO
    pub tx_event_fifo: Vec<TxEvent>,
    /// Transmit buffers
    pub tx_buffers: Vec<tx::Message>,
}

/// A message slot of `width` bytes with every bit zero.
pub open spec fn is_zeroed(m: RawMessage, width: nat) -> bool {
    m.t0 == 0 && m.t1 == 0 && m.data@ == Seq::new(width, |i: int| 0u8)
}

fn zeroed_message(width: usize) -> (r: RawMessage)
    ensures
        is_zeroed(r, width as nat),
{
    let mut data: Vec<u8> = Vec::new();
    let mut i: usize = 0;
    while i < width
        invariant
            i <= width,
            data@ =~= Seq::new(i as nat, |k: int| 0u8),
        decreases width - i,
    {
        data.push(0);
        i = i + 1;
    }
    RawMessage { t0: 0, t1: 0, data }
}

fn zeroed_rx(n: usize, width: usize) -> (r: Vec<rx::Message>)
    ensures
        r@.len() == n,
        forall|i: int| 0 <= i < n ==> is_zeroed(#[trigger] r@[i].0, width as nat),
{
    let mut v: Vec<rx::Message> = Vec::new();
    let mut i: usize = 0;
    while i < n
        invariant
            i <= n,
            v@.len() == i,
            forall|k: int| 0 <= k < i ==> is_zeroed(#[trigger] v@[k].0, width as nat),
        decreases n - i,
    {
        v.push(rx::Message(zeroed_message(width)));
        i = i + 1;
    }
    v
}

fn zeroed_tx(n: usize, width: usize) -> (r: Vec<tx::Message>)
    ensures
        r@.len() == n,
        forall|i: int| 0 <= i < n ==> is_zeroed(#[trigger] r@[i].0, width as nat),
{
    let mut v: Vec<tx::Message> = Vec::new();
    let mut i: usize = 0;
    while i < n
        invariant
            i <= n,
            v@.len() == i,
            forall|k: int| 0 <= k < i ==> is_zeroed(#[trigger] v@[k].0, width as nat),
        decreases n - i,
    {
        v.push(tx::Message(zeroed_message(width)));
        i = i + 1;
    }
    v
}

fn zeroed_events(n: usize) -> (r: Vec<TxEvent>)
    ensures
        r@.len() == n,
        forall|i: int| 0 <= i < n ==> is_zeroed(#[trigger] r@[i].0, 0),
{
    let mut v: Vec<TxEvent> = Vec::new();
    let mut i: usize = 0;
    while i < n
        invariant
            i <= n,
            v@.len() == i,
            forall|k: int| 0 <= k < i ==> is_zeroed(#[trigger] v@[k].0, 0),
        decreases n - i,
    {
        v.push(TxEvent(zeroed_message(0)));
        i = i + 1;
    }
    v
}

fn filled<T: Copy>(n: usize, value: T) -> (r: Vec<T>)
    ensures
        r@ == Seq::new(n as nat, |i: int| value),
{
    let mut v: Vec<T> = Vec::new();
    let mut i: usize = 0;
    while i < n
        invariant
            i <= n,
            v@ =~= Seq::new(i as nat, |k: int| value),
        decreases n - i,
    {
        v.push(value);
        i = i + 1;
    }
    v
}

impl SharedMemory {
    #[verifier::type_invariant]
    closed spec fn inv(self) -> bool {
        self.capacities.valid()
    }

    /// Capacities of the regions.
    pub closed spec fn capacities_spec(self) -> Capacities {
        self.capacities
    }

    /// Address of the first byte.
    pub closed spec fn address_spec(self) -> usize {
        self.address
    }

    /// Describes a Message RAM with the given capacities, placed at
    /// `address`. Fails, naming the first offending capacity, if a capacity
    /// exceeds what the peripheral supports.
    pub fn new(capacities: Capacities, address: usize) -> (r: Result<SharedMemory, CapacityError>)
        ensures
            r is Ok <==> capacities.valid(),
            r matches Err(e) ==> capacities.error_spec() == Some(e),
            r matches Ok(m) ==> m.capacities_spec() == capacities && m.address_spec() == address,
    {
        match capacities.check() {
            Ok(()) => Ok(SharedMemory { capacities, address }),
            Err(e) => Err(e),
        }
    }

    /// Capacities of the regions.
    pub fn capacities(&self) -> (r: Capacities)
        ensures
            r == self.capacities_spec(),
            r.valid(),
    {
        proof {
            use_type_invariant(self);
        }
        self.capacities
    }

    /// Address of the first byte.
    pub fn address(&self) -> (r: usize)
        ensures
            r == self.address_spec(),
    {
        self.address
    }

    /// Size in bytes.
    pub fn size(&self) -> (r: usize)
        ensures
            r == self.capacities_spec().layout_spec().size,
            r <= 17408,
    {
        self.capacities().layout().size
    }

    /// The peripheral uses 16-bit addressing for its memory configuration,
    /// offset from `eligible_start`, the start of the RAM it can reach. If
    /// the memory lies outside that window, it cannot be used.
    pub fn is_addressable(&self, eligible_start: usize) -> (r: bool)
        ensures
            r == addressable(
                self.address_spec() as int,
                self.capacities_spec().layout_spec().size as int,
                eligible_start as int,
            ),
    {
        let size = self.size();
        eligible_start <= self.address && self.address - eligible_start <= ADDRESSABLE_WINDOW
            - size
    }

    /// Zero-fills every region and hands them out. Zeroed filters are
    /// disabled, so no filter is active until one is pushed.
    pub fn init(&self) -> (r: SharedMemoryInner)
        ensures
            r.filters_standard@ == Seq::new(
                self.capacities_spec().standard_filters as nat,
                |i: int| FilterStandardId(0),
            ),
            r.filters_extended@ == Seq::new(
                self.capacities_spec().extended_filters as nat,
                |i: int| FilterExtendedId(0, 0),
            ),
            r.rx_fifo_0@.len() == self.capacities_spec().rx_fifo_0,
            forall|i: int|
                0 <= i < r.rx_fifo_0@.len() ==> is_zeroed(
                    #[trigger] r.rx_fifo_0@[i].0,
                    self.capacities_spec().rx_fifo_0_message.bytes(),
                ),
            r.rx_fifo_1@.len() == self.capacities_spec().rx_fifo_1,
            forall|i: int|
                0 <= i < r.rx_fifo_1@.len() ==> is_zeroed(
                    #[trigger] r.rx_fifo_1@[i].0,
                    self.capacities_spec().rx_fifo_1_message.bytes(),
                ),
            r.rx_dedicated_buffers@.len() == self.capacities_spec().dedicated_rx_buffers,
            forall|i: int|
                0 <= i < r.rx_dedicated_buffers@.len() ==> is_zeroed(
                    #[trigger] r.rx_dedicated_buffers@[i].0,
                    self.capacities_spec().rx_buffer_message.bytes(),
                ),
            r.tx_event_fifo@.len() == self.capacities_spec().tx_event_fifo,
            forall|i: int|
                0 <= i < r.tx_event_fifo@.len() ==> is_zeroed(#[trigger] r.tx_event_fifo@[i].0, 0),
            r.tx_buffers@.len() == self.capacities_spec().tx_buffers,
            forall|i: int|
                0 <= i < r.tx_buffers@.len() ==> is_zeroed(
                    #[trigger] r.tx_buffers@[i].0,
                    self.capacities_spec().tx_message.bytes(),
                ),
    {
        let c = self.capacities();
        SharedMemoryInner {
            filters_standard: filled(c.standard_filters, FilterStandardId(0)),
            filters_extended: filled(c.extended_filters, FilterExtendedId(0, 0)),
            rx_fifo_0: zeroed_rx(c.rx_fifo_0, c.rx_fifo_0_message.len()),
            rx_fifo_1: zeroed_rx(c.rx_fifo_1, c.rx_fifo_1_message.len()),
            rx_dedicated_buffers: zeroed_rx(c.dedicated_rx_buffers, c.rx_buffer_message.len()),
            tx_event_fifo: zeroed_events(c.tx_event_fifo),
            tx_buffers: zeroed_tx(c.tx_buffers, c.tx_message.len()),
        }
    }
}

/// A capacity above the peripheral's maximum always makes construction fail.
pub proof fn lemma_oversized_capacities_rejected(c: Capacities)
    requires
        !c.valid(),
    ensures
        c.error_spec() is Some,
{
}

/// Memory placed outside the window the peripheral reaches is never
/// reported addressable.
pub proof fn lemma_outside_window_not_addressable(start: int, size: int, eligible_start: int)
    requires
        start < eligible_start || start + size > eligible_start + ADDRESSABLE_WINDOW,
    ensures
        !addressable(start, size, eligible_start),
{
}

} // verus!
