//! CAN bus configuration
use vstd::prelude::*;

verus! {

/// Counting mode of the timestamp counter
#[derive(Clone, Copy, Debug, PartialEq, Eq, Structural)]
pub enum TimeStampSelect {
    /// The counter stays at zero
    Zero,
    /// The counter is incremented according to the prescaler
    Increment,
    /// An external counter is used
    External,
}

impl TimeStampSelect {
    /// Value of the timestamp select field.
    pub open spec fn code_spec(self) -> u32 {
        match self {
            TimeStampSelect::Zero => 0,
            TimeStampSelect::Increment => 1,
            TimeStampSelect::External => 2,
        }
    }

    /// Value of the timestamp select field.
    pub fn code(&self) -> (r: u32)
        ensures
            r == self.code_spec(),
    {
        match self {
            TimeStampSelect::Zero => 0,
            TimeStampSelect::Increment => 1,
            TimeStampSelect::External => 2,
        }
    }
}

/// Bit-timing parameters
///
/// The bit time is determined by
/// - the time quantum `t_q`, which is a fraction of the peripheral clock
/// - the number of time quanta in a bit time, determined by `phase_seg_1` and
///   `phase_seg_2`
/// The configurable ranges of the parameters depend on which timing is changed.
///
/// The fields hold *real* values; the offsets of the register encoding are
/// applied when the configuration is written.
#[derive(Clone, Copy, Debug, PartialEq, Eq, Structural)]
pub struct BitTiming {
    /// Synchronization jump width
    pub sjw: u8,
    /// Propagation time and phase time before sample point
    pub phase_seg_1: u8,
    /// Time after sample point
    pub phase_seg_2: u8,
    /// The bitrate of the bus, in Hz. The clock of the peripheral has to be
    /// divisible into time quanta such that the bit time determined by
    /// `phase_seg_1` and `phase_seg_2` is a whole number of time quanta.
    pub bitrate: u32,
}

/// An inclusive range of valid values.
#[derive(Clone, Copy, Debug, PartialEq, Eq, Structural)]
pub struct ValidRange {
    /// Smallest valid value
    pub min: u32,
    /// Largest valid value
    pub max: u32,
}

impl ValidRange {
    /// `value` lies in the range.
    pub open spec fn contains_spec(self, value: int) -> bool {
        self.min <= value <= self.max
    }

    /// `value` lies in the range.
    pub fn contains(&self, value: u32) -> (r: bool)
        ensures
            r == self.contains_spec(value as int),
    {
        self.min <= value && value <= self.max
    }
}

/// Misconfigurations of [`BitTiming`].
#[derive(Clone, Copy, Debug, PartialEq, Eq, Structural)]
pub enum BitTimingError {
    /// SJW is outside the wrapped range
    SynchronizationJumpWidthOutOfRange(ValidRange),
    /// Phase segment 1 is outside the wrapped range
    PhaseSeg1OutOfRange(ValidRange),
    /// Phase segment 2 is outside the wrapped range
    PhaseSeg2OutOfRange(ValidRange),
    /// Total bit time quanta is outside the wrapped range
    BitTimeOutOfRange(ValidRange),
    /// Prescaler is outside the wrapped range
    PrescalerOutOfRange(ValidRange),
    /// No valid prescaler could be found: `can_clock` must be divisible by
    /// `bitrate * bit_time_quanta`
    NoValidPrescaler {
        /// Provided peripheral clock, in Hz
        can_clock: u32,
        /// Bitrate requested in [`BitTiming`], in Hz
        bitrate: u32,
        /// Time quanta per bit selected by [`BitTiming`]
        bit_time_quanta: u32,
    },
}

/// Valid values of a BitTiming struct
#[derive(Clone, Copy, Debug, PartialEq, Eq, Structural)]
pub struct BitTimingRanges {
    /// Synchronization jump width
    pub sjw: ValidRange,
    /// Phase segment 1
    pub phase_seg_1: ValidRange,
    /// Phase segment 2
    pub phase_seg_2: ValidRange,
    /// The bit time, in time quanta
    pub time_quanta_per_bit: ValidRange,
    /// Clock prescaler
    pub prescaler: ValidRange,
}

/// Ranges of the nominal (arbitration phase) bit timing.
pub open spec fn nominal_ranges() -> BitTimingRanges {
    BitTimingRanges {
        sjw: ValidRange { min: 1, max: 128 },
        phase_seg_1: ValidRange { min: 2, max: 256 },
        phase_seg_2: ValidRange { min: 2, max: 128 },
        time_quanta_per_bit: ValidRange { min: 5, max: 385 },
        prescaler: ValidRange { min: 1, max: 512 },
    }
}

/// Ranges of the data phase bit timing.
pub open spec fn data_ranges() -> BitTimingRanges {
    BitTimingRanges {
        sjw: ValidRange { min: 1, max: 16 },
        phase_seg_1: ValidRange { min: 1, max: 32 },
        phase_seg_2: ValidRange { min: 1, max: 16 },
        time_quanta_per_bit: ValidRange { min: 3, max: 49 },
        prescaler: ValidRange { min: 1, max: 32 },
    }
}

impl BitTimingRanges {
    /// Ranges of the nominal (arbitration phase) bit timing.
    pub fn nominal() -> (r: Self)
        ensures
            r == nominal_ranges(),
    {
        BitTimingRanges {
            sjw: ValidRange { min: 1, max: 128 },
            phase_seg_1: ValidRange { min: 2, max: 256 },
            phase_seg_2: ValidRange { min: 2, max: 128 },
            time_quanta_per_bit: ValidRange { min: 5, max: 385 },
            prescaler: ValidRange { min: 1, max: 512 },
        }
    }

    /// Ranges of the data phase bit timing.
    pub fn data() -> (r: Self)
        ensures
            r == data_ranges(),
    {
        BitTimingRanges {
            sjw: ValidRange { min: 1, max: 16 },
            phase_seg_1: ValidRange { min: 1, max: 32 },
            phase_seg_2: ValidRange { min: 1, max: 16 },
            time_quanta_per_bit: ValidRange { min: 3, max: 49 },
            prescaler: ValidRange { min: 1, max: 32 },
        }
    }
}

impl BitTiming {
    /// Number of time quanta in one bit time.
    pub open spec fn quanta(self) -> nat {
        (1 + self.phase_seg_1 + self.phase_seg_2) as nat
    }

    /// The first parameter outside its range, in the order SJW, phase
    /// segment 1, phase segment 2, bit time; `None` if all are valid.
    pub open spec fn range_error(self, valid: BitTimingRanges) -> Option<BitTimingError> {
        if !valid.sjw.contains_spec(self.sjw as int) {
            Some(BitTimingError::SynchronizationJumpWidthOutOfRange(valid.sjw))
        } else if !valid.phase_seg_1.contains_spec(self.phase_seg_1 as int) {
            Some(BitTimingError::PhaseSeg1OutOfRange(valid.phase_seg_1))
        } else if !valid.phase_seg_2.contains_spec(self.phase_seg_2 as int) {
            Some(BitTimingError::PhaseSeg2OutOfRange(valid.phase_seg_2))
        } else if !valid.time_quanta_per_bit.contains_spec(self.quanta() as int) {
            Some(BitTimingError::BitTimeOutOfRange(valid.time_quanta_per_bit))
        } else {
            None
        }
    }

    /// The prescaler that divides `f_can` into time quanta of this bit
    /// timing, or why there is none.
    pub open spec fn prescaler_spec(self, f_can: u32, valid: BitTimingRanges) -> Result<
        u16,
        BitTimingError,
    > {
        let f_q: int = self.bitrate * self.quanta();
        let f: int = f_can as int;
        if self.range_error(valid) is Some {
            Err(self.range_error(valid)->0)
        } else if f_q == 0 || f % f_q != 0 {
            Err(
                BitTimingError::NoValidPrescaler {
                    can_clock: f_can,
                    bitrate: self.bitrate,
                    bit_time_quanta: self.quanta() as u32,
                },
            )
        } else if !valid.prescaler.contains_spec(f / f_q) {
            Err(BitTimingError::PrescalerOutOfRange(valid.prescaler))
        } else {
            Ok((f / f_q) as u16)
        }
    }

    /// Create an instance
    ///
    /// Nominal bitrate value must be provided, all other settings come
    /// pre-populated with the reset values of the peripheral: SJW 4, phase
    /// segment 1 11, phase segment 2 4, so 16 time quanta per bit.
    pub fn new(bitrate: u32) -> (r: Self)
        ensures
            r == (BitTiming { sjw: 4, phase_seg_1: 11, phase_seg_2: 4, bitrate }),
    {
        BitTiming { sjw: 0x4, phase_seg_1: 0xB, phase_seg_2: 0x4, bitrate }
    }

    /// Returns the number of time quanta that make up one bit time, `t_bit /
    /// t_q`
    pub fn time_quanta_per_bit(&self) -> (r: u32)
        ensures
            r == self.quanta(),
    {
        1 + self.phase_seg_1 as u32 + self.phase_seg_2 as u32
    }

    fn check(&self, valid: &BitTimingRanges) -> (r: Result<(), BitTimingError>)
        ensures
            r is Ok <==> self.range_error(*valid) is None,
            r matches Err(e) ==> Some(e) == self.range_error(*valid),
    {
        if !valid.sjw.contains(self.sjw as u32) {
            Err(BitTimingError::SynchronizationJumpWidthOutOfRange(valid.sjw))
        } else if !valid.phase_seg_1.contains(self.phase_seg_1 as u32) {
            Err(BitTimingError::PhaseSeg1OutOfRange(valid.phase_seg_1))
        } else if !valid.phase_seg_2.contains(self.phase_seg_2 as u32) {
            Err(BitTimingError::PhaseSeg2OutOfRange(valid.phase_seg_2))
        } else if !valid.time_quanta_per_bit.contains(self.time_quanta_per_bit()) {
            Err(BitTimingError::BitTimeOutOfRange(valid.time_quanta_per_bit))
        } else {
            Ok(())
        }
    }

    /// Computes the prescaler that divides the peripheral clock `f_can` (in
    /// Hz) exactly into time quanta of this bit timing. The parameters must
    /// be in range, the division exact and the prescaler in range.
    pub fn prescaler(&self, f_can: u32, valid: &BitTimingRanges) -> (r: Result<
        u16,
        BitTimingError,
    >)
        requires
            valid.prescaler.max <= 0xffff,
        ensures
            r == self.prescaler_spec(f_can, *valid),
    {
        match self.check(valid) {
            Ok(()) => {},
            Err(e) => {
                return Err(e);
            },
        }
        let f_out = self.bitrate;
        let bit_time_quanta = self.time_quanta_per_bit();
        assert(f_out as u64 * bit_time_quanta as u64 <= 0xffff_ffff * 0x1ff) by (nonlinear_arith)
            requires
                bit_time_quanta <= 0x1ff,
        ;
        let f_q: u64 = f_out as u64 * bit_time_quanta as u64;
        if f_q == 0 || f_can as u64 % f_q != 0 {
            return Err(
                BitTimingError::NoValidPrescaler {
                    can_clock: f_can,
                    bitrate: f_out,
                    bit_time_quanta,
                },
            );
        }
        let prescaler = f_can as u64 / f_q;
        assert(prescaler <= f_can) by (nonlinear_arith)
            requires
                prescaler == f_can as u64 / f_q,
                f_q >= 1,
        ;
        if !valid.prescaler.contains(prescaler as u32) {
            Err(BitTimingError::PrescalerOutOfRange(valid.prescaler))
        } else {
            Ok(prescaler as u16)
        }
    }
}

/// Timestamp counter configuration
#[derive(Clone, Copy, Debug, PartialEq, Eq, Structural)]
pub struct Timestamp {
    /// Counting mode of time stamp timer
    pub select: TimeStampSelect,
    /// Time stamp timer prescaler, bit times per tick
    /// Valid values are: 1 <= prescaler <= 16
    pub prescaler: u8,
}

impl Timestamp {
    /// Counter held at zero, prescaler 1.
    pub fn default() -> (r: Self)
        ensures
            r == (Timestamp { select: TimeStampSelect::Zero, prescaler: 1 }),
    {
        Timestamp { select: TimeStampSelect::Zero, prescaler: 1 }
    }
}

/// Enable/disable CAN-FD and related features
#[derive(Clone, Copy, Debug, PartialEq, Eq, Structural)]
pub enum Mode {
    /// Classic mode with 8-bytes data. Reception of an FD frame is considered
    /// an error.
    Classic,
    /// Transmission and reception of CAN FD frames (with up to 64 bytes of
    /// data) is enabled. This does not prevent use of classic CAN frames.
    Fd {
        /// If `true`, FD frames can be transmitted with bit rate switching.
        allow_bit_rate_switching: bool,
        /// Bit timing parameters for the data phase of bit rate switched FD
        /// frames.
        data_phase_timing: BitTiming,
    },
}

/// Mode of operation for the RX FIFO (inner enum)
#[derive(Clone, Copy, Debug, PartialEq, Eq, Structural)]
pub enum RxFifoModeVariant {
    /// Blocking mode
    Blocking,
    /// Overwriting mode
    Overwrite,
}

/// Mode of operation for the RX FIFO
#[derive(Clone, Copy, Debug, PartialEq, Eq, Structural)]
pub struct RxFifoMode(RxFifoModeVariant);

impl RxFifoMode {
    /// The mode.
    pub closed spec fn variant_spec(self) -> RxFifoModeVariant {
        self.0
    }

    /// Blocking mode
    ///
    /// When the RX FIFO is full, incoming messages are dropped until at least
    /// one message has been read out from the FIFO.
    pub fn blocking() -> (r: Self)
        ensures
            r.variant_spec() == RxFifoModeVariant::Blocking,
    {
        RxFifoMode(RxFifoModeVariant::Blocking)
    }

    /// Overwriting mode
    ///
    /// When the RX FIFO is full, the oldest messsage will be deleted and a new
    /// message will take its place.
    ///
    /// For an RX FIFO in this mode the peripheral provides *no*
    /// synchronization that guarantees the integrity of the data being
    /// received: the oldest element may be overwritten while it is read. The
    /// caller has to read at an index offset of one or more from the oldest
    /// message, depending on the speed of the CPU, to read correct messages.
    pub fn overwrite() -> (r: Self)
        ensures
            r.variant_spec() == RxFifoModeVariant::Overwrite,
    {
        RxFifoMode(RxFifoModeVariant::Overwrite)
    }

    /// The mode.
    pub fn variant(&self) -> (r: RxFifoModeVariant)
        ensures
            r == self.variant_spec(),
    {
        self.0
    }

    /// Value of the FIFO operation mode bit: set for overwrite mode.
    pub fn is_overwrite(&self) -> (r: bool)
        ensures
            r == (self.variant_spec() == RxFifoModeVariant::Overwrite),
    {
        match self.0 {
            RxFifoModeVariant::Overwrite => true,
            RxFifoModeVariant::Blocking => false,
        }
    }
}

/// Denotes a RX FIFO configuration
#[derive(Clone, Copy, Debug, PartialEq, Eq, Structural)]
pub struct RxFifoConfig {
    /// FIFO mode
    pub mode: RxFifoMode,
    /// Denotes queue fullness required to trigger a corresponding interrupt
    ///
    /// Any value greater than 64 is interpreted as 64; 0 means that interrupt
    /// is disabled
    pub watermark: u8,
}

impl RxFifoConfig {
    /// Blocking mode, watermark interrupt disabled.
    pub fn default() -> (r: Self)
        ensures
            r.mode.variant_spec() == RxFifoModeVariant::Blocking,
            r.watermark == 0,
    {
        RxFifoConfig { mode: RxFifoMode::blocking(), watermark: 0 }
    }
}

/// Mode of operation for the transmit queue
#[derive(Clone, Copy, Debug, PartialEq, Eq, Structural)]
pub enum TxQueueMode {
    /// Messages are sent according to the order they are enqueued
    Fifo,
    /// Messages are sent according to their priority
    ///
    /// Lower ID means higher priority. Messages of the same ID are sent in an
    /// arbitrary order. This is the same order as arbitration on the bus would
    /// give.
    Priority,
}

impl TxQueueMode {
    /// Value of the queue mode bit: set for priority order.
    pub fn is_priority(&self) -> (r: bool)
        ensures
            r == (*self == TxQueueMode::Priority),
    {
        match self {
            TxQueueMode::Priority => true,
            TxQueueMode::Fifo => false,
        }
    }
}

/// Denotes a TX related configuration
#[derive(Clone, Copy, Debug, PartialEq, Eq, Structural)]
pub struct TxConfig {
    /// Denotes TX Event queue fullness required to trigger a corresponding
    /// interrupt
    ///
    /// Any value greater than 32 is interpreted as 32; 0 means that interrupt
    /// is disabled
    pub tx_event_fifo_watermark: u8,
    /// TX queue submode
    pub tx_queue_submode: TxQueueMode,
}

impl TxConfig {
    /// FIFO submode, watermark interrupt disabled.
    pub fn default() -> (r: Self)
        ensures
            r == (TxConfig { tx_event_fifo_watermark: 0, tx_queue_submode: TxQueueMode::Fifo }),
    {
        TxConfig { tx_event_fifo_watermark: 0, tx_queue_submode: TxQueueMode::Fifo }
    }
}

/// Configuration for the CAN bus
#[derive(Clone, Copy, Debug, PartialEq, Eq, Structural)]
pub struct CanConfig {
    /// Run peripheral in CAN-FD mode
    pub mode: Mode,
    /// Modes of testing
    pub loopback: bool,
    /// Bit timing parameters for everything except the data phase of bit rate
    /// switched FD frames.
    pub nominal_timing: BitTiming,
    /// Timestamp configuration
    pub timestamp: Timestamp,
    /// RX Fifo 0
    pub rx_fifo_0: RxFifoConfig,
    /// RX Fifo 1
    pub rx_fifo_1: RxFifoConfig,
    /// Tx configuration
    pub tx: TxConfig,
}

impl CanConfig {
    /// The configuration [`Self::new`] creates.
    pub closed spec fn new_spec(bitrate: u32) -> CanConfig {
        CanConfig {
            mode: Mode::Classic,
            loopback: false,
            nominal_timing: BitTiming::new_spec(bitrate),
            timestamp: Timestamp { select: TimeStampSelect::Zero, prescaler: 1 },
            rx_fifo_0: RxFifoConfig { mode: RxFifoMode(RxFifoModeVariant::Blocking), watermark: 0 },
            rx_fifo_1: RxFifoConfig { mode: RxFifoMode(RxFifoModeVariant::Blocking), watermark: 0 },
            tx: TxConfig { tx_event_fifo_watermark: 0, tx_queue_submode: TxQueueMode::Fifo },
        }
    }

    /// Create an instance
    ///
    /// Nominal bitrate value (in Hz) must be provided, all other settings
    /// come pre-populated with default values.
    pub fn new(bitrate: u32) -> (r: Self)
        ensures
            r == CanConfig::new_spec(bitrate),
            r.mode == Mode::Classic,
            !r.loopback,
            r.nominal_timing == BitTiming::new_spec(bitrate),
            r.timestamp == (Timestamp { select: TimeStampSelect::Zero, prescaler: 1 }),
            r.rx_fifo_0.mode.variant_spec() == RxFifoModeVariant::Blocking,
            r.rx_fifo_0.watermark == 0,
            r.rx_fifo_1.mode.variant_spec() == RxFifoModeVariant::Blocking,
            r.rx_fifo_1.watermark == 0,
            r.tx == (TxConfig { tx_event_fifo_watermark: 0, tx_queue_submode: TxQueueMode::Fifo }),
    {
        CanConfig {
            mode: Mode::Classic,
            loopback: false,
            nominal_timing: BitTiming::new(bitrate),
            timestamp: Timestamp::default(),
            rx_fifo_0: RxFifoConfig::default(),
            rx_fifo_1: RxFifoConfig::default(),
            tx: TxConfig::default(),
        }
    }
}

impl BitTiming {
    /// The default timing for `bitrate`.
    pub open spec fn new_spec(bitrate: u32) -> BitTiming {
        BitTiming { sjw: 4, phase_seg_1: 11, phase_seg_2: 4, bitrate }
    }
}

/// How to treat the transmit buffer
#[derive(Clone, Copy, Debug, PartialEq, Eq, Structural)]
pub enum TxBufferMode {
    /// Act as a FIFO
    /// Messages are sent according to the get index
    Fifo,
    /// Act as a queue
    /// Messages are sent with priority according to lowest ID
    Queue,
}

impl TxBufferMode {
    /// Value of the queue mode bit: set for a priority queue.
    pub fn is_queue(&self) -> (r: bool)
        ensures
            r == (*self == TxBufferMode::Queue),
    {
        match self {
            TxBufferMode::Queue => true,
            TxBufferMode::Fifo => false,
        }
    }
}

/// TX buffer const config
#[derive(Clone, Copy, Debug, PartialEq, Eq, Structural)]
pub struct Txbc {
    /// Action to take on overflow
    pub mode: TxBufferMode,
}

/// Event FIFO configuration
#[derive(Clone, Copy, Debug, PartialEq, Eq, Structural)]
pub struct Txefc {
    /// Fifo fullnes to generate interrupt
    pub watermark: u8,
}

} // verus!
