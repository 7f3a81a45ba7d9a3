//! Ownership of the peripheral's interrupt flags.
//!
//! The interrupt flag register holds thirty independent event flags. Each flag
//! is owned by exactly one [`OwnedInterruptSet`] at a time; the
//! [`InterruptConfiguration`] owns those that are disabled and hands out
//! disjoint sets when they are enabled.
use vstd::prelude::*;

verus! {

/// Mask of the thirty interrupt flags; the two top bits are reserved.
pub const ALL_INTERRUPTS: u32 = 0x3fff_ffff;

/// Number of interrupt flags.
pub const INTERRUPT_COUNT: u8 = 30;

/// Bit `i` of `x` is set.
pub open spec fn bit(x: u32, i: u32) -> bool {
    (x >> i) & 1 == 1
}

/// The flags whose bits are set in `x`.
pub open spec fn flags_of(x: u32) -> Set<u32> {
    Set::new(|i: u32| i < 32 && bit(x, i))
}

/// A single bit.
pub proof fn lemma_single_bit(j: u32)
    by (bit_vector)
    requires
        j < 32,
    ensures
        forall|i: u32| i < 32 ==> #[trigger] bit(1u32 << j, i) == (i == j),
{
}

/// CAN interrupt lines
/// The CAN peripheral provides two interrupt lines to the system interrupt
/// controller. Which interrupts trigger which interrupt line is configurable
/// via [`InterruptConfiguration`].
#[derive(Clone, Copy, Debug, PartialEq, Eq, Structural)]
pub enum InterruptLine {
    /// CAN0-line
    Line0,
    /// CAN1-line
    Line1,
}

/// A set of CAN interrupts, one bit per [`Interrupt`].
#[derive(Clone, Copy, Debug, PartialEq, Eq, Structural)]
pub struct InterruptSet(pub u32);

/// A single interrupt.
#[derive(Clone, Copy, Debug, PartialEq, Eq, Structural)]
pub enum Interrupt {
    /// RF0N
    RxFifo0NewMessage,
    /// RF0W
    RxFifo0WatermarkReached,
    /// RF0F
    RxFifo0Full,
    /// RF0L
    RxFifo0MessageLost,
    /// RF1N
    RxFifo1NewMessage,
    /// RF1W
    RxFifo1WatermarkReached,
    /// RF1F
    RxFifo1Full,
    /// RF1L
    RxFifo1MessageLost,
    /// HPM
    HighPriorityMessage,
    /// TC
    TransmissionCompleted,
    /// TCF
    TransmissionCancellationFinished,
    /// TFE
    TxFifoEmpty,
    /// TEFN
    TxEventFifoNewEntry,
    /// TEFW
    TxEventFifoWatermarkReached,
    /// TEFF
    TxEventFifoFull,
    /// TEFL
    TxEventFifoElementLost,
    /// TSW
    TimestampWraparound,
    /// MRAF
    MessageRamAccessFailure,
    /// TOO
    TimeoutOccured,
    /// DRX
    MessageStoredToDedicatedRxBuffer,
    /// BEC
    BitErrorCorrected,
    /// BEU
    BitErrorUncorrected,
    /// ELO
    ErrorLoggingOverflow,
    /// EP
    ErrorPassive,
    /// EW
    WarningStatusChanged,
    /// BO
    BusOff,
    /// WDI
    Watchdog,
    /// PEA
    ProtocolErrorArbitration,
    /// PED
    ProtocolErrorData,
    /// ARA
    AccessToReservedAddress,
}

/// The number is not that of an interrupt.
#[derive(Clone, Copy, Debug, PartialEq, Eq, Structural)]
pub struct InvalidInterruptNumber;

/// Interrupt with flag number `n`, for `n` below 30.
pub open spec fn interrupt_of(n: u32) -> Interrupt {
    if n == 0 {
        Interrupt::RxFifo0NewMessage
    } else if n == 1 {
        Interrupt::RxFifo0WatermarkReached
    } else if n == 2 {
        Interrupt::RxFifo0Full
    } else if n == 3 {
        Interrupt::RxFifo0MessageLost
    } else if n == 4 {
        Interrupt::RxFifo1NewMessage
    } else if n == 5 {
        Interrupt::RxFifo1WatermarkReached
    } else if n == 6 {
        Interrupt::RxFifo1Full
    } else if n == 7 {
        Interrupt::RxFifo1MessageLost
    } else if n == 8 {
        Interrupt::HighPriorityMessage
    } else if n == 9 {
        Interrupt::TransmissionCompleted
    } else if n == 10 {
        Interrupt::TransmissionCancellationFinished
    } else if n == 11 {
        Interrupt::TxFifoEmpty
    } else if n == 12 {
        Interrupt::TxEventFifoNewEntry
    } else if n == 13 {
        Interrupt::TxEventFifoWatermarkReached
    } else if n == 14 {
        Interrupt::TxEventFifoFull
    } else if n == 15 {
        Interrupt::TxEventFifoElementLost
    } else if n == 16 {
        Interrupt::TimestampWraparound
    } else if n == 17 {
        Interrupt::MessageRamAccessFailure
    } else if n == 18 {
        Interrupt::TimeoutOccured
    } else if n == 19 {
        Interrupt::MessageStoredToDedicatedRxBuffer
    } else if n == 20 {
        Interrupt::BitErrorCorrected
    } else if n == 21 {
        Interrupt::BitErrorUncorrected
    } else if n == 22 {
        Interrupt::ErrorLoggingOverflow
    } else if n == 23 {
        Interrupt::ErrorPassive
    } else if n == 24 {
        Interrupt::WarningStatusChanged
    } else if n == 25 {
        Interrupt::BusOff
    } else if n == 26 {
        Interrupt::Watchdog
    } else if n == 27 {
        Interrupt::ProtocolErrorArbitration
    } else if n == 28 {
        Interrupt::ProtocolErrorData
    } else if n == 29 {
        Interrupt::AccessToReservedAddress
    } else {
        Interrupt::AccessToReservedAddress
    }
}

impl Interrupt {
    /// Flag number of the interrupt.
    pub open spec fn number_spec(self) -> u32 {
        match self {
            Interrupt::RxFifo0NewMessage => 0,
            Interrupt::RxFifo0WatermarkReached => 1,
            Interrupt::RxFifo0Full => 2,
            Interrupt::RxFifo0MessageLost => 3,
            Interrupt::RxFifo1NewMessage => 4,
            Interrupt::RxFifo1WatermarkReached => 5,
            Interrupt::RxFifo1Full => 6,
            Interrupt::RxFifo1MessageLost => 7,
            Interrupt::HighPriorityMessage => 8,
            Interrupt::TransmissionCompleted => 9,
            Interrupt::TransmissionCancellationFinished => 10,
            Interrupt::TxFifoEmpty => 11,
            Interrupt::TxEventFifoNewEntry => 12,
            Interrupt::TxEventFifoWatermarkReached => 13,
            Interrupt::TxEventFifoFull => 14,
            Interrupt::TxEventFifoElementLost => 15,
            Interrupt::TimestampWraparound => 16,
            Interrupt::MessageRamAccessFailure => 17,
            Interrupt::TimeoutOccured => 18,
            Interrupt::MessageStoredToDedicatedRxBuffer => 19,
            Interrupt::BitErrorCorrected => 20,
            Interrupt::BitErrorUncorrected => 21,
            Interrupt::ErrorLoggingOverflow => 22,
            Interrupt::ErrorPassive => 23,
            Interrupt::WarningStatusChanged => 24,
            Interrupt::BusOff => 25,
            Interrupt::Watchdog => 26,
            Interrupt::ProtocolErrorArbitration => 27,
            Interrupt::ProtocolErrorData => 28,
            Interrupt::AccessToReservedAddress => 29,
        }
    }

    /// Flag number of the interrupt.
    pub fn number(&self) -> (r: u8)
        ensures
            r == self.number_spec(),
            r < INTERRUPT_COUNT,
    {
        match self {
            Interrupt::RxFifo0NewMessage => 0,
            Interrupt::RxFifo0WatermarkReached => 1,
            Interrupt::RxFifo0Full => 2,
            Interrupt::RxFifo0MessageLost => 3,
            Interrupt::RxFifo1NewMessage => 4,
            Interrupt::RxFifo1WatermarkReached => 5,
            Interrupt::RxFifo1Full => 6,
            Interrupt::RxFifo1MessageLost => 7,
            Interrupt::HighPriorityMessage => 8,
            Interrupt::TransmissionCompleted => 9,
            Interrupt::TransmissionCancellationFinished => 10,
            Interrupt::TxFifoEmpty => 11,
            Interrupt::TxEventFifoNewEntry => 12,
            Interrupt::TxEventFifoWatermarkReached => 13,
            Interrupt::TxEventFifoFull => 14,
            Interrupt::TxEventFifoElementLost => 15,
            Interrupt::TimestampWraparound => 16,
            Interrupt::MessageRamAccessFailure => 17,
            Interrupt::TimeoutOccured => 18,
            Interrupt::MessageStoredToDedicatedRxBuffer => 19,
            Interrupt::BitErrorCorrected => 20,
            Interrupt::BitErrorUncorrected => 21,
            Interrupt::ErrorLoggingOverflow => 22,
            Interrupt::ErrorPassive => 23,
            Interrupt::WarningStatusChanged => 24,
            Interrupt::BusOff => 25,
            Interrupt::Watchdog => 26,
            Interrupt::ProtocolErrorArbitration => 27,
            Interrupt::ProtocolErrorData => 28,
            Interrupt::AccessToReservedAddress => 29,
        }
    }

    /// Abbreviation of the interrupt in the peripheral's documentation.
    pub open spec fn abbreviation_spec(self) -> Seq<char> {
        match self {
            Interrupt::RxFifo0NewMessage => "RF0N"@,
            Interrupt::RxFifo0WatermarkReached => "RF0W"@,
            Interrupt::RxFifo0Full => "RF0F"@,
            Interrupt::RxFifo0MessageLost => "RF0L"@,
            Interrupt::RxFifo1NewMessage => "RF1N"@,
            Interrupt::RxFifo1WatermarkReached => "RF1W"@,
            Interrupt::RxFifo1Full => "RF1F"@,
            Interrupt::RxFifo1MessageLost => "RF1L"@,
            Interrupt::HighPriorityMessage => "HPM"@,
            Interrupt::TransmissionCompleted => "TC"@,
            Interrupt::TransmissionCancellationFinished => "TCF"@,
            Interrupt::TxFifoEmpty => "TFE"@,
            Interrupt::TxEventFifoNewEntry => "TEFN"@,
            Interrupt::TxEventFifoWatermarkReached => "TEFW"@,
            Interrupt::TxEventFifoFull => "TEFF"@,
            Interrupt::TxEventFifoElementLost => "TEFL"@,
            Interrupt::TimestampWraparound => "TSW"@,
            Interrupt::MessageRamAccessFailure => "MRAF"@,
            Interrupt::TimeoutOccured => "TOO"@,
            Interrupt::MessageStoredToDedicatedRxBuffer => "DRX"@,
            Interrupt::BitErrorCorrected => "BEC"@,
            Interrupt::BitErrorUncorrected => "BEU"@,
            Interrupt::ErrorLoggingOverflow => "ELO"@,
            Interrupt::ErrorPassive => "EP"@,
            Interrupt::WarningStatusChanged => "EW"@,
            Interrupt::BusOff => "BO"@,
            Interrupt::Watchdog => "WDI"@,
            Interrupt::ProtocolErrorArbitration => "PEA"@,
            Interrupt::ProtocolErrorData => "PED"@,
            Interrupt::AccessToReservedAddress => "ARA"@,
        }
    }

    /// Abbreviation of the interrupt in the peripheral's documentation.
    pub fn abbreviation(&self) -> (r: &'static str)
        ensures
            r@ == self.abbreviation_spec(),
    {
        match self {
            Interrupt::RxFifo0NewMessage => "RF0N",
            Interrupt::RxFifo0WatermarkReached => "RF0W",
            Interrupt::RxFifo0Full => "RF0F",
            Interrupt::RxFifo0MessageLost => "RF0L",
            Interrupt::RxFifo1NewMessage => "RF1N",
            Interrupt::RxFifo1WatermarkReached => "RF1W",
            Interrupt::RxFifo1Full => "RF1F",
            Interrupt::RxFifo1MessageLost => "RF1L",
            Interrupt::HighPriorityMessage => "HPM",
            Interrupt::TransmissionCompleted => "TC",
            Interrupt::TransmissionCancellationFinished => "TCF",
            Interrupt::TxFifoEmpty => "TFE",
            Interrupt::TxEventFifoNewEntry => "TEFN",
            Interrupt::TxEventFifoWatermarkReached => "TEFW",
            Interrupt::TxEventFifoFull => "TEFF",
            Interrupt::TxEventFifoElementLost => "TEFL",
            Interrupt::TimestampWraparound => "TSW",
            Interrupt::MessageRamAccessFailure => "MRAF",
            Interrupt::TimeoutOccured => "TOO",
            Interrupt::MessageStoredToDedicatedRxBuffer => "DRX",
            Interrupt::BitErrorCorrected => "BEC",
            Interrupt::BitErrorUncorrected => "BEU",
            Interrupt::ErrorLoggingOverflow => "ELO",
            Interrupt::ErrorPassive => "EP",
            Interrupt::WarningStatusChanged => "EW",
            Interrupt::BusOff => "BO",
            Interrupt::Watchdog => "WDI",
            Interrupt::ProtocolErrorArbitration => "PEA",
            Interrupt::ProtocolErrorData => "PED",
            Interrupt::AccessToReservedAddress => "ARA",
        }
    }

    /// The flag of this interrupt in an [`InterruptSet`].
    pub fn mask(&self) -> (r: u32)
        ensures
            r == 1u32 << self.number_spec(),
            flags_of(r) == set![self.number_spec()],
    {
        let n = self.number() as u32;
        proof {
            lemma_single_bit(n);
            assert(flags_of(1u32 << n) =~= set![n]);
        }
        1u32 << n
    }

    /// The interrupt with flag number `value`.
    pub fn try_from(value: u8) -> (r: Result<Interrupt, InvalidInterruptNumber>)
        ensures
            r is Err <==> value >= INTERRUPT_COUNT,
            r matches Ok(i) ==> i.number_spec() == value && i == interrupt_of(value as u32),
    {
        let ret = match value {
            0 => Interrupt::RxFifo0NewMessage,
            1 => Interrupt::RxFifo0WatermarkReached,
            2 => Interrupt::RxFifo0Full,
            3 => Interrupt::RxFifo0MessageLost,
            4 => Interrupt::RxFifo1NewMessage,
            5 => Interrupt::RxFifo1WatermarkReached,
            6 => Interrupt::RxFifo1Full,
            7 => Interrupt::RxFifo1MessageLost,
            8 => Interrupt::HighPriorityMessage,
            9 => Interrupt::TransmissionCompleted,
            10 => Interrupt::TransmissionCancellationFinished,
            11 => Interrupt::TxFifoEmpty,
            12 => Interrupt::TxEventFifoNewEntry,
            13 => Interrupt::TxEventFifoWatermarkReached,
            14 => Interrupt::TxEventFifoFull,
            15 => Interrupt::TxEventFifoElementLost,
            16 => Interrupt::TimestampWraparound,
            17 => Interrupt::MessageRamAccessFailure,
            18 => Interrupt::TimeoutOccured,
            19 => Interrupt::MessageStoredToDedicatedRxBuffer,
            20 => Interrupt::BitErrorCorrected,
            21 => Interrupt::BitErrorUncorrected,
            22 => Interrupt::ErrorLoggingOverflow,
            23 => Interrupt::ErrorPassive,
            24 => Interrupt::WarningStatusChanged,
            25 => Interrupt::BusOff,
            26 => Interrupt::Watchdog,
            27 => Interrupt::ProtocolErrorArbitration,
            28 => Interrupt::ProtocolErrorData,
            29 => Interrupt::AccessToReservedAddress,
            _ => {
                return Err(InvalidInterruptNumber);
            },
        };
        Ok(ret)
    }
}


/// Flag numbers below 30 that are set in `flags`, from `from` upwards.
pub open spec fn pending_from(flags: u32, from: nat) -> Seq<u32>
    decreases 30 - from,
{
    if from >= 30 {
        Seq::empty()
    } else if bit(flags, from as u32) {
        seq![from as u32] + pending_from(flags, from + 1)
    } else {
        pending_from(flags, from + 1)
    }
}

/// Union of the flags of `s`.
pub open spec fn or_all(s: Seq<Interrupt>) -> u32
    decreases s.len(),
{
    if s.len() == 0 {
        0
    } else {
        or_all(s.drop_last()) | (1u32 << s.last().number_spec())
    }
}

impl InterruptSet {
    /// An iterator visiting the interrupts of the set, in flag order. The
    /// reserved bits are skipped.
    pub fn iter(&self) -> (r: Iter)
        ensures
            r.remaining() == pending_from(self.0, 0),
    {
        Iter { flags: *self, index: 0 }
    }

    /// The set of the interrupts in `interrupts`.
    pub fn from_iter(interrupts: Vec<Interrupt>) -> (r: InterruptSet)
        ensures
            r.0 == or_all(interrupts@),
    {
        let mut set: u32 = 0;
        let mut i: usize = 0;
        while i < interrupts.len()
            invariant
                i <= interrupts.len(),
                set == or_all(interrupts@.subrange(0, i as int)),
            decreases interrupts.len() - i,
        {
            assert(interrupts@.subrange(0, i + 1).drop_last() =~= interrupts@.subrange(0, i as int));
            set = set | interrupts[i].mask();
            i = i + 1;
        }
        assert(interrupts@.subrange(0, i as int) =~= interrupts@);
        InterruptSet(set)
    }
}

/// An iterator over the items of an [`InterruptSet`].
///
/// This `struct` is created by [`InterruptSet::iter`].
pub struct Iter {
    flags: InterruptSet,
    index: u8,
}

impl Iter {
    /// Flag numbers still to be visited, in order.
    pub closed spec fn remaining(self) -> Seq<u32> {
        pending_from(self.flags.0, self.index as nat)
    }

    /// The next interrupt of the set, or `None` once all have been visited.
    pub fn next(&mut self) -> (r: Option<Interrupt>)
        ensures
            old(self).remaining().len() == 0 ==> r is None && final(self).remaining().len() == 0,
            old(self).remaining().len() > 0 ==> (r matches Some(i) && i.number_spec()
                == old(self).remaining()[0]),
            old(self).remaining().len() > 0 ==> final(self).remaining() == old(self).remaining().drop_first(),
    {
        let ghost start = self.remaining();
        while self.index < INTERRUPT_COUNT
            invariant
                self.remaining() == start,
                start == old(self).remaining(),
                self.flags == old(self).flags,
            decreases 30 - self.index,
        {
            let i = self.index;
            self.index = i + 1;
            proof {
                if bit(self.flags.0, i as u32) {
                    assert(start =~= seq![i as u32] + pending_from(self.flags.0, (i + 1) as nat));
                } else {
                    assert(start =~= pending_from(self.flags.0, (i + 1) as nat));
                }
            }
            if (self.flags.0 >> (i as u32)) & 1 == 1 {
                assert(start.drop_first() =~= self.remaining());
                assert(start.len() > 0 && start[0] == i as u32);
                return match Interrupt::try_from(i) {
                    Ok(found) => Some(found),
                    Err(_) => None,
                };
            }
        }
        assert(pending_from(self.flags.0, self.index as nat) =~= Seq::<u32>::empty());
        None
    }

    /// Number of interrupts still to be visited.
    pub fn count(self) -> (r: usize)
        ensures
            r == self.remaining().len(),
    {
        proof {
            lemma_pending_len(self.flags.0, self.index as nat);
        }
        let mut it = self;
        let mut n: usize = 0;
        while n < 30
            invariant
                n + it.remaining().len() == self.remaining().len(),
                self.remaining().len() <= 30,
            decreases it.remaining().len(),
        {
            match it.next() {
                Some(_) => {
                    n = n + 1;
                },
                None => {
                    return n;
                },
            }
        }
        n
    }

    /// The interrupts still to be visited, in order.
    pub fn collect(self) -> (r: Vec<Interrupt>)
        ensures
            r@.len() == self.remaining().len(),
            forall|k: int| 0 <= k < r@.len() ==> #[trigger] r@[k].number_spec() == self.remaining()[k],
    {
        proof {
            lemma_pending_len(self.flags.0, self.index as nat);
        }
        let mut it = self;
        let mut out: Vec<Interrupt> = Vec::new();
        while out.len() < 30
            invariant
                self.remaining() == out@.map_values(|i: Interrupt| i.number_spec()) + it.remaining(),
                self.remaining().len() <= 30,
            decreases it.remaining().len(),
        {
            let ghost before = it.remaining();
            match it.next() {
                Some(found) => {
                    out.push(found);
                    assert(out@.map_values(|i: Interrupt| i.number_spec()) + it.remaining()
                        =~= self.remaining());
                },
                None => {
                    assert(self.remaining() =~= out@.map_values(|i: Interrupt| i.number_spec()));
                    return out;
                },
            }
        }
        assert(self.remaining() =~= out@.map_values(|i: Interrupt| i.number_spec()) + it.remaining());
        out
    }
}

proof fn lemma_pending_len(flags: u32, from: nat)
    ensures
        pending_from(flags, from).len() <= 30,
        from >= 30 ==> pending_from(flags, from).len() == 0,
        from < 30 ==> pending_from(flags, from).len() <= 30 - from,
    decreases 30 - from,
{
    if from < 30 {
        lemma_pending_len(flags, from + 1);
    }
}


/// An input [`InterruptSet`] contained interrupts that were not available. The
/// set wrapped in the error indicates which elements caused the problem.
#[derive(Clone, Copy, Debug, PartialEq, Eq, Structural)]
pub struct MaskError(pub InterruptSet);

/// Has exclusive access to a set of interrupts. Permits access to the owned
/// interrupt flags only.
#[derive(Debug)]
pub struct OwnedInterruptSet(InterruptSet);

proof fn lemma_mask_facts(own: u32, ir: u32, clear: u32)
    by (bit_vector)
    ensures
        (ir & !(clear & own)) & !own == ir & !own,
        (ir & own) & !own == 0,
{
}

impl OwnedInterruptSet {
    /// The flags owned.
    pub closed spec fn mask_spec(self) -> u32 {
        self.0.0
    }

    /// The set of interrupts owned.
    pub fn mask(&self) -> (r: InterruptSet)
        ensures
            r.0 == self.mask_spec(),
    {
        self.0
    }

    /// Assumes exclusive ownership of `interrupts`; the caller hands over
    /// flags that no other set owns.
    fn new(interrupts: InterruptSet) -> (r: Self)
        ensures
            r.mask_spec() == interrupts.0,
    {
        OwnedInterruptSet(interrupts)
    }

    /// Moves ownership of the interrupts described by `subset` from `self` to
    /// the return value. If `self` does not contain `subset`, an error naming
    /// the missing interrupts is returned and `self` is unchanged.
    fn split(&mut self, subset: InterruptSet) -> (r: Result<Self, MaskError>)
        ensures
            r is Err <==> !old(self).mask_spec() & subset.0 != 0,
            r matches Err(MaskError(m)) ==> m.0 == !old(self).mask_spec() & subset.0 && *final(self) == *old(self),
            r matches Ok(o) ==> o.mask_spec() == subset.0 && final(self).mask_spec() == old(self).mask_spec() & !subset.0,
    {
        let missing = !self.0.0 & subset.0;
        if missing != 0 {
            Err(MaskError(InterruptSet(missing)))
        } else {
            let remaining = self.0.0 & !subset.0;
            self.0 = InterruptSet(remaining);
            Ok(Self::new(subset))
        }
    }

    /// Assume ownership of the interrupts in `other`.
    fn join(&mut self, other: Self)
        requires
            old(self).mask_spec() & other.mask_spec() == 0,
        ensures
            final(self).mask_spec() == old(self).mask_spec() | other.mask_spec(),
    {
        self.0 = InterruptSet(self.0.0 | other.0.0);
    }

    /// Get the subset of interrupts in this set that are flagged in the
    /// interrupt register value `ir`.
    pub fn interrupt_flags(&self, ir: u32) -> (r: InterruptSet)
        ensures
            r.0 == ir & self.mask_spec(),
    {
        InterruptSet(ir & self.0.0)
    }

    /// Clear the indicated `interrupts` in the interrupt register `ir`, which
    /// clears the flags written as one. Interrupts not owned by this set are
    /// left as they are.
    pub fn clear_interrupts(&self, ir: &mut u32, interrupts: InterruptSet)
        ensures
            *final(ir) == *old(ir) & !(interrupts.0 & self.mask_spec()),
            *final(ir) & !self.mask_spec() == *old(ir) & !self.mask_spec(),
    {
        proof {
            lemma_mask_facts(self.0.0, *ir, interrupts.0);
        }
        let masked = interrupts.0 & self.0.0;
        *ir = *ir & !masked;
    }

    /// Clears the flagged interrupts owned by this set and provides an
    /// iterator over the flags that were cleared.
    pub fn iter_flagged(&self, ir: &mut u32) -> (r: Iter)
        ensures
            r.remaining() == pending_from(*old(ir) & self.mask_spec(), 0),
            *final(ir) == *old(ir) & !((*old(ir) & self.mask_spec()) & self.mask_spec()),
            *final(ir) & !self.mask_spec() == *old(ir) & !self.mask_spec(),
    {
        let interrupts = self.interrupt_flags(*ir);
        self.clear_interrupts(ir, interrupts);
        interrupts.iter()
    }
}

/// Controls enabling and line selection of interrupts. Owns the interrupt
/// enable (IE), line select (ILS) and line enable (ILE) registers, and the
/// interrupts that are disabled.
pub struct InterruptConfiguration {
    disabled: OwnedInterruptSet,
    ie: u32,
    ils: u32,
    ile: u32,
}

/// Bit of the line enable register for `line`.
pub open spec fn line_bit(line: InterruptLine) -> u32 {
    match line {
        InterruptLine::Line0 => 1,
        InterruptLine::Line1 => 2,
    }
}

/// Line select register after routing `mask` to `line`.
pub open spec fn routed(ils: u32, mask: u32, line: InterruptLine) -> u32 {
    match line {
        InterruptLine::Line0 => ils & !mask,
        InterruptLine::Line1 => ils | mask,
    }
}

impl InterruptConfiguration {
    /// Interrupts not handed out.
    pub closed spec fn disabled_spec(self) -> u32 {
        self.disabled.0.0
    }

    /// Interrupt enable register.
    pub closed spec fn ie_spec(self) -> u32 {
        self.ie
    }

    /// Interrupt line select register.
    pub closed spec fn ils_spec(self) -> u32 {
        self.ils
    }

    /// Interrupt line enable register.
    pub closed spec fn ile_spec(self) -> u32 {
        self.ile
    }

    /// Takes ownership of all thirty interrupts, with the registers at their
    /// reset value: every interrupt disabled and routed to line 0.
    pub fn new() -> (r: Self)
        ensures
            r.disabled_spec() == ALL_INTERRUPTS,
            r.ie_spec() == 0,
            r.ils_spec() == 0,
            r.ile_spec() == 0,
    {
        InterruptConfiguration {
            disabled: OwnedInterruptSet::new(InterruptSet(ALL_INTERRUPTS)),
            ie: 0,
            ils: 0,
            ile: 0,
        }
    }

    /// The interrupts that are not enabled.
    pub fn disabled(&self) -> (r: InterruptSet)
        ensures
            r.0 == self.disabled_spec(),
    {
        self.disabled.0
    }

    /// Value of the interrupt enable register.
    pub fn ie(&self) -> (r: u32)
        ensures
            r == self.ie_spec(),
    {
        self.ie
    }

    /// Value of the interrupt line select register.
    pub fn ils(&self) -> (r: u32)
        ensures
            r == self.ils_spec(),
    {
        self.ils
    }

    /// Value of the interrupt line enable register.
    pub fn ile(&self) -> (r: u32)
        ensures
            r == self.ile_spec(),
    {
        self.ile
    }

    /// Request to enable the set of `interrupts` on the chosen interrupt line.
    /// Fails, naming exactly the offending interrupts and changing nothing,
    /// if some of the requested interrupts are already enabled.
    pub fn enable(&mut self, interrupts: InterruptSet, line: InterruptLine) -> (r: Result<
        OwnedInterruptSet,
        MaskError,
    >)
        ensures
            r is Err <==> !old(self).disabled_spec() & interrupts.0 != 0,
            r matches Err(MaskError(m)) ==> m.0 == !old(self).disabled_spec() & interrupts.0,
            r is Err ==> *final(self) == *old(self),
            r matches Ok(o) ==> o.mask_spec() == interrupts.0,
            r is Ok ==> {
                &&& final(self).disabled_spec() == old(self).disabled_spec() & !interrupts.0
                &&& final(self).ie_spec() == old(self).ie_spec() | interrupts.0
                &&& final(self).ils_spec() == routed(old(self).ils_spec(), interrupts.0, line)
                &&& final(self).ile_spec() == old(self).ile_spec() | line_bit(line)
            },
    {
        let interrupts = match self.disabled.split(interrupts) {
            Ok(o) => o,
            Err(e) => {
                return Err(e);
            },
        };
        self.set_line(&interrupts, line);
        self.set_enabled(&interrupts, true);
        Ok(interrupts)
    }

    /// Disable the set of `interrupts` and move ownership back to the
    /// `InterruptConfiguration`.
    pub fn disable(&mut self, interrupts: OwnedInterruptSet)
        requires
            old(self).disabled_spec() & interrupts.mask_spec() == 0,
        ensures
            final(self).disabled_spec() == old(self).disabled_spec() | interrupts.mask_spec(),
            final(self).ie_spec() == old(self).ie_spec() & !interrupts.mask_spec(),
            final(self).ils_spec() == old(self).ils_spec(),
            final(self).ile_spec() == old(self).ile_spec(),
    {
        self.set_enabled(&interrupts, false);
        self.disabled.join(interrupts);
    }

    /// Set the interrupt line that will trigger for a set of peripheral
    /// interrupts.
    pub fn set_line(&mut self, interrupts: &OwnedInterruptSet, line: InterruptLine)
        ensures
            final(self).ils_spec() == routed(old(self).ils_spec(), interrupts.mask_spec(), line),
            final(self).ile_spec() == old(self).ile_spec() | line_bit(line),
            final(self).ie_spec() == old(self).ie_spec(),
            final(self).disabled_spec() == old(self).disabled_spec(),
    {
        self.enable_line(line);
        let mask = interrupts.0.0;
        self.ils = match line {
            InterruptLine::Line0 => self.ils & !mask,
            InterruptLine::Line1 => self.ils | mask,
        };
    }

    fn enable_line(&mut self, line: InterruptLine)
        ensures
            final(self).ile_spec() == old(self).ile_spec() | line_bit(line),
            final(self).ils_spec() == old(self).ils_spec(),
            final(self).ie_spec() == old(self).ie_spec(),
            final(self).disabled_spec() == old(self).disabled_spec(),
    {
        self.ile = match line {
            InterruptLine::Line0 => self.ile | 1,
            InterruptLine::Line1 => self.ile | 2,
        };
    }

    fn set_enabled(&mut self, interrupts: &OwnedInterruptSet, enabled: bool)
        ensures
            final(self).ie_spec() == if enabled {
                old(self).ie_spec() | interrupts.mask_spec()
            } else {
                old(self).ie_spec() & !interrupts.mask_spec()
            },
            final(self).ils_spec() == old(self).ils_spec(),
            final(self).ile_spec() == old(self).ile_spec(),
            final(self).disabled_spec() == old(self).disabled_spec(),
    {
        let mask = interrupts.0.0;
        self.ie = if enabled {
            self.ie | mask
        } else {
            self.ie & !mask
        };
    }
}

proof fn lemma_split_disjoint(d: u32, h: u32, s: u32)
    by (bit_vector)
    requires
        d & h == 0,
        !d & s == 0,
    ensures
        s & h == 0,
        h & s == 0,
        (d & !s) & h == 0,
        (d & !s) & s == 0,
{
}

proof fn lemma_join_disjoint(d: u32, h: u32, g: u32)
    by (bit_vector)
    requires
        d & h == 0,
        d & g == 0,
        g & h == 0,
    ensures
        (d | g) & h == 0,
{
}

/// Flag `i` is owned by one of the outstanding sets `handles`.
pub open spec fn owned_by_some(handles: Seq<u32>, i: u32) -> bool {
    exists|k: int| 0 <= k < handles.len() && bit(#[trigger] handles[k], i)
}

/// The registry's flags `disabled` and the outstanding sets `handles`
/// partition the thirty interrupt flags: they are pairwise disjoint, and
/// together they hold every flag and no reserved bit.
pub open spec fn is_partition(disabled: u32, handles: Seq<u32>) -> bool {
    &&& forall|k: int| 0 <= k < handles.len() ==> disabled & #[trigger] handles[k] == 0
    &&& forall|k: int, l: int|
        0 <= k < l < handles.len() ==> #[trigger] handles[k] & #[trigger] handles[l] == 0
    &&& forall|i: u32| i < 32 ==> (bit(disabled, i) || owned_by_some(handles, i)) == (i < 30)
}

proof fn lemma_bit_ops()
    by (bit_vector)
    ensures
        forall|a: u32, b: u32, i: u32| i < 32 ==> #[trigger] bit(a | b, i) == (bit(a, i) || bit(b, i)),
        forall|a: u32, b: u32, i: u32| i < 32 ==> #[trigger] bit(a & b, i) == (bit(a, i) && bit(b, i)),
        forall|a: u32, i: u32| i < 32 ==> #[trigger] bit(!a, i) == !bit(a, i),
        forall|i: u32| i < 32 ==> !#[trigger] bit(0u32, i),
        forall|i: u32| i < 32 ==> #[trigger] bit(ALL_INTERRUPTS, i) == (i < 30),
{
}

/// The registry as [`InterruptConfiguration::new`] leaves it, owning all
/// thirty flags with no set outstanding, is a partition.
pub proof fn lemma_partition_initial()
    ensures
        is_partition(ALL_INTERRUPTS, Seq::empty()),
{
    lemma_bit_ops();
}

/// Enabling interrupts that the registry owns, as
/// [`InterruptConfiguration::enable`] does on success, keeps the registry and
/// the outstanding sets a partition: the new set is disjoint from every other
/// and from the registry, and no flag is lost or doubled.
pub proof fn lemma_enable_keeps_partition(disabled: u32, handles: Seq<u32>, requested: u32)
    requires
        is_partition(disabled, handles),
        !disabled & requested == 0,
    ensures
        is_partition(disabled & !requested, handles.push(requested)),
{
    lemma_bit_ops();
    let all = handles.push(requested);
    let d = disabled & !requested;
    assert forall|k: int| 0 <= k < all.len() implies d & #[trigger] all[k] == 0 by {
        if k < handles.len() {
            lemma_split_disjoint(disabled, handles[k], requested);
        } else {
            assert(disabled & 0u32 == 0) by (bit_vector);
            lemma_split_disjoint(disabled, 0, requested);
        }
    }
    assert forall|k: int, l: int| 0 <= k < l < all.len() implies #[trigger] all[k]
        & #[trigger] all[l] == 0 by {
        if l < handles.len() {
            assert(handles[k] & handles[l] == 0);
        } else {
            lemma_split_disjoint(disabled, handles[k], requested);
        }
    }
    assert forall|i: u32| i < 32 implies (bit(d, i) || owned_by_some(all, i)) == (i < 30) by {
        assert(!bit(!disabled & requested, i));
        if owned_by_some(handles, i) {
            let k = choose|k: int| 0 <= k < handles.len() && bit(#[trigger] handles[k], i);
            assert(all[k] == handles[k]);
        }
        if bit(requested, i) {
            assert(all[handles.len() as int] == requested);
        }
        if owned_by_some(all, i) {
            let k = choose|k: int| 0 <= k < all.len() && bit(#[trigger] all[k], i);
            if k < handles.len() {
                assert(all[k] == handles[k]);
            }
        }
    }
}

/// Disabling one of the outstanding sets, as
/// [`InterruptConfiguration::disable`] does, keeps the registry and the rest
/// a partition; the returned set is disjoint from the registry, as
/// `disable` requires.
pub proof fn lemma_disable_keeps_partition(disabled: u32, handles: Seq<u32>, returned: int)
    requires
        is_partition(disabled, handles),
        0 <= returned < handles.len(),
    ensures
        disabled & handles[returned] == 0,
        is_partition(disabled | handles[returned], handles.remove(returned)),
{
    lemma_bit_ops();
    let rest = handles.remove(returned);
    let h = handles[returned];
    let d = disabled | h;
    assert forall|k: int| 0 <= k < rest.len() implies d & #[trigger] rest[k] == 0 by {
        let j = if k < returned {
            k
        } else {
            k + 1
        };
        assert(rest[k] == handles[j]);
        if j < returned {
            assert(handles[j] & handles[returned] == 0);
            lemma_and_commutes(handles[j], handles[returned]);
        } else {
            assert(handles[returned] & handles[j] == 0);
        }
        lemma_join_disjoint(disabled, handles[j], h);
    }
    assert forall|k: int, l: int| 0 <= k < l < rest.len() implies #[trigger] rest[k]
        & #[trigger] rest[l] == 0 by {
        let jk = if k < returned {
            k
        } else {
            k + 1
        };
        let jl = if l < returned {
            l
        } else {
            l + 1
        };
        assert(rest[k] == handles[jk] && rest[l] == handles[jl] && jk < jl);
    }
    assert forall|i: u32| i < 32 implies (bit(d, i) || owned_by_some(rest, i)) == (i < 30) by {
        if owned_by_some(handles, i) {
            let k = choose|k: int| 0 <= k < handles.len() && bit(#[trigger] handles[k], i);
            if k < returned {
                assert(rest[k] == handles[k]);
            } else if k > returned {
                assert(rest[k - 1] == handles[k]);
            }
        }
        if owned_by_some(rest, i) {
            let k = choose|k: int| 0 <= k < rest.len() && bit(#[trigger] rest[k], i);
            let j = if k < returned {
                k
            } else {
                k + 1
            };
            assert(rest[k] == handles[j]);
        }
    }
}

proof fn lemma_and_commutes(a: u32, b: u32)
    by (bit_vector)
    ensures
        a & b == b & a,
{
}


/// Union of the flags numbered in `s`.
pub open spec fn or_numbers(s: Seq<u32>) -> u32
    decreases s.len(),
{
    if s.len() == 0 {
        0
    } else {
        or_numbers(s.drop_last()) | (1u32 << s.last())
    }
}

/// Flags numbered `k` and above, up to the last interrupt.
pub open spec fn flags_from(k: u32) -> u32 {
    ALL_INTERRUPTS & !(((1u32 << k) - 1) as u32)
}

proof fn lemma_or_facts(a: u32, b: u32, c: u32)
    by (bit_vector)
    ensures
        a | 0 == a,
        (a | b) | c == a | (b | c),
{
}

proof fn lemma_flags_step(x: u32, k: u32)
    by (bit_vector)
    requires
        k < 30,
    ensures
        bit(x, k) ==> (0u32 | (1u32 << k)) | (x & flags_from((k + 1) as u32)) == x & flags_from(k),
        !bit(x, k) ==> x & flags_from((k + 1) as u32) == x & flags_from(k),
        x & flags_from(30) == 0,
        x & flags_from(0) == x & ALL_INTERRUPTS,
{
}

proof fn lemma_or_numbers_concat(a: Seq<u32>, b: Seq<u32>)
    ensures
        or_numbers(a + b) == or_numbers(a) | or_numbers(b),
    decreases b.len(),
{
    if b.len() == 0 {
        assert(a + b =~= a);
        lemma_or_facts(or_numbers(a), 0, 0);
    } else {
        assert((a + b).drop_last() =~= a + b.drop_last());
        lemma_or_numbers_concat(a, b.drop_last());
        lemma_or_facts(or_numbers(a), or_numbers(b.drop_last()), 1u32 << b.last());
    }
}

proof fn lemma_or_pending(x: u32, k: nat)
    requires
        k <= 30,
    ensures
        or_numbers(pending_from(x, k)) == x & flags_from(k as u32),
    decreases 30 - k,
{
    lemma_flags_step(x, 0);
    if k == 30 {
        assert(pending_from(x, k) =~= Seq::<u32>::empty());
    } else {
        let kk = k as u32;
        lemma_flags_step(x, kk);
        lemma_or_pending(x, k + 1);
        assert(((k + 1) as nat) as u32 == (kk + 1) as u32);
        if bit(x, kk) {
            let one = seq![kk];
            assert(pending_from(x, k) == one + pending_from(x, k + 1));
            lemma_or_numbers_concat(one, pending_from(x, k + 1));
            assert(one.drop_last() =~= Seq::<u32>::empty());
            assert(or_numbers(one.drop_last()) == 0);
            assert(one.last() == kk);
            assert(or_numbers(one) == 0u32 | (1u32 << kk));
        } else {
            assert(pending_from(x, k) == pending_from(x, k + 1));
        }
    }
}

proof fn lemma_or_all_numbers(ints: Seq<Interrupt>, numbers: Seq<u32>)
    requires
        ints.len() == numbers.len(),
        forall|k: int| 0 <= k < ints.len() ==> #[trigger] ints[k].number_spec() == numbers[k],
    ensures
        or_all(ints) == or_numbers(numbers),
    decreases ints.len(),
{
    if ints.len() > 0 {
        lemma_or_all_numbers(ints.drop_last(), numbers.drop_last());
    }
}

/// Building a set from the interrupts that iterating over a set visits gives
/// back that set without its reserved bits.
pub proof fn lemma_iter_collect(flags: u32, interrupts: Seq<Interrupt>)
    requires
        interrupts.len() == pending_from(flags, 0).len(),
        forall|k: int|
            0 <= k < interrupts.len() ==> #[trigger] interrupts[k].number_spec() == pending_from(
                flags,
                0,
            )[k],
    ensures
        or_all(interrupts) == flags & ALL_INTERRUPTS,
{
    lemma_or_all_numbers(interrupts, pending_from(flags, 0));
    lemma_or_pending(flags, 0);
    lemma_flags_step(flags, 0);
}

} // verus!
