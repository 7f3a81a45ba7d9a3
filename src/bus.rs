//! The CAN bus controller: construction in configuration mode, and the
//! one-way transition to operation.
use vstd::prelude::*;
use crate::config::{
    data_ranges, nominal_ranges, BitTiming, BitTimingError, BitTimingRanges, CanConfig, Mode,
    RxFifoConfig, RxFifoModeVariant, TxQueueMode,
};
use crate::filter::{Filters, FiltersExtended, FiltersStandard};
use crate::interrupt::InterruptConfiguration;
use crate::messageram::SharedMemory;
use crate::reg::{field, get_field, set_field, with_field, ControlRegs, RegisterBlock};
use crate::reg::rxfc;
use crate::rx_dedicated_buffers::RxDedicatedBuffer;
use crate::rx_fifo::{Fifo0, Fifo1, GetRxFifoRegs, RxFifo};
use crate::tx_buffers::Tx;
use crate::tx_event_fifo::TxEventFifo;

pub use crate::poll::OutOfBounds;

verus! {

/// What the platform supplies to the driver.
pub trait Dependencies {
    /// Start of the RAM the peripheral can address; the Message RAM must lie
    /// within the 64 KiB that follow it.
    fn eligible_message_ram_start(&self) -> usize;

    /// Frequency of the host clock, in Hz.
    fn host_clock(&self) -> u32;

    /// Frequency of the clock of the CAN peripheral, in Hz.
    fn can_clock(&self) -> u32;
}

/// Wrapper for the protocol status register
#[derive(Clone, Copy, Debug, PartialEq, Eq, Structural)]
pub struct ProtocolStatus(pub u32);

impl ProtocolStatus {
    /// Last error code (bits 0:2)
    pub fn lec(&self) -> (r: u32)
        ensures
            r == field(self.0, 0, 3),
    {
        get_field(self.0, 0, 3)
    }

    /// Activity (bits 3:4): synchronizing, idle, receiver, transmitter
    pub fn act(&self) -> (r: u32)
        ensures
            r == field(self.0, 3, 2),
    {
        get_field(self.0, 3, 2)
    }

    /// Error passive (bit 5)
    pub fn ep(&self) -> (r: bool)
        ensures
            r == (field(self.0, 5, 1) == 1),
    {
        get_field(self.0, 5, 1) == 1
    }

    /// Warning status (bit 6)
    pub fn ew(&self) -> (r: bool)
        ensures
            r == (field(self.0, 6, 1) == 1),
    {
        get_field(self.0, 6, 1) == 1
    }

    /// Bus off (bit 7)
    pub fn bo(&self) -> (r: bool)
        ensures
            r == (field(self.0, 7, 1) == 1),
    {
        get_field(self.0, 7, 1) == 1
    }

    /// Data phase last error code (bits 8:10)
    pub fn dlec(&self) -> (r: u32)
        ensures
            r == field(self.0, 8, 3),
    {
        get_field(self.0, 8, 3)
    }

    /// ESI flag of the last received CAN FD message (bit 11)
    pub fn resi(&self) -> (r: bool)
        ensures
            r == (field(self.0, 11, 1) == 1),
    {
        get_field(self.0, 11, 1) == 1
    }

    /// BRS flag of the last received CAN FD message (bit 12)
    pub fn rbrs(&self) -> (r: bool)
        ensures
            r == (field(self.0, 12, 1) == 1),
    {
        get_field(self.0, 12, 1) == 1
    }

    /// A CAN FD message was received (bit 13)
    pub fn rfdf(&self) -> (r: bool)
        ensures
            r == (field(self.0, 13, 1) == 1),
    {
        get_field(self.0, 13, 1) == 1
    }

    /// Protocol exception event (bit 14)
    pub fn pxe(&self) -> (r: bool)
        ensures
            r == (field(self.0, 14, 1) == 1),
    {
        get_field(self.0, 14, 1) == 1
    }

    /// Transmitter delay compensation value (bits 16:22)
    pub fn tdcv(&self) -> (r: u32)
        ensures
            r == field(self.0, 16, 7),
    {
        get_field(self.0, 16, 7)
    }
}

/// Wrapper for the error counters register
#[derive(Clone, Copy, Debug, PartialEq, Eq, Structural)]
pub struct ErrorCounters(pub u32);

impl ErrorCounters {
    /// Transmit error counter (bits 0:7)
    pub fn tec(&self) -> (r: u32)
        ensures
            r == field(self.0, 0, 8),
    {
        get_field(self.0, 0, 8)
    }

    /// Receive error counter (bits 8:14)
    pub fn rec(&self) -> (r: u32)
        ensures
            r == field(self.0, 8, 7),
    {
        get_field(self.0, 8, 7)
    }

    /// Receive error passive (bit 15)
    pub fn rp(&self) -> (r: bool)
        ensures
            r == (field(self.0, 15, 1) == 1),
    {
        get_field(self.0, 15, 1) == 1
    }

    /// CAN error logging (bits 16:23)
    pub fn cel(&self) -> (r: u32)
        ensures
            r == field(self.0, 16, 8),
    {
        get_field(self.0, 16, 8)
    }
}

/// Errors that may occur during configuration
#[derive(Clone, Copy, Debug, PartialEq, Eq, Structural)]
pub enum ConfigurationError {
    /// Problems with the bit timing configuration
    BitTiming(BitTimingError),
    /// Time stamp prescaler value is not in the range [1, 16]
    InvalidTimeStampPrescaler,
}

impl ConfigurationError {
    /// A bit timing problem.
    pub fn from(value: BitTimingError) -> (r: Self)
        ensures
            r == ConfigurationError::BitTiming(value),
    {
        ConfigurationError::BitTiming(value)
    }
}

/// Error that may occur during construction: the Message RAM lies outside
/// the window the peripheral addresses. The register block is handed back
/// untouched.
#[derive(Debug)]
pub struct MemoryNotAddressableError {
    /// The peripheral's register block, as it was handed over
    pub peripheral: RegisterBlock,
}

/// Configuration-change-enable and INIT set: configuration may be changed.
pub open spec fn configuration_mode_cccr(cccr: u32) -> u32 {
    with_field(with_field(cccr, 0, 1, 1), 1, 1, 1)
}

/// INIT cleared, which also clears configuration-change-enable: normal
/// operation.
pub open spec fn operational_mode_cccr(cccr: u32) -> u32 {
    with_field(with_field(cccr, 0, 1, 0), 1, 1, 0)
}

/// Low 16 bits of an address, as the peripheral's start address fields
/// hold it.
pub open spec fn addr16(address: usize, offset: usize) -> u32 {
    ((address + offset) % 0x1_0000) as u32
}

/// The memory layout registers for Message RAM `m`, over `r`.
pub open spec fn ram_config_regs(r: ControlRegs, m: SharedMemory) -> ControlRegs {
    let c = m.capacities_spec();
    let l = c.layout_spec();
    let a = m.address_spec();
    ControlRegs {
        sidfc: with_field(
            with_field(0, 0, 16, addr16(a, l.filters_standard)),
            16,
            8,
            c.standard_filters as u32,
        ),
        xidfc: with_field(
            with_field(0, 0, 16, addr16(a, l.filters_extended)),
            16,
            7,
            c.extended_filters as u32,
        ),
        rxbc: with_field(0, 0, 16, addr16(a, l.rx_dedicated_buffers)),
        rxesc: with_field(
            with_field(
                with_field(0, 0, 3, c.rx_fifo_0_message.reg_spec() as u32),
                4,
                3,
                c.rx_fifo_1_message.reg_spec() as u32,
            ),
            8,
            3,
            c.rx_buffer_message.reg_spec() as u32,
        ),
        rxf0c: with_field(with_field(0, 0, 16, addr16(a, l.rx_fifo_0)), 16, 7, c.rx_fifo_0 as u32),
        rxf1c: with_field(with_field(0, 0, 16, addr16(a, l.rx_fifo_1)), 16, 7, c.rx_fifo_1 as u32),
        txbc: with_field(
            with_field(
                with_field(0, 0, 16, addr16(a, l.tx_buffers)),
                16,
                6,
                c.dedicated_tx_buffers as u32,
            ),
            24,
            6,
            (c.tx_buffers - c.dedicated_tx_buffers) as u32,
        ),
        txesc: with_field(0, 0, 3, c.tx_message.reg_spec() as u32),
        txefc: with_field(
            with_field(0, 0, 16, addr16(a, l.tx_event_fifo)),
            16,
            6,
            c.tx_event_fifo as u32,
        ),
        ..r
    }
}

/// The configuration error for `c` when the peripheral clock runs at
/// `can_clock` Hz, if any: the timestamp prescaler is checked first, then
/// the nominal bit timing, then the data phase bit timing of CAN FD.
pub open spec fn configuration_error(c: CanConfig, can_clock: u32) -> Option<ConfigurationError> {
    if !(1 <= c.timestamp.prescaler <= 16) {
        Some(ConfigurationError::InvalidTimeStampPrescaler)
    } else if c.nominal_timing.prescaler_spec(can_clock, nominal_ranges()) is Err {
        Some(
            ConfigurationError::BitTiming(
                c.nominal_timing.prescaler_spec(can_clock, nominal_ranges())->Err_0,
            ),
        )
    } else {
        match c.mode {
            Mode::Classic => None,
            Mode::Fd { data_phase_timing, .. } => if data_phase_timing.prescaler_spec(
                can_clock,
                data_ranges(),
            ) is Err {
                Some(
                    ConfigurationError::BitTiming(
                        data_phase_timing.prescaler_spec(can_clock, data_ranges())->Err_0,
                    ),
                )
            } else {
                None
            },
        }
    }
}

/// The registers after a valid configuration `c` has been applied to `r`
/// and normal operation entered.
pub open spec fn finalized_regs(r: ControlRegs, c: CanConfig, can_clock: u32) -> ControlRegs {
    let applied = configured_regs(r, c, can_clock);
    ControlRegs { cccr: operational_mode_cccr(applied.cccr), ..applied }
}

/// Nominal bit timing register for `t` with prescaler `p`.
pub open spec fn nbtp_value(t: BitTiming, p: u16) -> u32 {
    with_field(
        with_field(
            with_field(with_field(0, 25, 7, (t.sjw - 1) as u32), 16, 9, (p - 1) as u32),
            8,
            8,
            (t.phase_seg_1 - 1) as u32,
        ),
        0,
        7,
        (t.phase_seg_2 - 1) as u32,
    )
}

/// Data bit timing register for `t` with prescaler `p`.
pub open spec fn dbtp_value(t: BitTiming, p: u16) -> u32 {
    with_field(
        with_field(
            with_field(with_field(0, 0, 4, (t.sjw - 1) as u32), 4, 4, (t.phase_seg_2 - 1) as u32),
            8,
            5,
            (t.phase_seg_1 - 1) as u32,
        ),
        16,
        5,
        (p - 1) as u32,
    )
}

/// A watermark as the register takes it: values above `max` mean
/// "disabled", which is `max`.
pub open spec fn clamp_watermark(w: u8, max: u8) -> u8 {
    if w >= max {
        max
    } else {
        w
    }
}

/// RX FIFO configuration register `c` with the mode and watermark of `f`.
pub open spec fn rxfc_value(c: u32, f: RxFifoConfig) -> u32 {
    with_field(
        with_field(c, 31, 1, if f.mode.variant_spec() == RxFifoModeVariant::Overwrite {
            1
        } else {
            0
        }),
        24,
        7,
        clamp_watermark(f.watermark, 64) as u32,
    )
}

/// `1` for `true`, `0` for `false`.
pub open spec fn flag(b: bool) -> u32 {
    if b {
        1
    } else {
        0
    }
}

/// The registers after a valid configuration `c` has been applied to `r`,
/// with the peripheral clock at `can_clock` Hz.
pub open spec fn configured_regs(r: ControlRegs, c: CanConfig, can_clock: u32) -> ControlRegs {
    let np = c.nominal_timing.prescaler_spec(can_clock, nominal_ranges())->Ok_0;
    let (cccr_fd, dbtp) = match c.mode {
        Mode::Classic => (with_field(r.cccr, 8, 1, 0), r.dbtp),
        Mode::Fd { allow_bit_rate_switching, data_phase_timing } => (
            with_field(with_field(r.cccr, 8, 1, 1), 9, 1, flag(allow_bit_rate_switching)),
            dbtp_value(
                data_phase_timing,
                data_phase_timing.prescaler_spec(can_clock, data_ranges())->Ok_0,
            ),
        ),
    };
    ControlRegs {
        nbtp: nbtp_value(c.nominal_timing, np),
        tscc: with_field(
            with_field(0, 0, 2, c.timestamp.select.code_spec()),
            16,
            4,
            (c.timestamp.prescaler - 1) as u32,
        ),
        cccr: with_field(cccr_fd, 7, 1, flag(c.loopback)),
        dbtp,
        gfc: with_field(with_field(0, 4, 2, 2), 2, 2, 2),
        test: with_field(r.test, 4, 1, flag(c.loopback)),
        rxf0c: rxfc_value(r.rxf0c, c.rx_fifo_0),
        rxf1c: rxfc_value(r.rxf1c, c.rx_fifo_1),
        txbc: with_field(r.txbc, 30, 1, flag(c.tx.tx_queue_submode == TxQueueMode::Priority)),
        txefc: with_field(r.txefc, 24, 6, clamp_watermark(c.tx.tx_event_fifo_watermark, 32) as u32),
        ..r
    }
}


/// Controller registers, dependencies, configuration and filter tables of a
/// bus: what the bus keeps besides the queues and interrupts.
pub struct Aux<D> {
    reg: ControlRegs,
    dependencies: D,
    config: CanConfig,
    filters_standard: FiltersStandard,
    filters_extended: FiltersExtended,
}

impl<D: Dependencies> Aux<D> {
    /// Controller registers.
    pub closed spec fn registers_spec(&self) -> ControlRegs {
        self.reg
    }

    /// Configuration to be applied.
    pub closed spec fn config_spec(&self) -> CanConfig {
        self.config
    }

    /// Controller registers.
    pub fn registers(&self) -> (r: ControlRegs)
        ensures
            r == self.registers_spec(),
    {
        self.reg
    }

    /// Takes the register values the peripheral reports.
    pub fn set_registers(&mut self, reg: ControlRegs)
        ensures
            final(self).registers_spec() == reg,
            final(self).config_spec() == old(self).config_spec(),
    {
        self.reg = reg;
    }

    /// The platform dependencies.
    pub closed spec fn dependencies_spec(&self) -> D {
        self.dependencies
    }

    /// The platform dependencies.
    pub fn dependencies(&self) -> (r: &D)
        ensures
            *r == self.dependencies_spec(),
    {
        &self.dependencies
    }

    /// Enters "Software Initialization" mode with configuration change
    /// enabled: messages are neither received nor transmitted.
    fn configuration_mode(&mut self)
        ensures
            final(self).reg == (ControlRegs {
                cccr: configuration_mode_cccr(old(self).reg.cccr),
                ..old(self).reg
            }),
            final(self).config == old(self).config,
            final(self).dependencies == old(self).dependencies,
            final(self).filters_standard == old(self).filters_standard,
            final(self).filters_extended == old(self).filters_extended,
    {
        self.reg.cccr = set_field(set_field(self.reg.cccr, 0, 1, 1), 1, 1, 1);
    }

    /// Enters "Normal Operation" mode: messages can be transmitted and
    /// received, configuration cannot be changed.
    pub fn operational_mode(&mut self)
        ensures
            final(self).registers_spec() == (ControlRegs {
                cccr: operational_mode_cccr(old(self).registers_spec().cccr),
                ..old(self).registers_spec()
            }),
            final(self).config_spec() == old(self).config_spec(),
    {
        self.reg.cccr = set_field(set_field(self.reg.cccr, 0, 1, 0), 1, 1, 0);
    }

    /// Returns `true` if the peripheral is in "Normal Operation" mode.
    pub fn is_operational(&self) -> (r: bool)
        ensures
            r == (field(self.registers_spec().cccr, 0, 1) == 0),
    {
        get_field(self.reg.cccr, 0, 1) == 0
    }

    /// Access the error counters register value
    pub fn error_counters(&self) -> (r: ErrorCounters)
        ensures
            r.0 == self.registers_spec().ecr,
    {
        ErrorCounters(self.reg.ecr)
    }

    /// Access the protocol status register value
    pub fn protocol_status(&self) -> (r: ProtocolStatus)
        ensures
            r.0 == self.registers_spec().psr,
    {
        ProtocolStatus(self.reg.psr)
    }

    /// Current value of the timestamp counter; zero if timestamping is
    /// disabled.
    pub fn timestamp(&self) -> (r: u16)
        ensures
            r == field(self.registers_spec().tscv, 0, 16),
    {
        proof {
            crate::reg::lemma_field_bounds(self.reg.tscv);
        }
        get_field(self.reg.tscv, 0, 16) as u16
    }
}

/// A CAN bus in normal operation. Its parts can be moved out and used
/// independently: each owns the registers and memory it acts on.
pub struct Can<D> {
    /// Controls enabling and line selection of interrupts.
    pub interrupts: InterruptConfiguration,
    /// Receive FIFO 0
    pub rx_fifo_0: RxFifo<Fifo0>,
    /// Receive FIFO 1
    pub rx_fifo_1: RxFifo<Fifo1>,
    /// Dedicated receive buffers
    pub rx_dedicated_buffers: RxDedicatedBuffer,
    /// Transmit buffers and queue
    pub tx: Tx,
    /// Transmit event queue
    pub tx_event_fifo: TxEventFifo,
    /// Controller registers, configuration and filters
    pub aux: Aux<D>,
}

/// A CAN bus in configuration mode. Before messages can be sent and received,
/// it needs to be [`Self::finalize`]d.
pub struct CanConfigurable<D>(Can<D>);

impl<D: Dependencies> Can<D> {
    /// Controller registers.
    pub open spec fn registers_spec(&self) -> ControlRegs {
        self.aux.registers_spec()
    }

    /// Re-enters configuration mode.
    pub fn configure(self) -> (r: CanConfigurable<D>)
        ensures
            r.registers_spec() == (ControlRegs {
                cccr: configuration_mode_cccr(self.registers_spec().cccr),
                ..self.registers_spec()
            }),
            r.config_spec() == self.aux.config_spec(),
            r.interrupts_spec() == self.interrupts,
            r.rx_fifo_0_spec() == self.rx_fifo_0,
            r.rx_fifo_1_spec() == self.rx_fifo_1,
            r.rx_dedicated_buffers_spec() == self.rx_dedicated_buffers,
            r.tx_spec() == self.tx,
            r.tx_event_fifo_spec() == self.tx_event_fifo,
    {
        let mut can = self;
        can.aux.configuration_mode();
        CanConfigurable(can)
    }
}

impl<D: Dependencies> CanConfigurable<D> {
    /// Controller registers.
    pub closed spec fn registers_spec(&self) -> ControlRegs {
        self.0.aux.reg
    }

    /// Configuration to be applied.
    pub closed spec fn config_spec(&self) -> CanConfig {
        self.0.aux.config
    }

    /// Standard ID filter table.
    pub closed spec fn filters_standard_spec(&self) -> FiltersStandard {
        self.0.aux.filters_standard
    }

    /// Extended ID filter table.
    pub closed spec fn filters_extended_spec(&self) -> FiltersExtended {
        self.0.aux.filters_extended
    }

    /// Interrupt configuration.
    pub closed spec fn interrupts_spec(&self) -> InterruptConfiguration {
        self.0.interrupts
    }

    /// Transmit buffers.
    pub closed spec fn tx_spec(&self) -> Tx {
        self.0.tx
    }

    /// Receive FIFO 0.
    pub closed spec fn rx_fifo_0_spec(&self) -> RxFifo<Fifo0> {
        self.0.rx_fifo_0
    }

    /// Receive FIFO 1.
    pub closed spec fn rx_fifo_1_spec(&self) -> RxFifo<Fifo1> {
        self.0.rx_fifo_1
    }

    /// Dedicated receive buffers.
    pub closed spec fn rx_dedicated_buffers_spec(&self) -> RxDedicatedBuffer {
        self.0.rx_dedicated_buffers
    }

    /// Transmit event queue.
    pub closed spec fn tx_event_fifo_spec(&self) -> TxEventFifo {
        self.0.tx_event_fifo
    }

    /// The queues and buffers of `self` and `other` are the same.
    pub open spec fn same_queues(&self, other: &Self) -> bool {
        &&& self.rx_fifo_0_spec() == other.rx_fifo_0_spec()
        &&& self.rx_fifo_1_spec() == other.rx_fifo_1_spec()
        &&& self.rx_dedicated_buffers_spec() == other.rx_dedicated_buffers_spec()
        &&& self.tx_spec() == other.tx_spec()
        &&& self.tx_event_fifo_spec() == other.tx_event_fifo_spec()
    }

    /// Controller registers.
    pub fn registers(&self) -> (r: ControlRegs)
        ensures
            r == self.registers_spec(),
    {
        self.0.aux.reg
    }

    /// Allows reconfiguring the acceptance filters for standard IDs.
    pub fn filters_standard(&mut self) -> (r: &mut FiltersStandard)
        ensures
            *r == old(self).filters_standard_spec(),
            final(self).filters_standard_spec() == *final(r),
            final(self).registers_spec() == old(self).registers_spec(),
            final(self).config_spec() == old(self).config_spec(),
            final(self).filters_extended_spec() == old(self).filters_extended_spec(),
            final(self).interrupts_spec() == old(self).interrupts_spec(),
            final(self).same_queues(old(self)),
    {
        &mut self.0.aux.filters_standard
    }

    /// Allows reconfiguring the acceptance filters for extended IDs.
    pub fn filters_extended(&mut self) -> (r: &mut FiltersExtended)
        ensures
            *r == old(self).filters_extended_spec(),
            final(self).filters_extended_spec() == *final(r),
            final(self).registers_spec() == old(self).registers_spec(),
            final(self).config_spec() == old(self).config_spec(),
            final(self).filters_standard_spec() == old(self).filters_standard_spec(),
            final(self).interrupts_spec() == old(self).interrupts_spec(),
            final(self).same_queues(old(self)),
    {
        &mut self.0.aux.filters_extended
    }

    /// Allows reconfiguring interrupts.
    pub fn interrupts(&mut self) -> (r: &mut InterruptConfiguration)
        ensures
            *r == old(self).interrupts_spec(),
            final(self).interrupts_spec() == *final(r),
            final(self).registers_spec() == old(self).registers_spec(),
            final(self).config_spec() == old(self).config_spec(),
            final(self).filters_standard_spec() == old(self).filters_standard_spec(),
            final(self).filters_extended_spec() == old(self).filters_extended_spec(),
            final(self).same_queues(old(self)),
    {
        &mut self.0.interrupts
    }

    /// Allows reconfiguring config
    pub fn config(&mut self) -> (r: &mut CanConfig)
        ensures
            *r == old(self).config_spec(),
            final(self).config_spec() == *final(r),
            final(self).registers_spec() == old(self).registers_spec(),
            final(self).filters_standard_spec() == old(self).filters_standard_spec(),
            final(self).filters_extended_spec() == old(self).filters_extended_spec(),
            final(self).interrupts_spec() == old(self).interrupts_spec(),
            final(self).same_queues(old(self)),
    {
        &mut self.0.aux.config
    }

    /// Writes the memory layout registers for `memory`.
    ///
    /// That the layout is right is the only safeguard of the bus against the
    /// peripheral writing outside its memory: the addresses and sizes come
    /// from the validated capacities.
    fn apply_ram_config(reg: &mut ControlRegs, memory: &SharedMemory)
        ensures
            *final(reg) == ram_config_regs(*old(reg), *memory),
    {
        let c = memory.capacities();
        let l = c.layout();
        let a = memory.address();
        reg.sidfc = set_field(
            set_field(0, 0, 16, addr_at(a, l.filters_standard)),
            16,
            8,
            c.standard_filters as u32,
        );
        reg.xidfc = set_field(
            set_field(0, 0, 16, addr_at(a, l.filters_extended)),
            16,
            7,
            c.extended_filters as u32,
        );
        reg.rxbc = set_field(0, 0, 16, addr_at(a, l.rx_dedicated_buffers));
        reg.rxesc = set_field(
            set_field(
                set_field(0, 0, 3, c.rx_fifo_0_message.reg() as u32),
                4,
                3,
                c.rx_fifo_1_message.reg() as u32,
            ),
            8,
            3,
            c.rx_buffer_message.reg() as u32,
        );
        let mut w0 = rxfc::W { bits: 0 };
        w0.fsa(addr_at(a, l.rx_fifo_0) as u16);
        w0.fs(c.rx_fifo_0 as u8);
        reg.rxf0c = w0.bits;
        let mut w1 = rxfc::W { bits: 0 };
        w1.fsa(addr_at(a, l.rx_fifo_1) as u16);
        w1.fs(c.rx_fifo_1 as u8);
        reg.rxf1c = w1.bits;
        reg.txbc = set_field(
            set_field(set_field(0, 0, 16, addr_at(a, l.tx_buffers)), 16, 6, c.dedicated_tx_buffers as u32),
            24,
            6,
            (c.tx_buffers - c.dedicated_tx_buffers) as u32,
        );
        reg.txesc = set_field(0, 0, 3, c.tx_message.reg() as u32);
        reg.txefc = set_field(
            set_field(0, 0, 16, addr_at(a, l.tx_event_fifo)),
            16,
            6,
            c.tx_event_fifo as u32,
        );
    }

    /// Creates the bus in configuration mode.
    ///
    /// The peripheral requires the Message RAM to lie within the 64 KiB that
    /// follow `eligible_start`. If it does not, an error is returned before
    /// any register is written, and the register block is handed back.
    /// Otherwise the memory is zeroed, the layout registers written, and the
    /// regions and registers split among the parts of the bus.
    pub fn new_in_window(
        bitrate: u32,
        dependencies: D,
        memory: &SharedMemory,
        peripheral: RegisterBlock,
        eligible_start: usize,
    ) -> (r: Result<Self, MemoryNotAddressableError>)
        ensures
            r is Err <==> !crate::messageram::addressable(
                memory.address_spec() as int,
                memory.capacities_spec().layout_spec().size as int,
                eligible_start as int,
            ),
            r matches Err(e) ==> e.peripheral == peripheral,
            r matches Ok(can) ==> {
                &&& can.registers_spec() == ram_config_regs(
                    ControlRegs {
                        cccr: configuration_mode_cccr(peripheral.control.cccr),
                        ..peripheral.control
                    },
                    *memory,
                )
                &&& can.config_spec() == CanConfig::new_spec(bitrate)
                &&& can.filters_standard_spec().len_spec() == 0
                &&& can.filters_standard_spec().memory_spec().len()
                    == memory.capacities_spec().standard_filters
                &&& can.filters_extended_spec().len_spec() == 0
                &&& can.filters_extended_spec().memory_spec().len()
                    == memory.capacities_spec().extended_filters
                &&& can.tx_spec().wf()
                &&& can.tx_spec().dedicated_spec() == memory.capacities_spec().dedicated_tx_buffers
                &&& can.tx_spec().memory_spec().len() == memory.capacities_spec().tx_buffers
                &&& can.tx_spec().registers_spec() == peripheral.tx
                &&& can.interrupts_spec().disabled_spec() == crate::interrupt::ALL_INTERRUPTS
                &&& can.interrupts_spec().ie_spec() == 0
                &&& can.interrupts_spec().ils_spec() == 0
                &&& can.interrupts_spec().ile_spec() == 0
                &&& can.rx_fifo_0_spec().memory_spec().len() == memory.capacities_spec().rx_fifo_0
                &&& can.rx_fifo_0_spec().registers_spec() == peripheral.rxf0
                &&& can.rx_fifo_1_spec().memory_spec().len() == memory.capacities_spec().rx_fifo_1
                &&& can.rx_fifo_1_spec().registers_spec() == peripheral.rxf1
                &&& can.rx_dedicated_buffers_spec().memory_spec().len()
                    == memory.capacities_spec().dedicated_rx_buffers
                &&& can.rx_dedicated_buffers_spec().ndat_spec() == peripheral.ndat
                &&& can.tx_event_fifo_spec().memory_spec().len()
                    == memory.capacities_spec().tx_event_fifo
                &&& can.tx_event_fifo_spec().registers_spec() == peripheral.tx_event
            },
    {
        if !memory.is_addressable(eligible_start) {
            return Err(MemoryNotAddressableError { peripheral });
        }
        let caps = memory.capacities();
        let mut reg = peripheral.control;
        reg.cccr = set_field(set_field(reg.cccr, 0, 1, 1), 1, 1, 1);
        Self::apply_ram_config(&mut reg, memory);
        let inner = memory.init();
        let config = CanConfig::new(bitrate);
        let can = Can {
            interrupts: InterruptConfiguration::new(),
            rx_fifo_0: RxFifo::new(inner.rx_fifo_0, peripheral.rxf0, Fifo0),
            rx_fifo_1: RxFifo::new(inner.rx_fifo_1, peripheral.rxf1, Fifo1),
            rx_dedicated_buffers: RxDedicatedBuffer::new(inner.rx_dedicated_buffers, peripheral.ndat),
            tx: Tx::new(inner.tx_buffers, peripheral.tx, caps.dedicated_tx_buffers),
            tx_event_fifo: TxEventFifo::new(inner.tx_event_fifo, peripheral.tx_event),
            aux: Aux {
                reg,
                dependencies,
                config,
                filters_standard: Filters::new(inner.filters_standard),
                filters_extended: Filters::new(inner.filters_extended),
            },
        };
        Ok(CanConfigurable(can))
    }

    /// Creates the bus in configuration mode, with the Message RAM window
    /// that `dependencies` reports. See [`Self::new_in_window`].
    pub fn new(bitrate: u32, dependencies: D, memory: &SharedMemory, peripheral: RegisterBlock) -> (r:
        Result<Self, MemoryNotAddressableError>)
        ensures
            r matches Err(e) ==> e.peripheral == peripheral,
            r is Err ==> exists|eligible_start: usize|
                !crate::messageram::addressable(
                    memory.address_spec() as int,
                    memory.capacities_spec().layout_spec().size as int,
                    eligible_start as int,
                ),
            r matches Ok(can) ==> can.registers_spec() == ram_config_regs(
                ControlRegs {
                    cccr: configuration_mode_cccr(peripheral.control.cccr),
                    ..peripheral.control
                },
                *memory,
            ) && can.config_spec() == CanConfig::new_spec(bitrate),
            r matches Ok(can) ==> {
                &&& can.tx_spec().wf()
                &&& can.tx_spec().dedicated_spec() == memory.capacities_spec().dedicated_tx_buffers
                &&& can.tx_spec().memory_spec().len() == memory.capacities_spec().tx_buffers
                &&& can.tx_spec().registers_spec() == peripheral.tx
                &&& can.interrupts_spec().disabled_spec() == crate::interrupt::ALL_INTERRUPTS
                &&& can.interrupts_spec().ie_spec() == 0
                &&& can.interrupts_spec().ils_spec() == 0
                &&& can.interrupts_spec().ile_spec() == 0
                &&& can.rx_fifo_0_spec().memory_spec().len() == memory.capacities_spec().rx_fifo_0
                &&& can.rx_fifo_0_spec().registers_spec() == peripheral.rxf0
                &&& can.rx_fifo_1_spec().memory_spec().len() == memory.capacities_spec().rx_fifo_1
                &&& can.rx_fifo_1_spec().registers_spec() == peripheral.rxf1
                &&& can.rx_dedicated_buffers_spec().memory_spec().len()
                    == memory.capacities_spec().dedicated_rx_buffers
                &&& can.rx_dedicated_buffers_spec().ndat_spec() == peripheral.ndat
                &&& can.tx_event_fifo_spec().memory_spec().len()
                    == memory.capacities_spec().tx_event_fifo
                &&& can.tx_event_fifo_spec().registers_spec() == peripheral.tx_event
            },
    {
        let eligible_start = dependencies.eligible_message_ram_start();
        Self::new_in_window(bitrate, dependencies, memory, peripheral, eligible_start)
    }

    /// Validates the configuration for a peripheral clock of `can_clock` Hz
    /// and, if it is valid, writes it to the registers in one pass. On an
    /// error no register is changed.
    pub fn apply_configuration(&mut self, can_clock: u32) -> (r: Result<(), ConfigurationError>)
        ensures
            r is Err <==> configuration_error(old(self).config_spec(), can_clock) is Some,
            r matches Err(e) ==> configuration_error(old(self).config_spec(), can_clock) == Some(e),
            r is Err ==> *final(self) == *old(self),
            r is Ok ==> final(self).registers_spec() == configured_regs(
                old(self).registers_spec(),
                old(self).config_spec(),
                can_clock,
            ),
            final(self).config_spec() == old(self).config_spec(),
            final(self).interrupts_spec() == old(self).interrupts_spec(),
            final(self).rx_fifo_0_spec() == old(self).rx_fifo_0_spec(),
            final(self).rx_fifo_1_spec() == old(self).rx_fifo_1_spec(),
            final(self).rx_dedicated_buffers_spec() == old(self).rx_dedicated_buffers_spec(),
            final(self).tx_spec() == old(self).tx_spec(),
            final(self).tx_event_fifo_spec() == old(self).tx_event_fifo_spec(),
            final(self).filters_standard_spec() == old(self).filters_standard_spec(),
            final(self).filters_extended_spec() == old(self).filters_extended_spec(),
    {
        let config = self.0.aux.config;
        let ts = config.timestamp.prescaler;
        if !(1 <= ts && ts <= 16) {
            return Err(ConfigurationError::InvalidTimeStampPrescaler);
        }
        let t = config.nominal_timing;
        let np = match t.prescaler(can_clock, &BitTimingRanges::nominal()) {
            Ok(p) => p,
            Err(e) => {
                return Err(ConfigurationError::from(e));
            },
        };
        let data: Option<(bool, BitTiming, u16)> = match config.mode {
            Mode::Classic => None,
            Mode::Fd { allow_bit_rate_switching, data_phase_timing } => {
                match data_phase_timing.prescaler(can_clock, &BitTimingRanges::data()) {
                    Ok(p) => Some((allow_bit_rate_switching, data_phase_timing, p)),
                    Err(e) => {
                        return Err(ConfigurationError::from(e));
                    },
                }
            },
        };
        let reg = &mut self.0.aux.reg;
        reg.nbtp = set_field(
            set_field(
                set_field(set_field(0, 25, 7, (t.sjw - 1) as u32), 16, 9, (np - 1) as u32),
                8,
                8,
                (t.phase_seg_1 - 1) as u32,
            ),
            0,
            7,
            (t.phase_seg_2 - 1) as u32,
        );
        reg.tscc = set_field(
            set_field(0, 0, 2, config.timestamp.select.code()),
            16,
            4,
            (ts - 1) as u32,
        );
        match data {
            None => {
                reg.cccr = set_field(reg.cccr, 8, 1, 0);
            },
            Some((brs, d, dp)) => {
                reg.cccr = set_field(
                    set_field(reg.cccr, 8, 1, 1),
                    9,
                    1,
                    if brs {
                        1
                    } else {
                        0
                    },
                );
                reg.dbtp = set_field(
                    set_field(
                        set_field(set_field(0, 0, 4, (d.sjw - 1) as u32), 4, 4, (d.phase_seg_2 - 1) as u32),
                        8,
                        5,
                        (d.phase_seg_1 - 1) as u32,
                    ),
                    16,
                    5,
                    (dp - 1) as u32,
                );
            },
        }
        // Non-matching frames are rejected; the filters decide what is kept.
        reg.gfc = set_field(set_field(0, 4, 2, 2), 2, 2, 2);
        let lb: u32 = if config.loopback {
            1
        } else {
            0
        };
        reg.cccr = set_field(reg.cccr, 7, 1, lb);
        reg.test = set_field(reg.test, 4, 1, lb);
        reg.rxf0c = rx_fifo_config(reg.rxf0c, &config.rx_fifo_0);
        reg.rxf1c = rx_fifo_config(reg.rxf1c, &config.rx_fifo_1);
        let priority: u32 = if config.tx.tx_queue_submode.is_priority() {
            1
        } else {
            0
        };
        reg.txbc = set_field(reg.txbc, 30, 1, priority);
        let wm = if config.tx.tx_event_fifo_watermark >= 32 {
            32
        } else {
            config.tx.tx_event_fifo_watermark
        };
        reg.txefc = set_field(reg.txefc, 24, 6, wm as u32);
        Ok(())
    }

    /// Locks the configuration and enters normal operation: the
    /// configuration is validated for the clock the dependencies report and
    /// written in one pass, then INIT is cleared. A configuration error ends
    /// the bus before any register is changed.
    pub fn finalize(self) -> (r: Result<Can<D>, ConfigurationError>)
        ensures
            !(1 <= self.config_spec().timestamp.prescaler <= 16) ==> r
                == Err::<Can<D>, ConfigurationError>(ConfigurationError::InvalidTimeStampPrescaler),
            r matches Err(e) ==> exists|can_clock: u32|
                configuration_error(self.config_spec(), can_clock) == Some(e),
            r matches Ok(can) ==> exists|can_clock: u32|
                {
                    &&& configuration_error(self.config_spec(), can_clock) is None
                    &&& can.registers_spec() == finalized_regs(
                        self.registers_spec(),
                        self.config_spec(),
                        can_clock,
                    )
                },
            r matches Ok(can) ==> field(can.registers_spec().cccr, 0, 1) == 0,
            r matches Ok(can) ==> can.aux.config_spec() == self.config_spec(),
            r matches Ok(can) ==> {
                &&& can.interrupts == self.interrupts_spec()
                &&& can.rx_fifo_0 == self.rx_fifo_0_spec()
                &&& can.rx_fifo_1 == self.rx_fifo_1_spec()
                &&& can.rx_dedicated_buffers == self.rx_dedicated_buffers_spec()
                &&& can.tx == self.tx_spec()
                &&& can.tx_event_fifo == self.tx_event_fifo_spec()
            },
    {
        let mut this = self;
        let can_clock = this.0.aux.dependencies.can_clock();
        match this.apply_configuration(can_clock) {
            Ok(()) => {},
            Err(e) => {
                assert(configuration_error(self.config_spec(), can_clock) == Some(e));
                return Err(e);
            },
        }
        let mut can = this.0;
        proof {
            lemma_operational_clears_init(can.aux.reg.cccr);
        }
        can.aux.operational_mode();
        assert(can.registers_spec() == finalized_regs(
            self.registers_spec(),
            self.config_spec(),
            can_clock,
        ));
        Ok(can)
    }
}

proof fn lemma_operational_clears_init(cccr: u32)
    by (bit_vector)
    ensures
        field(operational_mode_cccr(cccr), 0, 1) == 0,
{
}

/// Low 16 bits of `address + offset`, computed without overflow.
fn addr_at(address: usize, offset: usize) -> (r: u32)
    requires
        offset <= 17408,
    ensures
        r == addr16(address, offset),
{
    let base = address % 0x1_0000;
    proof {
        vstd::arithmetic::div_mod::lemma_add_mod_noop(address as int, offset as int, 0x1_0000);
        vstd::arithmetic::div_mod::lemma_add_mod_noop(base as int, offset as int, 0x1_0000);
        vstd::arithmetic::div_mod::lemma_mod_twice(address as int, 0x1_0000);
    }
    ((base + offset) % 0x1_0000) as u32
}

/// RX FIFO configuration register `c` with the mode and the clamped
/// watermark of `f`.
fn rx_fifo_config(c: u32, f: &RxFifoConfig) -> (r: u32)
    ensures
        r == rxfc_value(c, *f),
{
    let mut w = rxfc::W { bits: c };
    w.fom(f.mode.is_overwrite());
    let wm = if f.watermark >= 64 {
        64
    } else {
        f.watermark
    };
    w.fwm(wm);
    w.bits
}

} // verus!
