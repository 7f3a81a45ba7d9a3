//! Register model of the peripheral.
//!
//! Each register is a plain 32-bit value. The driver owns the registers as
//! values, split by component, so that no two components can write the same
//! register; moving them between the model and the hardware is the job of the
//! code that performs the memory-mapped accesses. A write takes effect in the
//! model at once: waiting until the peripheral acknowledges a mode change,
//! and refreshing the status registers the peripheral updates, belong to
//! that code too.
pub mod cust;
pub mod rxfa;
pub mod rxfc;
pub mod rxfs;

use vstd::prelude::*;

verus! {

/// `reg` with the `width`-bit field at `shift` replaced by `value`.
pub open spec fn with_field(reg: u32, shift: u32, width: u32, value: u32) -> u32 {
    let mask = ((1u32 << width) - 1) as u32;
    (reg & !(mask << shift)) | ((value & mask) << shift)
}

/// The `width`-bit field at `shift` of `reg`.
pub open spec fn field(reg: u32, shift: u32, width: u32) -> u32 {
    (reg >> shift) & (((1u32 << width) - 1) as u32)
}

/// Replaces the `width`-bit field at `shift` of `reg` by `value`, cut to the
/// field's width.
pub fn set_field(reg: u32, shift: u32, width: u32, value: u32) -> (r: u32)
    requires
        1 <= width <= 31,
        shift < 32,
    ensures
        r == with_field(reg, shift, width, value),
{
    assert(1u32 << width >= 1) by (bit_vector)
        requires
            1 <= width <= 31,
    ;
    let mask = (1u32 << width) - 1;
    (reg & !(mask << shift)) | ((value & mask) << shift)
}

/// Reads the `width`-bit field at `shift` of `reg`.
pub fn get_field(reg: u32, shift: u32, width: u32) -> (r: u32)
    requires
        1 <= width <= 31,
        shift < 32,
    ensures
        r == field(reg, shift, width),
{
    assert(1u32 << width >= 1) by (bit_vector)
        requires
            1 <= width <= 31,
    ;
    (reg >> shift) & ((1u32 << width) - 1)
}

/// Bounds of the fields that the register readers return.
pub proof fn lemma_field_bounds(x: u32)
    by (bit_vector)
    ensures
        (x >> 0u32) & (((1u32 << 6u32) - 1) as u32) < 64,
        (x >> 0u32) & (((1u32 << 7u32) - 1) as u32) < 128,
        (x >> 8u32) & (((1u32 << 6u32) - 1) as u32) < 64,
        (x >> 16u32) & (((1u32 << 6u32) - 1) as u32) < 64,
        (x >> 0u32) & (((1u32 << 16u32) - 1) as u32) < 0x10000,
        (x >> 16u32) & (((1u32 << 7u32) - 1) as u32) < 128,
        (x >> 24u32) & (((1u32 << 7u32) - 1) as u32) < 128,
        (x >> 16u32) & (((1u32 << 5u32) - 1) as u32) < 32,
        (x >> 8u32) & (((1u32 << 5u32) - 1) as u32) < 32,
        (x >> 0u32) & (((1u32 << 5u32) - 1) as u32) < 32,
{
}

/// Registers of an RX FIFO: configuration (RXFC), status (RXFS) and
/// acknowledge (RXFA).
#[derive(Clone, Copy, Debug, PartialEq, Eq, Structural)]
pub struct RxFifoRegs {
    /// Configuration
    pub c: u32,
    /// Status
    pub s: u32,
    /// Acknowledge
    pub a: u32,
}

/// Registers of the transmit buffers.
#[derive(Clone, Copy, Debug, PartialEq, Eq, Structural)]
pub struct TxRegs {
    /// FIFO/queue status (TXFQS)
    pub txfqs: u32,
    /// Buffer request pending (TXBRP)
    pub txbrp: u32,
    /// Buffer add request (TXBAR)
    pub txbar: u32,
    /// Buffer cancellation request (TXBCR)
    pub txbcr: u32,
    /// Buffer transmission occurred (TXBTO)
    pub txbto: u32,
    /// Buffer cancellation finished (TXBCF)
    pub txbcf: u32,
    /// Buffer transmission interrupt enable (TXBTIE)
    pub txbtie: u32,
    /// Buffer cancellation finished interrupt enable (TXBCIE)
    pub txbcie: u32,
}

/// Registers of the TX event FIFO: status (TXEFS) and acknowledge (TXEFA).
#[derive(Clone, Copy, Debug, PartialEq, Eq, Structural)]
pub struct TxEventRegs {
    /// Status
    pub txefs: u32,
    /// Acknowledge
    pub txefa: u32,
}

/// New data flags of the dedicated RX buffers: buffers 0 to 31 (NDAT1) and
/// 32 to 63 (NDAT2).
#[derive(Clone, Copy, Debug, PartialEq, Eq, Structural)]
pub struct NewDataRegs {
    /// Buffers 0 to 31
    pub ndat1: u32,
    /// Buffers 32 to 63
    pub ndat2: u32,
}

/// Registers that configure the peripheral and report its state.
#[derive(Clone, Copy, Debug, PartialEq, Eq, Structural)]
pub struct ControlRegs {
    /// CC control (CCCR): INIT, CCE, TEST, FDOE, BRSE
    pub cccr: u32,
    /// Nominal bit timing and prescaler (NBTP)
    pub nbtp: u32,
    /// Data bit timing and prescaler (DBTP)
    pub dbtp: u32,
    /// Test (TEST): LBCK
    pub test: u32,
    /// Timestamp counter configuration (TSCC)
    pub tscc: u32,
    /// Timestamp counter value (TSCV)
    pub tscv: u32,
    /// Error counters (ECR)
    pub ecr: u32,
    /// Protocol status (PSR)
    pub psr: u32,
    /// Global filter configuration (GFC)
    pub gfc: u32,
    /// Standard ID filter configuration (SIDFC)
    pub sidfc: u32,
    /// Extended ID filter configuration (XIDFC)
    pub xidfc: u32,
    /// RX FIFO 0 configuration (RXF0C)
    pub rxf0c: u32,
    /// RX FIFO 1 configuration (RXF1C)
    pub rxf1c: u32,
    /// RX buffer configuration (RXBC)
    pub rxbc: u32,
    /// RX buffer and FIFO element size configuration (RXESC)
    pub rxesc: u32,
    /// TX buffer configuration (TXBC)
    pub txbc: u32,
    /// TX buffer element size configuration (TXESC)
    pub txesc: u32,
    /// TX event FIFO configuration (TXEFC)
    pub txefc: u32,
}

/// The register block of one peripheral. Owning it is the capability to
/// drive that peripheral; the driver splits it among its components.
#[derive(Clone, Copy, Debug, PartialEq, Eq, Structural)]
pub struct RegisterBlock {
    /// Configuration and status
    pub control: ControlRegs,
    /// RX FIFO 0 status and acknowledge
    pub rxf0: RxFifoRegs,
    /// RX FIFO 1 status and acknowledge
    pub rxf1: RxFifoRegs,
    /// Dedicated RX buffer new data flags
    pub ndat: NewDataRegs,
    /// Transmit buffers
    pub tx: TxRegs,
    /// TX event FIFO
    pub tx_event: TxEventRegs,
}

/// Reset value of the CC control register: INIT set.
pub const CCCR_RESET: u32 = 0x0000_0001;

/// Reset value of the nominal bit timing register.
pub const NBTP_RESET: u32 = 0x0600_0a03;

/// Reset value of the data bit timing register.
pub const DBTP_RESET: u32 = 0x0000_0a33;

impl RegisterBlock {
    /// The register block as the peripheral leaves reset.
    pub open spec fn reset_spec() -> RegisterBlock {
        RegisterBlock {
            control: ControlRegs {
                cccr: CCCR_RESET,
                nbtp: NBTP_RESET,
                dbtp: DBTP_RESET,
                test: 0,
                tscc: 0,
                tscv: 0,
                ecr: 0,
                psr: 0x707,
                gfc: 0,
                sidfc: 0,
                xidfc: 0,
                rxf0c: 0,
                rxf1c: 0,
                rxbc: 0,
                rxesc: 0,
                txbc: 0,
                txesc: 0,
                txefc: 0,
            },
            rxf0: RxFifoRegs { c: 0, s: 0, a: 0 },
            rxf1: RxFifoRegs { c: 0, s: 0, a: 0 },
            ndat: NewDataRegs { ndat1: 0, ndat2: 0 },
            tx: TxRegs {
                txfqs: 0,
                txbrp: 0,
                txbar: 0,
                txbcr: 0,
                txbto: 0,
                txbcf: 0,
                txbtie: 0,
                txbcie: 0,
            },
            tx_event: TxEventRegs { txefs: 0, txefa: 0 },
        }
    }

    /// The register block as the peripheral leaves reset.
    pub fn reset() -> (r: RegisterBlock)
        ensures
            r == RegisterBlock::reset_spec(),
    {
        RegisterBlock {
            control: ControlRegs {
                cccr: CCCR_RESET,
                nbtp: NBTP_RESET,
                dbtp: DBTP_RESET,
                test: 0,
                tscc: 0,
                tscv: 0,
                ecr: 0,
                psr: 0x707,
                gfc: 0,
                sidfc: 0,
                xidfc: 0,
                rxf0c: 0,
                rxf1c: 0,
                rxbc: 0,
                rxesc: 0,
                txbc: 0,
                txesc: 0,
                txefc: 0,
            },
            rxf0: RxFifoRegs { c: 0, s: 0, a: 0 },
            rxf1: RxFifoRegs { c: 0, s: 0, a: 0 },
            ndat: NewDataRegs { ndat1: 0, ndat2: 0 },
            tx: TxRegs {
                txfqs: 0,
                txbrp: 0,
                txbar: 0,
                txbcr: 0,
                txbto: 0,
                txbcf: 0,
                txbtie: 0,
                txbcie: 0,
            },
            tx_event: TxEventRegs { txefs: 0, txefa: 0 },
        }
    }
}

} // verus!
