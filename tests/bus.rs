use mcan::bus::{CanConfigurable, ConfigurationError, Dependencies, ErrorCounters, ProtocolStatus};
use mcan::config::{BitTiming, BitTimingError, BitTimingRanges, Mode, ValidRange};
use mcan::id::{Id, StandardId};
use mcan::message::tx::{ClassicFrameType, FrameType, MessageBuilder};
use mcan::message::{rx, DataFieldSize, RawMessage};
use mcan::messageram::{Capacities, SharedMemory};
use mcan::poll::PollError;
use mcan::rx_fifo::GetRxFifoRegs;
use mcan::reg::{RegisterBlock, RxFifoRegs, TxRegs, NBTP_RESET};

struct Platform {
    clock: u32,
}

impl Dependencies for Platform {
    fn eligible_message_ram_start(&self) -> usize {
        0x2000_0000
    }
    fn host_clock(&self) -> u32 {
        self.clock
    }
    fn can_clock(&self) -> u32 {
        self.clock
    }
}

fn memory(address: usize) -> SharedMemory {
    let caps = Capacities {
        standard_filters: 4,
        extended_filters: 2,
        dedicated_rx_buffers: 2,
        rx_fifo_0: 4,
        rx_fifo_1: 4,
        tx_buffers: 5,
        dedicated_tx_buffers: 0,
        tx_event_fifo: 4,
        rx_buffer_message: DataFieldSize::Bytes8,
        rx_fifo_0_message: DataFieldSize::Bytes8,
        rx_fifo_1_message: DataFieldSize::Bytes8,
        tx_message: DataFieldSize::Bytes8,
    };
    SharedMemory::new(caps, address).ok().unwrap()
}

fn configurable() -> CanConfigurable<Platform> {
    CanConfigurable::new(
        500_000,
        Platform { clock: 8_000_000 },
        &memory(0x2000_0400),
        RegisterBlock::reset(),
    )
    .ok()
    .unwrap()
}

#[test]
fn unaddressable_memory_fails_before_any_write() {
    let reset = RegisterBlock::reset();
    let below = CanConfigurable::new(500_000, Platform { clock: 8_000_000 }, &memory(0x1fff_0000), reset);
    assert_eq!(below.err().unwrap().peripheral, reset);
    let above = CanConfigurable::new_in_window(
        500_000,
        Platform { clock: 8_000_000 },
        &memory(0x2000_fff0),
        reset,
        0x2000_0000,
    );
    assert_eq!(above.err().unwrap().peripheral, reset);
}

#[test]
fn construction_writes_layout_registers() {
    let can = configurable();
    let r = can.registers();
    // INIT and CCE set.
    assert_eq!(r.cccr & 3, 3);
    assert_eq!(r.sidfc, 0x0400 | (4 << 16));
    assert_eq!(r.xidfc, (0x0400 + 16) | (2 << 16));
    assert_eq!(r.rxf0c, (0x0400 + 32) | (4 << 16));
    assert_eq!(r.rxf1c, (0x0400 + 96) | (4 << 16));
    assert_eq!(r.rxbc, 0x0400 + 160);
    assert_eq!(r.txefc, (0x0400 + 192) | (4 << 16));
    assert_eq!(r.txbc, (0x0400 + 224) | (5 << 24));
    assert_eq!(r.rxesc, 0);
    assert_eq!(r.nbtp, NBTP_RESET);
}

#[test]
fn prescaler_validation() {
    let t = BitTiming::new(500_000);
    assert_eq!(t.time_quanta_per_bit(), 16);
    assert_eq!(t.prescaler(8_000_000, &BitTimingRanges::nominal()), Ok(1));
    assert_eq!(t.prescaler(48_000_000, &BitTimingRanges::nominal()), Ok(6));
    assert_eq!(
        t.prescaler(8_100_000, &BitTimingRanges::nominal()),
        Err(BitTimingError::NoValidPrescaler {
            can_clock: 8_100_000,
            bitrate: 500_000,
            bit_time_quanta: 16
        })
    );
    assert_eq!(
        t.prescaler(8_000_000 * 40, &BitTimingRanges::data()),
        Err(BitTimingError::PrescalerOutOfRange(ValidRange { min: 1, max: 32 }))
    );
    let bad = BitTiming { sjw: 0, ..t };
    assert_eq!(
        bad.prescaler(8_000_000, &BitTimingRanges::nominal()),
        Err(BitTimingError::SynchronizationJumpWidthOutOfRange(ValidRange { min: 1, max: 128 }))
    );
    let bad = BitTiming { phase_seg_1: 1, ..t };
    assert_eq!(
        bad.prescaler(8_000_000, &BitTimingRanges::nominal()),
        Err(BitTimingError::PhaseSeg1OutOfRange(ValidRange { min: 2, max: 256 }))
    );
    let bad = BitTiming { phase_seg_2: 1, ..t };
    assert_eq!(
        bad.prescaler(8_000_000, &BitTimingRanges::nominal()),
        Err(BitTimingError::PhaseSeg2OutOfRange(ValidRange { min: 2, max: 128 }))
    );
    let narrow = BitTimingRanges {
        time_quanta_per_bit: ValidRange { min: 8, max: 10 },
        ..BitTimingRanges::nominal()
    };
    assert_eq!(
        t.prescaler(8_000_000, &narrow),
        Err(BitTimingError::BitTimeOutOfRange(ValidRange { min: 8, max: 10 }))
    );
    let zero = BitTiming { bitrate: 0, ..t };
    assert!(matches!(
        zero.prescaler(8_000_000, &BitTimingRanges::nominal()),
        Err(BitTimingError::NoValidPrescaler { .. })
    ));
}

#[test]
fn invalid_timestamp_prescaler_leaves_registers_untouched() {
    let mut can = configurable();
    let before = can.registers();
    can.config().timestamp.prescaler = 0;
    assert_eq!(can.apply_configuration(8_000_000), Err(ConfigurationError::InvalidTimeStampPrescaler));
    assert_eq!(can.registers(), before);
    assert_eq!(can.registers().nbtp, NBTP_RESET);
    assert_eq!(can.registers().cccr & 1, 1);
    assert!(matches!(can.finalize(), Err(ConfigurationError::InvalidTimeStampPrescaler)));
}

#[test]
fn invalid_data_timing_leaves_registers_untouched() {
    let mut can = configurable();
    let before = can.registers();
    can.config().mode = Mode::Fd {
        allow_bit_rate_switching: true,
        data_phase_timing: BitTiming { sjw: 1, phase_seg_1: 5, phase_seg_2: 2, bitrate: 3_000_000 },
    };
    assert!(matches!(
        can.apply_configuration(8_000_000),
        Err(ConfigurationError::BitTiming(BitTimingError::NoValidPrescaler { .. }))
    ));
    assert_eq!(can.registers(), before);
}

#[test]
fn finalize_applies_configuration() {
    let mut can = configurable();
    can.config().loopback = true;
    can.config().rx_fifo_0.watermark = 200;
    can.config().tx.tx_event_fifo_watermark = 3;
    can.config().mode = Mode::Fd {
        allow_bit_rate_switching: true,
        data_phase_timing: BitTiming { sjw: 1, phase_seg_1: 5, phase_seg_2: 2, bitrate: 1_000_000 },
    };
    let bus = can.finalize().ok().unwrap();
    let r = bus.aux.registers();
    assert!(bus.aux.is_operational());
    assert_eq!(r.cccr & 3, 0);
    // TEST, FDOE, BRSE
    assert_eq!((r.cccr >> 7) & 7, 7);
    assert_eq!(r.nbtp, (3 << 25) | (0 << 16) | (10 << 8) | 3);
    assert_eq!(r.dbtp, 0 | (1 << 4) | (4 << 8) | (0 << 16));
    assert_eq!(r.tscc, 0);
    assert_eq!(r.gfc, 0x28);
    assert_eq!(r.test, 1 << 4);
    assert_eq!((r.rxf0c >> 24) & 0x7f, 64);
    assert_eq!((r.txefc >> 24) & 0x3f, 3);
    assert_eq!(ErrorCounters(0x0012_8a05).rec(), 0x0a);
    assert!(ErrorCounters(0x0012_8a05).rp());
    assert_eq!(ProtocolStatus(0x707).lec(), 7);
    assert_eq!(bus.aux.timestamp(), 0);
    let again = bus.configure();
    assert_eq!(again.registers().cccr & 3, 3);
}

#[test]
fn queued_transmissions_until_queue_full() {
    let mut bus = configurable().finalize().ok().unwrap();
    let lengths = [0usize, 1, 2, 4, 8];
    for (k, len) in lengths.iter().enumerate() {
        let m = MessageBuilder {
            id: Id::Standard(StandardId::new(0x100 + k as u16).unwrap()),
            frame_type: FrameType::Classic(ClassicFrameType::Data(vec![k as u8; *len])),
            store_tx_event: None,
        }
        .build(DataFieldSize::Bytes8)
        .ok()
        .unwrap();
        if k == 4 {
            // The peripheral reports the queue full.
            bus.tx.set_registers(TxRegs { txfqs: 1 << 21, ..bus.tx.registers() });
            assert_eq!(bus.tx.transmit_queued(m), Err(PollError::WouldBlock));
            break;
        }
        let before = bus.rx_fifo_0.len();
        bus.tx.set_registers(TxRegs { txfqs: (k as u32) << 16, txbar: 0, ..bus.tx.registers() });
        assert_eq!(bus.tx.transmit_queued(m.clone()), Ok(()));
        assert_eq!(bus.tx.registers().txbar, 1 << k);
        // Loopback: the peripheral stores the frame in RX FIFO 0.
        assert!(bus.rx_fifo_0.store(k, rx::Message(RawMessage { ..m.0 })));
        let fill = (k + 1) as u32;
        bus.rx_fifo_0.set_registers(RxFifoRegs { s: fill, ..bus.rx_fifo_0.registers() });
        assert_eq!(bus.rx_fifo_0.len(), before + 1);
    }
    assert_eq!(bus.rx_fifo_0.len(), 4);
    assert_eq!(bus.rx_fifo_0.receive().ok().unwrap().data(), Vec::<u8>::new());
}
