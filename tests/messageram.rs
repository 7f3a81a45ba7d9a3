use mcan::message::DataFieldSize;
use mcan::messageram::{Capacities, CapacityError, SharedMemory};

fn caps() -> Capacities {
    Capacities {
        standard_filters: 2,
        extended_filters: 1,
        dedicated_rx_buffers: 1,
        rx_fifo_0: 4,
        rx_fifo_1: 2,
        tx_buffers: 4,
        dedicated_tx_buffers: 1,
        tx_event_fifo: 2,
        rx_buffer_message: DataFieldSize::Bytes8,
        rx_fifo_0_message: DataFieldSize::Bytes8,
        rx_fifo_1_message: DataFieldSize::Bytes64,
        tx_message: DataFieldSize::Bytes8,
    }
}

#[test]
fn capacities_over_maximum_fail() {
    let mut c = caps();
    c.standard_filters = 129;
    assert_eq!(SharedMemory::new(c, 0x2000_0000).err(), Some(CapacityError::StandardFilters));
    let mut c = caps();
    c.extended_filters = 65;
    assert_eq!(c.check(), Err(CapacityError::ExtendedFilters));
    let mut c = caps();
    c.dedicated_rx_buffers = 65;
    assert_eq!(c.check(), Err(CapacityError::DedicatedRxBuffers));
    let mut c = caps();
    c.rx_fifo_0 = 65;
    c.tx_buffers = 40;
    // The first offending capacity is named.
    assert_eq!(c.check(), Err(CapacityError::RxFifo0));
    let mut c = caps();
    c.rx_fifo_1 = 65;
    assert_eq!(c.check(), Err(CapacityError::RxFifo1));
    let mut c = caps();
    c.tx_buffers = 33;
    assert_eq!(c.check(), Err(CapacityError::TxBuffers));
    let mut c = caps();
    c.dedicated_tx_buffers = 5;
    assert_eq!(c.check(), Err(CapacityError::DedicatedTxBuffers));
    let mut c = caps();
    c.tx_event_fifo = 33;
    assert_eq!(c.check(), Err(CapacityError::TxEventFifo));
    let mut c = caps();
    c.standard_filters = 128;
    c.extended_filters = 64;
    c.dedicated_rx_buffers = 64;
    c.rx_fifo_0 = 64;
    c.rx_fifo_1 = 64;
    c.tx_buffers = 32;
    c.dedicated_tx_buffers = 32;
    c.tx_event_fifo = 32;
    assert_eq!(c.check(), Ok(()));
}

#[test]
fn layout_offsets_and_size() {
    let l = caps().layout();
    assert_eq!(l.filters_standard, 0);
    assert_eq!(l.filters_extended, 8);
    assert_eq!(l.rx_fifo_0, 16);
    assert_eq!(l.rx_fifo_1, 16 + 4 * 16);
    assert_eq!(l.rx_dedicated_buffers, 80 + 2 * 72);
    assert_eq!(l.tx_event_fifo, 224 + 16);
    assert_eq!(l.tx_buffers, 240 + 16);
    assert_eq!(l.size, 256 + 4 * 16);
}

#[test]
fn addressability_window() {
    let m = SharedMemory::new(caps(), 0x2000_0000).ok().unwrap();
    assert_eq!(m.size(), 320);
    assert!(m.is_addressable(0x2000_0000));
    assert!(!m.is_addressable(0x2000_0004));
    let end = SharedMemory::new(caps(), 0x2001_0000 - 320).ok().unwrap();
    assert!(end.is_addressable(0x2000_0000));
    let past = SharedMemory::new(caps(), 0x2001_0000 - 316).ok().unwrap();
    assert!(!past.is_addressable(0x2000_0000));
    let far = SharedMemory::new(caps(), usize::MAX - 10).ok().unwrap();
    assert!(!far.is_addressable(0x2000_0000));
}

#[test]
fn init_zeroes_every_region() {
    let m = SharedMemory::new(caps(), 0x2000_0000).ok().unwrap();
    let inner = m.init();
    assert_eq!(inner.filters_standard.len(), 2);
    assert!(inner.filters_standard.iter().all(|f| f.0 == 0));
    assert_eq!(inner.rx_fifo_0.len(), 4);
    assert_eq!(inner.rx_fifo_1[0].0.data.len(), 64);
    assert!(inner.rx_fifo_1.iter().all(|m| m.0.t0 == 0 && m.0.data.iter().all(|b| *b == 0)));
    assert_eq!(inner.tx_buffers.len(), 4);
    assert_eq!(inner.tx_event_fifo.len(), 2);
}
