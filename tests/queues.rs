use mcan::id::{ExtendedId, Id, StandardId};
use mcan::message::tx::{ClassicFrameType, FrameType, MessageBuilder};
use mcan::message::{rx, tx, DataFieldSize, RawMessage, TxEvent};
use mcan::poll::{OutOfBounds, PollError};
use mcan::reg::{NewDataRegs, RxFifoRegs, TxEventRegs, TxRegs};
use mcan::rx_dedicated_buffers::RxDedicatedBuffer;
use mcan::rx_fifo::{Fifo0, GetRxFifoRegs, RxFifo};
use mcan::tx_buffers::{Tx, TxBufferSet};
use mcan::tx_event_fifo::{DynTxEventFifo, TxEventFifo};

fn rx_msg(t0: u32, byte: u8) -> rx::Message {
    rx::Message(RawMessage { t0, t1: 1 << 16, data: vec![byte, 0, 0, 0, 0, 0, 0, 0] })
}

fn std_word(id: u32) -> u32 {
    id << 18
}

fn tx_msg(byte: u8) -> tx::Message {
    MessageBuilder {
        id: Id::Standard(StandardId::new(1).unwrap()),
        frame_type: FrameType::Classic(ClassicFrameType::Data(vec![byte])),
        store_tx_event: None,
    }
    .build(DataFieldSize::Bytes8)
    .ok()
    .unwrap()
}

fn zero_tx() -> tx::Message {
    tx::Message(RawMessage { t0: 0, t1: 0, data: vec![0; 8] })
}

fn rxfs(fill: u32, get: u32, put: u32) -> u32 {
    fill | (get << 8) | (put << 16)
}

#[test]
fn fifo_receives_in_store_order() {
    let slots: Vec<rx::Message> = (0..4).map(|_| rx_msg(0, 0)).collect();
    let mut fifo = RxFifo::new(slots, RxFifoRegs { c: 0, s: 0, a: 0 }, Fifo0);
    assert_eq!(fifo.capacity(), 4);
    assert!(fifo.is_empty());
    assert!(matches!(fifo.receive(), Err(PollError::WouldBlock)));
    // The peripheral stores three messages starting at slot 3, wrapping.
    let (mut get, mut fill) = (3u32, 0u32);
    for byte in [10u8, 11, 12] {
        let put = (get + fill) % 4;
        assert!(fifo.store(put as usize, rx_msg(std_word(byte as u32), byte)));
        fill += 1;
        fifo.set_registers(RxFifoRegs { s: rxfs(fill, get, (put + 1) % 4), ..fifo.registers() });
        assert_eq!(fifo.len(), fill as usize);
    }
    for byte in [10u8, 11, 12] {
        let m = fifo.receive().ok().unwrap();
        assert_eq!(m.data(), vec![byte]);
        // The acknowledge register holds the index that was read.
        assert_eq!(fifo.registers().a, get);
        get = (get + 1) % 4;
        fill -= 1;
        fifo.set_registers(RxFifoRegs { s: rxfs(fill, get, 2), ..fifo.registers() });
    }
    assert!(fifo.is_empty());
}

#[test]
fn dedicated_receive_by_index() {
    let slots: Vec<rx::Message> = (0..40).map(|i| rx_msg(std_word(i), i as u8)).collect();
    let mut buffers = RxDedicatedBuffer::new(slots, NewDataRegs { ndat1: 1 << 3, ndat2: 1 << 2 });
    assert_eq!(buffers.receive(3).ok().unwrap().data(), vec![3]);
    assert_eq!(buffers.registers().ndat1, 0);
    assert!(matches!(buffers.receive(3), Err(PollError::WouldBlock)));
    assert_eq!(buffers.receive(34).ok().unwrap().data(), vec![34]);
    assert_eq!(buffers.registers().ndat2, 0);
    assert!(matches!(buffers.receive(64), Err(PollError::Other(OutOfBounds))));
    // An index past the configured buffers is out of bounds, flagged or not.
    assert!(matches!(buffers.receive(45), Err(PollError::Other(OutOfBounds))));
    buffers.set_registers(NewDataRegs { ndat1: 0, ndat2: 1 << 20 });
    assert!(matches!(buffers.receive(52), Err(PollError::Other(OutOfBounds))));
}

#[test]
fn no_dedicated_buffers_means_out_of_bounds() {
    let mut buffers = RxDedicatedBuffer::new(Vec::new(), NewDataRegs { ndat1: 0, ndat2: 0 });
    assert!(matches!(buffers.receive(0), Err(PollError::Other(OutOfBounds))));
    assert!(matches!(buffers.receive_any(), Err(PollError::WouldBlock)));
}

#[test]
fn empty_fifo_of_capacity_zero_would_block() {
    let mut fifo = RxFifo::new(Vec::new(), RxFifoRegs { c: 0, s: 5 << 8, a: 0 }, Fifo0);
    assert!(matches!(fifo.receive(), Err(PollError::WouldBlock)));
    assert_eq!(fifo.registers().a, 0);
}

#[test]
fn receive_any_prefers_lowest_identifier() {
    let ids = [0x300u32, 0x100, 0x200, 0x100];
    let slots: Vec<rx::Message> =
        ids.iter().enumerate().map(|(i, id)| rx_msg(std_word(*id), i as u8)).collect();
    let mut buffers = RxDedicatedBuffer::new(slots, NewDataRegs { ndat1: 0b1111, ndat2: 0 });
    // Equal identifiers: the lower index first.
    assert_eq!(buffers.receive_any().ok().unwrap().data(), vec![1]);
    assert_eq!(buffers.receive_any().ok().unwrap().data(), vec![3]);
    assert_eq!(buffers.receive_any().ok().unwrap().data(), vec![2]);
    assert_eq!(buffers.receive_any().ok().unwrap().data(), vec![0]);
    assert!(matches!(buffers.receive_any(), Err(PollError::WouldBlock)));
}

#[test]
fn receive_any_standard_before_extended_of_same_base() {
    let ext = ExtendedId::new(0x100 << 18).unwrap().as_raw();
    let slots = vec![rx_msg(ext | (1 << 30), 0), rx_msg(std_word(0x100), 1)];
    let mut buffers = RxDedicatedBuffer::new(slots, NewDataRegs { ndat1: 0b11, ndat2: 0 });
    assert_eq!(buffers.receive_any().ok().unwrap().data(), vec![1]);
    assert_eq!(buffers.receive_any().ok().unwrap().data(), vec![0]);
}

#[test]
fn tx_event_fifo_pop() {
    let events = vec![
        TxEvent(RawMessage { t0: 0, t1: 1 << 24, data: vec![] }),
        TxEvent(RawMessage { t0: 0, t1: 2 << 24, data: vec![] }),
    ];
    let mut q = TxEventFifo::new(events, TxEventRegs { txefs: 0, txefa: 0 });
    assert_eq!(q.capacity(), 2);
    assert!(q.is_empty());
    assert!(q.pop().is_none());
    q.set_registers(TxEventRegs { txefs: 1 | (1 << 8), txefa: 0 });
    assert_eq!(q.len(), 1);
    assert_eq!(q.pop().unwrap().message_marker(), 2);
    assert_eq!(q.registers().txefa, 1);
}

fn tx_regs() -> TxRegs {
    TxRegs { txfqs: 0, txbrp: 0, txbar: 0, txbcr: 0, txbto: 0, txbcf: 0, txbtie: 0, txbcie: 0 }
}

#[test]
fn transmit_dedicated_checks_bounds_and_use() {
    let mut t = Tx::new((0..4).map(|_| zero_tx()).collect(), tx_regs(), 2);
    assert_eq!(t.transmit_dedicated(0, tx_msg(1)), Ok(()));
    assert_eq!(t.registers().txbar, 1);
    // Pending add request: the buffer is in use.
    assert_eq!(t.transmit_dedicated(0, tx_msg(2)), Err(PollError::WouldBlock));
    t.set_registers(TxRegs { txbar: 0, txbrp: 0b10, ..t.registers() });
    assert_eq!(t.transmit_dedicated(1, tx_msg(3)), Err(PollError::WouldBlock));
    // Index 2 is a queue buffer, not a dedicated one.
    assert_eq!(t.transmit_dedicated(2, tx_msg(4)), Err(PollError::Other(OutOfBounds)));
}

#[test]
fn transmit_queued_uses_put_index() {
    let mut t = Tx::new((0..4).map(|_| zero_tx()).collect(), tx_regs(), 1);
    t.set_registers(TxRegs { txfqs: 2 << 16, ..tx_regs() });
    assert_eq!(t.transmit_queued(tx_msg(1)), Ok(()));
    assert_eq!(t.registers().txbar, 1 << 2);
    t.set_registers(TxRegs { txfqs: 1 << 21, ..t.registers() });
    assert_eq!(t.transmit_queued(tx_msg(2)), Err(PollError::WouldBlock));
}

#[test]
fn cancellation_and_interrupt_sets() {
    let mut t = Tx::new((0..4).map(|_| zero_tx()).collect(), tx_regs(), 4);
    assert_eq!(t.cancel(2), Err(PollError::WouldBlock));
    assert_eq!(t.registers().txbcr, 1 << 2);
    t.set_registers(TxRegs { txbcf: 0b0100, txbto: 0b0101, ..t.registers() });
    assert_eq!(t.cancel(2), Ok(()));
    assert_eq!(t.cancel_multi(TxBufferSet(0b0110)), Err(PollError::WouldBlock));
    assert_eq!(t.get_cancellation_flags(), TxBufferSet(0b0100));
    let mut it = t.iter_transmission_completed_flags();
    assert_eq!(it.next(), Some(0));
    assert_eq!(it.next(), Some(2));
    assert_eq!(it.next(), None);
    t.enable_cancellation_interrupt(TxBufferSet(0b11));
    t.disable_cancellation_interrupt(TxBufferSet(0b01));
    assert_eq!(t.registers().txbcie, 0b10);
    t.enable_transmission_completed_interrupt(TxBufferSet::all());
    t.disable_transmission_completed_interrupt(TxBufferSet(1));
    assert_eq!(t.registers().txbtie, 0xffff_fffe);
    assert_eq!(TxBufferSet::from_iter(vec![0, 3, 31]), TxBufferSet(0x8000_0009));
}
