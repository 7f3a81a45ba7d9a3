use mcan::id::{ExtendedId, Id, StandardId};
use mcan::message::rx;
use mcan::message::tx::{ClassicFrameType, FrameType, MessageBuilder};
use mcan::message::{
    dlc_to_len, len_to_dlc, DataFieldSize, Message, RawMessage, TooMuchData, TxEvent, TxEventType,
};

fn std_id(raw: u16) -> Id {
    Id::Standard(StandardId::new(raw).unwrap())
}

fn ext_id(raw: u32) -> Id {
    Id::Extended(ExtendedId::new(raw).unwrap())
}

fn classic(id: Id, data: Vec<u8>) -> MessageBuilder {
    MessageBuilder {
        id,
        frame_type: FrameType::Classic(ClassicFrameType::Data(data)),
        store_tx_event: None,
    }
}

#[test]
fn identifiers_reject_out_of_range() {
    assert!(StandardId::new(0x7ff).is_some());
    assert!(StandardId::new(0x800).is_none());
    assert!(ExtendedId::new(0x1fff_ffff).is_some());
    assert!(ExtendedId::new(0x2000_0000).is_none());
    assert_eq!(StandardId::new(0x123).unwrap().as_raw(), 0x123);
}

#[test]
fn dlc_table_values() {
    let fd = [0usize, 1, 2, 3, 4, 5, 6, 7, 8, 12, 16, 20, 24, 32, 48, 64];
    for (dlc, len) in fd.iter().enumerate() {
        assert_eq!(dlc_to_len(dlc as u8, true), *len);
        assert_eq!(len_to_dlc(*len, true), Ok(dlc as u8));
    }
    for dlc in 0u8..=8 {
        assert_eq!(dlc_to_len(dlc, false), dlc as usize);
        assert_eq!(len_to_dlc(dlc as usize, false), Ok(dlc));
    }
    assert_eq!(dlc_to_len(12, false), 8);
    assert_eq!(len_to_dlc(10, true), Ok(9));
    assert_eq!(len_to_dlc(33, true), Ok(14));
    assert_eq!(len_to_dlc(65, true), Err(TooMuchData));
    assert_eq!(len_to_dlc(9, false), Err(TooMuchData));
    // No silent truncation of large lengths.
    assert_eq!(len_to_dlc(256, true), Err(TooMuchData));
    assert_eq!(len_to_dlc(264, false), Err(TooMuchData));
}

#[test]
fn data_field_sizes() {
    assert_eq!(DataFieldSize::Bytes8.len(), 8);
    assert_eq!(DataFieldSize::Bytes8.reg(), 0);
    assert_eq!(DataFieldSize::Bytes48.len(), 48);
    assert_eq!(DataFieldSize::Bytes64.reg(), 7);
}

#[test]
fn build_standard_classic_header() {
    let m = classic(std_id(0x123), vec![1, 2, 3]).build(DataFieldSize::Bytes8).ok().unwrap();
    assert_eq!(m.0.t0, 0x123 << 18);
    assert_eq!(m.0.t1, 3 << 16);
    assert_eq!(m.0.data, vec![1, 2, 3, 0, 0, 0, 0, 0]);
    assert_eq!(m.id(), std_id(0x123));
    assert!(!m.is_extended());
    assert!(!m.fd_format());
    assert!(!m.is_remote_frame());
    assert_eq!(m.dlc(), 3);
    assert_eq!(m.decoded_dlc(), 3);
    assert_eq!(m.data(), vec![1, 2, 3]);
}

#[test]
fn build_extended_fd_round_trip() {
    let payload: Vec<u8> = (0u8..12).collect();
    let b = MessageBuilder {
        id: ext_id(0x1234_5678),
        frame_type: FrameType::FlexibleDatarate {
            payload: payload.clone(),
            bit_rate_switching: true,
            force_error_state_indicator: true,
        },
        store_tx_event: Some(0xab),
    };
    let m = b.build(DataFieldSize::Bytes16).ok().unwrap();
    assert_eq!(m.id(), ext_id(0x1234_5678));
    assert!(m.is_extended());
    assert!(m.fd_format());
    assert!(m.bit_rate_switching());
    assert!(m.is_transmitter_error_passive());
    assert_eq!(m.dlc(), 9);
    assert_eq!(m.data(), payload);
    assert_eq!(m.0.t1 >> 24, 0xab);
    assert_eq!((m.0.t1 >> 23) & 1, 1);
}

#[test]
fn build_pads_inexact_fd_length() {
    let b = MessageBuilder {
        id: std_id(1),
        frame_type: FrameType::FlexibleDatarate {
            payload: vec![9; 10],
            bit_rate_switching: false,
            force_error_state_indicator: false,
        },
        store_tx_event: None,
    };
    let m = b.build(DataFieldSize::Bytes64).ok().unwrap();
    assert_eq!(m.dlc(), 9);
    let mut expected = vec![9u8; 10];
    expected.extend_from_slice(&[0, 0]);
    assert_eq!(m.data(), expected);
}

#[test]
fn build_rejects_payload_wider_than_slot() {
    let b = MessageBuilder {
        id: std_id(1),
        frame_type: FrameType::FlexibleDatarate {
            payload: vec![0; 20],
            bit_rate_switching: false,
            force_error_state_indicator: false,
        },
        store_tx_event: None,
    };
    assert!(matches!(b.build(DataFieldSize::Bytes16), Err(TooMuchData)));
    assert!(classic(std_id(1), vec![0; 9]).build(DataFieldSize::Bytes64).is_err());
}

#[test]
fn build_remote_frame() {
    let b = MessageBuilder {
        id: std_id(0x7ff),
        frame_type: FrameType::Classic(ClassicFrameType::Remote { desired_len: 6 }),
        store_tx_event: None,
    };
    let m = b.build(DataFieldSize::Bytes8).ok().unwrap();
    assert!(m.is_remote_frame());
    assert_eq!(m.dlc(), 6);
    assert_eq!(m.data(), Vec::<u8>::new());
    let too_long = MessageBuilder {
        id: std_id(1),
        frame_type: FrameType::Classic(ClassicFrameType::Remote { desired_len: 9 }),
        store_tx_event: None,
    };
    assert!(too_long.build(DataFieldSize::Bytes8).is_err());
}

#[test]
fn frame_constructors() {
    let m = Message::new(std_id(5), vec![1, 2], DataFieldSize::Bytes8).unwrap();
    assert_eq!(m.id(), std_id(5));
    assert_eq!(m.dlc(), 2);
    assert_eq!(m.data(), vec![1, 2]);
    assert!(Message::new(std_id(5), vec![0; 9], DataFieldSize::Bytes64).is_none());
    let r = Message::new_remote(std_id(5), 12, DataFieldSize::Bytes8).unwrap();
    assert!(r.is_remote_frame());
    assert_eq!(r.dlc(), 8);
    assert!(Message::new_remote(std_id(5), 16, DataFieldSize::Bytes8).is_none());
    let x = Message::new_remote(ext_id(0x1abc_def0), 3, DataFieldSize::Bytes8).unwrap();
    assert_eq!(x.id(), ext_id(0x1abc_def0));
    assert!(x.is_extended());
    assert!(x.is_remote_frame());
    assert_eq!(x.dlc(), 3);
    assert!(x.data().is_empty());
    assert!(!x.raw().fd_format());
}

#[test]
fn rx_message_fields() {
    let raw = RawMessage {
        t0: (0x42 << 18) | (1 << 31),
        t1: (5 << 24) | (2 << 16) | 0x1234,
        data: vec![7, 8, 0, 0, 0, 0, 0, 0],
    };
    let m = rx::Message(raw);
    assert_eq!(m.timestamp(), 0x1234);
    assert_eq!(m.filter_index(), Some(5));
    assert!(!m.accepted_non_matching_frame());
    assert!(m.is_transmitter_error_passive());
    assert_eq!(m.data(), vec![7, 8]);
    let b = m.as_tx_builder();
    assert_eq!(b.id, std_id(0x42));
    let t = b.build(DataFieldSize::Bytes8).ok().unwrap();
    assert_eq!(t.data(), vec![7, 8]);
    let anmf = rx::Message(RawMessage { t0: 0, t1: 1 << 31, data: vec![0; 8] });
    assert_eq!(anmf.filter_index(), None);
    assert!(anmf.accepted_non_matching_frame());
}

#[test]
fn tx_event_fields() {
    let e = TxEvent(RawMessage { t0: 0x10 << 18, t1: (0x5a << 24) | (2 << 22), data: vec![] });
    assert_eq!(e.message_marker(), 0x5a);
    assert_eq!(e.event_type(), TxEventType::TxInSpiteOfCancellation);
    assert_eq!(e.id(), std_id(0x10));
    assert_eq!(TxEventType::from(1), TxEventType::TxEvent);
    assert_eq!(TxEventType::from(3), TxEventType::Reserved);
}
