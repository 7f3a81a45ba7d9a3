use mcan::filter::{
    Action, ExtFilter, Filter, FilterExtendedId, FilterStandardId, Filters, SbMsgType,
};
use mcan::id::{ExtendedId, StandardId};

fn sid(raw: u16) -> StandardId {
    StandardId::new(raw).unwrap()
}

fn xid(raw: u32) -> ExtendedId {
    ExtendedId::new(raw).unwrap()
}

#[test]
fn standard_filter_encoding() {
    let f = Filter::Range { action: Action::StoreFifo1, low: sid(0x10), high: sid(0x20) };
    assert_eq!(FilterStandardId::from(f).0, 0x20 | (0x10 << 16) | (2 << 27));
    let f = Filter::Dual { action: Action::Reject, id1: sid(1), id2: sid(2) };
    assert_eq!(FilterStandardId::from(f).0, 2 | (1 << 16) | (3 << 27) | (1 << 30));
    let f = Filter::Classic { action: Action::PriorityFifo0, filter: sid(0x100), mask: sid(0x700) };
    assert_eq!(FilterStandardId::from(f).0, 0x700 | (0x100 << 16) | (5 << 27) | (2 << 30));
    let f = Filter::StoreBuffer { id: sid(0x55), msg_type: SbMsgType::DebugB, offset: 3 };
    assert_eq!(FilterStandardId::from(f).0, (0x55 << 16) | (2 << 9) | 3 | (7 << 27));
    assert_eq!(FilterStandardId::from(Filter::Disabled).0, 0);
    assert_eq!(SbMsgType::default(), SbMsgType::RxBuffer);
}

#[test]
fn extended_filter_encoding() {
    let f = ExtFilter::Classic { action: Action::StoreFifo0, filter: xid(0x1234), mask: xid(0xffff) };
    assert_eq!(FilterExtendedId::from(f), FilterExtendedId((1 << 29) | 0x1234, (2 << 30) | 0xffff));
    let f = ExtFilter::Range { action: Action::Priority, low: xid(1), high: xid(9) };
    assert_eq!(FilterExtendedId::from(f), FilterExtendedId((4 << 29) | 1, (3 << 30) | 9));
    let f = ExtFilter::StoreBuffer { id: xid(7), msg_type: SbMsgType::DebugA, offset: 4 };
    assert_eq!(FilterExtendedId::from(f), FilterExtendedId((7 << 29) | 7, (1 << 9) | 4));
}

#[test]
fn push_assigns_indices_in_order() {
    let mut table = Filters::new(vec![FilterStandardId(0); 2]);
    let first = Filter::Range { action: Action::StoreFifo0, low: sid(0), high: sid(0x100) };
    let second = Filter::Range { action: Action::Reject, low: sid(0x80), high: sid(0x200) };
    let third = Filter::Disabled;
    assert_eq!(table.push(first), Ok(0));
    assert_eq!(table.push(second), Ok(1));
    // Full: the filter comes back unchanged.
    assert_eq!(table.push(third), Err(third));
    assert_eq!(table.len(), 2);
    assert_eq!(table.capacity(), 2);

    let mut ext = Filters::new(vec![FilterExtendedId(0, 0); 1]);
    let f = ExtFilter::Dual { action: Action::StoreFifo1, id1: xid(1), id2: xid(2) };
    assert_eq!(ext.push(f), Ok(0));
    assert_eq!(ext.push(f), Err(f));
}
