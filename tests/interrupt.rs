use mcan::interrupt::{
    Interrupt, InterruptConfiguration, InterruptLine, InterruptSet, InvalidInterruptNumber,
    MaskError,
};

#[test]
fn iter_preserves_length() {
    assert_eq!(InterruptSet(0).iter().count(), 0);
    assert_eq!(InterruptSet(1).iter().count(), 1);
    assert_eq!(InterruptSet(0x1555_5555).iter().count(), 15);
    assert_eq!(InterruptSet(0x2aaa_aaaa).iter().count(), 15);
    assert_eq!(InterruptSet(0x3fff_ffff).iter().count(), 30);
    assert_eq!(InterruptSet(0xffff_ffff).iter().count(), 30);
}

fn iter_collect(int: u32) -> u32 {
    InterruptSet::from_iter(InterruptSet(int).iter().collect()).0
}

#[test]
fn iter_collect_preserves_interrupts() {
    assert_eq!(iter_collect(0), 0);
    assert_eq!(iter_collect(1), 1);
    assert_eq!(iter_collect(0x1555_5555), 0x1555_5555);
    assert_eq!(iter_collect(0x2aaa_aaaa), 0x2aaa_aaaa);
}

#[test]
fn iter_collect_drops_reserved_bits() {
    assert_eq!(iter_collect(0xffff_ffff), 0x3fff_ffff);
}

#[test]
fn interrupt_numbers_round_trip() {
    for n in 0u8..30 {
        let i = Interrupt::try_from(n).ok().unwrap();
        assert_eq!(i.number(), n);
        assert_eq!(i.mask(), 1u32 << n);
    }
    assert_eq!(Interrupt::try_from(30), Err(InvalidInterruptNumber));
    assert_eq!(Interrupt::try_from(255), Err(InvalidInterruptNumber));
}

#[test]
fn iter_visits_in_flag_order() {
    let mut it = InterruptSet(0b1010_0001).iter();
    assert_eq!(it.next(), Some(Interrupt::RxFifo0NewMessage));
    assert_eq!(it.next(), Some(Interrupt::RxFifo1WatermarkReached));
    assert_eq!(it.next(), Some(Interrupt::RxFifo1MessageLost));
    assert_eq!(it.next(), None);
    assert_eq!(it.next(), None);
}

#[test]
fn enable_hands_out_disjoint_sets() {
    let mut cfg = InterruptConfiguration::new();
    assert_eq!(cfg.disabled(), InterruptSet(0x3fff_ffff));
    let a = cfg.enable(InterruptSet(0b0110), InterruptLine::Line1).ok().unwrap();
    assert_eq!(a.mask(), InterruptSet(0b0110));
    assert_eq!(cfg.ie(), 0b0110);
    assert_eq!(cfg.ils(), 0b0110);
    assert_eq!(cfg.ile(), 0b10);
    // Overlapping request: the error names exactly the conflicting flags.
    let e = cfg.enable(InterruptSet(0b1100), InterruptLine::Line0).err().unwrap();
    assert_eq!(e, MaskError(InterruptSet(0b0100)));
    assert_eq!(cfg.ie(), 0b0110);
    let b = cfg.enable(InterruptSet(0b1001), InterruptLine::Line0).ok().unwrap();
    assert_eq!(a.mask().0 & b.mask().0, 0);
    assert_eq!(cfg.disabled(), InterruptSet(0x3fff_fff0));
    assert_eq!(cfg.ile(), 0b11);
    cfg.disable(a);
    assert_eq!(cfg.disabled(), InterruptSet(0x3fff_fff6));
    assert_eq!(cfg.ie(), 0b1001);
    // Reserved bits are never owned.
    let e = cfg.enable(InterruptSet(0x4000_0000), InterruptLine::Line0).err().unwrap();
    assert_eq!(e, MaskError(InterruptSet(0x4000_0000)));
}

#[test]
fn owned_set_clears_only_its_flags() {
    let mut cfg = InterruptConfiguration::new();
    let a = cfg.enable(InterruptSet(0b0011), InterruptLine::Line0).ok().unwrap();
    let mut ir: u32 = 0b1111;
    assert_eq!(a.interrupt_flags(ir), InterruptSet(0b0011));
    let flagged = a.iter_flagged(&mut ir).collect();
    assert_eq!(flagged, vec![Interrupt::RxFifo0NewMessage, Interrupt::RxFifo0WatermarkReached]);
    assert_eq!(ir, 0b1100);
    a.clear_interrupts(&mut ir, InterruptSet(0b1111));
    assert_eq!(ir, 0b1100);
}

#[test]
fn interrupt_abbreviations() {
    assert_eq!(Interrupt::RxFifo0NewMessage.abbreviation(), "RF0N");
    assert_eq!(Interrupt::TransmissionCancellationFinished.abbreviation(), "TCF");
    assert_eq!(Interrupt::AccessToReservedAddress.abbreviation(), "ARA");
}
