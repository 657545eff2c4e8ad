use wrcbus::bus::Bus;
use wrcbus::protocol::codec::{RxFrame, ShortFrame, TxFrame};

#[test]
fn a_frame_reaches_every_other_client_but_never_its_sender() {
    let mut bus = Bus::new();
    let mut a = bus.new_client();
    let mut b = bus.new_client();
    let mut c = bus.new_client();

    let frame = ShortFrame::new(0x84, 0xeb, 0xf9, [0x00]);
    a.send(&mut bus, TxFrame::Short(frame.clone()));

    assert_eq!(b.recv(&bus), Some(RxFrame::Short(frame.clone())));
    assert_eq!(c.recv(&bus), Some(RxFrame::Short(frame.clone())));
    assert_eq!(a.recv(&bus), None);

    // nothing is delivered twice
    assert_eq!(b.recv(&bus), None);
    assert_eq!(c.recv(&bus), None);
}

#[test]
fn clients_observe_foreign_frames_in_publication_order() {
    let mut bus = Bus::new();
    let mut a = bus.new_client();
    let mut b = bus.new_client();
    let mut c = bus.new_client();

    let first = ShortFrame::new(0x84, 0x20, 0x52, [0x01]);
    let second = ShortFrame::new(0x20, 0x84, 0x52, [0x02]);
    let third = ShortFrame::new(0x84, 0x21, 0x54, [0x03]);

    a.send(&mut bus, TxFrame::Short(first.clone()));
    b.send(&mut bus, TxFrame::Short(second.clone()));
    a.send(&mut bus, TxFrame::Short(third.clone()));

    // c sees all three, in the one shared order
    assert_eq!(c.recv(&bus), Some(RxFrame::Short(first.clone())));
    assert_eq!(c.recv(&bus), Some(RxFrame::Short(second.clone())));
    assert_eq!(c.recv(&bus), Some(RxFrame::Short(third.clone())));

    // a skips its own two frames
    assert_eq!(a.recv(&bus), Some(RxFrame::Short(second)));
    assert_eq!(a.recv(&bus), None);

    // b skips only its own
    assert_eq!(b.recv(&bus), Some(RxFrame::Short(first)));
    assert_eq!(b.recv(&bus), Some(RxFrame::Short(third)));
    assert_eq!(b.recv(&bus), None);
}

#[test]
fn a_client_sees_only_traffic_after_it_joined() {
    let mut bus = Bus::new();
    let mut a = bus.new_client();

    let early = ShortFrame::new(0x84, 0x20, 0x52, [0x01]);
    a.send(&mut bus, TxFrame::Short(early));

    let mut late = bus.new_client();
    assert_eq!(late.recv(&bus), None);

    let fresh = ShortFrame::new(0x84, 0x21, 0x52, [0x02]);
    a.send(&mut bus, TxFrame::Short(fresh.clone()));
    assert_eq!(late.recv(&bus), Some(RxFrame::Short(fresh)));
}
