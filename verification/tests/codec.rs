use bytes::{BufMut, BytesMut};

use wrcbus::protocol::codec::{
    checksum, delta_ms, FrameInner, LongFrame, RxFrame, ShortFrame, TxFrame, WrcBusProtocolCodec,
};

const VALID_SHORT_FRAME: [u8; 7] = [0x32, 0x84, 0xeb, 0xf9, 0x00, 0x96, 0x34];

const VALID_LONG_FRAME: [u8; 14] = [
    0x32, 0x20, 0x84, 0x52, 0x4b, 0x4c, 0x63, 0xf8, 0x81, 0x10, 0x00, 0x6f, 0x94, 0x34,
];

#[test]
fn test_codec_decode() {
    let mut codec = WrcBusProtocolCodec::new();

    let mut buf = BytesMut::new();
    buf.put(&VALID_SHORT_FRAME[..]);
    let frame = codec.decode(&mut buf).expect("a decoded frame");
    match frame {
        RxFrame::Short(f) => {
            assert_eq!(f.id.src, 0x84);
            assert_eq!(f.id.dst, 0xeb);
            assert_eq!(f.id.cmd, 0xf9);
            assert_eq!(f.data, [0x00]);
        }
        other => panic!("expected a short frame, got {other:?}"),
    }
    assert_eq!(buf.len(), 0);

    // some junk which includes a start-of-frame marker, then a long frame
    {
        let mut buf = BytesMut::new();
        buf.put(&[0x01, 0x02, 0x32, 0x01, 0x02, 0x32][..]);
        buf.put(&VALID_LONG_FRAME[..]);

        let mut codec = WrcBusProtocolCodec::new();
        let frame = codec.decode(&mut buf).expect("a decoded frame");
        match frame {
            RxFrame::Long(f) => {
                assert_eq!(f.id.src, 0x20);
                assert_eq!(f.id.dst, 0x84);
                assert_eq!(f.id.cmd, 0x52);
                assert_eq!(f.data, [0x4b, 0x4c, 0x63, 0xf8, 0x81, 0x10, 0x00, 0x6f]);
            }
            other => panic!("expected a long frame, got {other:?}"),
        }
        assert_eq!(buf.len(), 0);
    }

    // two short frames (looks like one invalid long frame)
    {
        let mut buf = BytesMut::new();
        buf.put(&VALID_SHORT_FRAME[..]);
        buf.put(&VALID_SHORT_FRAME[..]);

        let mut codec = WrcBusProtocolCodec::new();
        let first = codec.decode(&mut buf).expect("first frame");
        let second = codec.decode(&mut buf).expect("second frame");
        assert!(matches!(first, RxFrame::Short(_)));
        assert!(matches!(second, RxFrame::Short(_)));
        assert_eq!(buf.len(), 0);
    }
}

#[test]
fn test_codec_encode() {
    let mut codec = WrcBusProtocolCodec::new();

    let mut buf = BytesMut::new();
    let frame = TxFrame::Short(ShortFrame::new(0x1, 0x2, 0x3, [0x4]));
    codec.encode(frame, &mut buf);
    assert_eq!(&buf[..], &[0x32, 0x01, 0x02, 0x03, 0x04, 0x04, 0x34]);
}

#[test]
fn encode_then_decode_round_trips_short() {
    let mut codec = WrcBusProtocolCodec::new();
    let frame = ShortFrame::new(0x84, 0xeb, 0xf9, [0x00]);

    let mut buf = BytesMut::new();
    codec.encode(TxFrame::Short(frame.clone()), &mut buf);
    assert_eq!(&buf[..], &VALID_SHORT_FRAME);

    let decoded = codec.decode(&mut buf).expect("a decoded frame");
    assert_eq!(decoded, RxFrame::Short(frame));
    assert_eq!(buf.len(), 0);
}

#[test]
fn encode_then_decode_round_trips_long() {
    let mut codec = WrcBusProtocolCodec::new();
    let frame = LongFrame::new(0x20, 0x84, 0x52, [0x4b, 0x4c, 0x63, 0xf8, 0x81, 0x10, 0x00, 0x6f]);

    let mut buf = BytesMut::new();
    codec.encode(TxFrame::Long(frame.clone()), &mut buf);
    assert_eq!(&buf[..], &VALID_LONG_FRAME);

    let decoded = codec.decode(&mut buf).expect("a decoded frame");
    assert_eq!(decoded, RxFrame::Long(frame));
    assert_eq!(buf.len(), 0);
}

#[test]
fn long_frame_then_short_frame_decode_in_order() {
    let mut codec = WrcBusProtocolCodec::new();
    let mut buf = BytesMut::new();
    buf.put(&VALID_LONG_FRAME[..]);
    buf.put(&VALID_SHORT_FRAME[..]);

    let first = codec.decode(&mut buf).expect("first frame");
    assert!(matches!(first, RxFrame::Long(_)));
    let second = codec.decode(&mut buf).expect("second frame");
    assert!(matches!(second, RxFrame::Short(_)));
    assert_eq!(buf.len(), 0);
}

#[test]
fn junk_bytes_resync_to_the_one_valid_frame() {
    // no junk at all
    let mut codec = WrcBusProtocolCodec::new();
    let mut buf = BytesMut::new();
    buf.put(&VALID_SHORT_FRAME[..]);
    assert!(matches!(
        codec.decode(&mut buf).expect("a frame"),
        RxFrame::Short(_)
    ));
    assert_eq!(buf.len(), 0);

    // three junk bytes, none the start marker
    let mut buf = BytesMut::new();
    buf.put(&[0x10, 0xff, 0x07][..]);
    buf.put(&VALID_SHORT_FRAME[..]);
    let frame = codec.decode(&mut buf).expect("a frame");
    match frame {
        RxFrame::Short(f) => assert_eq!(f.id.cmd, 0xf9),
        other => panic!("expected a short frame, got {other:?}"),
    }
    assert_eq!(buf.len(), 0);
    assert!(codec.decode(&mut buf).is_none());
}

#[test]
fn flipped_byte_yields_corrupted_window_and_advances() {
    let mut damaged = VALID_SHORT_FRAME;
    damaged[4] ^= 0x01; // flip one payload bit

    let mut codec = WrcBusProtocolCodec::new();
    let mut buf = BytesMut::new();
    buf.put(&damaged[..]);
    buf.put(&VALID_SHORT_FRAME[..]);

    let first = codec.decode(&mut buf).expect("a corrupted window");
    assert_eq!(first, RxFrame::Corrupted(damaged.to_vec()));

    // the stream survives: the next frame still decodes
    let second = codec.decode(&mut buf).expect("the good frame");
    assert!(matches!(second, RxFrame::Short(_)));
    assert_eq!(buf.len(), 0);
}

#[test]
fn flipped_long_frame_yields_a_fourteen_byte_corrupted_window() {
    let mut damaged = VALID_LONG_FRAME;
    damaged[8] ^= 0x40; // flip one payload bit

    let mut codec = WrcBusProtocolCodec::new();
    let mut buf = BytesMut::new();
    buf.put(&damaged[..]);
    buf.put(&VALID_SHORT_FRAME[..]);

    let first = codec.decode(&mut buf).expect("a corrupted window");
    assert_eq!(first, RxFrame::Corrupted(damaged.to_vec()));
    let second = codec.decode(&mut buf).expect("the good frame");
    assert!(matches!(second, RxFrame::Short(_)));
    assert_eq!(buf.len(), 0);
}

#[test]
fn checksum_changes_when_any_header_byte_flips() {
    let payload = [0x84u8, 0xeb, 0xf9, 0x00];
    let base = checksum(&payload);
    assert_eq!(base, 0x96);
    for i in 0..payload.len() {
        for bit in 0..8 {
            let mut flipped = payload;
            flipped[i] ^= 1u8 << bit;
            assert_ne!(checksum(&flipped), base, "flipping byte {i} bit {bit}");
        }
    }
}

#[test]
fn decode_asks_for_more_input_on_partial_frames() {
    let mut codec = WrcBusProtocolCodec::new();

    // fewer than seven bytes buffered
    let mut buf = BytesMut::new();
    buf.put(&VALID_SHORT_FRAME[..6]);
    assert!(codec.decode(&mut buf).is_none());
    assert_eq!(buf.len(), 6);

    // a complete seven-byte window that only a long frame can explain
    let mut buf = BytesMut::new();
    buf.put(&VALID_LONG_FRAME[..10]);
    assert!(codec.decode(&mut buf).is_none());
    assert_eq!(buf.len(), 10);
}

#[test]
fn delta_ms_of_nothing_is_zero() {
    assert_eq!(delta_ms(None), 0);
}

#[test]
fn frame_conversions_keep_the_frame() {
    let short = ShortFrame::new(0x84, 0x20, 0x52, [0x00]);
    let tx: TxFrame = short.clone().into();
    assert_eq!(tx, TxFrame::Short(short));

    let long = LongFrame::new(0x20, 0x84, 0x52, [0; 8]);
    let tx: TxFrame = long.clone().into();
    assert_eq!(tx, TxFrame::Long(long.clone()));
    assert_eq!(RxFrame::from(tx), RxFrame::Long(long));
}

#[test]
fn frame_id_parts_match_fields() {
    let frame: FrameInner<1> = FrameInner::new(0x84, 0x20, 0x52, [0x00]);
    assert_eq!(frame.id.parts(), (0x84, 0x20, 0x52));
    let rx = RxFrame::Short(frame);
    assert_eq!(rx.id().unwrap().parts(), (0x84, 0x20, 0x52));
    assert!(RxFrame::Corrupted(vec![1, 2, 3]).id().is_none());
}
