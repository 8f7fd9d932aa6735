use eye_hal::bridge::{FrameMessage, Handle, HandoffEvent};
use eye_hal::pixel_format::PixelFormat;

#[test]
fn new_bridge_has_no_cached_frame() {
    let (h, _tx) = Handle::new(PixelFormat::Rgb(24));
    assert!(h.frame().is_none());
    assert_eq!(*h.stream_format(), PixelFormat::Rgb(24));
}

#[test]
fn delivered_frames_apply_in_order() {
    let (mut h, _tx) = Handle::new(PixelFormat::Rgb(24));
    for payload in [vec![1u8, 10], vec![2u8, 20], vec![3u8, 30]] {
        let got = h.apply_event(HandoffEvent::Delivered(FrameMessage::Frame(payload.clone())));
        assert!(got);
        assert_eq!(h.frame(), Some(&payload));
    }
}

#[test]
fn cached_frame_is_replaced_by_the_next_one() {
    let (mut h, _tx) = Handle::new(PixelFormat::Jpeg);
    h.apply_event(HandoffEvent::Delivered(FrameMessage::Frame(vec![1, 2])));
    assert_eq!(h.frame(), Some(&vec![1, 2]));
    h.apply_event(HandoffEvent::Delivered(FrameMessage::Frame(vec![3, 4])));
    assert_eq!(h.frame(), Some(&vec![3, 4]));
}

#[test]
fn decode_failure_ends_stream_and_keeps_cache() {
    let (mut h, _tx) = Handle::new(PixelFormat::Jpeg);
    assert!(h.apply_event(HandoffEvent::Delivered(FrameMessage::Frame(vec![9]))));
    assert!(!h.apply_event(HandoffEvent::Delivered(FrameMessage::DecodeFailed)));
    assert_eq!(h.frame(), Some(&vec![9]));
}

#[test]
fn closed_handoff_ends_stream() {
    let (mut h, tx) = Handle::new(PixelFormat::Jpeg);
    drop(tx);
    assert!(h.next().is_none());
    assert!(h.next().is_none());
}

#[test]
fn abandoned_delivery_reports_false_without_blocking() {
    let (h, tx) = Handle::new(PixelFormat::Jpeg);
    drop(h);
    assert!(!tx.deliver(FrameMessage::Frame(vec![1, 2, 3])));
    assert!(!tx.deliver(FrameMessage::DecodeFailed));
}
