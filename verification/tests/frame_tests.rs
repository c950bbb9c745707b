use body_control::frame::{FrameId, RawFrame};

#[test]
fn constructor_accepts_in_range_identifiers() {
    let frame = RawFrame::new(FrameId::Standard(0x7FF), [1; 8], 8).unwrap();
    assert_eq!(frame.id, FrameId::Standard(0x7FF));
    assert_eq!(frame.len, 8);

    let frame = RawFrame::new(FrameId::Extended(0x1FFF_FFFF), [0; 8], 0).unwrap();
    assert_eq!(frame.id, FrameId::Extended(0x1FFF_FFFF));
    assert_eq!(frame.len, 0);
}

#[test]
fn constructor_rejects_out_of_range_identifiers() {
    assert_eq!(RawFrame::new(FrameId::Standard(0x800), [0; 8], 0), None);
    assert_eq!(RawFrame::new(FrameId::Extended(0x2000_0000), [0; 8], 0), None);
}

#[test]
fn constructor_caps_the_length_at_the_buffer_size() {
    let frame = RawFrame::new(FrameId::Standard(1), [2; 8], 200).unwrap();
    assert_eq!(frame.len, 8);
}
