use native_host::frame::{encode_frame, frame_len};

#[test]
fn frame_carries_length_then_payload() {
    let payload: Vec<u8> = b"abc".to_vec();
    let frame = encode_frame(&payload).unwrap();
    assert_eq!(frame, vec![3u8, 0, 0, 0, b'a', b'b', b'c']);
}

#[test]
fn frame_prefix_decodes_to_payload_length() {
    let payload: Vec<u8> = b"{\"success\":true}".to_vec();
    let frame = encode_frame(&payload).unwrap();
    assert_eq!(frame_len(&frame[0..4]) as usize, payload.len());
    assert_eq!(&frame[4..], payload.as_slice());
}

#[test]
fn empty_payload_frames_as_zero_length() {
    let payload: Vec<u8> = Vec::new();
    let frame = encode_frame(&payload).unwrap();
    assert_eq!(frame, vec![0u8, 0, 0, 0]);
}

#[test]
fn frame_len_reads_all_four_bytes() {
    assert_eq!(frame_len(&[0x78, 0x56, 0x34, 0x12]), 0x12345678);
    assert_eq!(frame_len(&[17, 0, 0, 0]), 17);
}
