use swarm_dispatch::frame::{
    decode_frame, decode_header, encode_frame, length_prefix, FramingError, Packet, MAX_FRAME_LEN,
};

#[test]
fn frame_round_trip() {
    let payload: Vec<u8> = vec![1, 2, 3, 250];
    let mut bytes = encode_frame(&payload).unwrap();
    assert_eq!(bytes, vec![0, 0, 0, 4, 1, 2, 3, 250]);
    bytes.extend_from_slice(&[9, 9]);
    assert_eq!(decode_frame(&bytes), Ok((payload, 8)));
}

#[test]
fn empty_frame() {
    let bytes = encode_frame(&[]).unwrap();
    assert_eq!(bytes, vec![0, 0, 0, 0]);
    assert_eq!(decode_frame(&bytes), Ok((vec![], 4)));
}

#[test]
fn length_prefix_is_big_endian() {
    assert_eq!(length_prefix(0x01020304), vec![1, 2, 3, 4]);
    assert_eq!(decode_header(&[0, 0, 1, 0]), Ok(256));
}

#[test]
fn framing_errors() {
    assert_eq!(decode_frame(&[0, 0]), Err(FramingError::TruncatedHeader { available: 2 }));
    assert_eq!(
        decode_frame(&[0, 0, 0, 5, 1, 2]),
        Err(FramingError::TruncatedPayload { declared: 5, available: 2 })
    );
    assert_eq!(decode_header(&[255, 255, 255, 255]), Err(FramingError::TooLarge { declared: u32::MAX }));
    let too_big = vec![0u8; MAX_FRAME_LEN as usize + 1];
    assert_eq!(encode_frame(&too_big), Err(FramingError::PayloadTooLarge { len: MAX_FRAME_LEN as usize + 1 }));
    let largest = vec![7u8; MAX_FRAME_LEN as usize];
    let framed = encode_frame(&largest).unwrap();
    assert_eq!(decode_header(&framed), Ok(MAX_FRAME_LEN));
}

#[test]
fn packet_carries_value() {
    let p = Packet::new(17u32);
    assert_eq!(p.take(), 17);
}
