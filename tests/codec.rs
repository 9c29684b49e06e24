use diotd::codec::{ActuatorRequestProtocol, ActuatorRequestsCodec, FrameError};

#[test]
fn protocol_name() {
    assert_eq!(ActuatorRequestProtocol::V1.protocol_name(), "/diodt/actuators/1.0");
}

#[test]
fn frame_round_trip() {
    let payload: Vec<u8> = (0..300u32).map(|i| (i % 256) as u8).collect();
    let framed = ActuatorRequestsCodec::frame(&payload).unwrap();
    assert_eq!(&framed[..4], &[0, 0, 1, 44]);
    assert_eq!(framed.len(), 304);
    let (back, used) = ActuatorRequestsCodec::unframe(&framed).unwrap();
    assert_eq!(back, payload);
    assert_eq!(used, 304);
}

#[test]
fn unframe_reads_only_the_first_frame() {
    let mut bytes = ActuatorRequestsCodec::frame(&vec![7, 8]).unwrap();
    bytes.extend_from_slice(&[1, 2, 3]);
    assert_eq!(ActuatorRequestsCodec::unframe(&bytes), Ok((vec![7, 8], 6)));
}

#[test]
fn short_input_is_incomplete() {
    assert_eq!(ActuatorRequestsCodec::unframe(&vec![0, 0, 1]), Err(FrameError::Incomplete));
    assert_eq!(ActuatorRequestsCodec::unframe(&vec![0, 0, 0, 3, 1, 2]), Err(FrameError::Incomplete));
    assert_eq!(ActuatorRequestsCodec::unframe(&vec![0, 0, 0, 0]), Ok((vec![], 4)));
}
