use pvf_host::framing::{
    decode_frame, decode_len, encode_frame, encode_len, framed_recv_blocking,
    framed_send_blocking, prefix_width, ByteChannel, FrameError,
};

#[test]
fn prefix_is_one_machine_word_little_endian() {
    assert_eq!(prefix_width(), std::mem::size_of::<usize>());
    assert_eq!(encode_len(0), 0usize.to_le_bytes().to_vec());
    assert_eq!(encode_len(1), 1usize.to_le_bytes().to_vec());
    assert_eq!(encode_len(258), 258usize.to_le_bytes().to_vec());
    assert_eq!(encode_len(usize::MAX), usize::MAX.to_le_bytes().to_vec());
    assert_eq!(encode_len(0x0102_0304), 0x0102_0304usize.to_le_bytes().to_vec());
}

#[test]
fn decode_len_reads_what_encode_len_wrote() {
    for len in [0usize, 1, 255, 256, 65_535, 65_536, 0x1234_5678, usize::MAX] {
        assert_eq!(decode_len(&encode_len(len)), Some(len));
        assert_eq!(decode_len(&len.to_le_bytes()), Some(len));
    }
}

#[test]
fn decode_len_refuses_a_prefix_of_the_wrong_width() {
    assert_eq!(decode_len(&[]), None);
    assert_eq!(decode_len(&[1, 0, 0]), None);
    let mut long = 7usize.to_le_bytes().to_vec();
    long.push(0);
    assert_eq!(decode_len(&long), None);
}

#[test]
fn frame_of_a_payload_is_prefix_then_payload() {
    let wire = encode_frame(&[0xaa, 0xbb, 0xcc]);
    let mut expected = 3usize.to_le_bytes().to_vec();
    expected.extend_from_slice(&[0xaa, 0xbb, 0xcc]);
    assert_eq!(wire, expected);
}

#[test]
fn frame_round_trip_for_many_payloads() {
    let word = std::mem::size_of::<usize>();
    let mut payloads: Vec<Vec<u8>> = vec![
        vec![],
        vec![0],
        vec![255; 3],
        5usize.to_le_bytes().to_vec(),
        encode_frame(&[1, 2, 3]),
    ];
    payloads.push((0..=255u8).collect());
    payloads.push(vec![7; 70_000]);
    for payload in payloads {
        let wire = encode_frame(&payload);
        assert_eq!(wire.len(), word + payload.len());
        assert_eq!(decode_frame(&wire), Ok((payload.clone(), wire.len())));
    }
}

#[test]
fn decode_frame_leaves_what_follows_the_frame() {
    let mut wire = encode_frame(b"first");
    let first_len = wire.len();
    wire.extend_from_slice(&encode_frame(b"second"));
    let (payload, used) = decode_frame(&wire).unwrap();
    assert_eq!(payload, b"first".to_vec());
    assert_eq!(used, first_len);
    let (payload, used) = decode_frame(&wire[first_len..]).unwrap();
    assert_eq!(payload, b"second".to_vec());
    assert_eq!(used, wire.len() - first_len);
}

#[test]
fn decode_frame_fails_on_a_short_prefix_or_payload() {
    assert_eq!(decode_frame(&[]), Err(FrameError::UnexpectedEof));
    assert_eq!(decode_frame(&[3, 0, 0]), Err(FrameError::UnexpectedEof));
    let mut wire = encode_frame(&[1, 2, 3, 4]);
    wire.pop();
    assert_eq!(decode_frame(&wire), Err(FrameError::UnexpectedEof));
    let huge = usize::MAX.to_le_bytes();
    assert_eq!(decode_frame(&huge), Err(FrameError::UnexpectedEof));
}

#[test]
fn send_then_receive_on_a_channel() {
    let mut channel = ByteChannel::new(1024);
    assert_eq!(framed_send_blocking(&mut channel, b"hello"), Ok(()));
    assert_eq!(framed_send_blocking(&mut channel, b""), Ok(()));
    assert_eq!(framed_send_blocking(&mut channel, b"world"), Ok(()));
    assert_eq!(framed_recv_blocking(&mut channel), Ok(b"hello".to_vec()));
    assert_eq!(framed_recv_blocking(&mut channel), Ok(Vec::new()));
    assert_eq!(framed_recv_blocking(&mut channel), Ok(b"world".to_vec()));
    assert_eq!(channel.pending_len(), 0);
    assert!(!channel.closed());
}

#[test]
fn channel_bytes_are_the_wire_format() {
    let mut channel = ByteChannel::new(64);
    framed_send_blocking(&mut channel, &[9, 8, 7]).unwrap();
    assert_eq!(channel.pending_len(), std::mem::size_of::<usize>() + 3);
    let mut wire = encode_frame(&[9, 8, 7]);
    wire.extend_from_slice(&encode_frame(&[6]));
    let mut incoming = ByteChannel::with_bytes(wire, 0);
    assert_eq!(framed_recv_blocking(&mut incoming), Ok(vec![9, 8, 7]));
    assert_eq!(framed_recv_blocking(&mut incoming), Ok(vec![6]));
}

#[test]
fn a_frame_that_does_not_fit_is_a_short_write_and_closes() {
    let word = std::mem::size_of::<usize>();
    let mut channel = ByteChannel::new(word + 2);
    assert_eq!(framed_send_blocking(&mut channel, &[1, 2, 3]), Err(FrameError::ShortWrite));
    assert!(channel.closed());
    assert_eq!(channel.pending_len(), 0);
    assert_eq!(framed_send_blocking(&mut channel, &[1]), Err(FrameError::Closed));
    assert_eq!(framed_recv_blocking(&mut channel), Err(FrameError::Closed));
    let mut exact = ByteChannel::new(word + 3);
    assert_eq!(framed_send_blocking(&mut exact, &[1, 2, 3]), Ok(()));
}

#[test]
fn a_short_read_closes_the_channel() {
    let mut wire = encode_frame(&[1, 2, 3, 4]);
    wire.truncate(wire.len() - 2);
    let mut channel = ByteChannel::with_bytes(wire, 0);
    assert_eq!(framed_recv_blocking(&mut channel), Err(FrameError::UnexpectedEof));
    assert!(channel.closed());
    assert_eq!(framed_recv_blocking(&mut channel), Err(FrameError::Closed));
    let mut empty = ByteChannel::new(16);
    assert_eq!(framed_recv_blocking(&mut empty), Err(FrameError::UnexpectedEof));
    let mut closed = ByteChannel::new(16);
    closed.close();
    assert!(closed.closed());
    assert_eq!(framed_send_blocking(&mut closed, &[]), Err(FrameError::Closed));
}
