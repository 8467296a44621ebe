use webviewjs::framing::{encode_frame, FrameBuffer, FrameStep, MAX_FRAME_LEN};

#[test]
fn a_frame_is_a_big_endian_length_and_the_payload() {
    assert_eq!(encode_frame(b""), Some(vec![0, 0, 0, 0]));
    assert_eq!(encode_frame(b"abc"), Some(vec![0, 0, 0, 3, b'a', b'b', b'c']));
    let payload = vec![7u8; 0x01_02_03];
    let frame = encode_frame(&payload).unwrap();
    assert_eq!(&frame[..4], &[0, 1, 2, 3]);
    assert_eq!(&frame[4..], &payload[..]);
}

#[test]
fn the_length_field_bounds_the_payload() {
    assert_eq!(MAX_FRAME_LEN, u32::MAX as usize);
}

#[test]
fn a_payload_of_many_megabytes_is_framed_and_comes_back() {
    let payload: Vec<u8> = (0..0x0110_0000usize).map(|i| (i % 251) as u8).collect();
    let frame = encode_frame(&payload).unwrap();
    assert_eq!(&frame[..4], &[1, 16, 0, 0]);
    assert_eq!(frame.len(), payload.len() + 4);
    let mut buffer = FrameBuffer::new();
    for piece in frame.chunks(8192) {
        assert_eq!(buffer.next_frame(), FrameStep::Incomplete);
        buffer.push(piece);
    }
    assert_eq!(buffer.next_frame(), FrameStep::Frame(payload));
    assert_eq!(buffer.len(), 0);
}

#[test]
fn a_frame_comes_out_whole() {
    let mut buffer = FrameBuffer::new();
    assert_eq!(buffer.next_frame(), FrameStep::Incomplete);
    buffer.push(&encode_frame(b"hello").unwrap());
    assert_eq!(buffer.len(), 9);
    assert_eq!(buffer.next_frame(), FrameStep::Frame(b"hello".to_vec()));
    assert_eq!(buffer.len(), 0);
    assert_eq!(buffer.next_frame(), FrameStep::Incomplete);
}

#[test]
fn a_frame_is_put_together_from_single_bytes() {
    let frame = encode_frame(b"partial reads").unwrap();
    let mut buffer = FrameBuffer::new();
    for (i, byte) in frame.iter().enumerate() {
        assert_eq!(buffer.next_frame(), FrameStep::Incomplete, "after {} bytes", i);
        buffer.push(&[*byte]);
    }
    assert_eq!(buffer.next_frame(), FrameStep::Frame(b"partial reads".to_vec()));
}

#[test]
fn frames_that_arrive_together_are_split() {
    let mut stream = Vec::new();
    stream.extend(encode_frame(b"one").unwrap());
    stream.extend(encode_frame(b"").unwrap());
    stream.extend(encode_frame(b"three").unwrap());
    stream.extend(&encode_frame(b"four").unwrap()[..6]);
    let mut buffer = FrameBuffer::new();
    buffer.push(&stream);
    assert_eq!(buffer.drain(), vec![b"one".to_vec(), b"".to_vec(), b"three".to_vec()]);
    assert_eq!(buffer.len(), 6);
    buffer.push(&encode_frame(b"four").unwrap()[6..]);
    assert_eq!(buffer.drain(), vec![b"four".to_vec()]);
    assert_eq!(buffer.drain(), Vec::<Vec<u8>>::new());
}

#[test]
fn any_cut_of_a_stream_gives_the_same_frames() {
    let payloads: Vec<Vec<u8>> =
        vec![b"a".to_vec(), vec![0u8; 300], b"".to_vec(), b"{\"k\":1}".to_vec()];
    let mut stream = Vec::new();
    for payload in &payloads {
        stream.extend(encode_frame(payload).unwrap());
    }
    for cut in 0..=stream.len() {
        let mut buffer = FrameBuffer::new();
        buffer.push(&stream[..cut]);
        let mut frames = buffer.drain();
        buffer.push(&stream[cut..]);
        frames.extend(buffer.drain());
        assert_eq!(frames, payloads, "cut at {}", cut);
        assert_eq!(buffer.len(), 0);
    }
}

#[test]
fn the_largest_announced_length_waits_for_its_bytes() {
    let mut buffer = FrameBuffer::new();
    buffer.push(&encode_frame(b"ok").unwrap());
    buffer.push(&[255, 255, 255, 255, 9, 9]);
    assert_eq!(buffer.next_frame(), FrameStep::Frame(b"ok".to_vec()));
    assert_eq!(buffer.next_frame(), FrameStep::Incomplete);
    assert_eq!(buffer.len(), 6);
    assert_eq!(buffer.drain(), Vec::<Vec<u8>>::new());
    assert_eq!(buffer.len(), 6);
    let mut short = FrameBuffer::new();
    short.push(&[0, 0, 0]);
    assert_eq!(short.next_frame(), FrameStep::Incomplete);
    short.push(&[0]);
    assert_eq!(short.next_frame(), FrameStep::Frame(vec![]));
}
