use loupedeck::FrameReader;

#[test]
fn a_frame_gives_its_payload() {
    let mut reader = FrameReader::new();
    assert_eq!(reader.feed(0x82), None);
    assert_eq!(reader.feed(0x03), None);
    assert_eq!(reader.feed(0x04), None);
    assert_eq!(reader.feed(0x10), None);
    assert_eq!(reader.feed(0x07), Some(vec![0x04, 0x10, 0x07]));
    // and the reader is between frames again
    assert_eq!(reader.feed(0x07), None);
    assert_eq!(reader.feed(0x82), None);
    assert_eq!(reader.feed(0x01), None);
    assert_eq!(reader.feed(0xEE), Some(vec![0xEE]));
}

#[test]
fn bytes_before_the_marker_are_skipped() {
    let mut reader = FrameReader::new();
    let payloads: Vec<Vec<u8>> =
        reader.feed_all(&[0x00, 0xFF, 0x81, 0x83, 0x82, 0x02, 0xAA, 0xBB, 0x01, 0x02]);
    assert_eq!(payloads, vec![vec![0xAA, 0xBB]]);
}

#[test]
fn the_marker_inside_a_payload_is_payload() {
    let mut reader = FrameReader::new();
    let payloads: Vec<Vec<u8>> =
        reader.feed_all(&[0x82, 0x03, 0x82, 0x82, 0x82, 0x82, 0x01, 0x82]);
    assert_eq!(payloads, vec![vec![0x82, 0x82, 0x82], vec![0x82]]);
}

#[test]
fn a_length_of_zero_gives_an_empty_payload() {
    let mut reader = FrameReader::new();
    assert_eq!(reader.feed(0x82), None);
    assert_eq!(reader.feed(0x00), Some(Vec::new()));
    assert_eq!(reader.feed_all(&[0x82, 0x00, 0x82, 0x00]), vec![Vec::<u8>::new(), Vec::new()]);
}

#[test]
fn the_length_byte_is_read_as_it_stands() {
    let mut reader = FrameReader::new();
    let mut stream: Vec<u8> = vec![0x82, 0xFF];
    stream.extend_from_slice(&[0x5A; 255]);
    stream.extend_from_slice(&[0x82, 0x80]);
    stream.extend_from_slice(&[0xA5; 128]);
    let payloads: Vec<Vec<u8>> = reader.feed_all(&stream);
    assert_eq!(payloads, vec![vec![0x5A; 255], vec![0xA5; 128]]);
}

#[test]
fn frames_may_come_in_any_pieces() {
    let stream: Vec<u8> =
        vec![0x09, 0x82, 0x02, 0x01, 0x02, 0x82, 0x00, 0x33, 0x82, 0x01, 0x82, 0x82, 0x03, 7, 8, 9];
    let mut whole = FrameReader::new();
    let expected: Vec<Vec<u8>> = whole.feed_all(&stream);
    assert_eq!(expected, vec![vec![1, 2], vec![], vec![0x82], vec![7, 8, 9]]);
    for cut in 0..=stream.len() {
        let mut reader = FrameReader::new();
        let mut payloads: Vec<Vec<u8>> = reader.feed_all(&stream[..cut]);
        payloads.extend(reader.feed_all(&stream[cut..]));
        assert_eq!(payloads, expected);
    }
    let mut byte_by_byte = FrameReader::new();
    let mut payloads: Vec<Vec<u8>> = Vec::new();
    for byte in &stream {
        if let Some(payload) = byte_by_byte.feed(*byte) {
            payloads.push(payload);
        }
    }
    assert_eq!(payloads, expected);
}

#[test]
fn an_unfinished_frame_gives_nothing_yet() {
    let mut reader = FrameReader::new();
    assert_eq!(reader.feed_all(&[0x82, 0x04, 1, 2, 3]), Vec::<Vec<u8>>::new());
    assert_eq!(reader.feed_all(&[]), Vec::<Vec<u8>>::new());
    assert_eq!(reader.feed_all(&[4]), vec![vec![1, 2, 3, 4]]);
}
