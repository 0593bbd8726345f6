use liquidators::networking::{decode_header, encode_header, headered_frame, receive_payload, ReceiveError};

fn split(frame: &[u8]) -> ([u8; 8], &[u8]) {
    let mut header = [0u8; 8];
    header.copy_from_slice(&frame[..8]);
    (header, &frame[8..])
}

#[test]
fn header_is_big_endian() {
    assert_eq!(encode_header(0x0102030405060708), [1, 2, 3, 4, 5, 6, 7, 8]);
    assert_eq!(encode_header(5), [0, 0, 0, 0, 0, 0, 0, 5]);
    assert_eq!(decode_header(&[0, 0, 0, 0, 0, 0, 1, 0]), 256);
}

#[test]
fn header_roundtrip() {
    for n in [0u64, 1, 255, 256, 65_535, 1 << 40, u64::MAX] {
        assert_eq!(decode_header(&encode_header(n)), n);
    }
}

#[test]
fn frame_header_measures_compressed_payload() {
    let data = vec![7u8; 1000];
    let frame = headered_frame(&data);
    let (header, payload) = split(&frame);
    assert_eq!(decode_header(&header) as usize, payload.len());
    // the payload is compressed with the uncompressed size prepended (little endian)
    assert_eq!(&payload[..4], &1000u32.to_le_bytes());
    assert!(payload.len() < data.len());
}

#[test]
fn frame_roundtrip() {
    for data in [Vec::new(), b"hello".to_vec(), (0..=255u8).cycle().take(5000).collect::<Vec<u8>>()] {
        let frame = headered_frame(&data);
        let (header, payload) = split(&frame);
        let len = decode_header(&header) as usize;
        assert_eq!(len, payload.len());
        match receive_payload(&payload[..len]) {
            Ok(v) => assert_eq!(v, data),
            Err(_) => panic!("a sent payload must decompress"),
        }
    }
}

#[test]
fn corrupt_payload_is_rejected() {
    // too short to hold the size prefix
    assert!(matches!(receive_payload(&[1, 2]), Err(ReceiveError::Decompress)));
    // announces 10 bytes but holds no LZ4 data
    assert!(matches!(receive_payload(&[10, 0, 0, 0]), Err(ReceiveError::Decompress)));
}

#[test]
fn overflowing_length_is_refused() {
    // a size prefix of 0, the literal-length token, then a run of 0xFF long
    // enough to pass u32::MAX when summed: refused, without panicking
    let mut payload = vec![0u8, 0, 0, 0, 0xF0];
    payload.resize(5 + 16_843_010, 0xFF);
    assert!(matches!(receive_payload(&payload), Err(ReceiveError::Decompress)));
    // the same with a large announced size
    payload[..4].copy_from_slice(&u32::MAX.to_le_bytes());
    assert!(matches!(receive_payload(&payload), Err(ReceiveError::Decompress)));
    // a literal length beyond the announced size is refused too
    assert!(matches!(receive_payload(&[3, 0, 0, 0, 0xF0, 0x05]), Err(ReceiveError::Decompress)));
}

#[test]
fn large_message_roundtrip() {
    // a message that compresses to more than 8 MiB still comes back
    let mut data = Vec::with_capacity(10_000_000);
    let mut x: u32 = 12345;
    for _ in 0..10_000_000 {
        x = x.wrapping_mul(1_103_515_245).wrapping_add(12_345);
        data.push((x >> 16) as u8);
    }
    let frame = headered_frame(&data);
    let (header, payload) = split(&frame);
    assert!(payload.len() > 8 * 1024 * 1024);
    assert_eq!(decode_header(&header) as usize, payload.len());
    match receive_payload(payload) {
        Ok(v) => assert_eq!(v, data),
        Err(_) => panic!("a sent payload must decompress"),
    }
}
