use telepath::common::error::PacketError;
use telepath::common::packet::{now_us, timestamp_from_elapsed, AudioPacket, HEADER_SIZE, MAX_FRAMES, MAX_PACKET_BYTES};

fn sample_bits(v: &[f32]) -> Vec<u32> {
    v.iter().map(|s| s.to_bits()).collect()
}

#[test]
fn encode_writes_header_and_samples_little_endian() {
    let pkt = AudioPacket { seq: 0x0102_0304, timestamp_us: 0x1122_3344_5566_7788, samples: sample_bits(&[1.0, -0.5]) };
    let bytes = pkt.encode().unwrap();
    let mut expected = vec![0x04, 0x03, 0x02, 0x01, 0x88, 0x77, 0x66, 0x55, 0x44, 0x33, 0x22, 0x11, 0x02, 0x00];
    expected.extend_from_slice(&1.0f32.to_le_bytes());
    expected.extend_from_slice(&(-0.5f32).to_le_bytes());
    assert_eq!(bytes, expected);
    assert_eq!(bytes.len(), HEADER_SIZE + 2 * 4);
}

#[test]
fn decode_of_encode_gives_packet_back() {
    let pkt = AudioPacket { seq: 7, timestamp_us: 123_456_789, samples: sample_bits(&[0.25, -1.0, 0.0, 0.75]) };
    let bytes = pkt.encode().unwrap();
    assert_eq!(AudioPacket::decode(&bytes).unwrap(), pkt);
}

#[test]
fn empty_packet_is_only_a_header() {
    let pkt = AudioPacket { seq: 1, timestamp_us: 2, samples: vec![] };
    let bytes = pkt.encode().unwrap();
    assert_eq!(bytes.len(), HEADER_SIZE);
    assert_eq!(AudioPacket::decode(&bytes).unwrap(), pkt);
}

#[test]
fn full_packet_has_the_largest_size() {
    let pkt = AudioPacket { seq: 0, timestamp_us: 0, samples: vec![0x3f80_0000; MAX_FRAMES] };
    let bytes = pkt.encode().unwrap();
    assert_eq!(bytes.len(), MAX_PACKET_BYTES);
    assert_eq!(AudioPacket::decode(&bytes).unwrap(), pkt);
}

#[test]
fn too_many_frames_is_refused() {
    let pkt = AudioPacket { seq: 0, timestamp_us: 0, samples: vec![0; MAX_FRAMES + 1] };
    assert_eq!(pkt.encode(), Err(PacketError::TooManyFrames(MAX_FRAMES + 1)));
    let mut buf = [0u8; 8192];
    assert_eq!(pkt.encode_into(&mut buf), Err(PacketError::TooManyFrames(MAX_FRAMES + 1)));
    assert!(buf.iter().all(|b| *b == 0));
}

#[test]
fn small_buffer_is_refused_and_left_alone() {
    let pkt = AudioPacket { seq: 0, timestamp_us: 0, samples: vec![1, 2, 3] };
    let mut buf = [0xaau8; 20];
    assert_eq!(pkt.encode_into(&mut buf), Err(PacketError::BufferTooSmall { need: 26, got: 20 }));
    assert!(buf.iter().all(|b| *b == 0xaa));
}

#[test]
fn encode_into_leaves_the_rest_of_the_buffer() {
    let pkt = AudioPacket { seq: 9, timestamp_us: 10, samples: vec![0xdead_beef] };
    let mut buf = [0xeeu8; 24];
    assert_eq!(pkt.encode_into(&mut buf), Ok(18));
    assert_eq!(&buf[..18], pkt.encode().unwrap().as_slice());
    assert!(buf[18..].iter().all(|b| *b == 0xee));
}

#[test]
fn short_datagram_is_too_short() {
    assert_eq!(AudioPacket::decode(&[0u8; 13]), Err(PacketError::TooShort { got: 13 }));
    assert_eq!(AudioPacket::decode(&[]), Err(PacketError::TooShort { got: 0 }));
}

#[test]
fn truncated_datagram_names_expected_length() {
    let mut bytes = vec![0u8; 14];
    bytes[12] = 3;
    bytes.extend_from_slice(&[0u8; 5]);
    assert_eq!(AudioPacket::decode(&bytes), Err(PacketError::Truncated { expected: 26, got: 19 }));
}

#[test]
fn trailing_bytes_are_ignored() {
    let pkt = AudioPacket { seq: 3, timestamp_us: 4, samples: vec![5, 6] };
    let mut bytes = pkt.encode().unwrap();
    bytes.extend_from_slice(&[1, 2, 3]);
    assert_eq!(AudioPacket::decode(&bytes).unwrap(), pkt);
}

#[test]
fn decoded_packet_may_exceed_max_frames_but_not_reencode() {
    let n = MAX_FRAMES + 2;
    let mut bytes = vec![0u8; HEADER_SIZE + 4 * n];
    bytes[12] = (n % 256) as u8;
    bytes[13] = (n / 256) as u8;
    let pkt = AudioPacket::decode(&bytes).unwrap();
    assert_eq!(pkt.samples.len(), n);
    assert_eq!(pkt.encode(), Err(PacketError::TooManyFrames(n)));
}

#[test]
fn timestamp_of_elapsed_time() {
    assert_eq!(timestamp_from_elapsed(None), 0);
    assert_eq!(timestamp_from_elapsed(Some(1_700_000_000_000_000)), 1_700_000_000_000_000);
    assert_eq!(timestamp_from_elapsed(Some((1u128 << 64) + 5)), 5);
}

#[test]
fn clock_reads_after_2020() {
    let t = now_us();
    assert!(t > 1_577_836_800_000_000);
    assert!(now_us() >= t);
}
