use pager::error::{ProtocolViolation, TransportError};
use pager::wire::{
    decode_frame, decode_framed_message, decode_message, encode_frame, encode_framed_message,
    encode_message, frame_payload_len, Message, MAX_FRAME_LEN,
};

fn every_kind_of_message() -> Vec<Message> {
    vec![
        Message::FetchPage { gpa: 0x1000 },
        Message::PageData { gpa: 0x2000, data: vec![0xab; 4096] },
        Message::PageData { gpa: 7, data: vec![] },
        Message::SendPage { gpa: u64::MAX, data: (0..=255).collect() },
        Message::Ack,
        Message::Ping { timestamp: 0x0102030405060708 },
        Message::Pong { timestamp: 0 },
        Message::Error { message: String::from("page not found: \u{00e9}\u{4e16}") },
        Message::Error { message: String::new() },
    ]
}

#[test]
fn message_bytes_are_tag_then_fields() {
    assert_eq!(
        encode_message(&Message::FetchPage { gpa: 0x0102030405060708 }),
        vec![0, 0, 0, 0, 8, 7, 6, 5, 4, 3, 2, 1]
    );
    assert_eq!(
        encode_message(&Message::PageData { gpa: 1, data: vec![9, 8] }),
        vec![1, 0, 0, 0, 1, 0, 0, 0, 0, 0, 0, 0, 2, 0, 0, 0, 0, 0, 0, 0, 9, 8]
    );
    assert_eq!(
        encode_message(&Message::SendPage { gpa: 256, data: vec![5] }),
        vec![2, 0, 0, 0, 0, 1, 0, 0, 0, 0, 0, 0, 1, 0, 0, 0, 0, 0, 0, 0, 5]
    );
    assert_eq!(encode_message(&Message::Ack), vec![3, 0, 0, 0]);
    assert_eq!(
        encode_message(&Message::Ping { timestamp: 1 }),
        vec![4, 0, 0, 0, 1, 0, 0, 0, 0, 0, 0, 0]
    );
    assert_eq!(
        encode_message(&Message::Pong { timestamp: u64::MAX }),
        vec![5, 0, 0, 0, 255, 255, 255, 255, 255, 255, 255, 255]
    );
    assert_eq!(
        encode_message(&Message::Error { message: String::from("no") }),
        vec![6, 0, 0, 0, 2, 0, 0, 0, 0, 0, 0, 0, b'n', b'o']
    );
}

#[test]
fn message_bytes_agree_with_bincode() {
    assert_eq!(
        encode_message(&Message::FetchPage { gpa: 0xdead_beef }),
        bincode::serialize(&(0u32, 0xdead_beefu64)).unwrap()
    );
    let data: Vec<u8> = (0..4096u32).map(|i| (i % 251) as u8).collect();
    assert_eq!(
        encode_message(&Message::PageData { gpa: 42, data: data.clone() }),
        bincode::serialize(&(1u32, 42u64, data.clone())).unwrap()
    );
    assert_eq!(
        encode_message(&Message::SendPage { gpa: 43, data: data.clone() }),
        bincode::serialize(&(2u32, 43u64, data)).unwrap()
    );
    assert_eq!(encode_message(&Message::Ack), bincode::serialize(&3u32).unwrap());
    assert_eq!(
        encode_message(&Message::Ping { timestamp: 99 }),
        bincode::serialize(&(4u32, 99u64)).unwrap()
    );
    assert_eq!(
        encode_message(&Message::Pong { timestamp: 99 }),
        bincode::serialize(&(5u32, 99u64)).unwrap()
    );
    assert_eq!(
        encode_message(&Message::Error { message: String::from("gr\u{00fc}n") }),
        bincode::serialize(&(6u32, String::from("gr\u{00fc}n"))).unwrap()
    );
}

#[test]
fn bincode_reads_what_the_library_writes() {
    let bytes = encode_message(&Message::PageData { gpa: 77, data: vec![1, 2, 3] });
    let read: (u32, u64, Vec<u8>) = bincode::deserialize(&bytes).unwrap();
    assert_eq!(read, (1, 77, vec![1, 2, 3]));
    let written = bincode::serialize(&(6u32, String::from("remote failure"))).unwrap();
    assert_eq!(
        decode_message(&written),
        Ok(Message::Error { message: String::from("remote failure") })
    );
}

#[test]
fn every_message_round_trips() {
    for message in every_kind_of_message() {
        let bytes = encode_message(&message);
        assert_eq!(decode_message(&bytes), Ok(message.clone()));
        let frame = encode_framed_message(&message).unwrap();
        assert_eq!(decode_framed_message(&frame), Ok(message));
    }
}

#[test]
fn bytes_behind_a_message_are_ignored() {
    for message in every_kind_of_message() {
        let mut bytes = encode_message(&message);
        bytes.extend_from_slice(&[1, 2, 3]);
        assert_eq!(decode_message(&bytes), Ok(message));
    }
}

#[test]
fn every_truncated_message_is_malformed() {
    let malformed = TransportError::ProtocolError(ProtocolViolation::MalformedMessage);
    for message in every_kind_of_message() {
        let bytes = encode_message(&message);
        let step = if bytes.len() > 64 { 97 } else { 1 };
        let mut cut = 0;
        while cut < bytes.len() {
            assert_eq!(decode_message(&bytes[..cut]), Err(malformed.clone()));
            cut += step;
        }
        assert_eq!(decode_message(&bytes[..bytes.len() - 1]), Err(malformed.clone()));
    }
}

#[test]
fn unknown_tag_and_bad_text_are_malformed() {
    let malformed = TransportError::ProtocolError(ProtocolViolation::MalformedMessage);
    assert_eq!(decode_message(&[7, 0, 0, 0]), Err(malformed.clone()));
    assert_eq!(decode_message(&[0, 1, 0, 0, 0, 0, 0, 0, 0, 0, 0, 0]), Err(malformed.clone()));
    assert_eq!(decode_message(&[]), Err(malformed.clone()));
    // an error text that is not UTF-8
    assert_eq!(
        decode_message(&[6, 0, 0, 0, 2, 0, 0, 0, 0, 0, 0, 0, 0xff, 0xfe]),
        Err(malformed.clone())
    );
    // a length field far beyond the payload
    assert_eq!(
        decode_message(&[1, 0, 0, 0, 0, 0, 0, 0, 0, 0, 0, 0, 255, 255, 255, 255, 255, 255, 255, 255]),
        Err(malformed)
    );
}

#[test]
fn frame_is_big_endian_length_then_payload() {
    assert_eq!(encode_frame(&[]), Ok(vec![0, 0, 0, 0]));
    assert_eq!(encode_frame(&[9, 8, 7]), Ok(vec![0, 0, 0, 3, 9, 8, 7]));
    let payload = vec![1u8; 0x0102];
    let frame = encode_frame(&payload).unwrap();
    assert_eq!(&frame[..4], &[0, 0, 1, 2]);
    assert_eq!(&frame[4..], &payload[..]);
    assert_eq!(decode_frame(&frame), Ok(payload));
}

#[test]
fn frame_header_gives_the_payload_length() {
    assert_eq!(frame_payload_len(&[0, 0, 0, 0]), Ok(0));
    assert_eq!(frame_payload_len(&[0, 0, 0x10, 0x14]), Ok(4116));
    assert_eq!(frame_payload_len(&[0, 0xa0, 0, 0]), Ok(MAX_FRAME_LEN));
}

#[test]
fn oversized_frame_is_rejected_on_the_header() {
    let too_large = TransportError::ProtocolError(ProtocolViolation::FrameTooLarge);
    assert_eq!(MAX_FRAME_LEN, 10 * 1024 * 1024);
    assert_eq!(frame_payload_len(&[0, 0xa0, 0, 1]), Err(too_large.clone()));
    assert_eq!(frame_payload_len(&[255, 255, 255, 255]), Err(too_large.clone()));
    // the header alone decides: no payload needs to be there
    assert_eq!(decode_frame(&[0, 0xa0, 0, 1]), Err(too_large.clone()));
    assert_eq!(decode_frame(&[1, 0, 0, 0, 5, 5]), Err(too_large.clone()));
    let payload = vec![0u8; MAX_FRAME_LEN + 1];
    assert_eq!(encode_frame(&payload), Err(too_large.clone()));
    let message = Message::PageData { gpa: 0, data: vec![0u8; MAX_FRAME_LEN] };
    assert_eq!(encode_framed_message(&message), Err(too_large));
}

#[test]
fn largest_frame_is_accepted() {
    let payload = vec![3u8; MAX_FRAME_LEN];
    let frame = encode_frame(&payload).unwrap();
    assert_eq!(frame.len(), MAX_FRAME_LEN + 4);
    assert_eq!(decode_frame(&frame), Ok(payload));
}

#[test]
fn truncated_frame_is_a_protocol_error() {
    let truncated = TransportError::ProtocolError(ProtocolViolation::Truncated);
    let frame = encode_framed_message(&Message::Ping { timestamp: 5 }).unwrap();
    for cut in 0..frame.len() {
        assert_eq!(decode_frame(&frame[..cut]), Err(truncated.clone()));
        assert_eq!(decode_framed_message(&frame[..cut]), Err(truncated.clone()));
    }
    assert!(decode_frame(&frame).is_ok());
}

#[test]
fn frame_with_a_payload_that_is_no_message() {
    let frame = encode_frame(&[9, 9, 9, 9]).unwrap();
    assert_eq!(
        decode_framed_message(&frame),
        Err(TransportError::ProtocolError(ProtocolViolation::MalformedMessage))
    );
}

#[test]
fn page_message_fits_a_frame() {
    let message = Message::PageData { gpa: 0x5000, data: vec![0x5a; 4096] };
    let frame = encode_framed_message(&message).unwrap();
    assert_eq!(frame.len(), 4 + 4 + 8 + 8 + 4096);
    assert_eq!(&frame[..4], &[0, 0, 0x10, 0x14]);
}
