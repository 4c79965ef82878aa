use yuha::message_channel::{encode_frame, FrameDecoder, MAX_PAYLOAD};
use yuha::simple_error::{ChannelError, YuhaError};
use yuha::text::{parse_u16, parse_u64};

#[test]
fn frames_carry_a_big_endian_length() {
    let frame = encode_frame(b"Hello, server!").unwrap();
    assert_eq!(&frame[..2], &[0, 14]);
    assert_eq!(&frame[2..], b"Hello, server!");
    let long = vec![7u8; 300];
    let framed = encode_frame(&long).unwrap();
    assert_eq!(&framed[..2], &[1, 44]);
}

#[test]
fn oversized_payloads_are_refused() {
    let payload = vec![0u8; MAX_PAYLOAD + 1];
    match encode_frame(&payload) {
        Err(YuhaError::Channel(ChannelError::BufferOverflow { size })) => assert_eq!(size, MAX_PAYLOAD + 1),
        _ => panic!("a payload over the limit is refused"),
    }
    assert!(encode_frame(&vec![0u8; MAX_PAYLOAD]).is_ok());
}

#[test]
fn decoder_reads_back_what_was_written_in_pieces() {
    let mut stream = encode_frame(b"first").unwrap();
    stream.extend(encode_frame(b"").unwrap());
    stream.extend(encode_frame(b"third").unwrap());
    let mut decoder = FrameDecoder::new();
    decoder.push_bytes(&stream[..3]);
    assert_eq!(decoder.next_frame(), None);
    assert_eq!(decoder.buffered_len(), 3);
    decoder.push_bytes(&stream[3..]);
    assert_eq!(decoder.next_frame(), Some(b"first".to_vec()));
    assert_eq!(decoder.next_frame(), Some(Vec::new()));
    assert_eq!(decoder.next_frame(), Some(b"third".to_vec()));
    assert_eq!(decoder.next_frame(), None);
    assert_eq!(decoder.buffered_len(), 0);
}

#[test]
fn numbers_parse_as_std_does() {
    assert_eq!(parse_u16("22"), Some(22));
    assert_eq!(parse_u16("+65535"), Some(65535));
    assert_eq!(parse_u16("65536"), None);
    assert_eq!(parse_u16(""), None);
    assert_eq!(parse_u16("+"), None);
    assert_eq!(parse_u16("-1"), None);
    assert_eq!(parse_u16("1a"), None);
    assert_eq!(parse_u64("18446744073709551615"), Some(u64::MAX));
    assert_eq!(parse_u64("18446744073709551616"), None);
    assert_eq!(parse_u64("0030"), Some(30));
}
