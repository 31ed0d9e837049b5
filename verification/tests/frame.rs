use greetd::frame::{decode_length, encode};

#[test]
fn header_holds_the_length_in_native_order() {
    let frame = encode(b"hello");
    assert_eq!(frame[..4], 5u32.to_ne_bytes());
    assert_eq!(&frame[4..], b"hello");
}

#[test]
fn empty_payload_makes_a_bare_header() {
    assert_eq!(encode(b""), 0u32.to_ne_bytes());
}

#[test]
fn length_is_read_back() {
    for n in [0u32, 1, 255, 256, 65535, 65536, 0x0102_0304, u32::MAX] {
        assert_eq!(decode_length(n.to_ne_bytes()), n);
    }
}

#[test]
fn frames_in_a_row_come_apart_again() {
    let mut stream = Vec::new();
    for payload in [&b"one"[..], b"", b"three"] {
        stream.extend(encode(payload));
    }
    let mut found = Vec::new();
    let mut at = 0;
    while at < stream.len() {
        let len = decode_length([stream[at], stream[at + 1], stream[at + 2], stream[at + 3]]);
        found.push(stream[at + 4..at + 4 + len as usize].to_vec());
        at += 4 + len as usize;
    }
    assert_eq!(found, vec![b"one".to_vec(), b"".to_vec(), b"three".to_vec()]);
}
