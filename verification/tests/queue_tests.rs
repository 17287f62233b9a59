use cokacdir::queue::{
    decoded_text, handle_base64, hex_lower, key_of_digest, queue_file_name, queue_name_with,
    token_hash,
};

#[test]
fn base64_text_is_decoded() {
    assert_eq!(handle_base64("aGVsbG8="), Some("hello".to_string()));
    assert_eq!(handle_base64("7ZWc6riA"), Some("한글".to_string()));
    assert_eq!(handle_base64(""), Some(String::new()));
}

#[test]
fn what_is_no_base64_or_no_text_gives_nothing() {
    assert_eq!(handle_base64("***"), None);
    assert_eq!(handle_base64("aGVsbG8"), None);
    assert_eq!(handle_base64("/w=="), None);
    assert_eq!(decoded_text(None), None);
    assert_eq!(decoded_text(Some(vec![0xff, 0xfe])), None);
    assert_eq!(decoded_text(Some(vec![0x68, 0x69])), Some("hi".to_string()));
}

#[test]
fn bytes_are_written_as_two_digits_each() {
    assert_eq!(hex_lower(&[]), "");
    assert_eq!(hex_lower(&[0, 1, 2, 15, 16, 0xab, 0xff]), "0001020f10abff");
    assert_eq!(hex_lower(&[0x9a, 0x5c]), "9a5c");
}

#[test]
fn queue_files_are_named_by_time_and_digest() {
    assert_eq!(
        queue_file_name("2026-01-02-03-04-05", "678", "hello"),
        "2026-01-02-03-04-05-678.5d41402abc4b2a76b9719d911017c592.queue"
    );
    assert_eq!(
        queue_file_name("t", "0", ""),
        "t-0.d41d8cd98f00b204e9800998ecf8427e.queue"
    );
    assert_eq!(queue_name_with("t", "m", &[1, 0xfe]), "t-m.01fe.queue");
}

#[test]
fn a_token_is_known_by_a_short_key() {
    assert_eq!(token_hash("abc"), "ba7816bf8f01cfea");
    assert_eq!(token_hash(""), "e3b0c44298fc1c14");
    assert_eq!(key_of_digest(&[0, 1, 2, 3, 4, 5, 6, 0xff, 9, 9]), "00010203040506ff");
}

#[test]
fn hex_digits_agree_with_the_hex_crate() {
    let bytes: Vec<u8> = (0..=255u8).collect();
    assert_eq!(cokacdir::queue::hex_lower(&bytes), hex::encode(&bytes));
    assert_eq!(cokacdir::queue::hex_lower(&[]), hex::encode([0u8; 0]));
    assert_eq!(cokacdir::queue::hex_lower(&[0x0f, 0xa0]), "0fa0");
}
