use anchor_lang::prelude::Pubkey;
use range::error::ErrorCode;
use range::key::pubkey_from_string;
use range::message::{extract_message, timestamp_from_string};

fn key_text(bytes: [u8; 32]) -> String {
    Pubkey::new_from_array(bytes).to_string()
}

#[test]
fn timestamp_reads_decimal_digits() {
    assert_eq!(timestamp_from_string(b"995"), Ok(995));
    assert_eq!(timestamp_from_string(b"0"), Ok(0));
    assert_eq!(timestamp_from_string(b"000123"), Ok(123));
    assert_eq!(timestamp_from_string(b"+7"), Ok(7));
}

#[test]
fn timestamp_reads_the_largest_u64() {
    assert_eq!(timestamp_from_string(b"18446744073709551615"), Ok(u64::MAX));
}

#[test]
fn timestamp_past_u64_fails() {
    assert_eq!(
        timestamp_from_string(b"18446744073709551616"),
        Err(ErrorCode::TimestampParsingFailed)
    );
    assert_eq!(
        timestamp_from_string(b"100000000000000000000"),
        Err(ErrorCode::TimestampParsingFailed)
    );
}

#[test]
fn timestamp_non_numeric_fails() {
    for text in [&b""[..], b"+", b"-1", b"-", b"12a", b"a12", b" 12", b"1.5", b"++1", b"abc"] {
        assert_eq!(timestamp_from_string(text), Err(ErrorCode::TimestampParsingFailed));
    }
}

#[test]
fn pubkey_reads_base58_text() {
    let bytes = [7u8; 32];
    let text = key_text(bytes);
    let key = pubkey_from_string(text.as_bytes()).unwrap();
    assert_eq!(key.bytes, bytes);
}

#[test]
fn pubkey_malformed_fails() {
    // '0', 'O', 'I' and 'l' are not base58 digits.
    for text in ["", "0", "OOOO", "not a key", "11111111111111111111111111111111111111111111111"] {
        assert!(matches!(
            pubkey_from_string(text.as_bytes()),
            Err(ErrorCode::PubkeyParsingFailed)
        ));
    }
    // Valid base58, but too short for 32 bytes.
    assert!(matches!(pubkey_from_string(b"abc"), Err(ErrorCode::PubkeyParsingFailed)));
}

#[test]
fn message_splits_into_timestamp_and_key() {
    let bytes = [9u8; 32];
    let message = format!("995_{}", key_text(bytes));
    let decoded = extract_message(message.as_bytes()).unwrap();
    assert_eq!(decoded.timestamp, 995);
    assert_eq!(decoded.pubkey.bytes, bytes);
}

#[test]
fn message_without_separator_fails() {
    let message = format!("995{}", key_text([9u8; 32]));
    assert!(matches!(
        extract_message(message.as_bytes()),
        Err(ErrorCode::WrongMessageSplitLength)
    ));
    assert!(matches!(extract_message(b""), Err(ErrorCode::WrongMessageSplitLength)));
}

#[test]
fn message_with_two_separators_fails() {
    let key = key_text([9u8; 32]);
    for message in [format!("995_{}_", key), format!("_995_{}", key), format!("9_9_{}", key)] {
        assert!(matches!(
            extract_message(message.as_bytes()),
            Err(ErrorCode::WrongMessageSplitLength)
        ));
    }
    assert!(matches!(extract_message(b"__"), Err(ErrorCode::WrongMessageSplitLength)));
}

#[test]
fn message_with_non_numeric_timestamp_fails() {
    let key = key_text([9u8; 32]);
    for stamp in ["", "abc", "-5", "99x", "18446744073709551616"] {
        let message = format!("{}_{}", stamp, key);
        assert!(matches!(
            extract_message(message.as_bytes()),
            Err(ErrorCode::TimestampParsingFailed)
        ));
    }
}

#[test]
fn message_with_malformed_key_fails() {
    for key in ["", "0OIl", "abc", "not-a-key"] {
        let message = format!("995_{}", key);
        assert!(matches!(
            extract_message(message.as_bytes()),
            Err(ErrorCode::PubkeyParsingFailed)
        ));
    }
}

#[test]
fn message_with_invalid_utf8_in_key_fails() {
    let mut message = b"995_".to_vec();
    message.extend_from_slice(&[0xff, 0xfe]);
    assert!(matches!(extract_message(&message), Err(ErrorCode::PubkeyParsingFailed)));
}
