use prover::codec::{bytes_to_hex, parse_address, parse_hash, u64_to_decimal};
use prover::error::ProofError;

#[test]
fn hash_round_trip_lowercase() {
    let text = "0123456789abcdef".repeat(4);
    assert_eq!(text.len(), 64);
    let bytes = parse_hash(&text).expect("valid hash text must decode");
    assert_eq!(bytes.len(), 32);
    assert_eq!(bytes_to_hex(&bytes), text);
}

#[test]
fn hash_decode_matches_reference_decoder() {
    let text = "a1b2c3d4".repeat(8);
    let bytes = parse_hash(&text).expect("valid hash text must decode");
    assert_eq!(bytes, hex::decode(&text).unwrap());
    assert_eq!(bytes[0], 0xa1);
    assert_eq!(bytes[31], 0xd4);
}

#[test]
fn uppercase_decodes_and_reencodes_lowercase() {
    let upper = "AB".repeat(32);
    let bytes = parse_hash(&upper).expect("uppercase digits are valid");
    assert_eq!(bytes, vec![0xabu8; 32]);
    assert_eq!(bytes_to_hex(&bytes), "ab".repeat(32));
}

#[test]
fn non_hex_text_fails() {
    let bad = "zz".repeat(32);
    assert_eq!(bad.len(), 64);
    assert!(matches!(parse_hash(&bad), Err(ProofError::InvalidInput)));
}

#[test]
fn odd_length_fails() {
    assert!(matches!(parse_hash("abc"), Err(ProofError::InvalidInput)));
}

#[test]
fn wrong_width_fails() {
    let short = "ab".repeat(31);
    assert!(matches!(parse_hash(&short), Err(ProofError::InvalidInput)));
    let hash_sized = "ab".repeat(32);
    assert!(matches!(parse_address(&hash_sized), Err(ProofError::InvalidInput)));
}

#[test]
fn address_decodes_at_its_width() {
    let text = "deadbeef00".repeat(4);
    assert_eq!(text.len(), 40);
    let bytes = parse_address(&text).expect("valid address text must decode");
    assert_eq!(bytes.len(), 20);
    assert_eq!(bytes, hex::decode(&text).unwrap());
}

#[test]
fn empty_text_is_not_a_hash() {
    assert!(matches!(parse_hash(""), Err(ProofError::InvalidInput)));
}

#[test]
fn encoding_renders_each_byte_as_two_digits() {
    let bytes = vec![0x00u8, 0x0f, 0xff, 0x10];
    assert_eq!(bytes_to_hex(&bytes), "000fff10");
    assert_eq!(bytes_to_hex(&Vec::new()), "");
}

#[test]
fn decimal_rendering_is_exact() {
    assert_eq!(u64_to_decimal(0), "0");
    assert_eq!(u64_to_decimal(7), "7");
    assert_eq!(u64_to_decimal(10), "10");
    assert_eq!(u64_to_decimal(50000), "50000");
    assert_eq!(u64_to_decimal(u64::MAX), "18446744073709551615");
}

#[test]
fn error_messages_name_their_class() {
    assert_eq!(ProofError::InvalidInput.message(), "invalid request input");
    assert_eq!(ProofError::CapacityExhausted.message(), "no circuit parameters found");
    assert_eq!(ProofError::Engine.message(), "proof computation failed");
    assert_eq!(ProofError::SelfVerification.message(), "proof self-verification failed");
    assert_eq!(ProofError::Aggregation.message(), "aggregation failed");
    assert_eq!(ProofError::Infrastructure.message(), "resource failure");
}

#[test]
fn only_transient_failures_retry() {
    assert!(ProofError::Engine.should_retry(true));
    assert!(ProofError::Infrastructure.should_retry(true));
    assert!(!ProofError::Engine.should_retry(false));
    assert!(!ProofError::InvalidInput.should_retry(true));
    assert!(!ProofError::CapacityExhausted.should_retry(true));
    assert!(!ProofError::SelfVerification.should_retry(true));
    assert!(!ProofError::Aggregation.should_retry(true));
}
