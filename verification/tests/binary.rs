use jrs::binary::{decode_binary, JBin};
use jrs::error::JError;

/// Lays out an engine binary record: four header words, then the shape
/// words, then the payload bytes.
fn record(flag: i64, tag: i64, count: i64, rank: i64, shape: &[i64], payload: &[u8]) -> Vec<u8> {
    let mut b = Vec::new();
    for w in [flag, tag, count, rank] {
        b.extend_from_slice(&w.to_le_bytes());
    }
    for w in shape {
        b.extend_from_slice(&w.to_le_bytes());
    }
    b.extend_from_slice(payload);
    b
}

#[test]
fn binary_literal_vector() {
    let b = record(0, 2, 3, 1, &[3], b"abc");
    let r = decode_binary(&b).unwrap();
    assert_eq!(
        r,
        JBin { rank: 1, shape: vec![3], tag: 2, data: b"abc".to_vec() }
    );
}

#[test]
fn binary_literal_scalar() {
    let b = record(0, 2, 1, 0, &[], b"x");
    let r = decode_binary(&b).unwrap();
    assert_eq!(
        r,
        JBin { rank: 0, shape: vec![], tag: 2, data: b"x".to_vec() }
    );
}

#[test]
fn binary_literal_matrix() {
    let b = record(0, 2, 6, 2, &[2, 3], b"abcdef");
    let r = decode_binary(&b).unwrap();
    assert_eq!(
        r,
        JBin { rank: 2, shape: vec![2, 3], tag: 2, data: b"abcdef".to_vec() }
    );
}

#[test]
fn binary_reads_no_byte_beyond_count() {
    // trailing bytes past the counted payload are not part of the capture
    let b = record(0, 2, 2, 1, &[2], b"abXYZ");
    let r = decode_binary(&b).unwrap();
    assert_eq!(r.data, b"ab".to_vec());
}

#[test]
fn binary_integer_tag_is_type_mismatch() {
    // an integer value is not a literal capture
    let b = record(0, 4, 1, 0, &[], &1i64.to_le_bytes());
    assert_eq!(decode_binary(&b), Err(JError::TypeMismatch));
}

#[test]
fn binary_boxed_tag_is_type_mismatch() {
    let b = record(0, 32, 0, 1, &[0], b"");
    assert_eq!(decode_binary(&b), Err(JError::TypeMismatch));
}

#[test]
fn binary_short_header_is_malformed() {
    assert_eq!(decode_binary(b""), Err(JError::Malformed));
    assert_eq!(decode_binary(&[0u8; 31]), Err(JError::Malformed));
}

#[test]
fn binary_overlong_rank_is_malformed() {
    // a rank word claiming more shape words than the buffer holds
    let b = record(0, 2, 0, 5, &[], b"");
    assert_eq!(decode_binary(&b), Err(JError::Malformed));
}

#[test]
fn binary_overlong_count_is_malformed() {
    // a count word claiming more payload bytes than the buffer holds
    let b = record(0, 2, 4, 1, &[4], b"ab");
    assert_eq!(decode_binary(&b), Err(JError::Malformed));
}

#[test]
fn binary_negative_rank_is_malformed() {
    // a negative rank word is no size at all
    let b = record(0, 2, 0, -1, &[], b"");
    assert_eq!(decode_binary(&b), Err(JError::Malformed));
}

#[test]
fn binary_type_checked_before_sizes() {
    // a complete header with the wrong tag is a type mismatch even when
    // its claimed sizes are nonsense
    let b = record(0, 4, i64::MAX, i64::MAX, &[], b"");
    assert_eq!(decode_binary(&b), Err(JError::TypeMismatch));
}
