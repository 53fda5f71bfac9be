use ataraxia::codec::{ByteWriter, CodecError};
use ataraxia::crypto::{
    build_counter, encode_base64, generate_counter, generate_hmac_auth_tag, truncate_auth_tag,
    CryptoError, EncryptionStrategy, MasterKey, SessionContext,
};
use ataraxia::rtp::{MediaState, RtpError};

#[test]
fn next_sequence_wraps_at_the_top() {
    assert_eq!(EncryptionStrategy::next_sequence(65535), 0);
    assert_eq!(EncryptionStrategy::next_sequence(0), 1);
    assert_eq!(EncryptionStrategy::next_sequence(1234), 1235);
    assert_eq!(EncryptionStrategy::next_sequence(65534), 65535);
}

#[test]
fn rollover_counts_wraps_only() {
    let mut m = MediaState::new(9, 65534);
    assert_eq!(m.advance(), Ok(()));
    assert_eq!((m.sequence, m.rollover), (65535, 0));
    assert_eq!(m.advance(), Ok(()));
    assert_eq!((m.sequence, m.rollover), (0, 1));
    assert_eq!(m.advance(), Ok(()));
    assert_eq!((m.sequence, m.rollover), (1, 1));
    assert_eq!(m.ssrc, 9);
}

#[test]
fn exhausted_stream_refuses_to_advance() {
    let mut m = MediaState { ssrc: 1, sequence: 65535, rollover: u32::MAX };
    assert_eq!(m.advance(), Err(RtpError::SequenceExhausted));
    assert_eq!((m.sequence, m.rollover), (65535, u32::MAX));
}

#[test]
fn counter_for_zero_salt() {
    let iv = build_counter(1, 0, 1, &[0u8; 14]);
    assert_eq!(iv.len(), 16);
    assert_eq!(&iv[0..4], &[0, 0, 0, 0]);
    assert_eq!(&iv[4..8], &1u32.to_be_bytes());
    assert_eq!(&iv[8..12], &[0, 0, 0, 0]);
    assert_eq!(&iv[12..16], &(1u32 << 16).to_be_bytes());
}

#[test]
fn counter_applies_salt_bytewise() {
    let salt: Vec<u8> = (1..=14).collect();
    let iv = build_counter(0x01020304, 5, 0x0a0b, &salt);
    let block: Vec<u8> = vec![0, 0, 0, 0, 1, 2, 3, 4, 0, 0, 0, 5, 0x0a, 0x0b, 0, 0];
    let expected: Vec<u8> = (0..16).map(|i| if i < 14 { block[i] ^ salt[i] } else { block[i] }).collect();
    assert_eq!(iv, expected);
}

#[test]
fn counter_is_deterministic_and_input_sensitive() {
    let salt = [7u8; 14];
    let a = build_counter(10, 2, 300, &salt);
    assert_eq!(a, build_counter(10, 2, 300, &salt));
    assert_ne!(a, build_counter(11, 2, 300, &salt));
    assert_ne!(a, build_counter(10, 3, 300, &salt));
    assert_ne!(a, build_counter(10, 2, 301, &salt));
    assert_ne!(a, build_counter(10, 2, 300, &[8u8; 14]));
}

#[test]
fn counter_refused_by_full_cursor() {
    let mut cursor = ByteWriter::with_size(8, None);
    assert_eq!(generate_counter(&mut cursor, 1, 0, 1, &[0u8; 14]), Err(CodecError::BufferFull));
    assert!(cursor.data.is_empty());
}

#[test]
fn auth_tag_is_truncated_hmac_sha1() {
    // "Hi T" followed by the rollover counter 0x68657265 ("here") is the
    // message of the RFC 2202 HMAC-SHA1 test case with key 0x0b * 20.
    let tag = generate_hmac_auth_tag(&[0x0b; 20], b"Hi T", 0x68657265);
    assert_eq!(tag, vec![0xb6, 0x17, 0x31, 0x86, 0x55, 0x05, 0x72, 0x64, 0xe2, 0x8b]);
}

#[test]
fn truncation_keeps_first_ten_bytes() {
    let mac: Vec<u8> = (0..20).collect();
    assert_eq!(truncate_auth_tag(&mac), (0..10).collect::<Vec<u8>>());
}

#[test]
fn master_key_in_base64() {
    let key = MasterKey::new(b"0123456789abcdef".to_vec(), b"ghijklmnopqrst".to_vec()).ok().unwrap();
    assert_eq!(key.get_base64(), "MDEyMzQ1Njc4OWFiY2RlZmdoaWprbG1ub3BxcnN0");
    assert_eq!(encode_base64(b"ab"), "YWI=");
}

#[test]
fn master_key_lengths_checked() {
    assert!(matches!(MasterKey::new(vec![0; 15], vec![0; 14]), Err(CryptoError::KeyLengthMismatch)));
    assert!(matches!(MasterKey::new(vec![0; 16], vec![0; 13]), Err(CryptoError::KeyLengthMismatch)));
    let fresh = MasterKey::generate();
    assert_eq!(fresh.key_material().len(), 30);
}

#[test]
fn session_key_lengths_checked() {
    assert!(SessionContext::new(vec![0; 16], vec![0; 20], vec![0; 14]).is_ok());
    assert!(matches!(
        SessionContext::new(vec![0; 16], vec![0; 19], vec![0; 14]),
        Err(CryptoError::KeyLengthMismatch)
    ));
}

#[test]
fn counter_appended_after_existing_bytes() {
    let mut cursor = ByteWriter::new(None);
    assert_eq!(cursor.write_u16(0xabcd, None), Ok(()));
    assert_eq!(generate_counter(&mut cursor, 1, 0, 1, &[0u8; 14]), Ok(()));
    let mut expected = vec![0xab, 0xcd];
    expected.extend_from_slice(&build_counter(1, 0, 1, &[0u8; 14]));
    assert_eq!(cursor.data, expected);
}

#[test]
fn salts_differ_exactly_where_counters_differ() {
    let mut s2 = [0u8; 14];
    s2[3] = 0x40;
    let a = build_counter(5, 6, 7, &[0u8; 14]);
    let b = build_counter(5, 6, 7, &s2);
    let differing: Vec<usize> = (0..16).filter(|&i| a[i] != b[i]).collect();
    assert_eq!(differing, vec![3]);
}
