use ataraxia::crypto::{generate_hmac_auth_tag, SessionContext};
use ataraxia::rtp::{apply_keystream, create_rtp_header, protect_packet, RtpError, RtpPacketBuilder};

#[test]
fn default_header() {
    let h = create_rtp_header();
    assert_eq!(h.version, 2);
    assert_eq!(h.payload_type, 0x78);
    assert!(!h.marker && !h.has_padding && !h.has_extension);
    assert_eq!(h.serialize(), vec![0x80, 0x78, 0, 0, 0, 0, 0, 0, 0, 0, 0, 0]);
}

#[test]
fn header_fields_on_the_wire() {
    let mut h = create_rtp_header();
    h.marker = true;
    h.sequence = 0x1234;
    h.timestamp = 0xdeadbeef;
    h.ssrc = 1;
    h.csrc_identifiers = vec![0x0a0b0c0d];
    h.csrc_count = 1;
    assert_eq!(
        h.serialize(),
        vec![0x81, 0xf8, 0x12, 0x34, 0xde, 0xad, 0xbe, 0xef, 0, 0, 0, 1, 0x0a, 0x0b, 0x0c, 0x0d]
    );
}

#[test]
fn build_needs_payload_type_then_payload() {
    let mut b = RtpPacketBuilder::new();
    assert!(matches!(b.build(), Err(RtpError::MissingPayloadType)));
    b.set_payload(vec![1, 2]);
    assert!(matches!(b.build(), Err(RtpError::MissingPayloadType)));
    let mut c = RtpPacketBuilder::new();
    c.set_payload_type(111);
    assert!(matches!(c.build(), Err(RtpError::MissingPayload)));
}

#[test]
fn build_in_any_order() {
    let mut b = RtpPacketBuilder::new();
    b.set_payload(vec![9, 8, 7]);
    b.set_ssrc(0x01020304);
    b.set_payload_type(0x78);
    b.set_sequence(2);
    b.set_timestamp(960);
    b.set_marker(true);
    b.set_auth_tag(vec![0xaa; 10]);
    let bytes = b.build().ok().unwrap();
    let mut expected = vec![0x80, 0xf8, 0, 2, 0, 0, 0x03, 0xc0, 1, 2, 3, 4, 9, 8, 7];
    expected.extend_from_slice(&[0xaa; 10]);
    assert_eq!(bytes, expected);
}

#[test]
fn keystream_is_xored() {
    assert_eq!(apply_keystream(&[1, 2, 3], &[0xff, 0x0f, 0xf0, 0x55]), vec![0xfe, 0x0d, 0xf3]);
}

#[test]
fn protected_packet_layout() {
    let ctx = SessionContext::new(vec![0; 16], (0..20).collect(), vec![0; 14]).ok().unwrap();
    let mut h = create_rtp_header();
    h.sequence = 1;
    h.ssrc = 1;
    let packet = protect_packet(&ctx, &h, 7, &[1, 2, 3], &[0xff, 0x0f, 0xf0]);
    let body = vec![0x80, 0x78, 0, 1, 0, 0, 0, 0, 0, 0, 0, 1, 0xfe, 0x0d, 0xf3];
    assert_eq!(&packet[..15], &body[..]);
    assert_eq!(
        &packet[15..],
        &[0x97, 0xe4, 0xe8, 0xe8, 0x79, 0x8e, 0x43, 0xa8, 0xd1, 0xe8]
    );
    assert_eq!(packet[15..].to_vec(), generate_hmac_auth_tag(&ctx.authentication_key, &body, 7));
}
