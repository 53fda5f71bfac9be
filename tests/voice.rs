use ataraxia::crypto::MasterKey;
use ataraxia::json::Json;
use ataraxia::payloads::RtpCapabilities;
use ataraxia::voice::{
    DescriptorField, NegotiationError, VoiceAction, VoiceInput, VoiceNegotiator, VoiceOutbound,
    VoiceState,
};

fn negotiator() -> VoiceNegotiator {
    let key = MasterKey::new(b"0123456789abcdef".to_vec(), b"ghijklmnopqrst".to_vec()).ok().unwrap();
    VoiceNegotiator::new("room".to_string(), "tok".to_string(), key, 30822, "cname".to_string())
}

fn to_transport_info(n: &mut VoiceNegotiator) {
    match n.step(VoiceInput::Begin) {
        VoiceAction::Send { message: VoiceOutbound::Authenticate { room_id, token }, id } => {
            assert_eq!(id, 0);
            assert_eq!(room_id, "room");
            assert_eq!(token, "tok");
        },
        _ => panic!("starting authenticates"),
    }
    assert_eq!(n.state, VoiceState::Authenticating);
    assert!(matches!(n.step(VoiceInput::Sent), VoiceAction::Send { message: VoiceOutbound::RoomInfo, id: 1 }));
    assert_eq!(n.state, VoiceState::AwaitingRoomInfo);
    assert!(matches!(n.step(VoiceInput::Sent), VoiceAction::Send { message: VoiceOutbound::InitializeTransports, id: 25 }));
    assert_eq!(n.state, VoiceState::AwaitingTransportInfo);
}

const DESCRIPTOR: &str = r#"{"type":"InitializeTransports","data":{"ip":"10.0.0.1","port":4000,"srtpCryptoSuite":"AES_CM_128_HMAC_SHA1_80","id":"tr1"}}"#;

#[test]
fn full_negotiation_in_order() {
    let mut n = negotiator();
    to_transport_info(&mut n);
    match n.step(VoiceInput::Frame(DESCRIPTOR.to_string())) {
        VoiceAction::ConnectMedia { host, port } => {
            assert_eq!(host, "10.0.0.1");
            assert_eq!(port, 4000);
        },
        _ => panic!("a complete descriptor connects the media socket"),
    }
    assert_eq!(n.state, VoiceState::ConnectingMedia);
    let d = n.descriptor.as_ref().unwrap();
    assert_eq!(d.crypto_suite, "AES_CM_128_HMAC_SHA1_80");
    assert_eq!(d.transport_id, "tr1");
    match n.step(VoiceInput::MediaConnected) {
        VoiceAction::Send { message: VoiceOutbound::ConnectTransport { transport_id, key_base64 }, id: 30 } => {
            assert_eq!(transport_id, "tr1");
            assert_eq!(key_base64, "MDEyMzQ1Njc4OWFiY2RlZmdoaWprbG1ub3BxcnN0");
        },
        _ => panic!("the transport is connected with the key"),
    }
    assert_eq!(n.state, VoiceState::AwaitingSrtpAck);
    match n.step(VoiceInput::Sent) {
        VoiceAction::Send { message: VoiceOutbound::StartProduce { ssrc, cname }, id: 69 } => {
            assert_eq!(ssrc, 30822);
            assert_eq!(cname, "cname");
        },
        _ => panic!("production starts after the transport"),
    }
    assert_eq!(n.state, VoiceState::Producing);
    assert!(matches!(n.step(VoiceInput::Frame(r#"{"type":"StartProduce"}"#.to_string())), VoiceAction::StartMedia));
    assert!(matches!(n.step(VoiceInput::Frame(r#"{"type":"Other"}"#.to_string())), VoiceAction::Ignore));
}

#[test]
fn no_connect_transport_without_descriptor() {
    let mut n = negotiator();
    assert!(matches!(n.step(VoiceInput::MediaConnected), VoiceAction::Ignore));
    to_transport_info(&mut n);
    assert!(matches!(n.step(VoiceInput::MediaConnected), VoiceAction::Ignore));
    assert!(matches!(n.step(VoiceInput::Sent), VoiceAction::Ignore));
    assert!(matches!(n.step(VoiceInput::Frame(r#"{"type":"RoomInfo"}"#.to_string())), VoiceAction::Ignore));
    assert_eq!(n.state, VoiceState::AwaitingTransportInfo);
    assert!(n.descriptor.is_none());
}

#[test]
fn missing_port_fails_the_negotiation() {
    let mut n = negotiator();
    to_transport_info(&mut n);
    let frame = r#"{"type":"InitializeTransports","data":{"ip":"1.2.3.4","srtpCryptoSuite":"s","id":"t"}}"#;
    let e = NegotiationError::MissingField(DescriptorField::Port);
    assert!(matches!(n.step(VoiceInput::Frame(frame.to_string())), VoiceAction::Fail(x) if x == e));
    assert_eq!(n.state, VoiceState::Failed(e));
    assert!(matches!(n.step(VoiceInput::MediaConnected), VoiceAction::Ignore));
}

#[test]
fn mistyped_fields_fail_the_negotiation() {
    let cases = [
        (r#"{"type":"InitializeTransports"}"#, NegotiationError::MissingField(DescriptorField::Ip)),
        (r#"{"type":"InitializeTransports","data":{"ip":1}}"#, NegotiationError::UnexpectedType(DescriptorField::Ip)),
        (r#"{"type":"InitializeTransports","data":{"ip":"h","port":70000,"srtpCryptoSuite":"s","id":"t"}}"#, NegotiationError::UnexpectedType(DescriptorField::Port)),
        (r#"{"type":"InitializeTransports","data":{"ip":"h","port":1}}"#, NegotiationError::MissingField(DescriptorField::CryptoSuite)),
        (r#"{"type":"InitializeTransports","data":{"ip":"h","port":1,"srtpCryptoSuite":"s"}}"#, NegotiationError::MissingField(DescriptorField::TransportId)),
        (r#"{"type":"InitializeTransports","data":{"ip":"h","port":1,"srtpCryptoSuite":"s","id":2}}"#, NegotiationError::UnexpectedType(DescriptorField::TransportId)),
    ];
    for (frame, expected) in cases {
        let mut n = negotiator();
        to_transport_info(&mut n);
        match n.step(VoiceInput::Frame(frame.to_string())) {
            VoiceAction::Fail(x) => assert_eq!(x, expected, "{}", frame),
            _ => panic!("a bad descriptor fails: {}", frame),
        }
        assert_eq!(n.state, VoiceState::Failed(expected));
    }
}

#[test]
fn media_failure_and_socket_close() {
    let mut n = negotiator();
    to_transport_info(&mut n);
    assert!(matches!(n.step(VoiceInput::Frame(DESCRIPTOR.to_string())), VoiceAction::ConnectMedia { .. }));
    assert!(matches!(n.step(VoiceInput::MediaFailed), VoiceAction::Fail(NegotiationError::MediaConnectFailed)));
    let mut m = negotiator();
    assert!(matches!(m.step(VoiceInput::SocketClosed), VoiceAction::Fail(NegotiationError::TransportClosed)));
    assert!(matches!(m.step(VoiceInput::SocketClosed), VoiceAction::Ignore));
}

#[test]
fn signaling_messages_on_the_wire() {
    let auth = VoiceOutbound::Authenticate { room_id: "r".to_string(), token: "t".to_string() };
    assert_eq!(auth.frame(0), r#"{"data":{"roomId":"r","token":"t"},"id":0,"type":"Authenticate"}"#);
    assert_eq!(VoiceOutbound::RoomInfo.frame(1), r#"{"id":1,"type":"RoomInfo"}"#);
    let ct = VoiceOutbound::ConnectTransport { transport_id: "x".to_string(), key_base64: "k".to_string() };
    assert_eq!(
        ct.frame(3),
        r#"{"data":{"id":"x","srtpParameters":{"cryptoSuite":"AES_CM_128_HMAC_SHA1_80","keyBase64":"k"}},"id":3,"type":"ConnectTransport"}"#
    );
    let sp = VoiceOutbound::StartProduce { ssrc: 7, cname: "c".to_string() }.frame(69);
    assert_eq!(
        sp,
        r#"{"data":{"rtpParameters":{"codecs":[{"channels":2,"clockRate":48000,"mimeType":"audio/opus","parameters":{},"payloadType":120,"rtcpFeedback":[]}],"encodings":[{"maxBitrate":512000,"ssrc":7}],"headerExtensions":[],"mid":1,"rtcp":{"cname":"c","reducedSize":false}},"type":"audio"},"id":69,"type":"StartProduce"}"#
    );
    let it = VoiceOutbound::InitializeTransports.frame(25);
    assert!(it.starts_with(r#"{"data":{"mode":"CombinedRTP","rtpCapabilities":{"codecs":[{"channels":2,"clockRate":48000,"kind":"audio","mimeType":"audio/opus","parameters":{"minptime":10,"useinbandfec":1},"preferredPayloadType":100,"rtcpFeedback":[{"parameter":"","type":"transport-cc"}]}],"headerExtensions":[{"direction":"sendrecv","kind":"audio","preferredEncrypt":false,"preferredId":1,"uri":"urn:ietf:params:rtp-hdrext:sdes:mid"}"#));
    assert!(it.ends_with(r#""id":25,"type":"InitializeTransports"}"#));
    assert_eq!(it.matches("\"preferredId\"").count(), 8);
}

#[test]
fn default_capabilities() {
    let caps = RtpCapabilities::audio_default();
    assert_eq!(caps.codecs.len(), 1);
    assert_eq!(caps.codecs[0].clock_rate, 48000);
    assert_eq!(caps.header_extensions.len(), 8);
    assert_eq!(caps.header_extensions[7].uri, "urn:ietf:params:rtp-hdrext:toffset");
    assert_eq!(caps.header_extensions[7].preferred_id, 12);
    assert_eq!(caps.codecs[0].rtcp_feedback[0].rtcp_feedback_type, "transport-cc");
    match caps.to_json() {
        Json::Object(entries) => assert_eq!(entries[0].0, "codecs"),
        _ => panic!("capabilities are an object"),
    }
}

#[test]
fn fresh_session_identity() {
    let n = VoiceNegotiator::for_session("r".to_string(), "t".to_string());
    assert_eq!(n.cname.len(), 36);
    assert_eq!(n.state, VoiceState::Idle);
    assert!(Json::parse("[1,2]").is_some());
}
