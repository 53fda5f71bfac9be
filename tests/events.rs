use ataraxia::events::{decode_frame, dispatch, Context, Decoded, Event, EventHandler, GatewayEvent};
use ataraxia::models::{
    ChannelAck, ChannelStartTyping, Message, MessageDelete, MessageReact, Ready, ServerMemberUpdate,
    UserUpdate,
};

#[derive(Default)]
struct Recorder {
    calls: Vec<&'static str>,
    users_in_ready: Option<usize>,
}

impl EventHandler for Recorder {
    fn ready(&mut self, _context: &Context, payload: &Ready) {
        self.calls.push("ready");
        self.users_in_ready = Some(payload.users.len());
    }
    fn authenticated(&mut self, _context: &Context) {
        self.calls.push("authenticated");
    }
    fn pong(&mut self, _context: &Context) {
        self.calls.push("pong");
    }
    fn on_message(&mut self, _context: &Context, _payload: &Message) {
        self.calls.push("on_message");
    }
    fn message_delete(&mut self, _context: &Context, _payload: &MessageDelete) {
        self.calls.push("message_delete");
    }
    fn message_react(&mut self, _context: &Context, _payload: &MessageReact) {
        self.calls.push("message_react");
    }
    fn channel_start_typing(&mut self, _context: &Context, _payload: &ChannelStartTyping) {
        self.calls.push("channel_start_typing");
    }
    fn channel_ack(&mut self, _context: &Context, _payload: &ChannelAck) {
        self.calls.push("channel_ack");
    }
    fn server_member_update(&mut self, _context: &Context, _payload: &ServerMemberUpdate) {
        self.calls.push("server_member_update");
    }
    fn user_update(&mut self, _context: &Context, _payload: &UserUpdate) {
        self.calls.push("user_update");
    }
}

fn feed(handler: &mut Recorder, frame: &str) -> Option<GatewayEvent> {
    match decode_frame(frame) {
        Decoded::Event(e) => dispatch(handler, &Context::new("token", frame), &e),
        _ => None,
    }
}

#[test]
fn ready_frame_invokes_only_ready() {
    let frame = r#"{"type":"Ready","users":[],"channels":[],"servers":[],"members":[]}"#;
    let mut h = Recorder::default();
    assert_eq!(feed(&mut h, frame), Some(GatewayEvent::Ready));
    assert_eq!(h.calls, vec!["ready"]);
    assert_eq!(h.users_in_ready, Some(0));
}

#[test]
fn unknown_tag_after_pong_invokes_nothing() {
    let mut h = Recorder::default();
    assert_eq!(feed(&mut h, r#"{"type":"Pong"}"#), Some(GatewayEvent::Pong));
    assert_eq!(h.calls, vec!["pong"]);
    let second = decode_frame(r#"{"type":"BogusType","x":1}"#);
    match &second {
        Decoded::Event(Event::Unknown(tag)) => assert_eq!(tag, "BogusType"),
        _ => panic!("an unknown tag is classified as unknown"),
    }
    if let Decoded::Event(e) = second {
        assert_eq!(dispatch(&mut h, &Context::new("token", ""), &e), None);
    }
    assert_eq!(h.calls, vec!["pong"]);
}

#[test]
fn each_tag_reaches_its_own_handler_once() {
    let cases: Vec<(&str, &str)> = vec![
        (r#"{"type":"Authenticated"}"#, "authenticated"),
        (r#"{"type":"Message","_id":"m","author":"u","channel":"c","content":"hi"}"#, "on_message"),
        (r#"{"type":"MessageDelete","id":"m","channel":"c"}"#, "message_delete"),
        (r#"{"type":"MessageReact","id":"m","channel_id":"c","user_id":"u","emoji_id":"e"}"#, "message_react"),
        (r#"{"type":"ChannelStartTyping","id":"c","user":"u"}"#, "channel_start_typing"),
        (r#"{"type":"ChannelAck","id":"c","user":"u","message_id":"m"}"#, "channel_ack"),
        (r#"{"type":"ServerMemberUpdate","id":{"server":"s","user":"u"},"data":{}}"#, "server_member_update"),
        (r#"{"type":"UserUpdate","id":"u","data":{"username":"x"},"clear":["Avatar"]}"#, "user_update"),
    ];
    for (frame, name) in cases {
        let mut h = Recorder::default();
        assert!(feed(&mut h, frame).is_some(), "{}", frame);
        assert_eq!(h.calls, vec![name]);
    }
}

#[test]
fn unhandled_kinds_reach_no_handler() {
    let mut h = Recorder::default();
    assert_eq!(feed(&mut h, r#"{"type":"ChannelGroupJoin","id":"c","user":"u"}"#), Some(GatewayEvent::ChannelGroupJoin));
    assert_eq!(feed(&mut h, r#"{"type":"EmojiDelete","id":"e"}"#), None);
    assert!(h.calls.is_empty());
}

#[test]
fn payload_fields_are_read() {
    match decode_frame(r#"{"type":"MessageReact","id":"m1","channel_id":"c1","user_id":"u1","emoji_id":"e1"}"#) {
        Decoded::Event(Event::MessageReact(p)) => {
            assert_eq!(p.message_id.0, "m1");
            assert_eq!(p.channel_id.0, "c1");
            assert_eq!(p.user_id.0, "u1");
            assert_eq!(p.emoji.0, "e1");
        },
        _ => panic!("a well-formed reaction decodes"),
    }
    match decode_frame(r#"{"type":"Ready","users":[{"_id":"u","username":"bot","bot":{"owner":"o"}}],"channels":[],"servers":[],"members":[{"_id":{"server":"s","user":"u"}}]}"#) {
        Decoded::Event(Event::Ready(r)) => {
            assert_eq!(r.users.len(), 1);
            assert_eq!(r.users[0].username, "bot");
            assert_eq!(r.users[0].bot.as_ref().map(|b| b.owner.clone()), Some("o".to_string()));
            assert_eq!(r.members[0].id_strings.server_id, "s");
        },
        _ => panic!("a well-formed ready payload decodes"),
    }
}

#[test]
fn malformed_and_invalid_frames() {
    assert!(matches!(
        decode_frame(r#"{"type":"MessageDelete","id":5,"channel":"c"}"#),
        Decoded::Malformed(GatewayEvent::MessageDelete)
    ));
    assert!(matches!(decode_frame(r#"{"type":"Ready","users":[{"username":"x"}],"channels":[],"servers":[],"members":[]}"#), Decoded::Malformed(GatewayEvent::Ready)));
    assert!(matches!(decode_frame("not json"), Decoded::Invalid));
    assert!(matches!(decode_frame(r#"{"x":1}"#), Decoded::Invalid));
    assert!(matches!(decode_frame(r#"{"type":3}"#), Decoded::Invalid));
}

#[test]
fn every_tag_names_its_kind() {
    for k in GatewayEvent::all() {
        assert_eq!(GatewayEvent::from_tag(k.tag()), Some(k));
    }
    assert_eq!(GatewayEvent::all().len(), 36);
    assert_eq!(GatewayEvent::from_tag("ChannelGroup"), None);
    assert_eq!(GatewayEvent::from_tag("ready"), None);
}

#[test]
fn context_keeps_credential_and_frame() {
    let c = Context::new("tok", "{}");
    assert_eq!(c.token, "tok");
    assert_eq!(c.json, "{}");
}
