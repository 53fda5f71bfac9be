use ataraxia::events::Event;
use ataraxia::shard::{Heartbeat, Outbound, Shard, ShardAction, ShardInput, ShardState, HEARTBEAT_INTERVAL_MS};

fn connected() -> Shard {
    let mut s = Shard::new("secret".to_string());
    assert!(matches!(s.step(ShardInput::Connect).as_slice(), [ShardAction::OpenSocket]));
    assert_eq!(s.state, ShardState::Connecting);
    match s.step(ShardInput::SocketOpened).as_slice() {
        [ShardAction::Send(Outbound::Authenticate { token })] => assert_eq!(token, "secret"),
        _ => panic!("opening the socket sends the credential"),
    }
    assert_eq!(s.state, ShardState::Authenticating);
    let acts = s.step(ShardInput::Frame(r#"{"type":"Authenticated"}"#.to_string()));
    assert!(matches!(acts.as_slice(), [ShardAction::Dispatch(Event::Authenticated), ShardAction::StartHeartbeat]));
    assert_eq!(s.state, ShardState::Connected);
    s
}

#[test]
fn handshake_reaches_connected() {
    let s = connected();
    assert_eq!(s.token, "secret");
}

#[test]
fn heartbeat_while_connected_only() {
    let mut s = connected();
    for t in [15_000u64, 30_000, 45_000] {
        match s.step(ShardInput::HeartbeatDue(t)).as_slice() {
            [ShardAction::Send(Outbound::Ping { timestamp })] => assert_eq!(*timestamp, t),
            _ => panic!("a connected link sends one keep-alive per tick"),
        }
        assert_eq!(s.state, ShardState::Connected);
    }
    assert!(matches!(s.step(ShardInput::SocketClosed).as_slice(), [ShardAction::Close]));
    assert_eq!(s.state, ShardState::Closed);
    assert!(s.step(ShardInput::HeartbeatDue(60_000)).is_empty());
    assert!(s.step(ShardInput::Frame(r#"{"type":"Pong"}"#.to_string())).is_empty());
}

#[test]
fn no_heartbeat_before_connected() {
    let mut s = Shard::new("t".to_string());
    assert!(s.step(ShardInput::HeartbeatDue(1)).is_empty());
    assert_eq!(s.state, ShardState::Disconnected);
}

#[test]
fn bad_frames_do_not_stop_the_reader() {
    let mut s = connected();
    assert!(matches!(s.step(ShardInput::Frame("garbage".to_string())).as_slice(), [ShardAction::Skip]));
    assert!(matches!(
        s.step(ShardInput::Frame(r#"{"type":"MessageDelete","id":1}"#.to_string())).as_slice(),
        [ShardAction::Skip]
    ));
    assert!(matches!(
        s.step(ShardInput::Frame(r#"{"type":"BogusType","x":1}"#.to_string())).as_slice(),
        [ShardAction::Dispatch(Event::Unknown(_))]
    ));
    assert_eq!(s.state, ShardState::Connected);
    match s.step(ShardInput::Frame(r#"{"type":"MessageDelete","id":"m","channel":"c"}"#.to_string())).as_slice() {
        [ShardAction::Dispatch(Event::MessageDelete(p))] => assert_eq!(p.id.0, "m"),
        _ => panic!("the next good frame is dispatched"),
    }
}

#[test]
fn shutdown_and_read_error_close() {
    let mut s = connected();
    assert!(matches!(s.step(ShardInput::ReadError).as_slice(), [ShardAction::Close]));
    assert!(s.step(ShardInput::Shutdown).is_empty());
    let mut t = Shard::new("x".to_string());
    assert!(t.step(ShardInput::Shutdown).is_empty());
    assert_eq!(t.state, ShardState::Disconnected);
}

#[test]
fn keep_alive_frames_on_the_wire() {
    assert_eq!(Outbound::Ping { timestamp: 5 }.frame(), r#"{"data":5,"type":"Ping"}"#);
    assert_eq!(
        Outbound::Authenticate { token: "abc".to_string() }.frame(),
        r#"{"token":"abc","type":"Authenticate"}"#
    );
}

#[test]
fn heartbeat_schedule_has_fixed_cadence() {
    let mut hb = Heartbeat::new(1_000, HEARTBEAT_INTERVAL_MS);
    assert_eq!(hb.next_due, 16_000);
    assert!(!hb.poll(15_999));
    assert!(hb.poll(16_500));
    assert_eq!(hb.next_due, 31_000);
    assert!(hb.poll(31_000));
    assert_eq!(hb.next_due, 46_000);
    let mut late = Heartbeat::new(u64::MAX - 1, 10);
    assert_eq!(late.next_due, u64::MAX);
    assert!(late.poll(u64::MAX));
    assert_eq!(late.next_due, u64::MAX);
}
