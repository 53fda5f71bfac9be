//! The gateway connection: its states, the decisions it takes on each
//! socket event, and the keep-alive schedule. The caller performs the I/O
//! that the returned actions ask for.
use vstd::prelude::*;
use crate::events::{decode_frame, decoded_from, Decoded, Event};
use crate::json::{json_parse, json_text, Json};

verus! {

/// Milliseconds between two keep-alive frames.
pub const HEARTBEAT_INTERVAL_MS: u64 = 15000;

/// The states of a gateway connection.
#[derive(Clone, Copy, Debug, PartialEq, Eq, Structural)]
pub enum ShardState {
    Disconnected,
    Connecting,
    Authenticating,
    Connected,
    Closed,
}

/// A frame the client sends on the gateway.
pub enum Outbound {
    /// Authenticates the session with its credential.
    Authenticate { token: String },
    /// Keeps the link alive; carries the time of sending in milliseconds.
    Ping { timestamp: u64 },
}

/// Whether `j` is the JSON string `s`.
pub open spec fn is_text(j: Json, s: Seq<char>) -> bool {
    j.text() == Some(s)
}

/// Whether `j` is an object of exactly two entries, `type` holding `tag`
/// first and then `key`.
pub open spec fn tagged_pair(j: Json, tag: Seq<char>, key: Seq<char>) -> bool {
    &&& j matches Json::Object(e)
    &&& e@.len() == 2
    &&& e@[0].0@ == "type"@
    &&& is_text(e@[0].1, tag)
    &&& e@[1].0@ == key
}

/// The value of the second entry of an object.
pub open spec fn second_value(j: Json) -> Json {
    match j {
        Json::Object(e) => e@[1].1,
        _ => Json::Null,
    }
}

impl Outbound {
    /// Whether `j` is the JSON form of this frame:
    /// `{"type":"Authenticate","token":...}` or `{"type":"Ping","data":...}`.
    pub open spec fn json_form(self, j: Json) -> bool {
        match self {
            Outbound::Authenticate { token } => tagged_pair(j, "Authenticate"@, "token"@)
                && is_text(second_value(j), token@),
            Outbound::Ping { timestamp } => tagged_pair(j, "Ping"@, "data"@)
                && second_value(j) == Json::UInt(timestamp),
        }
    }

    /// The JSON form of this frame.
    pub fn to_json(&self) -> (r: Json)
        ensures
            self.json_form(r),
    {
        match self {
            Outbound::Authenticate { token } => Json::Object(
                vec![
                    ("type".to_owned(), Json::Str("Authenticate".to_owned())),
                    ("token".to_owned(), Json::Str(token.clone())),
                ],
            ),
            Outbound::Ping { timestamp } => Json::Object(
                vec![
                    ("type".to_owned(), Json::Str("Ping".to_owned())),
                    ("data".to_owned(), Json::UInt(*timestamp)),
                ],
            ),
        }
    }

    /// The text of this frame as it is sent.
    pub fn frame(&self) -> (r: String)
        ensures
            exists|j: Json| self.json_form(j) && r@ == json_text(j),
    {
        let j = self.to_json();
        j.to_text()
    }
}

/// What the caller does next for a gateway connection.
pub enum ShardAction {
    /// Open the socket to the gateway.
    OpenSocket,
    /// Write a frame through the single write handle.
    Send(Outbound),
    /// Hand an event to the dispatcher before reading the next frame.
    Dispatch(Event),
    /// Drop a frame that did not decode; the reader goes on.
    Skip,
    /// Start the keep-alive loop.
    StartHeartbeat,
    /// Stop the keep-alive loop and close the socket.
    Close,
}

/// What happens to a connection.
pub enum ShardInput {
    /// The caller asks to connect.
    Connect,
    /// The socket is open.
    SocketOpened,
    /// A text frame arrived.
    Frame(String),
    /// The keep-alive interval elapsed; the time now in milliseconds.
    HeartbeatDue(u64),
    /// The socket was closed by the peer.
    SocketClosed,
    /// Reading the socket failed.
    ReadError,
    /// The caller asks to shut down.
    Shutdown,
}

/// The state after a decoded frame, and what is done with it. Frames are
/// read while authenticating and once connected; the server's
/// acknowledgment completes authentication.
pub open spec fn frame_effect(s: ShardState, d: Decoded) -> (ShardState, Seq<ShardAction>) {
    if s == ShardState::Authenticating || s == ShardState::Connected {
        match d {
            Decoded::Event(e) => if s == ShardState::Authenticating && e is Authenticated {
                (ShardState::Connected, seq![ShardAction::Dispatch(e), ShardAction::StartHeartbeat])
            } else {
                (s, seq![ShardAction::Dispatch(e)])
            },
            _ => (s, seq![ShardAction::Skip]),
        }
    } else {
        (s, Seq::empty())
    }
}

/// Whether `d` is what the frame `text` decodes to.
pub open spec fn frame_decodes(text: Seq<char>, d: Decoded) -> bool {
    match json_parse(text) {
        Some(j) => decoded_from(d, j),
        None => d is Invalid,
    }
}

/// The state after an input other than a frame, and the actions it asks for.
pub open spec fn input_effect(s: ShardState, token: String, input: ShardInput) -> (ShardState, Seq<ShardAction>) {
    match input {
        ShardInput::Connect => if s == ShardState::Disconnected {
            (ShardState::Connecting, seq![ShardAction::OpenSocket])
        } else {
            (s, Seq::empty())
        },
        ShardInput::SocketOpened => if s == ShardState::Connecting {
            (ShardState::Authenticating, seq![ShardAction::Send(Outbound::Authenticate { token })])
        } else {
            (s, Seq::empty())
        },
        ShardInput::HeartbeatDue(now) => if s == ShardState::Connected {
            (s, seq![ShardAction::Send(Outbound::Ping { timestamp: now })])
        } else {
            (s, Seq::empty())
        },
        ShardInput::Frame(_) => (s, Seq::empty()),
        _ => if s == ShardState::Closed || s == ShardState::Disconnected {
            (s, Seq::empty())
        } else {
            (ShardState::Closed, seq![ShardAction::Close])
        },
    }
}

/// One gateway connection.
pub struct Shard {
    pub token: String,
    pub state: ShardState,
}

impl Shard {
    /// A connection that has not connected yet.
    pub fn new(token: String) -> (r: Shard)
        ensures
            r.token == token,
            r.state == ShardState::Disconnected,
    {
        Shard { token, state: ShardState::Disconnected }
    }

    /// Takes one input: moves to the next state and returns what the
    /// caller must do, in order.
    pub fn step(&mut self, input: ShardInput) -> (r: Vec<ShardAction>)
        ensures
            final(self).token == old(self).token,
            input matches ShardInput::Frame(text) ==> exists|d: Decoded|
                frame_decodes(text@, d) && (final(self).state, r@) == frame_effect(old(self).state, d),
            !(input is Frame) ==> (final(self).state, r@) == input_effect(
                old(self).state,
                old(self).token,
                input,
            ),
    {
        match input {
            ShardInput::Frame(text) => {
                let d = decode_frame(text.as_str());
                let ghost d0 = d;
                assert(frame_decodes(text@, d0));
                if self.state == ShardState::Authenticating || self.state == ShardState::Connected {
                    match d {
                        Decoded::Event(e) => {
                            if self.state == ShardState::Authenticating && matches!(e, Event::Authenticated) {
                                self.state = ShardState::Connected;
                                let r = vec![ShardAction::Dispatch(e), ShardAction::StartHeartbeat];
                                assert(r@ =~= frame_effect(old(self).state, d0).1);
                                r
                            } else {
                                let r = vec![ShardAction::Dispatch(e)];
                                assert(r@ =~= frame_effect(old(self).state, d0).1);
                                r
                            }
                        },
                        _ => {
                            let r = vec![ShardAction::Skip];
                            assert(r@ =~= frame_effect(old(self).state, d0).1);
                            r
                        },
                    }
                } else {
                    let r: Vec<ShardAction> = Vec::new();
                    assert(r@ =~= frame_effect(old(self).state, d0).1);
                    r
                }
            },
            ShardInput::Connect => {
                if self.state == ShardState::Disconnected {
                    self.state = ShardState::Connecting;
                    vec![ShardAction::OpenSocket]
                } else {
                    Vec::new()
                }
            },
            ShardInput::SocketOpened => {
                if self.state == ShardState::Connecting {
                    self.state = ShardState::Authenticating;
                    vec![ShardAction::Send(Outbound::Authenticate { token: self.token.clone() })]
                } else {
                    Vec::new()
                }
            },
            ShardInput::HeartbeatDue(now) => {
                if self.state == ShardState::Connected {
                    vec![ShardAction::Send(Outbound::Ping { timestamp: now })]
                } else {
                    Vec::new()
                }
            },
            _ => {
                if self.state == ShardState::Closed || self.state == ShardState::Disconnected {
                    Vec::new()
                } else {
                    self.state = ShardState::Closed;
                    vec![ShardAction::Close]
                }
            },
        }
    }
}

/// `a + b`, or the largest `u64` when the sum does not fit.
pub open spec fn saturating_sum(a: u64, b: u64) -> u64 {
    if a + b > u64::MAX {
        u64::MAX
    } else {
        (a + b) as u64
    }
}

/// The fixed-cadence keep-alive schedule: due every `interval_ms`,
/// whatever the inbound traffic.
pub struct Heartbeat {
    pub interval_ms: u64,
    pub next_due: u64,
}

impl Heartbeat {
    /// A schedule whose first keep-alive is due one interval after `now`.
    pub fn new(now: u64, interval_ms: u64) -> (r: Heartbeat)
        ensures
            r.interval_ms == interval_ms,
            r.next_due == saturating_sum(now, interval_ms),
    {
        let next_due = if now > u64::MAX - interval_ms {
            u64::MAX
        } else {
            now + interval_ms
        };
        Heartbeat { interval_ms, next_due }
    }

    /// Whether a keep-alive is due at `now`; when it is, the next one is
    /// scheduled exactly one interval after the one just due, so the
    /// cadence does not drift with late polls.
    pub fn poll(&mut self, now: u64) -> (r: bool)
        ensures
            final(self).interval_ms == old(self).interval_ms,
            r == (now >= old(self).next_due),
            r ==> final(self).next_due == saturating_sum(old(self).next_due, old(self).interval_ms),
            !r ==> final(self).next_due == old(self).next_due,
    {
        if now >= self.next_due {
            self.next_due = if self.next_due > u64::MAX - self.interval_ms {
                u64::MAX
            } else {
                self.next_due + self.interval_ms
            };
            true
        } else {
            false
        }
    }
}

/// The state and actions after a run of keep-alive ticks at `times`.
pub open spec fn run_ticks(s: ShardState, token: String, times: Seq<u64>) -> (ShardState, Seq<ShardAction>)
    decreases times.len(),
{
    if times.len() == 0 {
        (s, Seq::empty())
    } else {
        let first = input_effect(s, token, ShardInput::HeartbeatDue(times[0]));
        let rest = run_ticks(first.0, token, times.drop_first());
        (rest.0, first.1 + rest.1)
    }
}

/// The keep-alive frames a connected link sends for ticks at `times`.
pub open spec fn pings(times: Seq<u64>) -> Seq<ShardAction> {
    Seq::new(times.len(), |i: int| ShardAction::Send(Outbound::Ping { timestamp: times[i] }))
}

/// Once connected, every keep-alive tick sends exactly one keep-alive
/// frame, carrying the tick's time, and the link stays connected, for any
/// number of ticks; once closed, ticks send nothing.
pub proof fn lemma_heartbeat_cadence(token: String, times: Seq<u64>)
    ensures
        run_ticks(ShardState::Connected, token, times) == (ShardState::Connected, pings(times)),
        run_ticks(ShardState::Closed, token, times) == (ShardState::Closed, Seq::<ShardAction>::empty()),
    decreases times.len(),
{
    if times.len() > 0 {
        lemma_heartbeat_cadence(token, times.drop_first());
        assert(pings(times) =~= seq![ShardAction::Send(Outbound::Ping { timestamp: times[0] })]
            + pings(times.drop_first()));
        assert(Seq::<ShardAction>::empty() + Seq::<ShardAction>::empty() =~= Seq::<ShardAction>::empty());
    }
}

/// Whether a decoded frame is one the reader cannot use: not JSON, a
/// payload without its kind's shape, or a tag without a handler.
pub open spec fn is_bad_frame(d: Decoded) -> bool {
    d is Invalid || d is Malformed || d matches Decoded::Event(Event::Unknown(_))
}

/// A bad frame neither closes a reading connection nor changes its state,
/// and invokes no handler; the frame after it is then handled exactly as
/// if the bad frame had not come.
pub proof fn lemma_bad_frame_keeps_reader(s: ShardState, bad: Decoded, next: Decoded)
    requires
        s == ShardState::Authenticating || s == ShardState::Connected,
        is_bad_frame(bad),
    ensures
        frame_effect(s, bad).0 == s,
        !frame_effect(s, bad).1.contains(ShardAction::Close),
        forall|i: int| 0 <= i < frame_effect(s, bad).1.len() ==> match #[trigger] frame_effect(s, bad).1[i] {
            ShardAction::Dispatch(e) => e.kind() is None,
            ShardAction::Skip => true,
            _ => false,
        },
        frame_effect(frame_effect(s, bad).0, next) == frame_effect(s, next),
{
    let acts = frame_effect(s, bad).1;
    assert(acts.len() == 1);
    assert(acts[0] != ShardAction::Close);
}

} // verus!
