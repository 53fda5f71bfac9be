//! The voice session negotiator: the signaling handshake with a voice relay,
//! from authentication to producing media, as decisions on each event.
//! The caller performs the I/O that the returned actions ask for.
use vstd::prelude::*;
use crate::crypto::{base64_of, MasterKey, SUITE_NAME};
use crate::json::{json_parse, json_text, same_text, Json};
use crate::payloads::{
    entries_len, key_at, str_entry, uint_entry, value_at, InitializeTransportsPayload,
    InitializeTransportsPayloadData, RtpCapabilities, VoiceMode,
};

verus! {

/// Relies on `rand::random::<u32>`: a random stream identifier; nothing is
/// known of its value.
#[verifier::external_body]
fn random_ssrc() -> u32 {
    rand::random::<u32>()
}

/// Relies on `uuid::Uuid::new_v4` and its `Display`: a random UUID in its
/// 36-character hyphenated form.
#[verifier::external_body]
fn random_cname() -> (r: String)
    ensures
        r@.len() == 36,
{
    uuid::Uuid::new_v4().to_string()
}

/// A field of the transport descriptor.
#[derive(Clone, Copy, Debug, PartialEq, Eq, Structural)]
pub enum DescriptorField {
    Ip,
    Port,
    CryptoSuite,
    TransportId,
}

/// Why a negotiation failed.
#[derive(Clone, Copy, Debug, PartialEq, Eq, Structural)]
pub enum NegotiationError {
    /// The transport descriptor lacks a field.
    MissingField(DescriptorField),
    /// A field of the transport descriptor has the wrong type or range.
    UnexpectedType(DescriptorField),
    /// The datagram socket could not be bound to the relay's endpoint.
    MediaConnectFailed,
    /// The signaling socket closed.
    TransportClosed,
}

/// The states of a voice negotiation.
#[derive(Clone, Copy, Debug, PartialEq, Eq, Structural)]
pub enum VoiceState {
    Idle,
    Authenticating,
    AwaitingRoomInfo,
    AwaitingTransportInfo,
    ConnectingMedia,
    AwaitingSrtpAck,
    Producing,
    Failed(NegotiationError),
}

/// The endpoint and parameters the relay assigns to the media transport.
pub struct TransportDescriptor {
    pub ip: String,
    pub port: u16,
    pub crypto_suite: String,
    pub transport_id: String,
}

/// The first problem with a descriptor, checking the address, the port,
/// the crypto suite and the transport id in that order.
pub open spec fn descriptor_error(d: Json) -> Option<NegotiationError> {
    if d.field("ip"@) is None {
        Some(NegotiationError::MissingField(DescriptorField::Ip))
    } else if d.str_at("ip"@) is None {
        Some(NegotiationError::UnexpectedType(DescriptorField::Ip))
    } else if d.field("port"@) is None {
        Some(NegotiationError::MissingField(DescriptorField::Port))
    } else if !(d.field("port"@)->0.unsigned() matches Some(p) && p <= 0xffff) {
        Some(NegotiationError::UnexpectedType(DescriptorField::Port))
    } else if d.field("srtpCryptoSuite"@) is None {
        Some(NegotiationError::MissingField(DescriptorField::CryptoSuite))
    } else if d.str_at("srtpCryptoSuite"@) is None {
        Some(NegotiationError::UnexpectedType(DescriptorField::CryptoSuite))
    } else if d.field("id"@) is None {
        Some(NegotiationError::MissingField(DescriptorField::TransportId))
    } else if d.str_at("id"@) is None {
        Some(NegotiationError::UnexpectedType(DescriptorField::TransportId))
    } else {
        None
    }
}

impl TransportDescriptor {
    pub open spec fn read_from(self, d: Json) -> bool {
        &&& self.ip@ == d.str_at("ip"@)->0
        &&& self.port as nat == d.field("port"@)->0.unsigned()->0
        &&& self.crypto_suite@ == d.str_at("srtpCryptoSuite"@)->0
        &&& self.transport_id@ == d.str_at("id"@)->0
    }

    /// Reads the descriptor; every field is required, and the first
    /// missing or mistyped one is reported.
    pub fn from_json(d: &Json) -> (r: Result<TransportDescriptor, NegotiationError>)
        ensures
            r is Ok <==> descriptor_error(*d) is None,
            r matches Err(e) ==> descriptor_error(*d) == Some(e),
            r matches Ok(t) ==> t.read_from(*d),
    {
        let ip = match d.get("ip") {
            None => return Err(NegotiationError::MissingField(DescriptorField::Ip)),
            Some(v) => match v.as_str() {
                Some(s) => s.clone(),
                None => return Err(NegotiationError::UnexpectedType(DescriptorField::Ip)),
            },
        };
        let port: u16 = match d.get("port") {
            None => return Err(NegotiationError::MissingField(DescriptorField::Port)),
            Some(v) => match v.as_u64() {
                Some(p) => {
                    if p > 0xffff {
                        return Err(NegotiationError::UnexpectedType(DescriptorField::Port));
                    }
                    p as u16
                },
                None => return Err(NegotiationError::UnexpectedType(DescriptorField::Port)),
            },
        };
        let crypto_suite = match d.get("srtpCryptoSuite") {
            None => return Err(NegotiationError::MissingField(DescriptorField::CryptoSuite)),
            Some(v) => match v.as_str() {
                Some(s) => s.clone(),
                None => return Err(NegotiationError::UnexpectedType(DescriptorField::CryptoSuite)),
            },
        };
        let transport_id = match d.get("id") {
            None => return Err(NegotiationError::MissingField(DescriptorField::TransportId)),
            Some(v) => match v.as_str() {
                Some(s) => s.clone(),
                None => return Err(NegotiationError::UnexpectedType(DescriptorField::TransportId)),
            },
        };
        Ok(TransportDescriptor { ip, port, crypto_suite, transport_id })
    }
}

/// The kinds of signaling message the client sends.
#[derive(Clone, Copy, Debug, PartialEq, Eq, Structural)]
pub enum SignalKind {
    Authenticate,
    RoomInfo,
    InitializeTransports,
    ConnectTransport,
    StartProduce,
}

/// A signaling message the client sends to the voice relay.
pub enum VoiceOutbound {
    Authenticate { room_id: String, token: String },
    RoomInfo,
    InitializeTransports,
    ConnectTransport { transport_id: String, key_base64: String },
    StartProduce { ssrc: u32, cname: String },
}

/// Whether `c` is the one codec a produced stream uses: stereo Opus at
/// 48 kHz as payload type 120, with no parameters and no feedback.
pub open spec fn opus_send_codec(c: Json) -> bool {
    &&& entries_len(c) == 6
    &&& uint_entry(c, 0, "channels"@, 2)
    &&& uint_entry(c, 1, "clockRate"@, 48000)
    &&& str_entry(c, 2, "mimeType"@, "audio/opus"@)
    &&& uint_entry(c, 3, "payloadType"@, 120)
    &&& key_at(c, 4, "parameters"@)
    &&& entries_len(value_at(c, 4)) == 0
    &&& key_at(c, 5, "rtcpFeedback"@)
    &&& value_at(c, 5) matches Json::Array(f) && f@.len() == 0
}

/// The request id each signaling message is sent with.
pub open spec fn request_id(k: SignalKind) -> u16 {
    match k {
        SignalKind::Authenticate => 0,
        SignalKind::RoomInfo => 1,
        SignalKind::InitializeTransports => 25,
        SignalKind::ConnectTransport => 30,
        SignalKind::StartProduce => 69,
    }
}

/// Whether `j` starts as a request envelope: its `id`, then its `type`.
pub open spec fn envelope(j: Json, id: u16, tag: Seq<char>) -> bool {
    uint_entry(j, 0, "id"@, id as u64) && str_entry(j, 1, "type"@, tag)
}

impl VoiceOutbound {
    pub open spec fn kind(self) -> SignalKind {
        match self {
            VoiceOutbound::Authenticate { .. } => SignalKind::Authenticate,
            VoiceOutbound::RoomInfo => SignalKind::RoomInfo,
            VoiceOutbound::InitializeTransports => SignalKind::InitializeTransports,
            VoiceOutbound::ConnectTransport { .. } => SignalKind::ConnectTransport,
            VoiceOutbound::StartProduce { .. } => SignalKind::StartProduce,
        }
    }

    /// The request id this message is sent with.
    pub fn request_id(&self) -> (r: u16)
        ensures
            r == request_id(self.kind()),
    {
        match self {
            VoiceOutbound::Authenticate { .. } => 0,
            VoiceOutbound::RoomInfo => 1,
            VoiceOutbound::InitializeTransports => 25,
            VoiceOutbound::ConnectTransport { .. } => 30,
            VoiceOutbound::StartProduce { .. } => 69,
        }
    }

    /// Whether `j` is the JSON form of this message sent as request `id`.
    pub open spec fn json_form(self, id: u16, j: Json) -> bool {
        match self {
            VoiceOutbound::Authenticate { room_id, token } => {
                &&& entries_len(j) == 3
                &&& envelope(j, id, "Authenticate"@)
                &&& key_at(j, 2, "data"@)
                &&& entries_len(value_at(j, 2)) == 2
                &&& str_entry(value_at(j, 2), 0, "roomId"@, room_id@)
                &&& str_entry(value_at(j, 2), 1, "token"@, token@)
            },
            VoiceOutbound::RoomInfo => entries_len(j) == 2 && envelope(j, id, "RoomInfo"@),
            VoiceOutbound::InitializeTransports => exists|p: InitializeTransportsPayload|
                p.json_form(j) && p.id == id && p.payload_type@ == "InitializeTransports"@
                    && p.data.mode == VoiceMode::CombinedRtp && p.data.rtp_capabilities.is_audio_default(),
            VoiceOutbound::ConnectTransport { transport_id, key_base64 } => {
                &&& entries_len(j) == 3
                &&& envelope(j, id, "ConnectTransport"@)
                &&& key_at(j, 2, "data"@)
                &&& str_entry(value_at(j, 2), 0, "id"@, transport_id@)
                &&& key_at(value_at(j, 2), 1, "srtpParameters"@)
                &&& str_entry(value_at(value_at(j, 2), 1), 0, "cryptoSuite"@, SUITE_NAME@)
                &&& str_entry(value_at(value_at(j, 2), 1), 1, "keyBase64"@, key_base64@)
            },
            VoiceOutbound::StartProduce { ssrc, cname } => {
                let params = value_at(value_at(j, 2), 1);
                &&& entries_len(j) == 3
                &&& envelope(j, id, "StartProduce"@)
                &&& key_at(j, 2, "data"@)
                &&& str_entry(value_at(j, 2), 0, "type"@, "audio"@)
                &&& key_at(value_at(j, 2), 1, "rtpParameters"@)
                &&& entries_len(params) == 5
                &&& uint_entry(params, 0, "mid"@, 1)
                &&& key_at(params, 1, "codecs"@)
                &&& value_at(params, 1) matches Json::Array(codecs) && codecs@.len() == 1
                    && opus_send_codec(codecs@[0])
                &&& key_at(params, 2, "headerExtensions"@)
                &&& value_at(params, 2) matches Json::Array(h) && h@.len() == 0
                &&& key_at(params, 3, "encodings"@)
                &&& value_at(params, 3) matches Json::Array(enc) && enc@.len() == 1
                    && uint_entry(enc@[0], 0, "ssrc"@, ssrc as u64)
                &&& key_at(params, 4, "rtcp"@)
                &&& entries_len(value_at(params, 4)) == 2
                &&& str_entry(value_at(params, 4), 0, "cname"@, cname@)
                &&& key_at(value_at(params, 4), 1, "reducedSize"@)
                &&& value_at(value_at(params, 4), 1) == Json::Bool(false)
            },
        }
    }

    /// The JSON form of this message sent as request `id`.
    pub fn to_json(&self, id: u16) -> (r: Json)
        ensures
            self.json_form(id, r),
    {
        match self {
            VoiceOutbound::Authenticate { room_id, token } => Json::Object(
                vec![
                    ("id".to_owned(), Json::UInt(id as u64)),
                    ("type".to_owned(), Json::Str("Authenticate".to_owned())),
                    ("data".to_owned(), Json::Object(vec![
                        ("roomId".to_owned(), Json::Str(room_id.clone())),
                        ("token".to_owned(), Json::Str(token.clone())),
                    ])),
                ],
            ),
            VoiceOutbound::RoomInfo => Json::Object(
                vec![
                    ("id".to_owned(), Json::UInt(id as u64)),
                    ("type".to_owned(), Json::Str("RoomInfo".to_owned())),
                ],
            ),
            VoiceOutbound::InitializeTransports => {
                let p = InitializeTransportsPayload {
                    id,
                    payload_type: "InitializeTransports".to_owned(),
                    data: InitializeTransportsPayloadData {
                        mode: VoiceMode::CombinedRtp,
                        rtp_capabilities: RtpCapabilities::audio_default(),
                    },
                };
                p.to_json()
            },
            VoiceOutbound::ConnectTransport { transport_id, key_base64 } => Json::Object(
                vec![
                    ("id".to_owned(), Json::UInt(id as u64)),
                    ("type".to_owned(), Json::Str("ConnectTransport".to_owned())),
                    ("data".to_owned(), Json::Object(vec![
                        ("id".to_owned(), Json::Str(transport_id.clone())),
                        ("srtpParameters".to_owned(), Json::Object(vec![
                            ("cryptoSuite".to_owned(), Json::Str(SUITE_NAME.to_owned())),
                            ("keyBase64".to_owned(), Json::Str(key_base64.clone())),
                        ])),
                    ])),
                ],
            ),
            VoiceOutbound::StartProduce { ssrc, cname } => {
                let codec = Json::Object(vec![
                    ("channels".to_owned(), Json::UInt(2)),
                    ("clockRate".to_owned(), Json::UInt(48000)),
                    ("mimeType".to_owned(), Json::Str("audio/opus".to_owned())),
                    ("payloadType".to_owned(), Json::UInt(120)),
                    ("parameters".to_owned(), Json::Object(Vec::new())),
                    ("rtcpFeedback".to_owned(), Json::Array(Vec::new())),
                ]);
                let encoding = Json::Object(vec![
                    ("ssrc".to_owned(), Json::UInt(*ssrc as u64)),
                    ("maxBitrate".to_owned(), Json::UInt(512000)),
                ]);
                let rtcp = Json::Object(vec![
                    ("cname".to_owned(), Json::Str(cname.clone())),
                    ("reducedSize".to_owned(), Json::Bool(false)),
                ]);
                let params = Json::Object(vec![
                    ("mid".to_owned(), Json::UInt(1)),
                    ("codecs".to_owned(), Json::Array(vec![codec])),
                    ("headerExtensions".to_owned(), Json::Array(Vec::new())),
                    ("encodings".to_owned(), Json::Array(vec![encoding])),
                    ("rtcp".to_owned(), rtcp),
                ]);
                Json::Object(vec![
                    ("id".to_owned(), Json::UInt(id as u64)),
                    ("type".to_owned(), Json::Str("StartProduce".to_owned())),
                    ("data".to_owned(), Json::Object(vec![
                        ("type".to_owned(), Json::Str("audio".to_owned())),
                        ("rtpParameters".to_owned(), params),
                    ])),
                ])
            },
        }
    }

    /// The text of this message sent as request `id`.
    pub fn frame(&self, id: u16) -> (r: String)
        ensures
            exists|j: Json| self.json_form(id, j) && r@ == json_text(j),
    {
        let j = self.to_json(id);
        j.to_text()
    }
}

/// An event of the voice negotiation.
pub enum VoiceInput {
    /// The caller asks to start.
    Begin,
    /// The last requested message has been written.
    Sent,
    /// A signaling frame arrived.
    Frame(String),
    /// The datagram socket is bound to the relay's endpoint.
    MediaConnected,
    /// Binding the datagram socket failed.
    MediaFailed,
    /// The signaling socket closed.
    SocketClosed,
}

/// What the caller does next for a voice negotiation.
pub enum VoiceAction {
    /// Write a signaling message as request `id`; report `Sent` once
    /// written.
    Send { message: VoiceOutbound, id: u16 },
    /// Bind the datagram socket to the relay's endpoint; report
    /// `MediaConnected` or `MediaFailed`.
    ConnectMedia { host: String, port: u16 },
    /// The relay acknowledged production: start streaming media.
    StartMedia,
    /// The negotiation failed; restart from a new negotiator.
    Fail(NegotiationError),
    /// Nothing to do.
    Ignore,
}

/// The order in which the signaling messages are sent.
pub open spec fn signal_order() -> Seq<SignalKind> {
    seq![
        SignalKind::Authenticate,
        SignalKind::RoomInfo,
        SignalKind::InitializeTransports,
        SignalKind::ConnectTransport,
        SignalKind::StartProduce,
    ]
}

/// How many messages have been sent on reaching each state.
pub open spec fn sent_count(s: VoiceState) -> int {
    match s {
        VoiceState::Idle => 0,
        VoiceState::Authenticating => 1,
        VoiceState::AwaitingRoomInfo => 2,
        VoiceState::AwaitingTransportInfo => 3,
        VoiceState::ConnectingMedia => 3,
        VoiceState::AwaitingSrtpAck => 4,
        VoiceState::Producing => 5,
        VoiceState::Failed(_) => -1,
    }
}

/// The tree of a signaling frame with the given tag, if `text` is one.
pub open spec fn reply_tagged(text: Seq<char>, tag: Seq<char>) -> Option<Json> {
    match json_parse(text) {
        Some(j) => if j.str_at("type"@) == Some(tag) {
            Some(j)
        } else {
            None
        },
        None => None,
    }
}

/// The `data` object of a frame, or null.
pub open spec fn data_of(j: Json) -> Json {
    match j.field("data"@) {
        Some(d) => d,
        None => Json::Null,
    }
}

/// Whether the input moves the negotiation in this state.
pub open spec fn acts_on(s: VoiceState, input: VoiceInput) -> bool {
    match input {
        VoiceInput::Begin => s == VoiceState::Idle,
        VoiceInput::Sent => s == VoiceState::Authenticating || s == VoiceState::AwaitingRoomInfo
            || s == VoiceState::AwaitingSrtpAck,
        VoiceInput::Frame(_) => s == VoiceState::AwaitingTransportInfo || s == VoiceState::Producing,
        VoiceInput::MediaConnected => s == VoiceState::ConnectingMedia,
        VoiceInput::MediaFailed => s == VoiceState::ConnectingMedia,
        VoiceInput::SocketClosed => !(s is Failed),
    }
}

/// One negotiation with a voice relay.
pub struct VoiceNegotiator {
    pub room_id: String,
    pub token: String,
    pub state: VoiceState,
    pub key: MasterKey,
    pub ssrc: u32,
    pub cname: String,
    pub descriptor: Option<TransportDescriptor>,
    /// The kinds of the messages sent so far, in order.
    pub sent: Ghost<Seq<SignalKind>>,
}

impl VoiceNegotiator {
    /// Messages go out in the fixed order, one per state reached, and
    /// the transport descriptor is held from the moment it arrived.
    pub open spec fn wf(&self) -> bool {
        &&& self.key.wf()
        &&& self.sent@.len() <= 5
        &&& self.sent@ == signal_order().subrange(0, self.sent@.len() as int)
        &&& !(self.state is Failed) ==> self.sent@.len() == sent_count(self.state)
        &&& self.state == VoiceState::ConnectingMedia ==> self.descriptor is Some
        &&& self.sent@.len() >= 4 ==> self.descriptor is Some
    }

    /// A negotiation for `room_id` that has not started, with the session's
    /// key material and stream identity.
    pub fn new(room_id: String, token: String, key: MasterKey, ssrc: u32, cname: String) -> (r: VoiceNegotiator)
        requires
            key.wf(),
        ensures
            r.wf(),
            r.state == VoiceState::Idle,
            r.room_id == room_id && r.token == token && r.key == key,
            r.ssrc == ssrc && r.cname == cname,
            r.descriptor is None,
    {
        assert(Seq::<SignalKind>::empty() =~= signal_order().subrange(0, 0));
        VoiceNegotiator {
            room_id,
            token,
            state: VoiceState::Idle,
            key,
            ssrc,
            cname,
            descriptor: None,
            sent: Ghost(Seq::empty()),
        }
    }

    /// A negotiation with fresh key material, stream identifier and
    /// canonical name drawn for this session.
    pub fn for_session(room_id: String, token: String) -> (r: VoiceNegotiator)
        ensures
            r.wf(),
            r.state == VoiceState::Idle,
            r.room_id == room_id && r.token == token,
            r.cname@.len() == 36,
            r.descriptor is None,
    {
        VoiceNegotiator::new(room_id, token, MasterKey::generate(), random_ssrc(), random_cname())
    }

    fn send(&mut self, m: VoiceOutbound, next: VoiceState) -> (r: VoiceAction)
        ensures
            r == (VoiceAction::Send { message: m, id: request_id(m.kind()) }),
            final(self).state == next,
            final(self).sent@ == old(self).sent@.push(m.kind()),
            final(self).descriptor == old(self).descriptor,
            final(self).room_id == old(self).room_id && final(self).token == old(self).token,
            final(self).key == old(self).key && final(self).ssrc == old(self).ssrc,
            final(self).cname == old(self).cname,
    {
        self.state = next;
        self.sent = Ghost(self.sent@.push(m.kind()));
        let id = m.request_id();
        VoiceAction::Send { message: m, id }
    }

    fn fail(&mut self, e: NegotiationError) -> (r: VoiceAction)
        ensures
            r == VoiceAction::Fail(e),
            final(self).state == VoiceState::Failed(e),
            final(self).sent@ == old(self).sent@,
            final(self).descriptor == old(self).descriptor,
            final(self).room_id == old(self).room_id && final(self).token == old(self).token,
            final(self).key == old(self).key && final(self).ssrc == old(self).ssrc,
            final(self).cname == old(self).cname,
    {
        self.state = VoiceState::Failed(e);
        VoiceAction::Fail(e)
    }

    /// Takes one event: moves to the next state and returns what the
    /// caller must do.
    pub fn step(&mut self, input: VoiceInput) -> (r: VoiceAction)
        requires
            old(self).wf(),
        ensures
            final(self).wf(),
            final(self).room_id == old(self).room_id && final(self).token == old(self).token,
            final(self).key == old(self).key && final(self).ssrc == old(self).ssrc,
            final(self).cname == old(self).cname,
            r matches VoiceAction::Send { message, id } ==> id == request_id(message.kind())
                && final(self).sent@ == old(self).sent@.push(message.kind()),
            !(old(self).state == VoiceState::AwaitingTransportInfo && input is Frame) ==> (final(self).descriptor
                == old(self).descriptor),
            !(r is Send) ==> final(self).sent@ == old(self).sent@,
            !acts_on(old(self).state, input) ==> final(self).state == old(self).state
                && r is Ignore && final(self).descriptor == old(self).descriptor,
            old(self).state == VoiceState::Idle && input is Begin ==> final(self).state
                == VoiceState::Authenticating && r == (VoiceAction::Send {
                message: VoiceOutbound::Authenticate { room_id: old(self).room_id, token: old(self).token },
                id: 0,
            }),
            old(self).state == VoiceState::Authenticating && input is Sent ==> final(self).state
                == VoiceState::AwaitingRoomInfo && r == (VoiceAction::Send { message: VoiceOutbound::RoomInfo, id: 1 }),
            old(self).state == VoiceState::AwaitingRoomInfo && input is Sent ==> final(self).state
                == VoiceState::AwaitingTransportInfo && r == (VoiceAction::Send { message: VoiceOutbound::InitializeTransports, id: 25 }),
            old(self).state == VoiceState::AwaitingTransportInfo ==> (input matches VoiceInput::Frame(t)
                ==> match reply_tagged(t@, "InitializeTransports"@) {
                None => final(self).state == old(self).state && r is Ignore
                    && final(self).descriptor == old(self).descriptor,
                Some(j) => match descriptor_error(data_of(j)) {
                    Some(e) => final(self).state == VoiceState::Failed(e) && r == VoiceAction::Fail(e),
                    None => final(self).state == VoiceState::ConnectingMedia
                        && (final(self).descriptor matches Some(d) && d.read_from(data_of(j))
                        && r == (VoiceAction::ConnectMedia { host: d.ip, port: d.port })),
                },
            }),
            old(self).state == VoiceState::ConnectingMedia && input is MediaConnected ==> (
                final(self).state == VoiceState::AwaitingSrtpAck
                && (r matches VoiceAction::Send {
                    message: VoiceOutbound::ConnectTransport { transport_id, key_base64 },
                    id: 30,
                }
                && transport_id == old(self).descriptor->0.transport_id
                && key_base64@ == base64_of(old(self).key.material()))),
            old(self).state == VoiceState::ConnectingMedia && input is MediaFailed ==> final(self).state
                == VoiceState::Failed(NegotiationError::MediaConnectFailed) && r == VoiceAction::Fail(
                NegotiationError::MediaConnectFailed,
            ),
            old(self).state == VoiceState::AwaitingSrtpAck && input is Sent ==> final(self).state
                == VoiceState::Producing && r == (VoiceAction::Send {
                message: VoiceOutbound::StartProduce { ssrc: old(self).ssrc, cname: old(self).cname },
                id: 69,
            }),
            old(self).state == VoiceState::Producing ==> (input matches VoiceInput::Frame(t) ==> (
                final(self).state == VoiceState::Producing && (if reply_tagged(t@, "StartProduce"@) is Some {
                r is StartMedia
            } else {
                r is Ignore
            }))),
            !(old(self).state is Failed) && input is SocketClosed ==> final(self).state
                == VoiceState::Failed(NegotiationError::TransportClosed) && r == VoiceAction::Fail(
                NegotiationError::TransportClosed,
            ),
    {
        proof {
            reveal_strlit("InitializeTransports");
            reveal_strlit("StartProduce");
        }
        match input {
            VoiceInput::Begin => {
                if self.state == VoiceState::Idle {
                    let m = VoiceOutbound::Authenticate { room_id: self.room_id.clone(), token: self.token.clone() };
                    let r = self.send(m, VoiceState::Authenticating);
                    assert(self.sent@ =~= signal_order().subrange(0, 1));
                    r
                } else {
                    VoiceAction::Ignore
                }
            },
            VoiceInput::Sent => {
                if self.state == VoiceState::Authenticating {
                    let r = self.send(VoiceOutbound::RoomInfo, VoiceState::AwaitingRoomInfo);
                    assert(self.sent@ =~= signal_order().subrange(0, 2));
                    r
                } else if self.state == VoiceState::AwaitingRoomInfo {
                    let r = self.send(VoiceOutbound::InitializeTransports, VoiceState::AwaitingTransportInfo);
                    assert(self.sent@ =~= signal_order().subrange(0, 3));
                    r
                } else if self.state == VoiceState::AwaitingSrtpAck {
                    let m = VoiceOutbound::StartProduce { ssrc: self.ssrc, cname: self.cname.clone() };
                    let r = self.send(m, VoiceState::Producing);
                    assert(self.sent@ =~= signal_order().subrange(0, 5));
                    r
                } else {
                    VoiceAction::Ignore
                }
            },
            VoiceInput::Frame(text) => {
                if self.state == VoiceState::AwaitingTransportInfo {
                    let j = match self.reply(&text, "InitializeTransports") {
                        Some(j) => j,
                        None => return VoiceAction::Ignore,
                    };
                    let descriptor = match j.get("data") {
                        Some(d) => TransportDescriptor::from_json(d),
                        None => TransportDescriptor::from_json(&Json::Null),
                    };
                    match descriptor {
                        Err(e) => self.fail(e),
                        Ok(d) => {
                            let host = d.ip.clone();
                            let port = d.port;
                            self.descriptor = Some(d);
                            self.state = VoiceState::ConnectingMedia;
                            VoiceAction::ConnectMedia { host, port }
                        },
                    }
                } else if self.state == VoiceState::Producing {
                    match self.reply(&text, "StartProduce") {
                        Some(_) => VoiceAction::StartMedia,
                        None => VoiceAction::Ignore,
                    }
                } else {
                    VoiceAction::Ignore
                }
            },
            VoiceInput::MediaConnected => {
                if self.state == VoiceState::ConnectingMedia {
                    let transport_id = match &self.descriptor {
                        Some(d) => d.transport_id.clone(),
                        None => return VoiceAction::Ignore,
                    };
                    let key_base64 = self.key.get_base64();
                    let m = VoiceOutbound::ConnectTransport { transport_id, key_base64 };
                    let r = self.send(m, VoiceState::AwaitingSrtpAck);
                    assert(self.sent@ =~= signal_order().subrange(0, 4));
                    r
                } else {
                    VoiceAction::Ignore
                }
            },
            VoiceInput::MediaFailed => {
                if self.state == VoiceState::ConnectingMedia {
                    self.fail(NegotiationError::MediaConnectFailed)
                } else {
                    VoiceAction::Ignore
                }
            },
            VoiceInput::SocketClosed => {
                if matches!(self.state, VoiceState::Failed(_)) {
                    VoiceAction::Ignore
                } else {
                    self.fail(NegotiationError::TransportClosed)
                }
            },
        }
    }

    /// The tree of a frame tagged `tag`; `None` for other frames.
    fn reply(&self, text: &String, tag: &str) -> (r: Option<Json>)
        ensures
            r == reply_tagged(text@, tag@),
    {
        match Json::parse(text.as_str()) {
            Some(j) => {
                let same = match j.str_field("type") {
                    Some(t) => same_text(t.as_str(), tag),
                    None => false,
                };
                if same {
                    Some(j)
                } else {
                    None
                }
            },
            None => None,
        }
    }
}

/// The negotiator never sends ConnectTransport before it holds a transport
/// descriptor, which it takes only from a relay frame carrying the address,
/// port, crypto suite and transport id; and it never sends StartProduce
/// before ConnectTransport has been sent.
pub proof fn lemma_negotiation_ordering(n: VoiceNegotiator)
    requires
        n.wf(),
    ensures
        n.sent@.contains(SignalKind::ConnectTransport) ==> n.descriptor is Some,
        forall|i: int| 0 <= i < n.sent@.len() && #[trigger] n.sent@[i] == SignalKind::StartProduce
            ==> exists|k: int| 0 <= k < i && n.sent@[k] == SignalKind::ConnectTransport,
{
    let order = signal_order();
    if n.sent@.contains(SignalKind::ConnectTransport) {
        let i = choose|i: int| 0 <= i < n.sent@.len() && n.sent@[i] == SignalKind::ConnectTransport;
        assert(n.sent@[i] == order[i]);
    }
    assert forall|i: int| 0 <= i < n.sent@.len() && #[trigger] n.sent@[i] == SignalKind::StartProduce
        implies exists|k: int| 0 <= k < i && n.sent@[k] == SignalKind::ConnectTransport by {
        assert(n.sent@[i] == order[i]);
        assert(n.sent@[3] == order[3]);
    }
}

} // verus!
