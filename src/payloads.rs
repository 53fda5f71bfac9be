//! The media capabilities a voice client announces, and their JSON forms.
use vstd::prelude::*;
use crate::json::Json;

verus! {

/// The name of entry `i` of an object.
pub open spec fn key_at(j: Json, i: int, key: Seq<char>) -> bool {
    j matches Json::Object(e) && 0 <= i < e@.len() && e@[i].0@ == key
}

/// The value of entry `i` of an object.
pub open spec fn value_at(j: Json, i: int) -> Json {
    match j {
        Json::Object(e) => e@[i].1,
        _ => Json::Null,
    }
}

/// The number of entries of an object.
pub open spec fn entries_len(j: Json) -> int {
    match j {
        Json::Object(e) => e@.len() as int,
        _ => -1,
    }
}

/// Whether entry `i` of `j` is named `key` and holds the string `s`.
pub open spec fn str_entry(j: Json, i: int, key: Seq<char>, s: Seq<char>) -> bool {
    key_at(j, i, key) && value_at(j, i).text() == Some(s)
}

/// Whether entry `i` of `j` is named `key` and holds the integer `n`.
pub open spec fn uint_entry(j: Json, i: int, key: Seq<char>, n: u64) -> bool {
    key_at(j, i, key) && value_at(j, i) == Json::UInt(n)
}

/// How the media transport is laid out.
#[derive(Clone, Copy, Debug, PartialEq, Eq, Structural)]
pub enum VoiceMode {
    /// Sending and receiving share one WebRTC transport.
    CombinedWebRtc,
    /// Sending and receiving use separate WebRTC transports.
    SplitWebRtc,
    /// Plain RTP over UDP for both directions; the mode this client uses.
    CombinedRtp,
}

impl VoiceMode {
    pub open spec fn name_spec(self) -> Seq<char> {
        match self {
            VoiceMode::CombinedWebRtc => "CombinedWebRTC"@,
            VoiceMode::SplitWebRtc => "SplitWebRTC"@,
            VoiceMode::CombinedRtp => "CombinedRTP"@,
        }
    }

    /// The wire name of the mode.
    pub fn name(&self) -> (r: &'static str)
        ensures
            r@ == self.name_spec(),
    {
        match self {
            VoiceMode::CombinedWebRtc => "CombinedWebRTC",
            VoiceMode::SplitWebRtc => "SplitWebRTC",
            VoiceMode::CombinedRtp => "CombinedRTP",
        }
    }
}

/// The media kind a codec or header extension applies to.
#[derive(Clone, Copy, Debug, PartialEq, Eq, Structural)]
pub enum RtpHeaderExtensionKind {
    Audio,
    Video,
}

impl RtpHeaderExtensionKind {
    pub open spec fn name_spec(self) -> Seq<char> {
        match self {
            RtpHeaderExtensionKind::Audio => "audio"@,
            RtpHeaderExtensionKind::Video => "video"@,
        }
    }

    /// The wire name of the kind.
    pub fn name(&self) -> (r: &'static str)
        ensures
            r@ == self.name_spec(),
    {
        match self {
            RtpHeaderExtensionKind::Audio => "audio",
            RtpHeaderExtensionKind::Video => "video",
        }
    }
}

/// One RTCP feedback mechanism a codec supports.
pub struct RtcpFeedback {
    pub rtcp_feedback_type: String,
    pub parameter: String,
}

impl RtcpFeedback {
    pub open spec fn json_form(self, j: Json) -> bool {
        &&& entries_len(j) == 2
        &&& str_entry(j, 0, "type"@, self.rtcp_feedback_type@)
        &&& str_entry(j, 1, "parameter"@, self.parameter@)
    }

    pub fn to_json(&self) -> (r: Json)
        ensures
            self.json_form(r),
    {
        Json::Object(
            vec![
                ("type".to_owned(), Json::Str(self.rtcp_feedback_type.clone())),
                ("parameter".to_owned(), Json::Str(self.parameter.clone())),
            ],
        )
    }
}

/// Format parameters of the Opus codec.
pub struct RtpCodecParameter {
    pub minptime: u16,
    pub useinbandfec: u8,
}

impl RtpCodecParameter {
    pub open spec fn json_form(self, j: Json) -> bool {
        &&& entries_len(j) == 2
        &&& uint_entry(j, 0, "minptime"@, self.minptime as u64)
        &&& uint_entry(j, 1, "useinbandfec"@, self.useinbandfec as u64)
    }

    pub fn to_json(&self) -> (r: Json)
        ensures
            self.json_form(r),
    {
        Json::Object(
            vec![
                ("minptime".to_owned(), Json::UInt(self.minptime as u64)),
                ("useinbandfec".to_owned(), Json::UInt(self.useinbandfec as u64)),
            ],
        )
    }
}

/// An RTP header extension the client can use.
pub struct RtpHeaderExtension {
    pub uri: String,
    pub kind: RtpHeaderExtensionKind,
    pub preferred_id: u16,
    pub preferred_encrypt: bool,
    pub direction: String,
}

impl RtpHeaderExtension {
    pub open spec fn json_form(self, j: Json) -> bool {
        &&& entries_len(j) == 5
        &&& str_entry(j, 0, "kind"@, self.kind.name_spec())
        &&& str_entry(j, 1, "uri"@, self.uri@)
        &&& uint_entry(j, 2, "preferredId"@, self.preferred_id as u64)
        &&& key_at(j, 3, "preferredEncrypt"@) && value_at(j, 3) == Json::Bool(self.preferred_encrypt)
        &&& str_entry(j, 4, "direction"@, self.direction@)
    }

    pub fn to_json(&self) -> (r: Json)
        ensures
            self.json_form(r),
    {
        Json::Object(
            vec![
                ("kind".to_owned(), Json::Str(self.kind.name().to_owned())),
                ("uri".to_owned(), Json::Str(self.uri.clone())),
                ("preferredId".to_owned(), Json::UInt(self.preferred_id as u64)),
                ("preferredEncrypt".to_owned(), Json::Bool(self.preferred_encrypt)),
                ("direction".to_owned(), Json::Str(self.direction.clone())),
            ],
        )
    }
}

/// A codec the client can send or receive.
pub struct RtpCodecCapability {
    pub mime_type: String,
    pub kind: RtpHeaderExtensionKind,
    pub preferred_payload_type: u16,
    pub clock_rate: u32,
    pub channels: u8,
    pub parameters: RtpCodecParameter,
    pub rtcp_feedback: Vec<RtcpFeedback>,
}

/// Whether `j` is an array of the JSON forms of `items`.
pub open spec fn feedback_list_form(items: Seq<RtcpFeedback>, j: Json) -> bool {
    j matches Json::Array(a) && a@.len() == items.len() && forall|i: int|
        0 <= i < items.len() ==> (#[trigger] items[i]).json_form(a@[i])
}

pub open spec fn extension_list_form(items: Seq<RtpHeaderExtension>, j: Json) -> bool {
    j matches Json::Array(a) && a@.len() == items.len() && forall|i: int|
        0 <= i < items.len() ==> (#[trigger] items[i]).json_form(a@[i])
}

pub open spec fn codec_list_form(items: Seq<RtpCodecCapability>, j: Json) -> bool {
    j matches Json::Array(a) && a@.len() == items.len() && forall|i: int|
        0 <= i < items.len() ==> (#[trigger] items[i]).json_form(a@[i])
}

fn feedback_list(items: &Vec<RtcpFeedback>) -> (r: Json)
    ensures
        feedback_list_form(items@, r),
{
    let mut out: Vec<Json> = Vec::new();
    let mut i: usize = 0;
    while i < items.len()
        invariant
            i <= items@.len(),
            out@.len() == i,
            forall|k: int| 0 <= k < i ==> (#[trigger] items@[k]).json_form(out@[k]),
        decreases items@.len() - i,
    {
        out.push(items[i].to_json());
        i += 1;
    }
    Json::Array(out)
}

fn extension_list(items: &Vec<RtpHeaderExtension>) -> (r: Json)
    ensures
        extension_list_form(items@, r),
{
    let mut out: Vec<Json> = Vec::new();
    let mut i: usize = 0;
    while i < items.len()
        invariant
            i <= items@.len(),
            out@.len() == i,
            forall|k: int| 0 <= k < i ==> (#[trigger] items@[k]).json_form(out@[k]),
        decreases items@.len() - i,
    {
        out.push(items[i].to_json());
        i += 1;
    }
    Json::Array(out)
}

fn codec_list(items: &Vec<RtpCodecCapability>) -> (r: Json)
    ensures
        codec_list_form(items@, r),
{
    let mut out: Vec<Json> = Vec::new();
    let mut i: usize = 0;
    while i < items.len()
        invariant
            i <= items@.len(),
            out@.len() == i,
            forall|k: int| 0 <= k < i ==> (#[trigger] items@[k]).json_form(out@[k]),
        decreases items@.len() - i,
    {
        out.push(items[i].to_json());
        i += 1;
    }
    Json::Array(out)
}

impl RtpCodecCapability {
    pub open spec fn json_form(self, j: Json) -> bool {
        &&& entries_len(j) == 7
        &&& str_entry(j, 0, "mimeType"@, self.mime_type@)
        &&& str_entry(j, 1, "kind"@, self.kind.name_spec())
        &&& uint_entry(j, 2, "preferredPayloadType"@, self.preferred_payload_type as u64)
        &&& uint_entry(j, 3, "clockRate"@, self.clock_rate as u64)
        &&& uint_entry(j, 4, "channels"@, self.channels as u64)
        &&& key_at(j, 5, "parameters"@) && self.parameters.json_form(value_at(j, 5))
        &&& key_at(j, 6, "rtcpFeedback"@) && feedback_list_form(self.rtcp_feedback@, value_at(j, 6))
    }

    pub fn to_json(&self) -> (r: Json)
        ensures
            self.json_form(r),
    {
        Json::Object(
            vec![
                ("mimeType".to_owned(), Json::Str(self.mime_type.clone())),
                ("kind".to_owned(), Json::Str(self.kind.name().to_owned())),
                ("preferredPayloadType".to_owned(), Json::UInt(self.preferred_payload_type as u64)),
                ("clockRate".to_owned(), Json::UInt(self.clock_rate as u64)),
                ("channels".to_owned(), Json::UInt(self.channels as u64)),
                ("parameters".to_owned(), self.parameters.to_json()),
                ("rtcpFeedback".to_owned(), feedback_list(&self.rtcp_feedback)),
            ],
        )
    }
}

/// Everything the client can send and receive.
pub struct RtpCapabilities {
    pub header_extensions: Vec<RtpHeaderExtension>,
    pub codecs: Vec<RtpCodecCapability>,
}

fn extension(kind: RtpHeaderExtensionKind, uri: &str, preferred_id: u16) -> (r: RtpHeaderExtension)
    ensures
        r.kind == kind && r.uri@ == uri@ && r.preferred_id == preferred_id,
        !r.preferred_encrypt,
        r.direction@ == "sendrecv"@,
{
    RtpHeaderExtension {
        uri: uri.to_owned(),
        kind,
        preferred_id,
        preferred_encrypt: false,
        direction: "sendrecv".to_owned(),
    }
}

/// Whether `e` is the extension for `kind` at `uri` with id `id`, sent
/// and received unencrypted.
pub open spec fn is_extension(e: RtpHeaderExtension, kind: RtpHeaderExtensionKind, uri: Seq<char>, id: u16) -> bool {
    &&& e.kind == kind
    &&& e.uri@ == uri
    &&& e.preferred_id == id
    &&& !e.preferred_encrypt
    &&& e.direction@ == "sendrecv"@
}

impl RtpCapabilities {
    /// Stereo Opus at 48 kHz (payload type 100, minptime 10, in-band FEC,
    /// transport-wide congestion control feedback), and eight header
    /// extensions.
    pub open spec fn is_audio_default(self) -> bool {
        let c = self.codecs@[0];
        let x = self.header_extensions@;
        let audio = RtpHeaderExtensionKind::Audio;
        let video = RtpHeaderExtensionKind::Video;
        &&& self.codecs@.len() == 1
        &&& c.mime_type@ == "audio/opus"@
        &&& c.kind == audio
        &&& c.preferred_payload_type == 100
        &&& c.clock_rate == 48000
        &&& c.channels == 2
        &&& c.parameters.minptime == 10
        &&& c.parameters.useinbandfec == 1
        &&& c.rtcp_feedback@.len() == 1
        &&& c.rtcp_feedback@[0].rtcp_feedback_type@ == "transport-cc"@
        &&& c.rtcp_feedback@[0].parameter@ == ""@
        &&& x.len() == 8
        &&& is_extension(x[0], audio, "urn:ietf:params:rtp-hdrext:sdes:mid"@, 1)
        &&& is_extension(x[1], video, "urn:ietf:params:rtp-hdrext:sdes:mid"@, 1)
        &&& is_extension(x[2], audio, "http://www.webrtc.org/experiments/rtp-hdrext/abs-send-time"@, 4)
        &&& is_extension(x[3], video, "http://www.webrtc.org/experiments/rtp-hdrext/abs-send-time"@, 4)
        &&& is_extension(x[4], video, "http://www.ietf.org/id/draft-holmer-rmcat-transport-wide-cc-extensions-01"@, 5)
        &&& is_extension(x[5], audio, "urn:ietf:params:rtp-hdrext:ssrc-audio-level"@, 10)
        &&& is_extension(x[6], video, "urn:3gpp:video-orientation"@, 11)
        &&& is_extension(x[7], video, "urn:ietf:params:rtp-hdrext:toffset"@, 12)
    }

    pub open spec fn json_form(self, j: Json) -> bool {
        &&& entries_len(j) == 2
        &&& key_at(j, 0, "codecs"@) && codec_list_form(self.codecs@, value_at(j, 0))
        &&& key_at(j, 1, "headerExtensions"@) && extension_list_form(
            self.header_extensions@,
            value_at(j, 1),
        )
    }

    pub fn to_json(&self) -> (r: Json)
        ensures
            self.json_form(r),
    {
        Json::Object(
            vec![
                ("codecs".to_owned(), codec_list(&self.codecs)),
                ("headerExtensions".to_owned(), extension_list(&self.header_extensions)),
            ],
        )
    }

    /// Stereo Opus at 48 kHz with transport-wide congestion control
    /// feedback, and the usual audio and video header extensions.
    pub fn audio_default() -> (r: RtpCapabilities)
        ensures
            r.is_audio_default(),
    {
        let opus = RtpCodecCapability {
            mime_type: "audio/opus".to_owned(),
            kind: RtpHeaderExtensionKind::Audio,
            preferred_payload_type: 100,
            clock_rate: 48000,
            channels: 2,
            parameters: RtpCodecParameter { minptime: 10, useinbandfec: 1 },
            rtcp_feedback: vec![
                RtcpFeedback { rtcp_feedback_type: "transport-cc".to_owned(), parameter: "".to_owned() },
            ],
        };
        let audio = RtpHeaderExtensionKind::Audio;
        let video = RtpHeaderExtensionKind::Video;
        let header_extensions = vec![
            extension(audio, "urn:ietf:params:rtp-hdrext:sdes:mid", 1),
            extension(video, "urn:ietf:params:rtp-hdrext:sdes:mid", 1),
            extension(audio, "http://www.webrtc.org/experiments/rtp-hdrext/abs-send-time", 4),
            extension(video, "http://www.webrtc.org/experiments/rtp-hdrext/abs-send-time", 4),
            extension(video, "http://www.ietf.org/id/draft-holmer-rmcat-transport-wide-cc-extensions-01", 5),
            extension(audio, "urn:ietf:params:rtp-hdrext:ssrc-audio-level", 10),
            extension(video, "urn:3gpp:video-orientation", 11),
            extension(video, "urn:ietf:params:rtp-hdrext:toffset", 12),
        ];
        RtpCapabilities { header_extensions, codecs: vec![opus] }
    }
}

/// The body of an InitializeTransports request.
pub struct InitializeTransportsPayloadData {
    pub mode: VoiceMode,
    pub rtp_capabilities: RtpCapabilities,
}

impl InitializeTransportsPayloadData {
    pub open spec fn json_form(self, j: Json) -> bool {
        &&& entries_len(j) == 2
        &&& str_entry(j, 0, "mode"@, self.mode.name_spec())
        &&& key_at(j, 1, "rtpCapabilities"@) && self.rtp_capabilities.json_form(value_at(j, 1))
    }

    pub fn to_json(&self) -> (r: Json)
        ensures
            self.json_form(r),
    {
        Json::Object(
            vec![
                ("mode".to_owned(), Json::Str(self.mode.name().to_owned())),
                ("rtpCapabilities".to_owned(), self.rtp_capabilities.to_json()),
            ],
        )
    }
}

/// A complete InitializeTransports request.
pub struct InitializeTransportsPayload {
    pub id: u16,
    pub payload_type: String,
    pub data: InitializeTransportsPayloadData,
}

impl InitializeTransportsPayload {
    pub open spec fn json_form(self, j: Json) -> bool {
        &&& entries_len(j) == 3
        &&& uint_entry(j, 0, "id"@, self.id as u64)
        &&& str_entry(j, 1, "type"@, self.payload_type@)
        &&& key_at(j, 2, "data"@) && self.data.json_form(value_at(j, 2))
    }

    pub fn to_json(&self) -> (r: Json)
        ensures
            self.json_form(r),
    {
        Json::Object(
            vec![
                ("id".to_owned(), Json::UInt(self.id as u64)),
                ("type".to_owned(), Json::Str(self.payload_type.clone())),
                ("data".to_owned(), self.data.to_json()),
            ],
        )
    }
}

} // verus!
