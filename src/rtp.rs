//! RTP headers and packets, the sequence / rollover state of an outbound
//! stream, and SRTP-style protection of a packet.
use vstd::prelude::*;
use crate::codec::{be16, be32, ByteWriter, Endianess};
use crate::crypto::{
    auth_input, generate_hmac_auth_tag, hmac_sha1_of, truncated_tag, EncryptionStrategy,
    SessionContext,
};

verus! {

/// Bytes in the fixed part of an RTP header.
pub const RTP_HEADER_LENGTH: usize = 12;

/// The payload type this library streams audio with.
pub const DEFAULT_PAYLOAD_TYPE: u16 = 0x78;

/// Failures of packet construction and of the stream counters.
#[derive(Clone, Copy, Debug, PartialEq, Eq, Structural)]
pub enum RtpError {
    /// `build` was called before the payload type was set.
    MissingPayloadType,
    /// `build` was called before the payload was set.
    MissingPayload,
    /// Every (rollover counter, sequence) pair of the stream has been used;
    /// going on would reuse a keystream.
    SequenceExhausted,
}

/// The header fields of one RTP packet.
pub struct RtpHeader {
    pub sequence: u16,
    pub timestamp: u32,
    pub ssrc: u32,
    pub version: u32,
    pub has_padding: bool,
    pub has_extension: bool,
    pub csrc_count: u32,
    pub csrc_identifiers: Vec<u32>,
    pub marker: bool,
    pub payload_type: u16,
}

/// The bytes of a list of contributing sources, each big endian.
pub open spec fn csrc_bytes(ids: Seq<u32>) -> Seq<u8>
    decreases ids.len(),
{
    if ids.len() == 0 {
        Seq::empty()
    } else {
        csrc_bytes(ids.drop_last()) + be32(ids.last())
    }
}

pub open spec fn flag(b: bool, weight: int) -> int {
    if b { weight } else { 0 }
}

impl RtpHeader {
    /// Every field fits its width on the wire, and the CSRC count is the
    /// number of identifiers.
    pub open spec fn wf(&self) -> bool {
        &&& self.version <= 3
        &&& self.csrc_count == self.csrc_identifiers@.len()
        &&& self.csrc_count <= 15
        &&& self.payload_type <= 127
    }

    /// The first header byte: version, padding, extension and CSRC count.
    pub open spec fn first_byte(&self) -> u8 {
        (self.version * 64 + flag(self.has_padding, 32) + flag(self.has_extension, 16)
            + self.csrc_count) as u8
    }

    /// The second header byte: marker and payload type.
    pub open spec fn second_byte(&self) -> u8 {
        (flag(self.marker, 128) + self.payload_type) as u8
    }

    /// The header as it goes on the wire.
    pub open spec fn wire(&self) -> Seq<u8> {
        seq![self.first_byte(), self.second_byte()] + be16(self.sequence) + be32(self.timestamp)
            + be32(self.ssrc) + csrc_bytes(self.csrc_identifiers@)
    }

    /// The header as it goes on the wire: 12 bytes, then 4 for each
    /// contributing source.
    pub fn serialize(&self) -> (r: Vec<u8>)
        requires
            self.wf(),
        ensures
            r@ == self.wire(),
            r@.len() == RTP_HEADER_LENGTH + 4 * self.csrc_identifiers@.len(),
    {
        let mut w = ByteWriter::new(Some(Endianess::Big));
        let mut b0: u32 = self.version * 64 + self.csrc_count;
        if self.has_padding {
            b0 = b0 + 32;
        }
        if self.has_extension {
            b0 = b0 + 16;
        }
        let mut b1: u16 = self.payload_type;
        if self.marker {
            b1 = b1 + 128;
        }
        w.data.push(b0 as u8);
        w.data.push(b1 as u8);
        let _ = w.write_u16(self.sequence, None);
        let _ = w.write_u32(self.timestamp, None);
        let _ = w.write_u32(self.ssrc, None);
        let ghost fixed = seq![self.first_byte(), self.second_byte()] + be16(self.sequence)
            + be32(self.timestamp) + be32(self.ssrc);
        assert(w.data@ =~= fixed);
        let mut i: usize = 0;
        while i < self.csrc_identifiers.len()
            invariant
                i <= self.csrc_identifiers@.len(),
                self.csrc_identifiers@.len() <= 15,
                w.wf(),
                w.limit is None,
                w.endianess == Endianess::Big,
                w.data@ == fixed + csrc_bytes(self.csrc_identifiers@.subrange(0, i as int)),
                w.data@.len() == 12 + 4 * i,
            decreases self.csrc_identifiers@.len() - i,
        {
            let id = self.csrc_identifiers[i];
            let _ = w.write_u32(id, None);
            proof {
                let ids = self.csrc_identifiers@;
                assert(ids.subrange(0, i + 1).drop_last() =~= ids.subrange(0, i as int));
                assert(w.data@ =~= fixed + csrc_bytes(ids.subrange(0, i + 1)));
            }
            i += 1;
        }
        assert(self.csrc_identifiers@.subrange(0, i as int) =~= self.csrc_identifiers@);
        w.data
    }
}

/// A header with the defaults of an outbound audio stream: version 2, no
/// padding, extension or contributing sources, no marker, payload type
/// 0x78, and zero sequence, timestamp and SSRC.
pub fn create_rtp_header() -> (r: RtpHeader)
    ensures
        r.wf(),
        r.sequence == 0 && r.timestamp == 0 && r.ssrc == 0,
        r.version == 2,
        !r.has_padding && !r.has_extension && !r.marker,
        r.csrc_count == 0 && r.csrc_identifiers@.len() == 0,
        r.payload_type == DEFAULT_PAYLOAD_TYPE,
{
    RtpHeader {
        sequence: 0,
        timestamp: 0,
        ssrc: 0,
        version: 2,
        has_padding: false,
        has_extension: false,
        csrc_count: 0,
        csrc_identifiers: Vec::new(),
        marker: false,
        payload_type: DEFAULT_PAYLOAD_TYPE,
    }
}

/// The local counters of one outbound stream.
pub struct MediaState {
    pub ssrc: u32,
    pub sequence: u16,
    pub rollover: u32,
}

impl MediaState {
    /// A stream that starts at `sequence` in rollover period zero.
    pub fn new(ssrc: u32, sequence: u16) -> (r: MediaState)
        ensures
            r.ssrc == ssrc && r.sequence == sequence && r.rollover == 0,
    {
        MediaState { ssrc, sequence, rollover: 0 }
    }

    /// The position of the stream in the extended (rollover, sequence)
    /// sequence space.
    pub open spec fn index(&self) -> int {
        self.rollover * 0x1_0000 + self.sequence
    }

    /// Moves to the next packet: the sequence number goes up by one modulo
    /// 2^16, and the rollover counter goes up by one exactly when the
    /// sequence number wraps from 65535 to 0. When both are at their largest
    /// the stream is exhausted and stays as it was.
    pub fn advance(&mut self) -> (r: Result<(), RtpError>)
        ensures
            final(self).ssrc == old(self).ssrc,
            (old(self).sequence == 0xffff && old(self).rollover == 0xffff_ffff) ==> (
                r == Err::<(), RtpError>(RtpError::SequenceExhausted)
                && *final(self) == *old(self)),
            !(old(self).sequence == 0xffff && old(self).rollover == 0xffff_ffff) ==> (
                r is Ok
                && final(self).index() == old(self).index() + 1),
            r is Ok && old(self).sequence == 0xffff ==> final(self).sequence == 0
                && final(self).rollover == old(self).rollover + 1,
            r is Ok && old(self).sequence < 0xffff ==> final(self).sequence == old(self).sequence + 1
                && final(self).rollover == old(self).rollover,
    {
        if self.sequence == 0xffff && self.rollover == 0xffff_ffff {
            return Err(RtpError::SequenceExhausted);
        }
        let next = EncryptionStrategy::next_sequence(self.sequence);
        if next == 0 {
            self.rollover = self.rollover + 1;
        }
        self.sequence = next;
        Ok(())
    }
}

/// Header fields and payload of a packet, set in any order before `build`.
pub struct RtpPacketBuilder {
    pub sequence: u16,
    pub timestamp: u32,
    pub ssrc: u32,
    pub marker: bool,
    pub has_extension: bool,
    pub csrc_identifiers: Vec<u32>,
    pub payload_type: Option<u16>,
    pub payload: Option<Vec<u8>>,
    pub auth_tag: Option<Vec<u8>>,
}

impl RtpPacketBuilder {
    pub open spec fn wf(&self) -> bool {
        &&& self.csrc_identifiers@.len() <= 15
        &&& (self.payload_type matches Some(pt) ==> pt <= 127)
    }

    /// A builder with zero sequence, timestamp and SSRC, no marker, no
    /// extension, no contributing sources, and nothing else set.
    pub fn new() -> (r: Self)
        ensures
            r.wf(),
            r.sequence == 0 && r.timestamp == 0 && r.ssrc == 0,
            !r.marker && !r.has_extension,
            r.csrc_identifiers@.len() == 0,
            r.payload_type is None && r.payload is None && r.auth_tag is None,
    {
        RtpPacketBuilder {
            sequence: 0,
            timestamp: 0,
            ssrc: 0,
            marker: false,
            has_extension: false,
            csrc_identifiers: Vec::new(),
            payload_type: None,
            payload: None,
            auth_tag: None,
        }
    }

    pub fn set_sequence(&mut self, sequence: u16)
        ensures
            *final(self) == (RtpPacketBuilder { sequence, ..*old(self) }),
    {
        self.sequence = sequence;
    }

    pub fn set_timestamp(&mut self, timestamp: u32)
        ensures
            *final(self) == (RtpPacketBuilder { timestamp, ..*old(self) }),
    {
        self.timestamp = timestamp;
    }

    pub fn set_ssrc(&mut self, ssrc: u32)
        ensures
            *final(self) == (RtpPacketBuilder { ssrc, ..*old(self) }),
    {
        self.ssrc = ssrc;
    }

    pub fn set_marker(&mut self, marker: bool)
        ensures
            *final(self) == (RtpPacketBuilder { marker, ..*old(self) }),
    {
        self.marker = marker;
    }

    pub fn set_extension(&mut self, has_extension: bool)
        ensures
            *final(self) == (RtpPacketBuilder { has_extension, ..*old(self) }),
    {
        self.has_extension = has_extension;
    }

    /// Sets the contributing sources; RTP has room for at most 15.
    pub fn set_csrc_identifiers(&mut self, ids: Vec<u32>)
        requires
            ids@.len() <= 15,
        ensures
            *final(self) == (RtpPacketBuilder { csrc_identifiers: ids, ..*old(self) }),
    {
        self.csrc_identifiers = ids;
    }

    /// Sets the payload type, a 7-bit field.
    pub fn set_payload_type(&mut self, payload_type: u16)
        requires
            payload_type <= 127,
        ensures
            *final(self) == (RtpPacketBuilder { payload_type: Some(payload_type), ..*old(self) }),
    {
        self.payload_type = Some(payload_type);
    }

    pub fn set_payload(&mut self, payload: Vec<u8>)
        ensures
            *final(self) == (RtpPacketBuilder { payload: Some(payload), ..*old(self) }),
    {
        self.payload = Some(payload);
    }

    /// Sets the authentication tag appended after the payload when the
    /// stream is protected.
    pub fn set_auth_tag(&mut self, tag: Vec<u8>)
        ensures
            *final(self) == (RtpPacketBuilder { auth_tag: Some(tag), ..*old(self) }),
    {
        self.auth_tag = Some(tag);
    }

    /// The header these fields describe, with the given payload type.
    pub open spec fn header_spec(&self, pt: u16) -> RtpHeader {
        RtpHeader {
            sequence: self.sequence,
            timestamp: self.timestamp,
            ssrc: self.ssrc,
            version: 2,
            has_padding: false,
            has_extension: self.has_extension,
            csrc_count: self.csrc_identifiers@.len() as u32,
            csrc_identifiers: self.csrc_identifiers,
            marker: self.marker,
            payload_type: pt,
        }
    }

    /// The packet these fields describe: header, payload, then the
    /// authentication tag if one was set.
    pub open spec fn packet_spec(&self) -> Seq<u8>
        recommends
            self.payload_type is Some,
            self.payload is Some,
    {
        self.header_spec(self.payload_type->0).wire() + self.payload->0@ + match self.auth_tag {
            Some(t) => t@,
            None => Seq::empty(),
        }
    }

    /// Serializes the packet. It fails when the payload type, or else the
    /// payload, was never set.
    pub fn build(&self) -> (r: Result<Vec<u8>, RtpError>)
        requires
            self.wf(),
            self.payload matches Some(p) ==> p@.len() <= 0x1000_0000,
            self.auth_tag matches Some(t) ==> t@.len() <= 0x1000_0000,
        ensures
            self.payload_type is None ==> r == Err::<Vec<u8>, RtpError>(RtpError::MissingPayloadType),
            self.payload_type is Some && self.payload is None ==> r == Err::<Vec<u8>, RtpError>(
                RtpError::MissingPayload),
            self.payload_type is Some && self.payload is Some ==> (r matches Ok(bytes)
                && bytes@ == self.packet_spec()),
    {
        let pt = match self.payload_type {
            Some(pt) => pt,
            None => return Err(RtpError::MissingPayloadType),
        };
        let payload = match &self.payload {
            Some(p) => p,
            None => return Err(RtpError::MissingPayload),
        };
        let header = RtpHeader {
            sequence: self.sequence,
            timestamp: self.timestamp,
            ssrc: self.ssrc,
            version: 2,
            has_padding: false,
            has_extension: self.has_extension,
            csrc_count: self.csrc_identifiers.len() as u32,
            csrc_identifiers: self.csrc_identifiers.clone(),
            marker: self.marker,
            payload_type: pt,
        };
        assert(header.csrc_identifiers@ == self.csrc_identifiers@);
        let mut bytes = header.serialize();
        assert(bytes@ == self.header_spec(pt).wire());
        bytes.extend_from_slice(payload.as_slice());
        match &self.auth_tag {
            Some(t) => bytes.extend_from_slice(t.as_slice()),
            None => {},
        }
        assert(bytes@ =~= self.packet_spec());
        Ok(bytes)
    }
}

/// `payload` XORed byte by byte with the start of `keystream`.
pub open spec fn xor_keystream(payload: Seq<u8>, keystream: Seq<u8>) -> Seq<u8> {
    Seq::new(payload.len(), |i: int| payload[i] ^ keystream[i])
}

/// Encrypts a payload with the keystream of a stream cipher (AES in
/// counter mode, produced from the packet's counter by the caller's
/// cipher).
pub fn apply_keystream(payload: &[u8], keystream: &[u8]) -> (r: Vec<u8>)
    requires
        keystream@.len() >= payload@.len(),
    ensures
        r@ == xor_keystream(payload@, keystream@),
{
    let mut out: Vec<u8> = Vec::new();
    let mut i: usize = 0;
    while i < payload.len()
        invariant
            i <= payload@.len(),
            keystream@.len() >= payload@.len(),
            out@ == xor_keystream(payload@, keystream@).subrange(0, i as int),
        decreases payload@.len() - i,
    {
        out.push(payload[i] ^ keystream[i]);
        i += 1;
        proof {
            assert(out@ =~= xor_keystream(payload@, keystream@).subrange(0, i as int));
        }
    }
    assert(out@ =~= xor_keystream(payload@, keystream@));
    out
}

/// The protected packet: header, encrypted payload, and the 10-byte tag
/// that authenticates both together with the rollover counter.
pub open spec fn protected_packet(
    auth_key: Seq<u8>,
    header: Seq<u8>,
    payload: Seq<u8>,
    keystream: Seq<u8>,
    roc: u32,
) -> Seq<u8> {
    let body = header + xor_keystream(payload, keystream);
    body + truncated_tag(hmac_sha1_of(auth_key, auth_input(body, roc)))
}

/// Protects one packet of a stream: encrypts the payload with `keystream`
/// and appends the authentication tag under the session's key.
pub fn protect_packet(
    context: &SessionContext,
    header: &RtpHeader,
    roc: u32,
    payload: &[u8],
    keystream: &[u8],
) -> (r: Vec<u8>)
    requires
        header.wf(),
        payload@.len() <= 0x1000_0000,
        keystream@.len() >= payload@.len(),
    ensures
        r@ == protected_packet(
            context.authentication_key@,
            header.wire(),
            payload@,
            keystream@,
            roc,
        ),
{
    let mut body = header.serialize();
    let cipher = apply_keystream(payload, keystream);
    body.extend_from_slice(cipher.as_slice());
    assert(body@ == header.wire() + xor_keystream(payload@, keystream@));
    let tag = generate_hmac_auth_tag(context.authentication_key.as_slice(), body.as_slice(), roc);
    let ghost b = body@;
    body.extend_from_slice(tag.as_slice());
    assert(body@ =~= b + tag@);
    body
}

} // verus!
