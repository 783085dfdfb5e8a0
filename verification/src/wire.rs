//! The wire frame and the mirroring path.
//!
//! Every typed publish can be mirrored: the value is published once on its
//! local topic, and once more — repackaged as a [`WirePacket`] — on one
//! fixed, process-wide internal topic ([`IPC_TX_TOPIC_NAME`]), where a
//! router process picks the frames up and drives a physical transport.  A
//! frame carries the local topic's name, truncated to [`WIRE_MAX_TOPIC`]
//! bytes, and the value's canonical byte form, truncated to
//! [`WIRE_MAX_PAYLOAD`] bytes.

use vstd::prelude::*;

use crate::codec::Encodable;
use crate::msg::{Msg, MSG_PAYLOAD_SIZE};
use crate::pad::{copy_zero_padded, zero_padded};

verus! {

use vstd::bytes::{
    lemma_auto_spec_u16_to_from_le_bytes, spec_u16_from_le_bytes, spec_u16_to_le_bytes,
    u16_from_le_bytes, u16_to_le_bytes,
};
use vstd::slice::{slice_subrange, slice_to_vec};
use vstd::string::StringSliceAdditionalSpecFns;
use vstd::utf8::{decode_utf8, encode_utf8, encode_utf8_decode_utf8, encode_utf8_valid_utf8,
    valid_utf8};

/// Fixed, process-wide name of the internal mirroring topic.  Every
/// cooperating process must use this identical string.
pub const IPC_TX_TOPIC_NAME: &'static str = "/ipc_tx";

/// Maximum topic-name length stored in a wire packet.
pub const WIRE_MAX_TOPIC: usize = 64;

/// Maximum payload size carried in a wire packet.
pub const WIRE_MAX_PAYLOAD: usize = 128;

/// Total size of a wire packet's byte form: two 16-bit words' worth of
/// header, the topic field, and the data field.
pub const WIRE_PACKET_SIZE: usize = 196;

/// Type tag of a value published on its local topic by the mirroring path.
pub const WIRE_LOCAL_TAG: u16 = 1;

/// Type tag of a mirrored frame on the internal topic.
pub const WIRE_MIRROR_TAG: u16 = 0;

/// Fixed-layout envelope for out-of-process forwarding: a topic name (as
/// bytes) and a payload, each in a fixed buffer with its used length.
#[derive(Clone, Debug, PartialEq)]
pub struct WirePacket {
    pub payload_len: u16,
    pub topic_len: u8,
    pub reserved: u8,
    pub topic: Vec<u8>,
    pub data: Vec<u8>,
}

impl WirePacket {
    /// The packet's invariant: both buffers have exactly their fixed
    /// capacity and both recorded lengths fit within them.
    pub open spec fn wf(self) -> bool {
        &&& self.topic@.len() == WIRE_MAX_TOPIC
        &&& self.data@.len() == WIRE_MAX_PAYLOAD
        &&& self.topic_len as int <= WIRE_MAX_TOPIC as int
        &&& self.payload_len as int <= WIRE_MAX_PAYLOAD as int
    }

    /// The used prefix of the topic field, the recorded length clamped to
    /// what the buffer holds.
    pub open spec fn clipped_topic(self) -> Seq<u8> {
        let n = vstd::math::min(
            vstd::math::min(self.topic_len as int, WIRE_MAX_TOPIC as int),
            self.topic@.len() as int,
        );
        self.topic@.take(n)
    }

    /// The topic name a reader of this packet sees: the used prefix of the
    /// topic field decoded as text, or the empty string when those bytes
    /// are not a valid encoding.
    pub open spec fn spec_topic_name(self) -> Seq<char> {
        if valid_utf8(self.clipped_topic()) {
            decode_utf8(self.clipped_topic())
        } else {
            Seq::<char>::empty()
        }
    }

    /// Try to decode the topic name as UTF-8.  Returns an empty string on
    /// invalid encoding — a deliberate lossy-decode policy, not an error.
    pub fn topic_name(&self) -> (r: String)
        ensures
            r@ == self.spec_topic_name(),
    {
        let mut end: usize = self.topic_len as usize;
        if end > WIRE_MAX_TOPIC {
            end = WIRE_MAX_TOPIC;
        }
        if end > self.topic.len() {
            end = self.topic.len();
        }
        let prefix = slice_subrange(self.topic.as_slice(), 0, end);
        match utf8_to_string(prefix) {
            Some(s) => s,
            None => {
                let empty = "";
                proof {
                    reveal_strlit("");
                    assert(empty@ =~= Seq::<char>::empty());
                }
                empty.to_owned()
            },
        }
    }

    /// The packet's exact byte form: `payload_len` little-endian, then
    /// `topic_len` and `reserved`, then the topic and data buffers.
    pub open spec fn spec_enc(self) -> Seq<u8> {
        spec_u16_to_le_bytes(self.payload_len) + seq![self.topic_len, self.reserved]
            + self.topic@ + self.data@
    }

    /// Serialize the packet into its fixed 196-byte form.
    pub fn encode_bytes(&self) -> (r: Vec<u8>)
        requires
            self.wf(),
        ensures
            r@ == self.spec_enc(),
            r@.len() == WIRE_PACKET_SIZE,
    {
        proof {
            lemma_auto_spec_u16_to_from_le_bytes();
        }
        let mut r = u16_to_le_bytes(self.payload_len);
        r.push(self.topic_len);
        r.push(self.reserved);
        let mut topic = copy_zero_padded(self.topic.as_slice(), WIRE_MAX_TOPIC, WIRE_MAX_TOPIC);
        let mut data = copy_zero_padded(self.data.as_slice(), WIRE_MAX_PAYLOAD, WIRE_MAX_PAYLOAD);
        r.append(&mut topic);
        r.append(&mut data);
        proof {
            assert(r@ =~= self.spec_enc());
        }
        r
    }

    /// Read a packet back from its fixed 196-byte form.  The recorded
    /// lengths are taken as they stand; readers clamp them, as
    /// [`Self::topic_name`] does.
    pub fn decode_bytes(bytes: &[u8]) -> (p: WirePacket)
        requires
            bytes@.len() == WIRE_PACKET_SIZE,
        ensures
            p.payload_len == spec_u16_from_le_bytes(bytes@.subrange(0, 2)),
            p.topic_len == bytes@[2],
            p.reserved == bytes@[3],
            p.topic@ == bytes@.subrange(4, 68),
            p.data@ == bytes@.subrange(68, WIRE_PACKET_SIZE as int),
            p.topic@.len() == WIRE_MAX_TOPIC,
            p.data@.len() == WIRE_MAX_PAYLOAD,
    {
        let payload_len = u16_from_le_bytes(slice_subrange(bytes, 0, 2));
        let topic_len = bytes[2];
        let reserved = bytes[3];
        let topic = slice_to_vec(slice_subrange(bytes, 4, 68));
        let data = slice_to_vec(slice_subrange(bytes, 68, WIRE_PACKET_SIZE));
        WirePacket { payload_len, topic_len, reserved, topic, data }
    }
}

/// The packet's byte form is bit-exact and invertible: reading back the
/// serialized fields of a well-formed packet gives the packet's own fields.
pub proof fn lemma_packet_bytes_round_trip(p: WirePacket)
    requires
        p.wf(),
    ensures
        p.spec_enc().len() == WIRE_PACKET_SIZE,
        spec_u16_from_le_bytes(p.spec_enc().subrange(0, 2)) == p.payload_len,
        p.spec_enc()[2] == p.topic_len,
        p.spec_enc()[3] == p.reserved,
        p.spec_enc().subrange(4, 68) == p.topic@,
        p.spec_enc().subrange(68, WIRE_PACKET_SIZE as int) == p.data@,
{
    lemma_auto_spec_u16_to_from_le_bytes();
    assert(p.spec_enc().subrange(0, 2) =~= spec_u16_to_le_bytes(p.payload_len));
    assert(p.spec_enc().subrange(4, 68) =~= p.topic@);
    assert(p.spec_enc().subrange(68, WIRE_PACKET_SIZE as int) =~= p.data@);
}

/// Build the frame that mirrors one published value, from the value's byte
/// form: the local topic's name, truncated to the topic field, and the
/// given bytes, truncated to the data field, each zero-padded to its fixed
/// capacity.
pub fn mirror_packet_bytes(topic_name: &str, value_bytes: &[u8]) -> (p: WirePacket)
    ensures
        p.wf(),
        p.reserved == 0,
        p.topic_len as int == vstd::math::min(
            topic_name.spec_bytes().len() as int,
            WIRE_MAX_TOPIC as int,
        ),
        p.topic@ == zero_padded(topic_name.spec_bytes(), p.topic_len as nat, WIRE_MAX_TOPIC as nat),
        p.payload_len as int == vstd::math::min(value_bytes@.len() as int, WIRE_MAX_PAYLOAD as int),
        p.data@ == zero_padded(value_bytes@, p.payload_len as nat, WIRE_MAX_PAYLOAD as nat),
{
    let name_bytes = topic_name.as_bytes();
    let tlen: usize = if name_bytes.len() < WIRE_MAX_TOPIC {
        name_bytes.len()
    } else {
        WIRE_MAX_TOPIC
    };
    let plen: usize = if value_bytes.len() < WIRE_MAX_PAYLOAD {
        value_bytes.len()
    } else {
        WIRE_MAX_PAYLOAD
    };
    let topic = copy_zero_padded(name_bytes, tlen, WIRE_MAX_TOPIC);
    let data = copy_zero_padded(value_bytes, plen, WIRE_MAX_PAYLOAD);
    WirePacket { payload_len: plen as u16, topic_len: tlen as u8, reserved: 0, topic, data }
}

/// Build the frame that mirrors one published value: as
/// [`mirror_packet_bytes`], on the value's canonical byte form.
pub fn mirror_packet<T: Encodable>(topic_name: &str, value: &T) -> (p: WirePacket)
    requires
        value.wf(),
    ensures
        p.wf(),
        p.reserved == 0,
        p.topic_len as int == vstd::math::min(
            topic_name.spec_bytes().len() as int,
            WIRE_MAX_TOPIC as int,
        ),
        p.topic@ == zero_padded(topic_name.spec_bytes(), p.topic_len as nat, WIRE_MAX_TOPIC as nat),
        p.payload_len as int == vstd::math::min(T::spec_size() as int, WIRE_MAX_PAYLOAD as int),
        p.data@ == zero_padded(value.enc(), p.payload_len as nat, WIRE_MAX_PAYLOAD as nat),
{
    let raw = value.encode();
    proof {
        T::lemma_enc_len(*value);
    }
    mirror_packet_bytes(topic_name, raw.as_slice())
}

/// The byte form of the frame that mirrors a value: built from the topic
/// name's byte form and the value's canonical byte form alone.
pub open spec fn spec_frame_bytes(name_bytes: Seq<u8>, value_bytes: Seq<u8>) -> Seq<u8> {
    let tlen = vstd::math::min(name_bytes.len() as int, WIRE_MAX_TOPIC as int);
    let plen = vstd::math::min(value_bytes.len() as int, WIRE_MAX_PAYLOAD as int);
    spec_u16_to_le_bytes(plen as u16) + seq![tlen as u8, 0u8]
        + zero_padded(name_bytes, tlen as nat, WIRE_MAX_TOPIC as nat)
        + zero_padded(value_bytes, plen as nat, WIRE_MAX_PAYLOAD as nat)
}

/// The mirror publish's second step as one message, from the value's byte
/// form: exactly one frame, tagged [`WIRE_MIRROR_TAG`], whose payload
/// prefix is the frame's byte form and determined by the topic name and
/// the given bytes alone.
pub fn mirror_msg_bytes(topic_name: &str, value_bytes: &[u8]) -> (m: Msg)
    ensures
        m.wf(),
        m.hdr.msg_type == WIRE_MIRROR_TAG,
        m.hdr.len == WIRE_PACKET_SIZE as u16,
        m.payload@.subrange(0, WIRE_PACKET_SIZE as int) == spec_frame_bytes(
            topic_name.spec_bytes(),
            value_bytes@,
        ),
        forall|i: int|
            WIRE_PACKET_SIZE as int <= i < MSG_PAYLOAD_SIZE as int ==> m.payload@[i] == 0,
{
    let pkt = mirror_packet_bytes(topic_name, value_bytes);
    let bytes = pkt.encode_bytes();
    let m = Msg::new(WIRE_MIRROR_TAG, bytes.as_slice());
    proof {
        assert(pkt.spec_enc() =~= spec_frame_bytes(topic_name.spec_bytes(), value_bytes@));
        assert(m.payload@.subrange(0, WIRE_PACKET_SIZE as int) =~= pkt.spec_enc());
    }
    m
}

/// The mirror publish's second step as one message: as
/// [`mirror_msg_bytes`], on the value's canonical byte form.
pub fn mirror_msg<T: Encodable>(topic_name: &str, value: &T) -> (m: Msg)
    requires
        value.wf(),
    ensures
        m.wf(),
        m.hdr.msg_type == WIRE_MIRROR_TAG,
        m.hdr.len == WIRE_PACKET_SIZE as u16,
        m.payload@.subrange(0, WIRE_PACKET_SIZE as int) == spec_frame_bytes(
            topic_name.spec_bytes(),
            value.enc(),
        ),
        forall|i: int|
            WIRE_PACKET_SIZE as int <= i < MSG_PAYLOAD_SIZE as int ==> m.payload@[i] == 0,
{
    let raw = value.encode();
    mirror_msg_bytes(topic_name, raw.as_slice())
}

/// A mirrored frame names its source topic: when the topic name's byte
/// form fits the frame's topic field, decoding the frame's topic gives
/// back exactly that name.  (A longer name is truncated byte-wise and may
/// decode to a different text — the requires below leaves it out.)
pub proof fn lemma_mirror_keeps_topic_name(p: WirePacket, name: Seq<char>)
    requires
        encode_utf8(name).len() <= WIRE_MAX_TOPIC as nat,
        p.topic_len as nat == encode_utf8(name).len(),
        p.topic@ == zero_padded(encode_utf8(name), p.topic_len as nat, WIRE_MAX_TOPIC as nat),
    ensures
        p.spec_topic_name() == name,
{
    let b = encode_utf8(name);
    assert(p.clipped_topic() =~= b);
    encode_utf8_valid_utf8(name);
    encode_utf8_decode_utf8(name);
}

/// Mirror round trip, reader's side: a packet whose fields are read — as
/// [`WirePacket::decode_bytes`] reads them — from the byte form of the
/// frame that mirrors a value, names the mirroring topic exactly (for
/// names whose byte form fits the topic field) and carries the truncated
/// value bytes as its data prefix.
pub proof fn lemma_mirror_frame_read_back(q: WirePacket, name: Seq<char>, value_bytes: Seq<u8>)
    requires
        encode_utf8(name).len() <= WIRE_MAX_TOPIC as nat,
        q.payload_len == spec_u16_from_le_bytes(
            spec_frame_bytes(encode_utf8(name), value_bytes).subrange(0, 2),
        ),
        q.topic_len == spec_frame_bytes(encode_utf8(name), value_bytes)[2],
        q.topic@ == spec_frame_bytes(encode_utf8(name), value_bytes).subrange(4, 68),
        q.data@ == spec_frame_bytes(encode_utf8(name), value_bytes).subrange(
            68,
            WIRE_PACKET_SIZE as int,
        ),
    ensures
        q.spec_topic_name() == name,
        q.payload_len as int == vstd::math::min(value_bytes.len() as int, WIRE_MAX_PAYLOAD as int),
        q.data@.subrange(0, q.payload_len as int) == value_bytes.take(q.payload_len as int),
{
    lemma_auto_spec_u16_to_from_le_bytes();
    let nb = encode_utf8(name);
    let fb = spec_frame_bytes(nb, value_bytes);
    let tlen = vstd::math::min(nb.len() as int, WIRE_MAX_TOPIC as int);
    let plen = vstd::math::min(value_bytes.len() as int, WIRE_MAX_PAYLOAD as int);
    assert(fb.subrange(0, 2) =~= spec_u16_to_le_bytes(plen as u16));
    assert(fb[2] == tlen as u8);
    assert(fb.subrange(4, 68) =~= zero_padded(nb, tlen as nat, WIRE_MAX_TOPIC as nat));
    assert(fb.subrange(68, WIRE_PACKET_SIZE as int) =~= zero_padded(
        value_bytes,
        plen as nat,
        WIRE_MAX_PAYLOAD as nat,
    ));
    lemma_mirror_keeps_topic_name(q, name);
    assert(q.data@.subrange(0, q.payload_len as int) =~= value_bytes.take(q.payload_len as int));
}

/// Relies on std::str::from_utf8: it succeeds exactly when the bytes are a
/// valid UTF-8 encoding, and then yields the text those bytes encode.
#[verifier::external_body]
fn utf8_to_string(bytes: &[u8]) -> (r: Option<String>)
    ensures
        r is Some <==> valid_utf8(bytes@),
        r matches Some(s) ==> s@ == decode_utf8(bytes@),
{
    match std::str::from_utf8(bytes) {
        Ok(s) => Some(s.to_string()),
        Err(_) => None,
    }
}

} // verus!
