//! The fixed-size message envelope sent over a queue.
//!
//! Every message carries a 16-bit type tag, a 16-bit length, and a payload
//! buffer of fixed capacity [`MSG_PAYLOAD_SIZE`].  The length never exceeds
//! the capacity, and every payload byte past the length is zero at
//! construction.  The reserved tag [`MSG_TYPE_SHUTDOWN`] is used only by the
//! teardown protocol to unblock a topic's dispatch loop and must never carry
//! application data.

use vstd::prelude::*;

use crate::pad::{copy_zero_padded, zero_padded};

verus! {

use vstd::bytes::{
    lemma_auto_spec_u16_to_from_le_bytes, spec_u16_from_le_bytes, spec_u16_to_le_bytes,
    u16_from_le_bytes, u16_to_le_bytes,
};
use vstd::slice::{slice_subrange, slice_to_vec};

/// Capacity of a message payload in bytes.
pub const MSG_PAYLOAD_SIZE: usize = 240;

/// Total size of a message on the queue: two 16-bit header fields plus the
/// payload buffer.
pub const MSG_TOTAL_SIZE: usize = 244;

/// Reserved type tag of the shutdown sentinel.
pub const MSG_TYPE_SHUTDOWN: u16 = 0xFFFF;

/// Header of a raw message: a type tag and the used payload length.
#[derive(Clone, Debug, PartialEq)]
pub struct MsgHeader {
    pub msg_type: u16,
    pub len: u16,
}

/// Complete raw message sent over a queue.
#[derive(Clone, Debug, PartialEq)]
pub struct Msg {
    pub hdr: MsgHeader,
    pub payload: Vec<u8>,
}

impl Msg {
    /// The envelope's invariant: the payload buffer has exactly its fixed
    /// capacity and the recorded length fits within it.
    pub open spec fn wf(self) -> bool {
        &&& self.payload@.len() == MSG_PAYLOAD_SIZE
        &&& self.hdr.len as int <= MSG_PAYLOAD_SIZE as int
    }

    /// Create a new raw message from a type and arbitrary bytes.
    ///
    /// The bytes are truncated to the payload capacity; the rest of the
    /// payload is zero.
    pub fn new(msg_type: u16, data: &[u8]) -> (m: Msg)
        ensures
            m.wf(),
            m.hdr.msg_type == msg_type,
            m.hdr.len as int == vstd::math::min(data@.len() as int, MSG_PAYLOAD_SIZE as int),
            m.payload@ == zero_padded(data@, m.hdr.len as nat, MSG_PAYLOAD_SIZE as nat),
    {
        let n: usize = if data.len() < MSG_PAYLOAD_SIZE {
            data.len()
        } else {
            MSG_PAYLOAD_SIZE
        };
        let payload = copy_zero_padded(data, n, MSG_PAYLOAD_SIZE);
        Msg { hdr: MsgHeader { msg_type, len: n as u16 }, payload }
    }

    /// The message's exact form on the queue: `msg_type` and `len` as
    /// little-endian 16-bit fields, then the payload buffer — 244 bytes in
    /// all, whatever the content length.
    pub open spec fn spec_enc(self) -> Seq<u8> {
        spec_u16_to_le_bytes(self.hdr.msg_type) + spec_u16_to_le_bytes(self.hdr.len)
            + self.payload@
    }

    /// Serialize the message for the queue.
    pub fn encode_bytes(&self) -> (r: Vec<u8>)
        requires
            self.wf(),
        ensures
            r@ == self.spec_enc(),
            r@.len() == MSG_TOTAL_SIZE,
    {
        proof {
            lemma_auto_spec_u16_to_from_le_bytes();
        }
        let mut r = u16_to_le_bytes(self.hdr.msg_type);
        let mut len_bytes = u16_to_le_bytes(self.hdr.len);
        r.append(&mut len_bytes);
        let mut body = copy_zero_padded(self.payload.as_slice(), MSG_PAYLOAD_SIZE, MSG_PAYLOAD_SIZE);
        r.append(&mut body);
        proof {
            assert(r@ =~= self.spec_enc());
        }
        r
    }

    /// Read a message back from its queue form.  The recorded length is
    /// taken as it stands: a foreign sender may have written one beyond the
    /// payload capacity, and the decoded message is well-formed exactly
    /// when it did not.
    pub fn decode_bytes(bytes: &[u8]) -> (m: Msg)
        requires
            bytes@.len() == MSG_TOTAL_SIZE,
        ensures
            m.hdr.msg_type == spec_u16_from_le_bytes(bytes@.subrange(0, 2)),
            m.hdr.len == spec_u16_from_le_bytes(bytes@.subrange(2, 4)),
            m.payload@ == bytes@.subrange(4, MSG_TOTAL_SIZE as int),
            m.hdr.len as int <= MSG_PAYLOAD_SIZE as int ==> m.wf(),
    {
        let msg_type = u16_from_le_bytes(slice_subrange(bytes, 0, 2));
        let len = u16_from_le_bytes(slice_subrange(bytes, 2, 4));
        let payload = slice_to_vec(slice_subrange(bytes, 4, MSG_TOTAL_SIZE));
        Msg { hdr: MsgHeader { msg_type, len }, payload }
    }
}

/// The queue form is bit-exact and invertible: reading back the serialized
/// fields of a well-formed message gives the message's own fields.
pub proof fn lemma_msg_bytes_round_trip(m: Msg)
    requires
        m.wf(),
    ensures
        m.spec_enc().len() == MSG_TOTAL_SIZE,
        spec_u16_from_le_bytes(m.spec_enc().subrange(0, 2)) == m.hdr.msg_type,
        spec_u16_from_le_bytes(m.spec_enc().subrange(2, 4)) == m.hdr.len,
        m.spec_enc().subrange(4, MSG_TOTAL_SIZE as int) == m.payload@,
{
    lemma_auto_spec_u16_to_from_le_bytes();
    assert(m.spec_enc().subrange(0, 2) =~= spec_u16_to_le_bytes(m.hdr.msg_type));
    assert(m.spec_enc().subrange(2, 4) =~= spec_u16_to_le_bytes(m.hdr.len));
    assert(m.spec_enc().subrange(4, MSG_TOTAL_SIZE as int) =~= m.payload@);
}

/// The control message that teardown sends to unblock a blocking receive:
/// the reserved type tag, no payload.
pub fn shutdown_sentinel() -> (m: Msg)
    ensures
        m.wf(),
        m.hdr.msg_type == MSG_TYPE_SHUTDOWN,
        m.hdr.len == 0,
        forall|i: int| 0 <= i < MSG_PAYLOAD_SIZE ==> m.payload@[i] == 0,
{
    let empty: Vec<u8> = Vec::new();
    Msg::new(MSG_TYPE_SHUTDOWN, empty.as_slice())
}

} // verus!
