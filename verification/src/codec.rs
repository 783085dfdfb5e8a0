//! The typed layer: fixed-layout values mapped to fixed-size byte payloads.
//!
//! A type that implements [`Encodable`] has one canonical byte form of one
//! fixed size, a total decoder over buffers of that size (so a zero-filled
//! buffer always decodes — "absent fields are zero"), and a proved
//! round-trip law.  [`typed_msg`] is the publish half: it wraps a value's
//! encoding in a message whose length is exactly the encoded size.
//! [`decode_arrival`] is the subscribe half: it copies the arriving payload
//! into a zero-initialized buffer of the type's size, truncating or
//! zero-filling as needed, and decodes that buffer.

use vstd::prelude::*;

use crate::msg::{Msg, MSG_PAYLOAD_SIZE};
use crate::pad::{copy_zero_padded, lemma_zero_padded_layout, zero_padded};

verus! {

/// A value with a fixed-size, layout-stable canonical byte form.
///
/// Implementations carry their own proofs: the encoding has exactly the
/// fixed size, and decoding the encoding gives the value back.
pub trait Encodable: Sized {
    /// Well-formedness of a value under this layout.  For plain field
    /// tuples this is `true`; an envelope with internal length fields
    /// restricts them here.
    spec fn wf(&self) -> bool;

    /// The fixed encoded size in bytes.
    spec fn spec_size() -> nat;

    /// The canonical byte form.
    spec fn enc(&self) -> Seq<u8>;

    /// The value read back from a buffer of exactly the fixed size.  Total:
    /// every such buffer decodes to a value, so truncated or zero-filled
    /// payloads never fail to decode.
    spec fn dec(bytes: Seq<u8>) -> Self;

    /// A well-formed value encodes to exactly the fixed size.
    proof fn lemma_enc_len(v: Self)
        requires
            v.wf(),
        ensures
            v.enc().len() == Self::spec_size(),
    ;

    /// Round-trip law: decoding the canonical byte form of a well-formed
    /// value gives the value back.
    proof fn lemma_round_trip(v: Self)
        requires
            v.wf(),
        ensures
            Self::dec(v.enc()) == v,
    ;

    /// The fixed encoded size, as a runtime value.
    fn byte_size() -> (n: usize)
        ensures
            n as nat == Self::spec_size(),
    ;

    /// Produce the canonical byte form.
    fn encode(&self) -> (r: Vec<u8>)
        requires
            self.wf(),
        ensures
            r@ == self.enc(),
    ;

    /// Read a value back from a buffer of exactly the fixed size.
    fn decode(bytes: &[u8]) -> (v: Self)
        requires
            bytes@.len() == Self::spec_size(),
        ensures
            v == Self::dec(bytes@),
    ;
}

/// Encode a value into a message: the payload prefix is the value's
/// canonical byte form, the recorded length is exactly the encoded size,
/// and the rest of the payload is zero.
pub fn typed_msg<T: Encodable>(value: &T, msg_type: u16) -> (m: Msg)
    requires
        value.wf(),
        T::spec_size() <= MSG_PAYLOAD_SIZE as nat,
    ensures
        m.wf(),
        m.hdr.msg_type == msg_type,
        m.hdr.len as nat == T::spec_size(),
        m.payload@ == zero_padded(value.enc(), T::spec_size(), MSG_PAYLOAD_SIZE as nat),
{
    let bytes = value.encode();
    proof {
        T::lemma_enc_len(*value);
    }
    Msg::new(msg_type, bytes.as_slice())
}

/// The subscriber-side buffer for a message: a zero-initialized buffer of
/// exactly `size` bytes holding the first `min(message length, size)`
/// payload bytes — missing tail bytes default to zero.
pub fn padded_payload(msg: &Msg, size: usize) -> (r: Vec<u8>)
    requires
        msg.payload@.len() == MSG_PAYLOAD_SIZE,
    ensures
        r@ == zero_padded(msg.payload@, msg.hdr.len as nat, size as nat),
        r@.len() == size,
{
    let n: usize = if (msg.hdr.len as usize) < size {
        msg.hdr.len as usize
    } else {
        size
    };
    let r = copy_zero_padded(msg.payload.as_slice(), n, size);
    proof {
        assert(zero_padded(msg.payload@, n as nat, size as nat) =~= zero_padded(
            msg.payload@,
            msg.hdr.len as nat,
            size as nat,
        ));
    }
    r
}

/// Decode an arriving message as a value of type `T`: copy the first
/// `min(message length, size of T)` payload bytes into a zero-initialized
/// buffer of exactly the size of `T`, and decode that buffer.
pub fn decode_arrival<T: Encodable>(msg: &Msg) -> (v: T)
    requires
        msg.payload@.len() == MSG_PAYLOAD_SIZE,
    ensures
        v == T::dec(zero_padded(msg.payload@, msg.hdr.len as nat, T::spec_size())),
{
    let size = T::byte_size();
    let buf = padded_payload(msg, size);
    T::decode(buf.as_slice())
}

/// Round-trip law through the message envelope: a message built by
/// [`typed_msg`] from a well-formed value — the `requires` below are
/// exactly what [`typed_msg`] ensures — decodes at every subscriber, by the
/// buffer construction of [`decode_arrival`], to the very value that was
/// published, byte for byte.
pub proof fn lemma_publish_decode_identity<T: Encodable>(v: T, m: Msg)
    requires
        v.wf(),
        T::spec_size() <= MSG_PAYLOAD_SIZE as nat,
        m.wf(),
        m.hdr.len as nat == T::spec_size(),
        m.payload@ == zero_padded(v.enc(), T::spec_size(), MSG_PAYLOAD_SIZE as nat),
    ensures
        T::dec(zero_padded(m.payload@, m.hdr.len as nat, T::spec_size())) == v,
{
    T::lemma_enc_len(v);
    assert(zero_padded(m.payload@, m.hdr.len as nat, T::spec_size()) =~= v.enc());
    T::lemma_round_trip(v);
}

/// Truncation law: when a message carries fewer bytes than the decoded
/// type's size, the decoder's buffer holds the sender's bytes unchanged in
/// its prefix and zero in every remaining position — no byte of the decoded
/// value comes from anywhere else.
pub proof fn lemma_decode_zero_fill<T: Encodable>(m: Msg)
    requires
        m.wf(),
        (m.hdr.len as nat) < T::spec_size(),
    ensures
        forall|i: int|
            0 <= i < m.hdr.len as int ==> zero_padded(
                m.payload@,
                m.hdr.len as nat,
                T::spec_size(),
            )[i] == m.payload@[i],
        forall|i: int|
            m.hdr.len as int <= i < T::spec_size() as int ==> zero_padded(
                m.payload@,
                m.hdr.len as nat,
                T::spec_size(),
            )[i] == 0,
{
    lemma_zero_padded_layout(m.payload@, m.hdr.len as nat, T::spec_size());
}

} // verus!
