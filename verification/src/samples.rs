//! Concrete fixed-layout message types.
//!
//! Two small value types exercise the typed layer end to end: a pair of
//! 32-bit counters, and a motor-state triple whose fields carry the raw bit
//! patterns of 32-bit floating-point readings (the library itself stays on
//! integers; a caller moves between a reading and its bits at the edge).
//! Both encode little-endian, field by field, in declaration order.

use vstd::prelude::*;

use crate::codec::Encodable;

verus! {

use vstd::bytes::{
    lemma_auto_spec_u32_to_from_le_bytes, spec_u32_from_le_bytes, spec_u32_to_le_bytes,
    u32_from_le_bytes, u32_to_le_bytes,
};
use vstd::slice::slice_subrange;

/// A pair of 32-bit values, encoded as eight little-endian bytes.
#[derive(Clone, Copy, Debug, PartialEq, Eq, Structural)]
pub struct PairMsg {
    pub a: u32,
    pub b: u32,
}

impl Encodable for PairMsg {
    open spec fn wf(&self) -> bool {
        true
    }

    open spec fn spec_size() -> nat {
        8
    }

    open spec fn enc(&self) -> Seq<u8> {
        spec_u32_to_le_bytes(self.a) + spec_u32_to_le_bytes(self.b)
    }

    open spec fn dec(bytes: Seq<u8>) -> Self {
        PairMsg {
            a: spec_u32_from_le_bytes(bytes.subrange(0, 4)),
            b: spec_u32_from_le_bytes(bytes.subrange(4, 8)),
        }
    }

    proof fn lemma_enc_len(v: Self) {
        lemma_auto_spec_u32_to_from_le_bytes();
    }

    proof fn lemma_round_trip(v: Self) {
        lemma_auto_spec_u32_to_from_le_bytes();
        assert(v.enc().subrange(0, 4) =~= spec_u32_to_le_bytes(v.a));
        assert(v.enc().subrange(4, 8) =~= spec_u32_to_le_bytes(v.b));
    }

    fn byte_size() -> (n: usize) {
        8
    }

    fn encode(&self) -> (r: Vec<u8>) {
        let mut r = u32_to_le_bytes(self.a);
        let mut tail = u32_to_le_bytes(self.b);
        r.append(&mut tail);
        r
    }

    fn decode(bytes: &[u8]) -> (v: Self) {
        let a = u32_from_le_bytes(slice_subrange(bytes, 0, 4));
        let b = u32_from_le_bytes(slice_subrange(bytes, 4, 8));
        PairMsg { a, b }
    }
}

/// A motor-state triple — position, velocity, torque — each field holding
/// the bit pattern of a 32-bit floating-point reading.  Encoded as twelve
/// little-endian bytes in declaration order, so the byte form coincides
/// with the readings' own byte representation.
#[derive(Clone, Copy, Debug, PartialEq, Eq, Structural)]
pub struct MotorStateBits {
    pub position_bits: u32,
    pub velocity_bits: u32,
    pub torque_bits: u32,
}

impl Encodable for MotorStateBits {
    open spec fn wf(&self) -> bool {
        true
    }

    open spec fn spec_size() -> nat {
        12
    }

    open spec fn enc(&self) -> Seq<u8> {
        spec_u32_to_le_bytes(self.position_bits) + spec_u32_to_le_bytes(self.velocity_bits)
            + spec_u32_to_le_bytes(self.torque_bits)
    }

    open spec fn dec(bytes: Seq<u8>) -> Self {
        MotorStateBits {
            position_bits: spec_u32_from_le_bytes(bytes.subrange(0, 4)),
            velocity_bits: spec_u32_from_le_bytes(bytes.subrange(4, 8)),
            torque_bits: spec_u32_from_le_bytes(bytes.subrange(8, 12)),
        }
    }

    proof fn lemma_enc_len(v: Self) {
        lemma_auto_spec_u32_to_from_le_bytes();
    }

    proof fn lemma_round_trip(v: Self) {
        lemma_auto_spec_u32_to_from_le_bytes();
        assert(v.enc().subrange(0, 4) =~= spec_u32_to_le_bytes(v.position_bits));
        assert(v.enc().subrange(4, 8) =~= spec_u32_to_le_bytes(v.velocity_bits));
        assert(v.enc().subrange(8, 12) =~= spec_u32_to_le_bytes(v.torque_bits));
    }

    fn byte_size() -> (n: usize) {
        12
    }

    fn encode(&self) -> (r: Vec<u8>) {
        let mut r = u32_to_le_bytes(self.position_bits);
        let mut mid = u32_to_le_bytes(self.velocity_bits);
        let mut tail = u32_to_le_bytes(self.torque_bits);
        r.append(&mut mid);
        r.append(&mut tail);
        r
    }

    fn decode(bytes: &[u8]) -> (v: Self) {
        let position_bits = u32_from_le_bytes(slice_subrange(bytes, 0, 4));
        let velocity_bits = u32_from_le_bytes(slice_subrange(bytes, 4, 8));
        let torque_bits = u32_from_le_bytes(slice_subrange(bytes, 8, 12));
        MotorStateBits { position_bits, velocity_bits, torque_bits }
    }
}

} // verus!
