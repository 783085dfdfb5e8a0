//! Zero-padded, truncating byte-buffer copies.
//!
//! Every fixed buffer in this crate (a message payload, a frame's topic and
//! data fields, a decoder's scratch buffer) is filled the same way: take the
//! first `count` bytes of a source as far as the source reaches, and leave
//! every remaining position zero.  `zero_padded` is the one specification of
//! that fill and `copy_zero_padded` the one executable copy.

use vstd::prelude::*;

verus! {

/// A sequence of exactly `size` bytes: position `i` holds `bytes[i]` when
/// `i < count` and `i < bytes.len()`, and `0` otherwise.
pub open spec fn zero_padded(bytes: Seq<u8>, count: nat, size: nat) -> Seq<u8> {
    Seq::new(size, |i: int| if 0 <= i < count && i < bytes.len() { bytes[i] } else { 0u8 })
}

/// Build the `size`-byte buffer described by [`zero_padded`].
pub fn copy_zero_padded(bytes: &[u8], count: usize, size: usize) -> (r: Vec<u8>)
    ensures
        r@ == zero_padded(bytes@, count as nat, size as nat),
{
    let mut r: Vec<u8> = Vec::new();
    let mut i: usize = 0;
    while i < size
        invariant
            i <= size,
            r@.len() == i,
            forall|j: int| 0 <= j < i ==> r@[j] == zero_padded(bytes@, count as nat, size as nat)[j],
        decreases size - i,
    {
        if i < count && i < bytes.len() {
            r.push(bytes[i]);
        } else {
            r.push(0u8);
        }
        i = i + 1;
    }
    proof {
        assert(r@ =~= zero_padded(bytes@, count as nat, size as nat));
    }
    r
}

/// Truncation is deterministic zero-fill: a padded buffer copies the source
/// prefix it can reach and holds `0` in every byte past `count` or past the
/// end of the source.  No position is left unspecified.
pub proof fn lemma_zero_padded_layout(bytes: Seq<u8>, count: nat, size: nat)
    ensures
        zero_padded(bytes, count, size).len() == size,
        forall|i: int|
            0 <= i < size && i < count && i < bytes.len() ==> zero_padded(bytes, count, size)[i]
                == bytes[i],
        forall|i: int|
            0 <= i < size && (i >= count || i >= bytes.len()) ==> zero_padded(bytes, count, size)[i]
                == 0,
{
}

} // verus!
