//! Widget identities.
//!
//! An immediate-mode interface keeps no widget objects between frames, so a
//! widget is named by a small token computed from its label. The token is
//! the 64-bit FNV-1a hash of the label's UTF-8 bytes: a pure function of the
//! label, so the same label names the same widget in every frame.

use vstd::prelude::*;
use vstd::utf8::encode_utf8;

verus! {

/// The 64-bit FNV-1a offset basis: the hash of the empty byte string.
pub const FNV_OFFSET: u64 = 0xcbf29ce484222325;

/// The 64-bit FNV prime.
pub const FNV_PRIME: u64 = 0x100000001b3;

/// One round of FNV-1a: fold the byte into the low bits, then multiply by
/// the prime and keep the low 64 bits.
pub open spec fn fnv_step(hash: u64, byte: u8) -> u64 {
    (((hash ^ (byte as u64)) * FNV_PRIME) % 0x1_0000_0000_0000_0000) as u64
}

/// The FNV-1a hash of a byte string, taken from the first byte to the last.
pub open spec fn fnv1a(bytes: Seq<u8>) -> u64
    decreases bytes.len(),
{
    if bytes.len() == 0 {
        FNV_OFFSET
    } else {
        fnv_step(fnv1a(bytes.drop_last()), bytes.last())
    }
}

/// Hashes a byte string with FNV-1a.
pub fn hash_bytes(bytes: &[u8]) -> (hash: u64)
    ensures
        hash == fnv1a(bytes@),
{
    let mut hash: u64 = FNV_OFFSET;
    let mut done: usize = 0;
    while done < bytes.len()
        invariant
            done <= bytes@.len(),
            hash == fnv1a(bytes@.take(done as int)),
        decreases bytes@.len() - done,
    {
        proof {
            let next = bytes@.take(done + 1);
            assert(next.drop_last() == bytes@.take(done as int));
            assert(next.last() == bytes@[done as int]);
        }
        hash = (hash ^ (bytes[done] as u64)).wrapping_mul(FNV_PRIME);
        done = done + 1;
    }
    proof {
        assert(bytes@.take(done as int) == bytes@);
    }
    hash
}

/// The name of one logical widget, stable from frame to frame.
///
/// Two identities are the same widget exactly when their tokens are equal.
/// Two different labels may hash to one token; the library does not detect
/// that, and the two widgets then share focus and hover.
#[derive(Copy, Clone, Debug, PartialEq, Eq, Hash, Structural)]
pub struct Id {
    pub token: u64,
}

impl Id {
    /// The identity that a label names.
    pub open spec fn of_label(label: Seq<char>) -> Id {
        Id { token: fnv1a(encode_utf8(label)) }
    }

    /// Computes the identity of the widget with this label. The result
    /// depends on the label's characters and on nothing else.
    pub fn make(label: &str) -> (id: Id)
        ensures
            id == Id::of_label(label@),
    {
        Id { token: hash_bytes(label.as_bytes()) }
    }
}

/// Identities are deterministic: labels with the same characters name the
/// same widget, whenever and wherever they are hashed.
pub proof fn law_identity_determinism(first: Seq<char>, second: Seq<char>)
    requires
        first == second,
    ensures
        Id::of_label(first) == Id::of_label(second),
{
}

/// A round of FNV-1a loses nothing: from the hash that comes out and one of
/// the hash and the byte that went in, the other is determined.
pub proof fn lemma_fnv_step_injective(hash: u64, byte: u8, other_hash: u64, other_byte: u8)
    requires
        fnv_step(hash, byte) == fnv_step(other_hash, other_byte),
    ensures
        byte == other_byte ==> hash == other_hash,
        hash == other_hash ==> byte == other_byte,
{
    let folded = hash ^ (byte as u64);
    let other_folded = other_hash ^ (other_byte as u64);
    assert(((folded * 0x100000001b3u64) % 0x1_0000_0000_0000_0000) as u64 == ((other_folded
        * 0x100000001b3u64) % 0x1_0000_0000_0000_0000) as u64 ==> folded == other_folded)
        by (bit_vector);
    assert(hash ^ (byte as u64) == other_hash ^ (byte as u64) ==> hash == other_hash)
        by (bit_vector);
    assert(hash ^ (byte as u64) == hash ^ (other_byte as u64) ==> byte == other_byte)
        by (bit_vector);
}

/// Byte strings of one length that differ in exactly one byte never hash to
/// the same value: two labels that are one byte apart name two widgets.
pub proof fn law_one_byte_apart_never_collide(first: Seq<u8>, second: Seq<u8>, at: int)
    requires
        first.len() == second.len(),
        0 <= at < first.len(),
        first[at] != second[at],
        forall|other: int|
            0 <= other < first.len() && other != at ==> first[other] == second[other],
    ensures
        fnv1a(first) != fnv1a(second),
    decreases first.len(),
{
    let last = first.len() - 1;
    if at == last {
        assert(first.drop_last() =~= second.drop_last());
    } else {
        law_one_byte_apart_never_collide(first.drop_last(), second.drop_last(), at);
    }
    if fnv1a(first) == fnv1a(second) {
        lemma_fnv_step_injective(
            fnv1a(first.drop_last()),
            first.last(),
            fnv1a(second.drop_last()),
            second.last(),
        );
    }
}

} // verus!
