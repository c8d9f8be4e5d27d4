//! Correlation identifiers: short digests that tie together the records and
//! events of one action.

use vstd::prelude::*;

use anchor_lang::solana_program::hash::hashv;

use crate::key::Key;
use crate::pda::{key_bytes, le_bytes_u64, seeds_view, u64_le_bytes};

verus! {

/// The SHA-256 digest of the byte strings fed one after another, as
/// `solana_program::hash::hashv` computes it.
pub uninterp spec fn sha256_of(parts: Seq<Seq<u8>>) -> Seq<u8>;

/// Calls `hashv` of `anchor_lang::solana_program::hash` (SHA-256 over the
/// parts in order) and returns the 32 bytes of the digest. The digest is a
/// function of the parts alone, named `sha256_of`; nothing more is claimed
/// of it.
#[verifier::external_body]
fn hash_parts(parts: &Vec<Vec<u8>>) -> (r: [u8; 32])
    ensures
        r@ == sha256_of(seeds_view(parts@)),
{
    let slices: Vec<&[u8]> = parts.iter().map(|p| p.as_slice()).collect();
    hashv(&slices).to_bytes()
}

/// The little-endian bytes of a `u16`.
pub open spec fn le_bytes_u16(x: u16) -> Seq<u8> {
    seq![(x & 0xff) as u8, (x >> 8) as u8]
}

/// The little-endian bytes of a `u16`, as `to_le_bytes` gives them.
pub fn u16_le_bytes(x: u16) -> (s: Vec<u8>)
    ensures
        s@ == le_bytes_u16(x),
{
    let s = vec![(x & 0xff) as u8, (x >> 8) as u8];
    assert(s@ =~= le_bytes_u16(x));
    s
}

/// The identifier of an action on `a` and `b` at time `at`, tagged `tag`:
/// the first sixteen bytes of the SHA-256 digest of the two keys, the time
/// and the tag, the numbers in little-endian order.
pub open spec fn correlation_id_of(a: Key, b: Key, at: i64, tag: u16) -> Seq<u8> {
    sha256_of(seq![a@, b@, le_bytes_u64(at as u64), le_bytes_u16(tag)]).take(16)
}

/// The identifier of an action on `a` and `b` at time `at`, tagged `tag`.
pub fn derive_correlation_id(a: &Key, b: &Key, at: i64, tag: u16) -> (id: [u8; 16])
    ensures
        id@ == correlation_id_of(*a, *b, at, tag),
{
    let parts = vec![key_bytes(a), key_bytes(b), u64_le_bytes(at as u64), u16_le_bytes(tag)];
    proof {
        assert(seeds_view(parts@) =~= seq![a@, b@, le_bytes_u64(at as u64), le_bytes_u16(tag)]);
    }
    let d = hash_parts(&parts);
    let id: [u8; 16] = [
        d[0],
        d[1],
        d[2],
        d[3],
        d[4],
        d[5],
        d[6],
        d[7],
        d[8],
        d[9],
        d[10],
        d[11],
        d[12],
        d[13],
        d[14],
        d[15],
    ];
    assert(id@ =~= d@.take(16));
    id
}

} // verus!
