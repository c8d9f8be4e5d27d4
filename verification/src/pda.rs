//! Program-derived addresses and the byte strings they are derived from.

use vstd::prelude::*;

use anchor_lang::prelude::Pubkey;

use crate::key::Key;

verus! {

/// The address and bump seed that the Solana runtime derives for a program
/// from a list of seeds, or `None` when no bump seed yields an address off
/// the ed25519 curve or the seeds break the runtime's limits.
pub uninterp spec fn program_address(seeds: Seq<Seq<u8>>, program_id: Seq<u8>) -> Option<(Seq<u8>, u8)>;

/// The seeds as byte strings.
pub open spec fn seeds_view(seeds: Seq<Vec<u8>>) -> Seq<Seq<u8>> {
    seeds.map_values(|s: Vec<u8>| s@)
}

/// Calls `Pubkey::try_find_program_address` of `anchor_lang` (that is, of
/// `solana-program`). Its result is a function of the seeds and the program
/// id alone, named `program_address`; nothing more is claimed of it.
#[verifier::external_body]
pub fn find_program_address(seeds: &Vec<Vec<u8>>, program_id: &Key) -> (r: Option<(Key, u8)>)
    ensures
        match r {
            Some(found) => program_address(seeds_view(seeds@), program_id@) == Some(
                (found.0@, found.1),
            ),
            None => program_address(seeds_view(seeds@), program_id@) is None,
        },
{
    let slices: Vec<&[u8]> = seeds.iter().map(|s| s.as_slice()).collect();
    let id = Pubkey::new_from_array(program_id.bytes);
    Pubkey::try_find_program_address(&slices, &id).map(|(k, b)| (Key { bytes: k.to_bytes() }, b))
}

/// Seed of organizer profiles: "organizer".
pub open spec fn spec_seed_organizer() -> Seq<u8> {
    seq![111u8, 114, 103, 97, 110, 105, 122, 101, 114]
}

/// Seed of organizer operators: "organizer_operator".
pub open spec fn spec_seed_organizer_operator() -> Seq<u8> {
    seq![111u8, 114, 103, 97, 110, 105, 122, 101, 114, 95, 111, 112, 101, 114, 97, 116, 111, 114]
}

/// Seed of events: "event".
pub open spec fn spec_seed_event() -> Seq<u8> {
    seq![101u8, 118, 101, 110, 116]
}

/// Seed of role bindings: "role_binding".
pub open spec fn spec_seed_role_binding() -> Seq<u8> {
    seq![114u8, 111, 108, 101, 95, 98, 105, 110, 100, 105, 110, 103]
}

/// Seed of settlement ledgers: "settlement_ledger".
pub open spec fn spec_seed_settlement_ledger() -> Seq<u8> {
    seq![115u8, 101, 116, 116, 108, 101, 109, 101, 110, 116, 95, 108, 101, 100, 103, 101, 114]
}

/// The seed of organizer profiles.
pub fn seed_organizer() -> (s: Vec<u8>)
    ensures
        s@ == spec_seed_organizer(),
{
    let s = vec![111u8, 114, 103, 97, 110, 105, 122, 101, 114];
    assert(s@ =~= spec_seed_organizer());
    s
}

/// The seed of organizer operators.
pub fn seed_organizer_operator() -> (s: Vec<u8>)
    ensures
        s@ == spec_seed_organizer_operator(),
{
    let s = vec![111u8, 114, 103, 97, 110, 105, 122, 101, 114, 95, 111, 112, 101, 114, 97, 116, 111, 114];
    assert(s@ =~= spec_seed_organizer_operator());
    s
}

/// The seed of events.
pub fn seed_event() -> (s: Vec<u8>)
    ensures
        s@ == spec_seed_event(),
{
    let s = vec![101u8, 118, 101, 110, 116];
    assert(s@ =~= spec_seed_event());
    s
}

/// The seed of role bindings.
pub fn seed_role_binding() -> (s: Vec<u8>)
    ensures
        s@ == spec_seed_role_binding(),
{
    let s = vec![114u8, 111, 108, 101, 95, 98, 105, 110, 100, 105, 110, 103];
    assert(s@ =~= spec_seed_role_binding());
    s
}

/// The seed of settlement ledgers.
pub fn seed_settlement_ledger() -> (s: Vec<u8>)
    ensures
        s@ == spec_seed_settlement_ledger(),
{
    let s = vec![115u8, 101, 116, 116, 108, 101, 109, 101, 110, 116, 95, 108, 101, 100, 103, 101, 114];
    assert(s@ =~= spec_seed_settlement_ledger());
    s
}

/// The little-endian bytes of a `u64`.
pub open spec fn le_bytes_u64(x: u64) -> Seq<u8> {
    Seq::new(8, |i: int| ((x >> (8 * i) as u64) & 0xff) as u8)
}

/// The little-endian bytes of a `u64`, as `to_le_bytes` gives them.
pub fn u64_le_bytes(x: u64) -> (s: Vec<u8>)
    ensures
        s@ == le_bytes_u64(x),
{
    let mut s: Vec<u8> = Vec::new();
    let mut i: u64 = 0;
    while i < 8
        invariant
            0 <= i <= 8,
            s@.len() == i,
            forall|j: int| 0 <= j < i ==> s@[j] == ((x >> (8 * j) as u64) & 0xff) as u8,
        decreases 8 - i,
    {
        let b: u8 = ((x >> (8 * i)) & 0xff) as u8;
        s.push(b);
        i = i + 1;
    }
    assert(s@ =~= le_bytes_u64(x));
    s
}

/// A seed list of the given byte strings.
pub fn seeds2(a: Vec<u8>, b: Vec<u8>) -> (s: Vec<Vec<u8>>)
    ensures
        seeds_view(s@) == seq![a@, b@],
{
    let s = vec![a, b];
    assert(seeds_view(s@) =~= seq![a@, b@]);
    s
}

/// A seed list of the given byte strings.
pub fn seeds3(a: Vec<u8>, b: Vec<u8>, c: Vec<u8>) -> (s: Vec<Vec<u8>>)
    ensures
        seeds_view(s@) == seq![a@, b@, c@],
{
    let s = vec![a, b, c];
    assert(seeds_view(s@) =~= seq![a@, b@, c@]);
    s
}

/// A seed list of the given byte strings.
pub fn seeds4(a: Vec<u8>, b: Vec<u8>, c: Vec<u8>, d: Vec<u8>) -> (s: Vec<Vec<u8>>)
    ensures
        seeds_view(s@) == seq![a@, b@, c@, d@],
{
    let s = vec![a, b, c, d];
    assert(seeds_view(s@) =~= seq![a@, b@, c@, d@]);
    s
}

/// The bytes of an address.
pub fn key_bytes(k: &Key) -> (s: Vec<u8>)
    ensures
        s@ == k@,
{
    let mut s: Vec<u8> = Vec::new();
    let mut i: usize = 0;
    while i < 32
        invariant
            0 <= i <= 32,
            k@.len() == 32,
            s@.len() == i,
            forall|j: int| 0 <= j < i ==> s@[j] == k@[j],
        decreases 32 - i,
    {
        s.push(k.bytes[i]);
        i = i + 1;
    }
    assert(s@ =~= k@);
    s
}

} // verus!
