//! Deterministic addresses of the per-epoch vote records: one address for
//! each (gauge vote, epoch), derived from seeds rather than looked up.
use vstd::prelude::*;
use crate::state::Key;

verus! {

/// The program address derived from `seeds` under `program_id`, or `None`
/// where no address can be derived from them.
pub uninterp spec fn program_address_of(seeds: Seq<Seq<u8>>, program_id: Seq<u8>) -> Option<Seq<u8>>;

/// The view of an optional address.
pub open spec fn address_view(a: Option<Key>) -> Option<Seq<u8>> {
    match a {
        Some(k) => Some(k@),
        None => None,
    }
}

/// Relies on solana_program's `Pubkey::try_find_program_address`: the
/// address found for the seeds under the program id, a function of its
/// arguments alone; the bump seed it also finds is not used.
#[verifier::external_body]
fn try_find_program_address(seeds: &Vec<Vec<u8>>, program_id: &Key) -> (r: Option<Key>)
    ensures
        address_view(r) == program_address_of(seeds@.map_values(|s: Vec<u8>| s@), program_id@),
{
    let seed_refs: Vec<&[u8]> = seeds.iter().map(|s| s.as_slice()).collect();
    let program = solana_program::pubkey::Pubkey::new_from_array(*program_id);
    solana_program::pubkey::Pubkey::try_find_program_address(&seed_refs, &program).map(
        |(address, _bump)| address.to_bytes(),
    )
}

/// The fixed first seed of every vote record's address: "EpochGaugeVote".
pub open spec fn vote_seed_prefix() -> Seq<u8> {
    seq![69u8, 112u8, 111u8, 99u8, 104u8, 71u8, 97u8, 117u8, 103u8, 101u8, 86u8, 111u8, 116u8, 101u8]
}

/// The little-endian bytes of an epoch number.
pub open spec fn epoch_le_bytes(epoch: u32) -> Seq<u8> {
    seq![
        (epoch & 0xff) as u8,
        ((epoch >> 8u32) & 0xff) as u8,
        ((epoch >> 16u32) & 0xff) as u8,
        ((epoch >> 24u32) & 0xff) as u8,
    ]
}

/// The seeds of the vote record for `gauge_vote` in `epoch`.
pub open spec fn vote_seeds(gauge_vote: Seq<u8>, epoch: u32) -> Seq<Seq<u8>> {
    seq![vote_seed_prefix(), gauge_vote, epoch_le_bytes(epoch)]
}

/// The address that the vote record for `gauge_vote` in `epoch` must have.
pub open spec fn expected_vote_address(gauge_vote: Seq<u8>, epoch: u32, program_id: Seq<u8>) -> Option<Seq<u8>> {
    program_address_of(vote_seeds(gauge_vote, epoch), program_id)
}

fn vote_seed_prefix_bytes() -> (r: Vec<u8>)
    ensures
        r@ == vote_seed_prefix(),
{
    let r = vec![69u8, 112u8, 111u8, 99u8, 104u8, 71u8, 97u8, 117u8, 103u8, 101u8, 86u8, 111u8, 116u8, 101u8];
    assert(r@ =~= vote_seed_prefix());
    r
}

fn key_bytes(k: &Key) -> (r: Vec<u8>)
    ensures
        r@ == k@,
{
    let mut r: Vec<u8> = Vec::new();
    let mut i: usize = 0;
    while i < 32
        invariant
            i <= 32,
            k@.len() == 32,
            r@ == k@.subrange(0, i as int),
        decreases 32 - i,
    {
        r.push(k[i]);
        i = i + 1;
        assert(r@ =~= k@.subrange(0, i as int));
    }
    assert(k@.subrange(0, 32) =~= k@);
    r
}

fn epoch_bytes(epoch: u32) -> (r: Vec<u8>)
    ensures
        r@ == epoch_le_bytes(epoch),
{
    let r = vec![
        (epoch & 0xff) as u8,
        ((epoch >> 8u32) & 0xff) as u8,
        ((epoch >> 16u32) & 0xff) as u8,
        ((epoch >> 24u32) & 0xff) as u8,
    ];
    assert(r@ =~= epoch_le_bytes(epoch));
    r
}

/// The address that the vote record for the gauge vote `gauge_vote` in
/// `epoch` must have under `program_id`, or `None` where none can be derived.
pub fn epoch_gauge_vote_address(gauge_vote: &Key, epoch: u32, program_id: &Key) -> (r: Option<Key>)
    ensures
        address_view(r) == expected_vote_address(gauge_vote@, epoch, program_id@),
{
    let mut seeds: Vec<Vec<u8>> = Vec::new();
    seeds.push(vote_seed_prefix_bytes());
    seeds.push(key_bytes(gauge_vote));
    seeds.push(epoch_bytes(epoch));
    assert(seeds@.map_values(|s: Vec<u8>| s@) =~= vote_seeds(gauge_vote@, epoch));
    try_find_program_address(&seeds, program_id)
}

} // verus!
