//! The seed material from which the addresses of the records are derived.
//!
//! Every record is found again from what names it: a fixed tag, the name of
//! the match or the oracle account, and the owner. Nobody hands in an
//! address.

use crate::pubkey::Pubkey;
use vstd::prelude::*;
use vstd::string::StringSliceAdditionalSpecFns;

verus! {

/// The tag of a client state's address: `CLIENTSEED`.
pub const STATE_SEED: [u8; 10] = [67, 76, 73, 69, 78, 84, 83, 69, 69, 68];

/// The tag of an oracle record's address: `VRF`.
pub const VRF_SEED: [u8; 3] = [86, 82, 70];

/// The tag of a match's address: `GAME`.
pub const GAME_SEED: [u8; 4] = [71, 65, 77, 69];

/// The tag of an escrow balance's address: `ESCROW`.
pub const ESCROW_SEED: [u8; 6] = [69, 83, 67, 82, 79, 87];

/// The seeds of a match: tag, name of the match, owner.
pub open spec fn game_seeds_of(game_id: Seq<u8>, owner: Pubkey) -> Seq<Seq<u8>> {
    seq![GAME_SEED@, game_id, owner.bytes@]
}

/// The seeds of a match's escrow balance: tag, name of the match, owner.
pub open spec fn escrow_seeds_of(game_id: Seq<u8>, owner: Pubkey) -> Seq<Seq<u8>> {
    seq![ESCROW_SEED@, game_id, owner.bytes@]
}

/// The seeds of the client state bound to an oracle account: tag, oracle
/// account.
pub open spec fn state_seeds_of(vrf: Pubkey) -> Seq<Seq<u8>> {
    seq![STATE_SEED@, vrf.bytes@]
}

/// The seeds of a payer's oracle record: tag, payer.
pub open spec fn vrf_seeds_of(payer: Pubkey) -> Seq<Seq<u8>> {
    seq![VRF_SEED@, payer.bytes@]
}

/// Seeds with the nonce of the address behind them: what a record signs
/// with.
pub open spec fn signer_seeds_of(seeds: Seq<Seq<u8>>, bump: u8) -> Seq<Seq<u8>> {
    seeds.push(seq![bump])
}

/// A copy of a byte string.
fn copy_of(bytes: &[u8]) -> (copy: Vec<u8>)
    ensures
        copy@ == bytes@,
{
    let mut copy: Vec<u8> = Vec::new();
    let mut i: usize = 0;
    while i < bytes.len()
        invariant
            i <= bytes.len(),
            copy@ == bytes@.subrange(0, i as int),
        decreases bytes.len() - i,
    {
        copy.push(bytes[i]);
        i = i + 1;
        assert(copy@ == bytes@.subrange(0, i as int));
    }
    assert(bytes@.subrange(0, bytes@.len() as int) == bytes@);
    copy
}

/// The seed list made of a tag, a name (left out when there is none) and a
/// key.
fn seeds_from(tag: &[u8], name: Option<&[u8]>, key: &Pubkey) -> (seeds: Vec<Vec<u8>>)
    ensures
        seeds.deep_view() == match name {
            Some(name) => seq![tag@, name@, key.bytes@],
            None => seq![tag@, key.bytes@],
        },
{
    let mut seeds: Vec<Vec<u8>> = Vec::new();
    seeds.push(copy_of(tag));
    if let Some(name) = name {
        seeds.push(copy_of(name));
    }
    seeds.push(copy_of(key.bytes.as_slice()));
    proof {
        let expected = match name {
            Some(name) => seq![tag@, name@, key.bytes@],
            None => seq![tag@, key.bytes@],
        };
        assert(seeds.deep_view().len() == expected.len());
        assert forall|i: int| 0 <= i < expected.len() implies seeds.deep_view()[i]
            == expected[i] by {
            assert(seeds.deep_view()[i] == seeds@[i]@);
        }
        assert(seeds.deep_view() =~= expected);
    }
    seeds
}

/// The seeds of the match named `game_id` that `owner` created.
pub fn game_seeds(game_id: &str, owner: &Pubkey) -> (seeds: Vec<Vec<u8>>)
    ensures
        seeds.deep_view() == game_seeds_of(game_id.spec_bytes(), *owner),
{
    seeds_from(GAME_SEED.as_slice(), Some(game_id.as_bytes()), owner)
}

/// The seeds of the escrow balance of the match named `game_id` that `owner`
/// created.
pub fn escrow_seeds(game_id: &str, owner: &Pubkey) -> (seeds: Vec<Vec<u8>>)
    ensures
        seeds.deep_view() == escrow_seeds_of(game_id.spec_bytes(), *owner),
{
    seeds_from(ESCROW_SEED.as_slice(), Some(game_id.as_bytes()), owner)
}

/// The seeds of the client state bound to the oracle account `vrf`.
pub fn state_seeds(vrf: &Pubkey) -> (seeds: Vec<Vec<u8>>)
    ensures
        seeds.deep_view() == state_seeds_of(*vrf),
{
    seeds_from(STATE_SEED.as_slice(), None, vrf)
}

/// The seeds of the oracle record of `payer`.
pub fn vrf_seeds(payer: &Pubkey) -> (seeds: Vec<Vec<u8>>)
    ensures
        seeds.deep_view() == vrf_seeds_of(*payer),
{
    seeds_from(VRF_SEED.as_slice(), None, payer)
}

/// Puts the nonce of the address behind its seeds: what a record signs with
/// when it pays out of its own balance or asks the oracle.
pub fn signer_seeds(seeds: Vec<Vec<u8>>, bump: u8) -> (signing: Vec<Vec<u8>>)
    ensures
        signing.deep_view() == signer_seeds_of(seeds.deep_view(), bump),
{
    let mut signing = seeds;
    let mut nonce: Vec<u8> = Vec::new();
    nonce.push(bump);
    signing.push(nonce);
    proof {
        let expected = signer_seeds_of(seeds.deep_view(), bump);
        assert(nonce@ =~= seq![bump]);
        assert(signing.deep_view().len() == expected.len());
        assert forall|i: int| 0 <= i < expected.len() implies signing.deep_view()[i]
            == expected[i] by {
            assert(signing.deep_view()[i] == signing@[i]@);
            if i < seeds@.len() {
                assert(seeds.deep_view()[i] == seeds@[i]@);
            }
        }
        assert(signing.deep_view() =~= expected);
    }
    signing
}

} // verus!
