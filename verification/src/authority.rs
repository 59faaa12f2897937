//! Keyless custody authorities.
//!
//! The authority over a custody vault is an identity derived from the
//! marketplace and the asset. No private key stands behind it: an action in
//! its name is authorized by presenting the inputs it was derived from.

use crate::error::MarketplaceError;
use crate::identity::Identity;
use anchor_lang::prelude::Pubkey;
use vstd::prelude::*;

verus! {

/// The most bytes a single derivation seed may have.
pub const MAX_SEED_LEN: usize = 32;

/// What `Pubkey::try_find_program_address` returns for the given seeds and
/// program: the derived address with the bump seed that was found for it.
pub uninterp spec fn found_address(seeds: Seq<Seq<u8>>, program: Seq<u8>) -> Option<(Seq<u8>, u8)>;

/// What `Pubkey::create_program_address` returns for the given seeds and
/// program, an error read as `None`.
pub uninterp spec fn created_address(seeds: Seq<Seq<u8>>, program: Seq<u8>) -> Option<Seq<u8>>;

/// A search result in terms of bytes.
pub open spec fn found_view(found: Option<(Identity, u8)>) -> Option<(Seq<u8>, u8)> {
    match found {
        Some((address, bump)) => Some((address.bytes@, bump)),
        None => None,
    }
}

/// A derived address in terms of bytes.
pub open spec fn created_view(created: Option<Identity>) -> Option<Seq<u8>> {
    match created {
        Some(address) => Some(address.bytes@),
        None => None,
    }
}

/// Calls `Pubkey::try_find_program_address`, which searches the bump seeds
/// from 255 downwards for the first one that, appended to `seeds`, derives an
/// address off the curve. Trusted: the result is a function of the arguments,
/// and an address that was found is the one `Pubkey::create_program_address`
/// derives from the seeds followed by the bump that was found.
#[verifier::external_body]
fn find_program_address(seeds: &Vec<Vec<u8>>, program: &Identity) -> (res: Option<(Identity, u8)>)
    ensures
        found_view(res) == found_address(seeds.deep_view(), program.bytes@),
        res matches Some((address, bump)) ==> created_address(
            seeds.deep_view().push(seq![bump]),
            program.bytes@,
        ) == Some(address.bytes@),
{
    let parts: Vec<&[u8]> = seeds.iter().map(|seed| seed.as_slice()).collect();
    let found = Pubkey::try_find_program_address(&parts, &Pubkey::new_from_array(program.bytes));
    found.map(|(address, bump)| (Identity { bytes: address.to_bytes() }, bump))
}

/// Calls `Pubkey::create_program_address`, which hashes the seeds with the
/// program and accepts the digest as an address when it is off the curve.
/// Trusted: the result is a function of the arguments.
#[verifier::external_body]
fn create_program_address(seeds: &Vec<Vec<u8>>, program: &Identity) -> (res: Option<Identity>)
    ensures
        created_view(res) == created_address(seeds.deep_view(), program.bytes@),
{
    let parts: Vec<&[u8]> = seeds.iter().map(|seed| seed.as_slice()).collect();
    match Pubkey::create_program_address(&parts, &Pubkey::new_from_array(program.bytes)) {
        Ok(address) => Some(Identity { bytes: address.to_bytes() }),
        Err(_) => None,
    }
}

/// The seed that marks a derivation as that of a marketplace: the bytes of
/// `marketplace`.
pub open spec fn marketplace_tag() -> Seq<u8> {
    seq![109u8, 97u8, 114u8, 107u8, 101u8, 116u8, 112u8, 108u8, 97u8, 99u8, 101u8]
}

/// The seed that marks a derivation as that of a treasury: the bytes of
/// `treasury`.
pub open spec fn treasury_tag() -> Seq<u8> {
    seq![116u8, 114u8, 101u8, 97u8, 115u8, 117u8, 114u8, 121u8]
}

/// The seed that marks a derivation as that of a reward asset: the bytes of
/// `reward`.
pub open spec fn reward_tag() -> Seq<u8> {
    seq![114u8, 101u8, 119u8, 97u8, 114u8, 100u8]
}

/// The seed that marks a derivation as that of a listing: the bytes of
/// `listing`.
pub open spec fn listing_tag() -> Seq<u8> {
    seq![108u8, 105u8, 115u8, 116u8, 105u8, 110u8, 103u8]
}

/// The seeds from which the identity of the marketplace of a given name is
/// searched.
pub open spec fn spec_marketplace_seeds(name: Seq<u8>) -> Seq<Seq<u8>> {
    seq![marketplace_tag(), name]
}

/// The seeds from which the treasury of a marketplace is searched.
pub open spec fn spec_treasury_seeds(marketplace: Seq<u8>) -> Seq<Seq<u8>> {
    seq![treasury_tag(), marketplace]
}

/// The seeds from which the reward asset of a marketplace is searched.
pub open spec fn spec_reward_seeds(marketplace: Seq<u8>) -> Seq<Seq<u8>> {
    seq![reward_tag(), marketplace]
}

/// The seeds from which the custody authority for an asset on a marketplace
/// is searched.
pub open spec fn spec_listing_seeds(marketplace: Identity, mint: Identity) -> Seq<Seq<u8>> {
    seq![listing_tag(), marketplace.bytes@, mint.bytes@]
}

/// A tag followed by one more seed.
fn tagged(tag: Vec<u8>, seed: Vec<u8>) -> (res: Vec<Vec<u8>>)
    ensures
        res.deep_view() == seq![tag@, seed@],
{
    let mut seeds: Vec<Vec<u8>> = Vec::new();
    seeds.push(tag);
    seeds.push(seed);
    proof {
        lemma_seeds_view(seeds);
        assert(seeds.deep_view() =~= seq![tag@, seed@]);
    }
    seeds
}

/// Builds the seeds from which the identity of the marketplace called `name`
/// is searched.
pub fn marketplace_seeds(name: &str) -> (res: Vec<Vec<u8>>)
    ensures
        res.deep_view() == spec_marketplace_seeds(vstd::utf8::encode_utf8(name@)),
{
    let tag: Vec<u8> = vec![109u8, 97u8, 114u8, 107u8, 101u8, 116u8, 112u8, 108u8, 97u8, 99u8, 101u8];
    proof {
        assert(tag@ =~= marketplace_tag());
    }
    tagged(tag, vstd::slice::slice_to_vec(name.as_bytes()))
}

/// Builds the seeds from which the treasury of `marketplace` is searched.
pub fn treasury_seeds(marketplace: &Identity) -> (res: Vec<Vec<u8>>)
    ensures
        res.deep_view() == spec_treasury_seeds(marketplace.bytes@),
{
    let tag: Vec<u8> = vec![116u8, 114u8, 101u8, 97u8, 115u8, 117u8, 114u8, 121u8];
    proof {
        assert(tag@ =~= treasury_tag());
    }
    tagged(tag, marketplace.to_vec())
}

/// Builds the seeds from which the reward asset of `marketplace` is searched.
pub fn reward_seeds(marketplace: &Identity) -> (res: Vec<Vec<u8>>)
    ensures
        res.deep_view() == spec_reward_seeds(marketplace.bytes@),
{
    let tag: Vec<u8> = vec![114u8, 101u8, 119u8, 97u8, 114u8, 100u8];
    proof {
        assert(tag@ =~= reward_tag());
    }
    tagged(tag, marketplace.to_vec())
}

/// Builds the seeds from which the custody authority for `mint` on
/// `marketplace` is searched.
pub fn listing_seeds(marketplace: &Identity, mint: &Identity) -> (res: Vec<Vec<u8>>)
    ensures
        res.deep_view() == spec_listing_seeds(*marketplace, *mint),
{
    let tag: Vec<u8> = vec![108u8, 105u8, 115u8, 116u8, 105u8, 110u8, 103u8];
    let mut seeds: Vec<Vec<u8>> = Vec::new();
    seeds.push(tag);
    seeds.push(marketplace.to_vec());
    seeds.push(mint.to_vec());
    proof {
        lemma_seeds_view(seeds);
        assert(seeds@[0]@ =~= listing_tag());
        assert(seeds.deep_view() =~= spec_listing_seeds(*marketplace, *mint));
    }
    seeds
}

/// The deep view of a list of seeds holds the view of each seed.
proof fn lemma_seeds_view(seeds: Vec<Vec<u8>>)
    ensures
        seeds.deep_view().len() == seeds@.len(),
        forall|i: int| 0 <= i < seeds@.len() ==> #[trigger] seeds.deep_view()[i] == seeds@[i]@,
{
    assert forall|i: int| 0 <= i < seeds@.len() implies #[trigger] seeds.deep_view()[i]
        == seeds@[i]@ by {
        assert(seeds@[i].deep_view() =~= seeds@[i]@);
    }
}

/// Whether `seeds` followed by `bump` derive `address` under `program`.
pub open spec fn rederives(seeds: Seq<Seq<u8>>, bump: u8, program: Identity, address: Identity) -> bool {
    created_address(seeds.push(seq![bump]), program.bytes@) == Some(address.bytes@)
}

/// `seeds` followed by `bump`.
pub fn with_bump(seeds: Vec<Vec<u8>>, bump: u8) -> (res: Vec<Vec<u8>>)
    ensures
        res.deep_view() == seeds.deep_view().push(seq![bump]),
{
    let mut all = seeds;
    let tail: Vec<u8> = vec![bump];
    all.push(tail);
    proof {
        lemma_seeds_view(seeds);
        lemma_seeds_view(all);
        assert(all@[seeds@.len() as int]@ =~= seq![bump]);
        assert(all.deep_view() =~= seeds.deep_view().push(seq![bump]));
    }
    all
}

/// Checks that `seeds` followed by `bump` derive `address` under `program`.
pub fn check_derivation(seeds: Vec<Vec<u8>>, bump: u8, program: &Identity, address: &Identity) -> (res:
    bool)
    ensures
        res == rederives(seeds.deep_view(), bump, *program, *address),
{
    let created = create_program_address(&with_bump(seeds, bump), program);
    is_authority(created, address)
}

/// The derivation inputs that stand for a custody authority: presented with
/// an action, they take the place of a signature.
#[derive(Clone, Copy, Debug, PartialEq, Eq)]
pub struct ListingSigner {
    pub marketplace: Identity,
    pub mint: Identity,
    pub bump: u8,
}

impl ListingSigner {
    /// The seeds the inputs amount to: those of the search, then the bump.
    pub open spec fn spec_seeds(self) -> Seq<Seq<u8>> {
        spec_listing_seeds(self.marketplace, self.mint).push(seq![self.bump])
    }

    /// Whether the inputs derive `authority` under `program`, so that an
    /// action they are presented with counts as signed by it.
    pub open spec fn authorizes(self, program: Identity, authority: Identity) -> bool {
        rederives(spec_listing_seeds(self.marketplace, self.mint), self.bump, program, authority)
    }

    /// Builds the seeds to present.
    pub fn seeds(&self) -> (res: Vec<Vec<u8>>)
        ensures
            res.deep_view() == self.spec_seeds(),
    {
        with_bump(listing_seeds(&self.marketplace, &self.mint), self.bump)
    }

    /// Checks the inputs against `authority`, as the platform does before it
    /// lets an action pass in the authority's name.
    pub fn signs_for(&self, program: &Identity, authority: &Identity) -> (res: bool)
        ensures
            res == self.authorizes(*program, *authority),
    {
        check_derivation(listing_seeds(&self.marketplace, &self.mint), self.bump, program, authority)
    }
}

/// Whether a derived address, if there is one, is `authority`.
pub fn is_authority(created: Option<Identity>, authority: &Identity) -> (res: bool)
    ensures
        res == (created_view(created) == Some(authority.bytes@)),
{
    match created {
        None => false,
        Some(address) => {
            proof {
                if address.bytes@ == authority.bytes@ {
                    assert(address.bytes =~= authority.bytes);
                }
            }
            address.same(authority)
        },
    }
}

/// The address a search has found, with its bump; a search without a result
/// is a failure of configuration.
pub fn authority_of(found: Option<(Identity, u8)>) -> (res: Result<(Identity, u8), MarketplaceError>)
    ensures
        res == match found {
            Some(pair) => Ok::<(Identity, u8), MarketplaceError>(pair),
            None => Err::<(Identity, u8), MarketplaceError>(MarketplaceError::DerivationFailed),
        },
{
    match found {
        Some(pair) => Ok(pair),
        None => Err(MarketplaceError::DerivationFailed),
    }
}

/// Whether the search from `seeds` under `program` finds `address` with
/// `bump`.
pub open spec fn derives(seeds: Seq<Seq<u8>>, program: Identity, address: Identity, bump: u8) -> bool {
    found_address(seeds, program.bytes@) == Some((address.bytes@, bump))
}

/// Searches the keyless address that `seeds` derive under `program`. The
/// same inputs always give the same address, and the seeds followed by the
/// bump re-derive it. Fails when no bump yields a keyless address.
pub fn derive_address(seeds: &Vec<Vec<u8>>, program: &Identity) -> (res: Result<
    (Identity, u8),
    MarketplaceError,
>)
    ensures
        match res {
            Ok((address, bump)) => {
                &&& derives(seeds.deep_view(), *program, address, bump)
                &&& rederives(seeds.deep_view(), bump, *program, address)
            },
            Err(e) => {
                &&& e == MarketplaceError::DerivationFailed
                &&& found_address(seeds.deep_view(), program.bytes@) is None
            },
        },
{
    let found = find_program_address(seeds, program);
    authority_of(found)
}

/// Derives the custody authority for `mint` on `marketplace`, with the bump
/// that re-derives it. The same inputs always give the same authority, and
/// the inputs together with the bump authorize in its name. Fails when no
/// bump yields a keyless address.
pub fn derive_listing_authority(program: &Identity, marketplace: &Identity, mint: &Identity) -> (res:
    Result<(Identity, u8), MarketplaceError>)
    ensures
        match res {
            Ok((authority, bump)) => {
                &&& derives(spec_listing_seeds(*marketplace, *mint), *program, authority, bump)
                &&& (ListingSigner { marketplace: *marketplace, mint: *mint, bump }).authorizes(
                    *program,
                    authority,
                )
            },
            Err(e) => {
                &&& e == MarketplaceError::DerivationFailed
                &&& found_address(spec_listing_seeds(*marketplace, *mint), program.bytes@) is None
            },
        },
{
    let seeds = listing_seeds(marketplace, mint);
    derive_address(&seeds, program)
}

} // verus!
