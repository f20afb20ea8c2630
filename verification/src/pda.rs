//! The addresses that a market's accounts live at.
//!
//! Every account of a market sits at a program address derived from what the
//! account stands for: the market from its title, its vault and the vault's
//! authority from the market, a position from the market and the participant.
//! Two accounts for the same thing therefore share one address.

use crate::address::{lemma_address_ext, Address};
use anchor_lang::prelude::Pubkey;
use vstd::prelude::*;
use vstd::utf8::encode_utf8;

verus! {

/// The seeds of a derivation, each as its sequence of bytes.
pub open spec fn seeds_view(seeds: &Vec<Vec<u8>>) -> Seq<Seq<u8>> {
    Seq::new(seeds@.len(), |i: int| seeds@[i]@)
}

/// The program address that the seeds derive under a program, with its bump
/// seed; `None` where the seeds derive none.
pub uninterp spec fn program_address(seeds: Seq<Seq<u8>>, program_id: Seq<u8>) -> Option<
    (Seq<u8>, u8),
>;

/// Calls `Pubkey::try_find_program_address` of `solana_program`, which
/// `anchor_lang` hands on. Nothing of the derivation is proved here: the
/// contract names its result, which the seeds and the program alone decide,
/// and states what `Pubkey::create_program_address` checks first: an address
/// comes out only where no seed is longer than 32 bytes.
#[verifier::external_body]
fn try_find_program_address(seeds: &Vec<Vec<u8>>, program_id: &Address) -> (r: Option<
    (Address, u8),
>)
    ensures
        match r {
            Some((key, bump)) => program_address(seeds_view(seeds), program_id@) == Some(
                (key@, bump),
            ),
            None => program_address(seeds_view(seeds), program_id@) is None,
        },
        r is Some ==> forall|i: int|
            0 <= i < seeds@.len() ==> (#[trigger] seeds@[i])@.len() <= 32,
{
    let parts: Vec<&[u8]> = seeds.iter().map(|s| s.as_slice()).collect();
    let program = Pubkey::new_from_array(program_id.bytes);
    Pubkey::try_find_program_address(&parts, &program).map(
        |(key, bump)| (Address { bytes: key.to_bytes() }, bump),
    )
}

/// The bytes of `vault`, the tag of a vault's authority.
pub open spec fn vault_tag() -> Seq<u8> {
    seq![118u8, 97u8, 117u8, 108u8, 116u8]
}

/// The bytes of `vault_token_account`, the tag of a vault.
pub open spec fn vault_token_account_tag() -> Seq<u8> {
    seq![
        118u8, 97u8, 117u8, 108u8, 116u8, 95u8, 116u8, 111u8, 107u8, 101u8, 110u8, 95u8, 97u8,
        99u8, 99u8, 111u8, 117u8, 110u8, 116u8,
    ]
}

/// The bytes of `user_bet`, the tag of a position.
pub open spec fn user_bet_tag() -> Seq<u8> {
    seq![117u8, 115u8, 101u8, 114u8, 95u8, 98u8, 101u8, 116u8]
}

/// The seeds of the market with the given title.
pub open spec fn bet_seeds(title: Seq<char>) -> Seq<Seq<u8>> {
    seq![encode_utf8(title)]
}

/// The seeds of the authority over a market's vault.
pub open spec fn vault_authority_seeds(bet: Address) -> Seq<Seq<u8>> {
    seq![vault_tag(), bet@]
}

/// The seeds of a market's vault.
pub open spec fn vault_token_account_seeds(bet: Address) -> Seq<Seq<u8>> {
    seq![vault_token_account_tag(), bet@]
}

/// The seeds of a participant's position in a market.
pub open spec fn user_bet_seeds(bet: Address, bettor: Address) -> Seq<Seq<u8>> {
    seq![user_bet_tag(), bet@, bettor@]
}

/// The address with the given bytes.
pub open spec fn address_of(bytes: Seq<u8>) -> Address {
    choose|a: Address| a@ == bytes
}

/// What the seeds derive under the program: an address and its bump seed, or
/// nothing.
pub open spec fn derived(seeds: Seq<Seq<u8>>, program_id: Address) -> Option<(Address, u8)> {
    match program_address(seeds, program_id@) {
        Some((bytes, bump)) => Some((address_of(bytes), bump)),
        None => None,
    }
}

fn find(seeds: &Vec<Vec<u8>>, program_id: &Address) -> (r: Option<(Address, u8)>)
    ensures
        r == derived(seeds_view(seeds), *program_id),
        r is Some ==> forall|i: int| 0 <= i < seeds@.len() ==> (#[trigger] seeds@[i])@.len() <= 32,
{
    let found = try_find_program_address(seeds, program_id);
    proof {
        if let Some((key, _)) = found {
            lemma_address_ext(key, address_of(key@));
        }
    }
    found
}

/// The address of the market with the given title.
///
/// A title of more than 32 bytes has none.
pub fn find_bet_address(title: &String, program_id: &Address) -> (r: Option<(Address, u8)>)
    ensures
        r == derived(bet_seeds(title@), *program_id),
        encode_utf8(title@).len() > 32 ==> r is None,
{
    let mut seeds: Vec<Vec<u8>> = Vec::new();
    seeds.push(title.as_str().as_bytes_vec());
    assert(seeds_view(&seeds) =~= bet_seeds(title@));
    assert(seeds@[0]@ == encode_utf8(title@));
    find(&seeds, program_id)
}

/// The address of the authority over a market's vault.
pub fn find_vault_authority(bet: &Address, program_id: &Address) -> (r: Option<(Address, u8)>)
    ensures
        r == derived(vault_authority_seeds(*bet), *program_id),
{
    let tag: Vec<u8> = vec![118u8, 97u8, 117u8, 108u8, 116u8];
    assert(tag@ =~= vault_tag());
    let mut seeds: Vec<Vec<u8>> = Vec::new();
    seeds.push(tag);
    seeds.push(bet.to_vec());
    assert(seeds_view(&seeds) =~= vault_authority_seeds(*bet));
    find(&seeds, program_id)
}

/// The address of a market's vault.
pub fn find_vault_token_account(bet: &Address, program_id: &Address) -> (r: Option<(Address, u8)>)
    ensures
        r == derived(vault_token_account_seeds(*bet), *program_id),
{
    let tag: Vec<u8> = vec![
        118u8, 97u8, 117u8, 108u8, 116u8, 95u8, 116u8, 111u8, 107u8, 101u8, 110u8, 95u8, 97u8,
        99u8, 99u8, 111u8, 117u8, 110u8, 116u8,
    ];
    assert(tag@ =~= vault_token_account_tag());
    let mut seeds: Vec<Vec<u8>> = Vec::new();
    seeds.push(tag);
    seeds.push(bet.to_vec());
    assert(seeds_view(&seeds) =~= vault_token_account_seeds(*bet));
    find(&seeds, program_id)
}

/// The address of a participant's position in a market.
pub fn find_user_bet(bet: &Address, bettor: &Address, program_id: &Address) -> (r: Option<
    (Address, u8),
>)
    ensures
        r == derived(user_bet_seeds(*bet, *bettor), *program_id),
{
    let tag: Vec<u8> = vec![117u8, 115u8, 101u8, 114u8, 95u8, 98u8, 101u8, 116u8];
    assert(tag@ =~= user_bet_tag());
    let mut seeds: Vec<Vec<u8>> = Vec::new();
    seeds.push(tag);
    seeds.push(bet.to_vec());
    seeds.push(bettor.to_vec());
    assert(seeds_view(&seeds) =~= user_bet_seeds(*bet, *bettor));
    find(&seeds, program_id)
}

/// The addresses of a market's accounts, each with its bump seed.
#[derive(Clone, Copy, Debug)]
pub struct MarketAddresses {
    /// The market's record.
    pub bet: (Address, u8),
    /// The keyless authority over the vault.
    pub vault_authority: (Address, u8),
    /// The vault.
    pub vault_token_account: (Address, u8),
}

/// The addresses of the accounts of the market with the given title, where
/// all three can be derived.
pub open spec fn market_addresses(title: Seq<char>, program_id: Address) -> Option<
    MarketAddresses,
> {
    match derived(bet_seeds(title), program_id) {
        None => None,
        Some(bet) => match (
            derived(vault_authority_seeds(bet.0), program_id),
            derived(vault_token_account_seeds(bet.0), program_id),
        ) {
            (Some(vault_authority), Some(vault_token_account)) => Some(
                MarketAddresses { bet, vault_authority, vault_token_account },
            ),
            _ => None,
        },
    }
}

/// The addresses of the accounts of the market with the given title. A
/// title of more than 32 bytes has none.
pub fn find_market_addresses(title: &String, program_id: &Address) -> (r: Option<MarketAddresses>)
    ensures
        r == market_addresses(title@, *program_id),
        encode_utf8(title@).len() > 32 ==> r is None,
{
    let bet = match find_bet_address(title, program_id) {
        None => {
            return None;
        },
        Some(bet) => bet,
    };
    let vault_authority = find_vault_authority(&bet.0, program_id);
    let vault_token_account = find_vault_token_account(&bet.0, program_id);
    match (vault_authority, vault_token_account) {
        (Some(vault_authority), Some(vault_token_account)) => Some(
            MarketAddresses { bet, vault_authority, vault_token_account },
        ),
        _ => None,
    }
}

} // verus!
