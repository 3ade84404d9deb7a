use anchor_lang::prelude::Pubkey;
use vstd::prelude::*;

use crate::address::{lemma_address_eq, Address};

verus! {

/// What `Pubkey::create_program_address` yields for a list of seeds and a
/// program: the derived address, or `None` where the seeds derive no address
/// for that program. The derivation hashes its inputs and is the same on
/// every machine.
pub uninterp spec fn program_address(seeds: Seq<Seq<u8>>, program_id: Seq<u8>) -> Option<Seq<u8>>;

/// The bytes of an optional address.
pub open spec fn option_view(a: Option<Address>) -> Option<Seq<u8>> {
    match a {
        Some(address) => Some(address@),
        None => None,
    }
}

/// The contents of a list of seeds.
pub open spec fn seed_views(seeds: Seq<Vec<u8>>) -> Seq<Seq<u8>> {
    seeds.map_values(|seed: Vec<u8>| seed@)
}

/// The tag that starts the seeds of every vault: the ASCII bytes of `vault`.
pub open spec fn vault_tag() -> Seq<u8> {
    seq![118u8, 97u8, 117u8, 108u8, 116u8]
}

/// The seeds from which a vault's address is derived: the tag, the address
/// of the ledger record that owns the vault, and the vault's salt.
pub open spec fn vault_seeds(agent: Seq<u8>, vault_bump: u8) -> Seq<Seq<u8>> {
    seq![vault_tag(), agent, seq![vault_bump]]
}

/// The address that authorizes spending from the vault of the ledger record
/// at `agent`, for the program `program_id`, if the salt derives one.
pub open spec fn vault_capability(agent: Address, vault_bump: u8, program_id: Address) -> Option<
    Seq<u8>,
> {
    program_address(vault_seeds(agent@, vault_bump), program_id@)
}

/// Whether a derived address is proof of authority over the account at `vault`.
pub open spec fn proves_vault(derived: Option<Seq<u8>>, vault: Address) -> bool {
    derived == Some(vault@)
}

/// Calls `Pubkey::create_program_address` on the seeds and the program.
/// Trusted: the result is the derivation named by `program_address`, with a
/// failed derivation reported as `None`.
#[verifier::external_body]
fn create_program_address(seeds: &Vec<Vec<u8>>, program_id: &Address) -> (derived: Option<Address>)
    ensures
        option_view(derived) == program_address(seed_views(seeds@), program_id@),
{
    let parts: Vec<&[u8]> = seeds.iter().map(|seed| seed.as_slice()).collect();
    match Pubkey::create_program_address(&parts, &Pubkey::new_from_array(program_id.bytes)) {
        Ok(key) => Some(Address { bytes: key.to_bytes() }),
        Err(_) => None,
    }
}

/// Re-derives the address of the vault that belongs to the ledger record at
/// `agent` from the record's stored salt.
pub fn derive_vault_address(agent: &Address, vault_bump: u8, program_id: &Address) -> (derived:
    Option<Address>)
    ensures
        option_view(derived) == vault_capability(*agent, vault_bump, *program_id),
{
    let mut tag: Vec<u8> = Vec::new();
    tag.push(118u8);
    tag.push(97u8);
    tag.push(117u8);
    tag.push(108u8);
    tag.push(116u8);
    let mut salt: Vec<u8> = Vec::new();
    salt.push(vault_bump);
    let mut seeds: Vec<Vec<u8>> = Vec::new();
    seeds.push(tag);
    seeds.push(agent.to_vec());
    seeds.push(salt);
    proof {
        assert(seeds@[0]@ =~= vault_tag());
        assert(seeds@[2]@ =~= seq![vault_bump]);
        assert(seed_views(seeds@) =~= vault_seeds(agent@, vault_bump));
    }
    create_program_address(&seeds, program_id)
}

/// Decides whether a derived address proves authority over `vault`.
pub fn is_vault_proof(derived: &Option<Address>, vault: &Address) -> (ok: bool)
    ensures
        ok == proves_vault(option_view(*derived), *vault),
{
    match derived {
        Some(address) => {
            proof {
                lemma_address_eq(*address, *vault);
            }
            *address == *vault
        },
        None => false,
    }
}

} // verus!
