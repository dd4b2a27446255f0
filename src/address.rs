//! Canonical addresses derived from seed labels and an owning program.
use solana_program::pubkey::Pubkey;
use vstd::prelude::*;
use vstd::string::{StrSliceExecFns, StringSliceAdditionalSpecFns};

verus! {

/// A 32-byte account or program address on the host ledger.
pub type Address = [u8; 32];

/// The program-derived address, with its bump seed, that the host ledger
/// assigns to these seeds under this program; `None` where no bump seed
/// puts the address off the curve, or the seeds are out of bounds.
pub uninterp spec fn program_address(seeds: Seq<Seq<u8>>, program_id: Address) -> Option<
    (Address, u8),
>;

/// The byte strings held by a list of seeds.
pub open spec fn seeds_view(seeds: Seq<Vec<u8>>) -> Seq<Seq<u8>> {
    seeds.map_values(|s: Vec<u8>| s@)
}

/// Relies on solana_program's `Pubkey::try_find_program_address`, which
/// hashes the seeds, a bump seed and the program id, searching the bump
/// seed downwards from 255, and depends on its arguments alone.
#[verifier::external_body]
fn find_program_address(seeds: &Vec<Vec<u8>>, program_id: &Address) -> (r: Option<(Address, u8)>)
    ensures
        r == program_address(seeds_view(seeds@), *program_id),
{
    let refs: Vec<&[u8]> = seeds.iter().map(|s| s.as_slice()).collect();
    Pubkey::try_find_program_address(&refs, &Pubkey::new_from_array(*program_id)).map(
        |(key, bump)| (key.to_bytes(), bump),
    )
}

/// Why no address could be derived.
#[derive(Clone, Copy, Debug, PartialEq, Eq, Structural)]
pub enum DeriveError {
    /// No bump seed gives an address outside the key space, or the seeds
    /// exceed the host's bounds.
    NoViableBump,
}

/// What `derive` returns for these seeds and owner.
pub open spec fn derivation(seeds: Seq<Seq<u8>>, owner: Address) -> Result<(Address, u8), DeriveError> {
    match program_address(seeds, owner) {
        Some(found) => Ok(found),
        None => Err(DeriveError::NoViableBump),
    }
}

/// Derives the address that only code running under `owner` controls, and
/// the bump seed that puts it off the curve.
pub fn derive(seeds: &Vec<Vec<u8>>, owner: &Address) -> (r: Result<(Address, u8), DeriveError>)
    ensures
        r == derivation(seeds_view(seeds@), *owner),
{
    match find_program_address(seeds, owner) {
        Some(found) => Ok(found),
        None => Err(DeriveError::NoViableBump),
    }
}

/// Whether `account` is the address derived from `seeds` under `owner`.
pub open spec fn derived_as(account: Address, seeds: Seq<Seq<u8>>, owner: Address) -> bool {
    derivation(seeds, owner) matches Ok((derived, _)) && derived == account
}

/// Checks that `account` is the address derived from `seeds` under `owner`.
pub fn verify_derivation(account: &Address, seeds: &Vec<Vec<u8>>, owner: &Address) -> (r: bool)
    ensures
        r == derived_as(*account, seeds_view(seeds@), *owner),
{
    match derive(seeds, owner) {
        Ok((derived, _)) => crate::bytes::array32_eq(&derived, account),
        Err(_) => false,
    }
}

/// Derivation is a function: the same seeds under the same owner always
/// give the same result.
pub proof fn lemma_derive_deterministic(
    seeds1: Seq<Seq<u8>>,
    owner1: Address,
    seeds2: Seq<Seq<u8>>,
    owner2: Address,
)
    requires
        seeds1 == seeds2,
        owner1 == owner2,
    ensures
        derivation(seeds1, owner1) == derivation(seeds2, owner2),
{
}

/// The accounts of the two bridges, and of this program, whose addresses
/// are derived from fixed labels.
#[derive(Clone, Copy, Debug, PartialEq, Eq, Structural)]
pub enum Role {
    /// Signs for the transfer bridge's custody accounts.
    CustodySigner,
    /// Signs mints of the transfer bridge's wrapped tokens.
    MintSigner,
    /// Holds delegated spending approval for the transfer bridge.
    AuthoritySigner,
    /// The transfer bridge's configuration.
    BridgeConfig,
    /// The attestation service's configuration.
    CoreBridgeConfig,
    /// Collects the attestation service's message fees.
    FeeCollector,
    /// The transfer bridge's message emitter.
    Emitter,
    /// Counts the messages of the transfer bridge's emitter.
    Sequence,
    /// This program's sending account.
    Sender,
}

/// Which party owns the address of a role.
#[derive(Clone, Copy, Debug, PartialEq, Eq, Structural)]
pub enum RoleOwner {
    TransferBridge,
    AttestationAuthority,
    Program,
}

impl Role {
    /// The party under which the role's address is derived.
    pub open spec fn spec_owner(self) -> RoleOwner {
        match self {
            Role::CustodySigner | Role::MintSigner | Role::AuthoritySigner | Role::BridgeConfig
            | Role::Emitter => RoleOwner::TransferBridge,
            Role::CoreBridgeConfig | Role::FeeCollector | Role::Sequence => RoleOwner::AttestationAuthority,
            Role::Sender => RoleOwner::Program,
        }
    }

    /// The seed labels of the role; the sequence counter's also name the
    /// emitter whose messages it counts.
    pub open spec fn spec_seeds(self, emitter: Seq<u8>) -> Seq<Seq<u8>> {
        match self {
            Role::CustodySigner => seq!["custody_signer".spec_bytes()],
            Role::MintSigner => seq!["mint_signer".spec_bytes()],
            Role::AuthoritySigner => seq!["authority_signer".spec_bytes()],
            Role::BridgeConfig => seq!["config".spec_bytes()],
            Role::CoreBridgeConfig => seq!["Bridge".spec_bytes()],
            Role::FeeCollector => seq!["fee_collector".spec_bytes()],
            Role::Emitter => seq!["emitter".spec_bytes()],
            Role::Sequence => seq!["Sequence".spec_bytes(), emitter],
            Role::Sender => seq!["sender".spec_bytes()],
        }
    }

    /// The party under which the role's address is derived.
    pub fn owner(&self) -> (r: RoleOwner)
        ensures
            r == self.spec_owner(),
    {
        match self {
            Role::CustodySigner | Role::MintSigner | Role::AuthoritySigner | Role::BridgeConfig
            | Role::Emitter => RoleOwner::TransferBridge,
            Role::CoreBridgeConfig | Role::FeeCollector | Role::Sequence => RoleOwner::AttestationAuthority,
            Role::Sender => RoleOwner::Program,
        }
    }

    /// The seed labels of the role.
    pub fn seeds(&self, emitter: &Address) -> (r: Vec<Vec<u8>>)
        ensures
            seeds_view(r@) == self.spec_seeds(emitter@),
    {
        let label = match self {
            Role::CustodySigner => "custody_signer".as_bytes_vec(),
            Role::MintSigner => "mint_signer".as_bytes_vec(),
            Role::AuthoritySigner => "authority_signer".as_bytes_vec(),
            Role::BridgeConfig => "config".as_bytes_vec(),
            Role::CoreBridgeConfig => "Bridge".as_bytes_vec(),
            Role::FeeCollector => "fee_collector".as_bytes_vec(),
            Role::Emitter => "emitter".as_bytes_vec(),
            Role::Sequence => "Sequence".as_bytes_vec(),
            Role::Sender => "sender".as_bytes_vec(),
        };
        let mut r: Vec<Vec<u8>> = Vec::new();
        r.push(label);
        if let Role::Sequence = self {
            r.push(emitter_seed(emitter));
        }
        assert(seeds_view(r@) =~= self.spec_seeds(emitter@));
        r
    }
}

/// The address bytes as a seed.
fn emitter_seed(a: &Address) -> (r: Vec<u8>)
    ensures
        r@ == a@,
{
    let mut r: Vec<u8> = Vec::new();
    crate::bytes::write_array32(&mut r, a);
    r
}

} // verus!
