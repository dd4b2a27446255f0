//! The contract's configuration: the two trusted bridge identities and the
//! addresses derived from them, fixed once at initialization.
use crate::address::{derivation, Address, DeriveError, Role, RoleOwner};
use solana_program::pubkey::Pubkey;
use std::str::FromStr;
use vstd::prelude::*;

verus! {

/// The key that solana_program's `Pubkey::from_str` reads from this text,
/// or `None` where the text is not the base58 form of a 32-byte key.
pub uninterp spec fn pubkey_from_base58(s: Seq<char>) -> Option<Address>;

/// Relies on solana_program's `Pubkey::from_str`: it decodes base58 text
/// into a 32-byte key, fails on any other text, and depends on the text
/// alone.
#[verifier::external_body]
fn parse_pubkey(s: &str) -> (r: Option<Address>)
    ensures
        r == pubkey_from_base58(s@),
{
    Pubkey::from_str(s).ok().map(|key| key.to_bytes())
}

/// Why initialization is refused.
#[derive(Clone, Copy, Debug, PartialEq, Eq, Structural)]
pub enum ContractError {
    /// The configured attestation service address is not a key.
    InvalidWormholeAddress,
    /// The configured transfer bridge address is not a key.
    InvalidTokenBridgeAddress,
    /// The attestation service account is not the configured one.
    UnexpectedWormholeAccount,
    /// The transfer bridge account is not the configured one.
    UnexpectedTokenBridgeAccount,
    /// The configuration already exists.
    AlreadyInitialized,
    /// Some role's address cannot be derived.
    DerivationFailed,
}

/// Reads the configured address of the attestation service.
pub fn env_wormhole_check(configured: &str) -> (r: Result<Address, ContractError>)
    ensures
        r == match pubkey_from_base58(configured@) {
            Some(key) => Ok(key),
            None => Err(ContractError::InvalidWormholeAddress),
        },
{
    match parse_pubkey(configured) {
        Some(key) => Ok(key),
        None => Err(ContractError::InvalidWormholeAddress),
    }
}

/// Reads the configured address of the transfer bridge.
pub fn env_token_bridge_check(configured: &str) -> (r: Result<Address, ContractError>)
    ensures
        r == match pubkey_from_base58(configured@) {
            Some(key) => Ok(key),
            None => Err(ContractError::InvalidTokenBridgeAddress),
        },
{
    match parse_pubkey(configured) {
        Some(key) => Ok(key),
        None => Err(ContractError::InvalidTokenBridgeAddress),
    }
}

/// The address of the party that owns a role's account.
pub open spec fn owner_address(
    owner: RoleOwner,
    program_id: Address,
    wormhole: Address,
    token_bridge: Address,
) -> Address {
    match owner {
        RoleOwner::TransferBridge => token_bridge,
        RoleOwner::AttestationAuthority => wormhole,
        RoleOwner::Program => program_id,
    }
}

/// The transfer bridge's emitter, whose address seeds the sequence counter.
pub open spec fn emitter_of(token_bridge: Address) -> Address {
    derivation(Role::Emitter.spec_seeds(seq![]), token_bridge)->Ok_0.0
}

/// The derivation of a role's address from the three identities.
pub open spec fn role_derivation(
    role: Role,
    program_id: Address,
    wormhole: Address,
    token_bridge: Address,
) -> Result<(Address, u8), DeriveError> {
    derivation(
        role.spec_seeds(emitter_of(token_bridge)@),
        owner_address(role.spec_owner(), program_id, wormhole, token_bridge),
    )
}

/// Whether every role's address can be derived from the identities.
pub open spec fn roles_derivable(program_id: Address, wormhole: Address, token_bridge: Address) -> bool {
    forall|role: Role| #[trigger] role_derivation(role, program_id, wormhole, token_bridge) is Ok
}

/// The address of a role derived from the three identities.
pub open spec fn role_address(
    role: Role,
    program_id: Address,
    wormhole: Address,
    token_bridge: Address,
) -> Address {
    role_derivation(role, program_id, wormhole, token_bridge)->Ok_0.0
}

/// The persisted configuration.
#[derive(Clone, Copy, Debug, PartialEq, Eq)]
pub struct ContractState {
    /// Bump seed of the configuration's own address.
    pub seed_bump: u8,
    /// This program.
    pub program_id: Address,
    /// The trusted attestation service.
    pub wormhole_pubkey: Address,
    /// The trusted transfer bridge.
    pub token_bridge_pubkey: Address,
    pub custody_signer_key: Address,
    pub mint_signer_key: Address,
    pub authority_signer_key: Address,
    pub bridge_config_key: Address,
    pub wormhole_config_key: Address,
    pub fee_collector_key: Address,
    pub wormhole_emitter_key: Address,
    pub wormhole_sequence_key: Address,
    pub sender_key: Address,
}

impl ContractState {
    /// The cached address of a role.
    pub open spec fn spec_derived(&self, role: Role) -> Address {
        match role {
            Role::CustodySigner => self.custody_signer_key,
            Role::MintSigner => self.mint_signer_key,
            Role::AuthoritySigner => self.authority_signer_key,
            Role::BridgeConfig => self.bridge_config_key,
            Role::CoreBridgeConfig => self.wormhole_config_key,
            Role::FeeCollector => self.fee_collector_key,
            Role::Emitter => self.wormhole_emitter_key,
            Role::Sequence => self.wormhole_sequence_key,
            Role::Sender => self.sender_key,
        }
    }

    /// Every cached address is the one derived anew from the identities.
    pub open spec fn wf(&self) -> bool {
        &&& roles_derivable(self.program_id, self.wormhole_pubkey, self.token_bridge_pubkey)
        &&& forall|role: Role|
            #[trigger] self.spec_derived(role) == role_address(
                role,
                self.program_id,
                self.wormhole_pubkey,
                self.token_bridge_pubkey,
            )
    }

    /// The cached address of a role.
    pub fn derived_address(&self, role: Role) -> (r: Address)
        ensures
            r == self.spec_derived(role),
    {
        match role {
            Role::CustodySigner => self.custody_signer_key,
            Role::MintSigner => self.mint_signer_key,
            Role::AuthoritySigner => self.authority_signer_key,
            Role::BridgeConfig => self.bridge_config_key,
            Role::CoreBridgeConfig => self.wormhole_config_key,
            Role::FeeCollector => self.fee_collector_key,
            Role::Emitter => self.wormhole_emitter_key,
            Role::Sequence => self.wormhole_sequence_key,
            Role::Sender => self.sender_key,
        }
    }

    /// Stores the identities and derives every role's address from them;
    /// where some address cannot be derived, nothing changes.
    pub fn set_wormhole_accounts(
        &mut self,
        program_id: &Address,
        wormhole_pkey: &Address,
        token_bridge_pkey: &Address,
    ) -> (r: Result<(), DeriveError>)
        ensures
            r is Ok <==> roles_derivable(*program_id, *wormhole_pkey, *token_bridge_pkey),
            r is Ok ==> {
                &&& final(self).wf()
                &&& final(self).program_id == *program_id
                &&& final(self).wormhole_pubkey == *wormhole_pkey
                &&& final(self).token_bridge_pubkey == *token_bridge_pkey
                &&& final(self).seed_bump == old(self).seed_bump
            },
            r is Err ==> *final(self) == *old(self),
    {
        // The emitter's own seeds name no emitter, so any address will do here.
        let no_emitter: Address = [0u8; 32];
        let emitter = derive_role(
            Role::Emitter,
            program_id,
            wormhole_pkey,
            token_bridge_pkey,
            &no_emitter,
        );
        let emitter = match emitter {
            Ok(a) => a,
            Err(e) => {
                assert(role_derivation(Role::Emitter, *program_id, *wormhole_pkey, *token_bridge_pkey) is Err) by {
                    assert(Role::Emitter.spec_seeds(no_emitter@) == Role::Emitter.spec_seeds(seq![]));
                }
                return Err(e);
            },
        };
        assert(Role::Emitter.spec_seeds(no_emitter@) == Role::Emitter.spec_seeds(seq![]));
        assert(emitter == emitter_of(*token_bridge_pkey));
        let ghost (p, w, t) = (*program_id, *wormhole_pkey, *token_bridge_pkey);
        let custody_signer = match derive_role(Role::CustodySigner, program_id, wormhole_pkey, token_bridge_pkey, &emitter) {
            Ok(a) => a,
            Err(e) => {
                assert(role_derivation(Role::CustodySigner, p, w, t) is Err);
                return Err(e);
            },
        };
        let mint_signer = match derive_role(Role::MintSigner, program_id, wormhole_pkey, token_bridge_pkey, &emitter) {
            Ok(a) => a,
            Err(e) => {
                assert(role_derivation(Role::MintSigner, p, w, t) is Err);
                return Err(e);
            },
        };
        let authority_signer = match derive_role(Role::AuthoritySigner, program_id, wormhole_pkey, token_bridge_pkey, &emitter) {
            Ok(a) => a,
            Err(e) => {
                assert(role_derivation(Role::AuthoritySigner, p, w, t) is Err);
                return Err(e);
            },
        };
        let bridge_config = match derive_role(Role::BridgeConfig, program_id, wormhole_pkey, token_bridge_pkey, &emitter) {
            Ok(a) => a,
            Err(e) => {
                assert(role_derivation(Role::BridgeConfig, p, w, t) is Err);
                return Err(e);
            },
        };
        let wormhole_config = match derive_role(Role::CoreBridgeConfig, program_id, wormhole_pkey, token_bridge_pkey, &emitter) {
            Ok(a) => a,
            Err(e) => {
                assert(role_derivation(Role::CoreBridgeConfig, p, w, t) is Err);
                return Err(e);
            },
        };
        let fee_collector = match derive_role(Role::FeeCollector, program_id, wormhole_pkey, token_bridge_pkey, &emitter) {
            Ok(a) => a,
            Err(e) => {
                assert(role_derivation(Role::FeeCollector, p, w, t) is Err);
                return Err(e);
            },
        };
        let sequence = match derive_role(Role::Sequence, program_id, wormhole_pkey, token_bridge_pkey, &emitter) {
            Ok(a) => a,
            Err(e) => {
                assert(role_derivation(Role::Sequence, p, w, t) is Err);
                return Err(e);
            },
        };
        let sender = match derive_role(Role::Sender, program_id, wormhole_pkey, token_bridge_pkey, &emitter) {
            Ok(a) => a,
            Err(e) => {
                assert(role_derivation(Role::Sender, p, w, t) is Err);
                return Err(e);
            },
        };
        self.program_id = *program_id;
        self.wormhole_pubkey = *wormhole_pkey;
        self.token_bridge_pubkey = *token_bridge_pkey;
        self.custody_signer_key = custody_signer;
        self.mint_signer_key = mint_signer;
        self.authority_signer_key = authority_signer;
        self.bridge_config_key = bridge_config;
        self.wormhole_config_key = wormhole_config;
        self.fee_collector_key = fee_collector;
        self.wormhole_emitter_key = emitter;
        self.wormhole_sequence_key = sequence;
        self.sender_key = sender;
        assert forall|role: Role| #[trigger] role_derivation(role, p, w, t) is Ok by {
            match role {
                Role::Emitter => {
                    assert(Role::Emitter.spec_seeds(emitter@) == Role::Emitter.spec_seeds(seq![]));
                },
                _ => {},
            }
        }
        assert forall|role: Role| #[trigger] self.spec_derived(role) == role_address(role, p, w, t) by {
            match role {
                Role::Emitter => {
                    assert(Role::Emitter.spec_seeds(emitter@) == Role::Emitter.spec_seeds(seq![]));
                },
                _ => {},
            }
        }
        Ok(())
    }
}

/// Derives a role's address under its owner; `emitter` seeds the sequence
/// counter only.
fn derive_role(
    role: Role,
    program_id: &Address,
    wormhole: &Address,
    token_bridge: &Address,
    emitter: &Address,
) -> (r: Result<Address, DeriveError>)
    ensures
        r == match derivation(
            role.spec_seeds(emitter@),
            owner_address(role.spec_owner(), *program_id, *wormhole, *token_bridge),
        ) {
            Ok(found) => Ok::<Address, DeriveError>(found.0),
            Err(e) => Err(e),
        },
{
    let owner = match role.owner() {
        RoleOwner::TransferBridge => token_bridge,
        RoleOwner::AttestationAuthority => wormhole,
        RoleOwner::Program => program_id,
    };
    match crate::address::derive(&role.seeds(emitter), owner) {
        Ok(found) => Ok(found.0),
        Err(e) => Err(e),
    }
}

/// What initializing returns: a second initialization is refused, then the
/// configured addresses must parse and match the accounts supplied, then
/// every role's address must be derivable.
pub open spec fn initialize_outcome(
    existing: Option<ContractState>,
    program_id: Address,
    wormhole: Address,
    token_bridge: Address,
    configured_wormhole: Seq<char>,
    configured_token_bridge: Seq<char>,
) -> Result<(), ContractError> {
    if existing is Some {
        Err(ContractError::AlreadyInitialized)
    } else {
        match pubkey_from_base58(configured_wormhole) {
            None => Err(ContractError::InvalidWormholeAddress),
            Some(expected_wormhole) => match pubkey_from_base58(configured_token_bridge) {
                None => Err(ContractError::InvalidTokenBridgeAddress),
                Some(expected_token_bridge) => if wormhole != expected_wormhole {
                    Err(ContractError::UnexpectedWormholeAccount)
                } else if token_bridge != expected_token_bridge {
                    Err(ContractError::UnexpectedTokenBridgeAccount)
                } else if !roles_derivable(program_id, wormhole, token_bridge) {
                    Err(ContractError::DerivationFailed)
                } else {
                    Ok(())
                },
            },
        }
    }
}

/// Creates the configuration once: checks the two bridge accounts against
/// the configured addresses and caches every derived address.
pub fn contract_initialize(
    slot: &mut Option<ContractState>,
    program_id: &Address,
    wormhole: &Address,
    token_bridge: &Address,
    seed_bump: u8,
    configured_wormhole: &str,
    configured_token_bridge: &str,
) -> (r: Result<(), ContractError>)
    ensures
        r == initialize_outcome(
            *old(slot),
            *program_id,
            *wormhole,
            *token_bridge,
            configured_wormhole@,
            configured_token_bridge@,
        ),
        r is Ok ==> (*final(slot) matches Some(s) && s.wf() && s.seed_bump == seed_bump
            && s.program_id == *program_id && s.wormhole_pubkey == *wormhole
            && s.token_bridge_pubkey == *token_bridge),
        r is Err ==> *final(slot) == *old(slot),
{
    if slot.is_some() {
        return Err(ContractError::AlreadyInitialized);
    }
    let expected_wormhole = env_wormhole_check(configured_wormhole)?;
    let expected_token_bridge = env_token_bridge_check(configured_token_bridge)?;
    if !crate::bytes::array32_eq(wormhole, &expected_wormhole) {
        return Err(ContractError::UnexpectedWormholeAccount);
    }
    if !crate::bytes::array32_eq(token_bridge, &expected_token_bridge) {
        return Err(ContractError::UnexpectedTokenBridgeAccount);
    }
    let zero: Address = [0u8; 32];
    let mut state = ContractState {
        seed_bump,
        program_id: zero,
        wormhole_pubkey: zero,
        token_bridge_pubkey: zero,
        custody_signer_key: zero,
        mint_signer_key: zero,
        authority_signer_key: zero,
        bridge_config_key: zero,
        wormhole_config_key: zero,
        fee_collector_key: zero,
        wormhole_emitter_key: zero,
        wormhole_sequence_key: zero,
        sender_key: zero,
    };
    match state.set_wormhole_accounts(program_id, wormhole, token_bridge) {
        Ok(()) => {
            *slot = Some(state);
            Ok(())
        },
        Err(_) => Err(ContractError::DerivationFailed),
    }
}

} // verus!
