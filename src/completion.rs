//! Completing an inbound transfer at the transfer bridge into this
//! program's custody account, as a call that the host executes.
use crate::address::{derived_as, seeds_view, verify_derivation, Address};
use crate::orchestrator::{custody_seeds, OrchestratorError};
use crate::outbound::{readonly, writable, AccountMeta, Instruction};
use vstd::prelude::*;

verus! {

/// Index of the transfer bridge's "complete wrapped" command.
pub const COMPLETE_WRAPPED: u8 = 3;

/// Index of the transfer bridge's "complete wrapped with payload" command.
pub const COMPLETE_WRAPPED_WITH_PAYLOAD: u8 = 10;

/// The accounts of a transfer completion.
#[derive(Clone, Copy, Debug, PartialEq, Eq)]
pub struct CompleteTransferAccounts {
    pub payer: Address,
    pub config: Address,
    /// The posted message.
    pub message: Address,
    /// The transfer bridge's claim account of the message.
    pub claim: Address,
    pub chain_registration: Address,
    pub custody: Address,
    pub custody_signer: Address,
    pub to_fees: Address,
    pub mint: Address,
    pub wrapped_meta: Address,
    pub mint_authority: Address,
    pub rent: Address,
    pub system_program: Address,
    /// The attestation service's program.
    pub bridge: Address,
    pub token_program: Address,
    /// The transfer bridge's program.
    pub token_bridge: Address,
}

/// What the host is asked to do: create and initialize the custody
/// account where it does not exist yet, then call the transfer bridge.
#[derive(Clone, Debug, PartialEq, Eq)]
pub struct CompleteTransferRequest {
    pub create_custody: bool,
    pub transfer: Instruction,
}

/// The account list of a completion at the transfer bridge; the custody
/// signer is marked as signing, which this program does for it.
pub open spec fn completion_accounts(a: CompleteTransferAccounts) -> Seq<AccountMeta> {
    seq![
        writable(a.payer, true),
        readonly(a.config, false),
        readonly(a.message, false),
        writable(a.claim, false),
        readonly(a.chain_registration, false),
        writable(a.custody, false),
        readonly(a.custody_signer, true),
        writable(a.to_fees, false),
        writable(a.mint, false),
        readonly(a.wrapped_meta, false),
        readonly(a.mint_authority, false),
        readonly(a.rent, false),
        readonly(a.system_program, false),
        readonly(a.bridge, false),
        readonly(a.token_program, false),
    ]
}

/// Whether `r` is the completion with bridge command `command`: refused
/// with `BadDerivation` where the custody account is not derived from the
/// mint under this program.
pub open spec fn completion_result(
    r: Result<CompleteTransferRequest, OrchestratorError>,
    program_id: Address,
    a: CompleteTransferAccounts,
    custody_initialized: bool,
    command: u8,
) -> bool {
    if !derived_as(a.custody, custody_seeds(a.mint), program_id) {
        r == Err::<CompleteTransferRequest, OrchestratorError>(OrchestratorError::BadDerivation)
    } else {
        r matches Ok(req) && req.create_custody == !custody_initialized && req.transfer.program_id
            == a.token_bridge && req.transfer.accounts@ == completion_accounts(a)
            && req.transfer.data@ == seq![command]
    }
}

fn complete_with(
    program_id: &Address,
    a: &CompleteTransferAccounts,
    custody_initialized: bool,
    command: u8,
) -> (r: Result<CompleteTransferRequest, OrchestratorError>)
    ensures
        completion_result(r, *program_id, *a, custody_initialized, command),
{
    let mut mint_seed: Vec<u8> = Vec::new();
    crate::bytes::write_array32(&mut mint_seed, &a.mint);
    let seeds = vec![mint_seed];
    assert(seeds_view(seeds@) =~= custody_seeds(a.mint));
    if !verify_derivation(&a.custody, &seeds, program_id) {
        return Err(OrchestratorError::BadDerivation);
    }
    let accounts = vec![
        AccountMeta { pubkey: a.payer, is_signer: true, is_writable: true },
        AccountMeta { pubkey: a.config, is_signer: false, is_writable: false },
        AccountMeta { pubkey: a.message, is_signer: false, is_writable: false },
        AccountMeta { pubkey: a.claim, is_signer: false, is_writable: true },
        AccountMeta { pubkey: a.chain_registration, is_signer: false, is_writable: false },
        AccountMeta { pubkey: a.custody, is_signer: false, is_writable: true },
        AccountMeta { pubkey: a.custody_signer, is_signer: true, is_writable: false },
        AccountMeta { pubkey: a.to_fees, is_signer: false, is_writable: true },
        AccountMeta { pubkey: a.mint, is_signer: false, is_writable: true },
        AccountMeta { pubkey: a.wrapped_meta, is_signer: false, is_writable: false },
        AccountMeta { pubkey: a.mint_authority, is_signer: false, is_writable: false },
        AccountMeta { pubkey: a.rent, is_signer: false, is_writable: false },
        AccountMeta { pubkey: a.system_program, is_signer: false, is_writable: false },
        AccountMeta { pubkey: a.bridge, is_signer: false, is_writable: false },
        AccountMeta { pubkey: a.token_program, is_signer: false, is_writable: false },
    ];
    assert(accounts@ =~= completion_accounts(*a));
    let data = vec![command];
    assert(data@ =~= seq![command]);
    Ok(
        CompleteTransferRequest {
            create_custody: !custody_initialized,
            transfer: Instruction { program_id: a.token_bridge, accounts, data },
        },
    )
}

/// Completes a transfer that carries a payload into this program's custody.
pub fn complete_transfer(
    program_id: &Address,
    accts: &CompleteTransferAccounts,
    custody_initialized: bool,
) -> (r: Result<CompleteTransferRequest, OrchestratorError>)
    ensures
        completion_result(
            r,
            *program_id,
            *accts,
            custody_initialized,
            COMPLETE_WRAPPED_WITH_PAYLOAD,
        ),
{
    complete_with(program_id, accts, custody_initialized, COMPLETE_WRAPPED_WITH_PAYLOAD)
}

/// Completes a plain wrapped transfer into this program's custody, ahead of
/// a swap.
pub fn complete_transfer_and_swap(
    program_id: &Address,
    accts: &CompleteTransferAccounts,
    custody_initialized: bool,
) -> (r: Result<CompleteTransferRequest, OrchestratorError>)
    ensures
        completion_result(r, *program_id, *accts, custody_initialized, COMPLETE_WRAPPED),
{
    complete_with(program_id, accts, custody_initialized, COMPLETE_WRAPPED)
}

} // verus!
