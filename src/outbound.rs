//! The outbound direction: checks the accounts of an outbound transfer
//! against the configuration and composes the requests that the transfer
//! bridge executes.
use crate::address::{derived_as, seeds_view, verify_derivation, Address};
use crate::bytes::{array32_eq, le_bytes, write_array32, write_le};
use crate::codec::{DecodedVaaParameters, ForeignAddr};
use crate::state::ContractState;
use vstd::prelude::*;

verus! {

/// Index of the transfer bridge's "transfer native with payload" command.
pub const TRANSFER_NATIVE_WITH_PAYLOAD: u8 = 12;

/// An account that an instruction reads or writes.
#[derive(Clone, Copy, Debug, PartialEq, Eq)]
pub struct AccountMeta {
    pub pubkey: Address,
    pub is_signer: bool,
    pub is_writable: bool,
}

/// A writable account.
pub open spec fn writable(pubkey: Address, is_signer: bool) -> AccountMeta {
    AccountMeta { pubkey, is_signer, is_writable: true }
}

/// A read-only account.
pub open spec fn readonly(pubkey: Address, is_signer: bool) -> AccountMeta {
    AccountMeta { pubkey, is_signer, is_writable: false }
}

/// A call into another program.
#[derive(Clone, Debug, PartialEq, Eq)]
pub struct Instruction {
    pub program_id: Address,
    pub accounts: Vec<AccountMeta>,
    pub data: Vec<u8>,
}

/// The arguments of a native transfer with payload.
#[derive(Clone, Debug, PartialEq, Eq)]
pub struct TransferNativeWithPayloadData {
    pub nonce: u32,
    pub amount: u64,
    pub target_address: ForeignAddr,
    pub target_chain: u16,
    pub payload: Vec<u8>,
    pub cpi_program_id: Option<Address>,
}

/// An optional address: a tag byte, then the address where there is one.
pub open spec fn option_bytes(a: Option<Address>) -> Seq<u8> {
    match a {
        Some(k) => seq![1u8] + k@,
        None => seq![0u8],
    }
}

/// The instruction data of a native transfer with payload: the command
/// index, then the arguments in order, integers little-endian, the payload
/// after its 4-byte length.
pub open spec fn transfer_native_data(
    nonce: u32,
    amount: u64,
    target_address: ForeignAddr,
    target_chain: u16,
    payload: Seq<u8>,
    cpi_program_id: Option<Address>,
) -> Seq<u8> {
    seq![TRANSFER_NATIVE_WITH_PAYLOAD] + le_bytes(nonce as nat, 4) + le_bytes(amount as nat, 8)
        + target_address@ + le_bytes(target_chain as nat, 2) + le_bytes(payload.len(), 4)
        + payload + option_bytes(cpi_program_id)
}

impl TransferNativeWithPayloadData {
    /// The instruction data for these arguments.
    pub open spec fn spec_data(&self) -> Seq<u8> {
        transfer_native_data(
            self.nonce,
            self.amount,
            self.target_address,
            self.target_chain,
            self.payload@,
            self.cpi_program_id,
        )
    }
}

/// The accounts of an outbound transfer.
#[derive(Clone, Copy, Debug, PartialEq, Eq)]
pub struct OutboundAccounts {
    pub payer: Address,
    pub token_bridge_config: Address,
    pub from_token_account: Address,
    pub mint: Address,
    pub token_bridge_custody: Address,
    pub token_bridge_authority_signer: Address,
    pub token_bridge_custody_signer: Address,
    pub core_bridge_config: Address,
    pub core_bridge: Address,
    pub wormhole_message: Address,
    pub token_bridge: Address,
    pub wormhole_emitter: Address,
    pub wormhole_sequence: Address,
    pub wormhole_fee_collector: Address,
    pub sender: Address,
    pub clock: Address,
    pub rent: Address,
    pub system_program: Address,
    pub token_program: Address,
}

/// The account list of a native transfer with payload.
pub open spec fn transfer_native_accounts(a: OutboundAccounts) -> Seq<AccountMeta> {
    seq![
        writable(a.payer, true),
        readonly(a.token_bridge_config, false),
        writable(a.from_token_account, false),
        writable(a.mint, false),
        writable(a.token_bridge_custody, false),
        readonly(a.token_bridge_authority_signer, false),
        readonly(a.token_bridge_custody_signer, false),
        writable(a.core_bridge_config, false),
        writable(a.wormhole_message, true),
        readonly(a.wormhole_emitter, false),
        writable(a.wormhole_sequence, false),
        writable(a.wormhole_fee_collector, false),
        readonly(a.clock, false),
        readonly(a.sender, true),
        readonly(a.rent, false),
        readonly(a.system_program, false),
        readonly(a.core_bridge, false),
        readonly(a.token_program, false),
    ]
}

/// Why an outbound transfer is refused.
#[derive(Clone, Copy, Debug, PartialEq, Eq, Structural)]
pub enum OutboundError {
    /// An account is not the one that the configuration names.
    AccountMismatch,
    /// The custody or sender account is not the one derived for it.
    BadDerivation,
    /// The payload is longer than its 4-byte length can state.
    PayloadTooLong,
}

/// Builds the transfer bridge's "transfer native with payload" call.
pub fn transfer_native_with_payload_ix(
    accts: &OutboundAccounts,
    args: &TransferNativeWithPayloadData,
) -> (r: Result<Instruction, OutboundError>)
    ensures
        match r {
            Ok(ix) => {
                &&& args.payload@.len() <= u32::MAX
                &&& ix.program_id == accts.token_bridge
                &&& ix.accounts@ == transfer_native_accounts(*accts)
                &&& ix.data@ == args.spec_data()
            },
            Err(e) => args.payload@.len() > u32::MAX && e == OutboundError::PayloadTooLong,
        },
{
    if args.payload.len() > u32::MAX as usize {
        return Err(OutboundError::PayloadTooLong);
    }
    let mut data: Vec<u8> = Vec::new();
    data.push(TRANSFER_NATIVE_WITH_PAYLOAD);
    write_le(&mut data, args.nonce as u64, 4);
    write_le(&mut data, args.amount, 8);
    write_array32(&mut data, &args.target_address);
    write_le(&mut data, args.target_chain as u64, 2);
    write_le(&mut data, args.payload.len() as u64, 4);
    let ghost before = data@;
    for i in 0..args.payload.len()
        invariant
            data@ == before + args.payload@.subrange(0, i as int),
    {
        data.push(args.payload[i]);
        assert(data@ =~= before + args.payload@.subrange(0, i + 1));
    }
    assert(args.payload@.subrange(0, args.payload@.len() as int) =~= args.payload@);
    match args.cpi_program_id {
        Some(k) => {
            data.push(1u8);
            write_array32(&mut data, &k);
        },
        None => {
            data.push(0u8);
        },
    }
    assert(data@ =~= args.spec_data());
    let a = accts;
    let accounts = vec![
        AccountMeta { pubkey: a.payer, is_signer: true, is_writable: true },
        AccountMeta { pubkey: a.token_bridge_config, is_signer: false, is_writable: false },
        AccountMeta { pubkey: a.from_token_account, is_signer: false, is_writable: true },
        AccountMeta { pubkey: a.mint, is_signer: false, is_writable: true },
        AccountMeta { pubkey: a.token_bridge_custody, is_signer: false, is_writable: true },
        AccountMeta { pubkey: a.token_bridge_authority_signer, is_signer: false, is_writable: false },
        AccountMeta { pubkey: a.token_bridge_custody_signer, is_signer: false, is_writable: false },
        AccountMeta { pubkey: a.core_bridge_config, is_signer: false, is_writable: true },
        AccountMeta { pubkey: a.wormhole_message, is_signer: true, is_writable: true },
        AccountMeta { pubkey: a.wormhole_emitter, is_signer: false, is_writable: false },
        AccountMeta { pubkey: a.wormhole_sequence, is_signer: false, is_writable: true },
        AccountMeta { pubkey: a.wormhole_fee_collector, is_signer: false, is_writable: true },
        AccountMeta { pubkey: a.clock, is_signer: false, is_writable: false },
        AccountMeta { pubkey: a.sender, is_signer: true, is_writable: false },
        AccountMeta { pubkey: a.rent, is_signer: false, is_writable: false },
        AccountMeta { pubkey: a.system_program, is_signer: false, is_writable: false },
        AccountMeta { pubkey: a.core_bridge, is_signer: false, is_writable: false },
        AccountMeta { pubkey: a.token_program, is_signer: false, is_writable: false },
    ];
    assert(accounts@ =~= transfer_native_accounts(*accts));
    Ok(Instruction { program_id: accts.token_bridge, accounts, data })
}

/// Whether every account that the configuration names is that account.
pub open spec fn accounts_match(state: ContractState, a: OutboundAccounts) -> bool {
    &&& a.token_bridge_config == state.bridge_config_key
    &&& a.token_bridge_authority_signer == state.authority_signer_key
    &&& a.token_bridge_custody_signer == state.custody_signer_key
    &&& a.core_bridge_config == state.wormhole_config_key
    &&& a.core_bridge == state.wormhole_pubkey
    &&& a.token_bridge == state.token_bridge_pubkey
    &&& a.wormhole_emitter == state.wormhole_emitter_key
    &&& a.wormhole_sequence == state.wormhole_sequence_key
    &&& a.wormhole_fee_collector == state.fee_collector_key
}

/// Whether the custody account is derived from the mint under the transfer
/// bridge, and the sender from its label under this program.
pub open spec fn outbound_derivations_hold(state: ContractState, a: OutboundAccounts) -> bool {
    &&& derived_as(a.token_bridge_custody, seq![a.mint@], state.token_bridge_pubkey)
    &&& derived_as(a.sender, crate::address::Role::Sender.spec_seeds(seq![]), state.program_id)
}

/// A delegation of spending approval, for the token program.
#[derive(Clone, Copy, Debug, PartialEq, Eq)]
pub struct ApproveRequest {
    pub source: Address,
    pub delegate: Address,
    pub owner: Address,
    pub amount: u64,
}

/// The two calls of an outbound transfer: first the approval, then the
/// transfer, signed by this program's sender account.
#[derive(Clone, Debug, PartialEq, Eq)]
pub struct OutboundRequest {
    pub approve: ApproveRequest,
    pub transfer: Instruction,
}

/// Starts an outbound transfer of a token native to this host: checks the
/// accounts, then has the payer approve the transfer bridge's authority
/// signer for `amount`, and asks the transfer bridge to send `amount` to
/// `tgt_address` on `tgt_chain` with the encoded swap parameters.
pub fn init_transfer_out_native(
    state: &ContractState,
    accts: &OutboundAccounts,
    amount: u64,
    tgt_chain: u16,
    tgt_address: ForeignAddr,
    nonce: u32,
    swap: &DecodedVaaParameters,
) -> (r: Result<OutboundRequest, OutboundError>)
    ensures
        !accounts_match(*state, *accts) ==> r == Err::<OutboundRequest, OutboundError>(
            OutboundError::AccountMismatch,
        ),
        accounts_match(*state, *accts) && !outbound_derivations_hold(*state, *accts) ==> r
            == Err::<OutboundRequest, OutboundError>(OutboundError::BadDerivation),
        accounts_match(*state, *accts) && outbound_derivations_hold(*state, *accts) ==> (r matches Ok(
            req,
        ) && req.approve == (ApproveRequest {
            source: accts.from_token_account,
            delegate: accts.token_bridge_authority_signer,
            owner: accts.payer,
            amount,
        }) && req.transfer.program_id == accts.token_bridge && req.transfer.accounts@
            == transfer_native_accounts(*accts) && req.transfer.data@ == transfer_native_data(
            nonce,
            amount,
            tgt_address,
            tgt_chain,
            swap.spec_encode(),
            Some(state.program_id),
        )),
{
    let a = accts;
    if !(array32_eq(&a.token_bridge_config, &state.bridge_config_key) && array32_eq(
        &a.token_bridge_authority_signer,
        &state.authority_signer_key,
    ) && array32_eq(&a.token_bridge_custody_signer, &state.custody_signer_key) && array32_eq(
        &a.core_bridge_config,
        &state.wormhole_config_key,
    ) && array32_eq(&a.core_bridge, &state.wormhole_pubkey) && array32_eq(
        &a.token_bridge,
        &state.token_bridge_pubkey,
    ) && array32_eq(&a.wormhole_emitter, &state.wormhole_emitter_key) && array32_eq(
        &a.wormhole_sequence,
        &state.wormhole_sequence_key,
    ) && array32_eq(&a.wormhole_fee_collector, &state.fee_collector_key)) {
        return Err(OutboundError::AccountMismatch);
    }
    let mut mint_seed: Vec<u8> = Vec::new();
    write_array32(&mut mint_seed, &a.mint);
    let custody_seeds = vec![mint_seed];
    assert(seeds_view(custody_seeds@) =~= seq![a.mint@]);
    if !verify_derivation(&a.token_bridge_custody, &custody_seeds, &state.token_bridge_pubkey) {
        return Err(OutboundError::BadDerivation);
    }
    // The sender's seeds name no emitter, so any address will do here.
    let no_emitter: Address = [0u8; 32];
    let sender_seeds = crate::address::Role::Sender.seeds(&no_emitter);
    if !verify_derivation(&a.sender, &sender_seeds, &state.program_id) {
        return Err(OutboundError::BadDerivation);
    }
    let approve = ApproveRequest {
        source: a.from_token_account,
        delegate: a.token_bridge_authority_signer,
        owner: a.payer,
        amount,
    };
    let args = TransferNativeWithPayloadData {
        nonce,
        amount,
        target_address: tgt_address,
        target_chain: tgt_chain,
        payload: swap.encode(),
        cpi_program_id: Some(state.program_id),
    };
    proof {
        crate::codec::lemma_encode_fields(*swap);
    }
    match transfer_native_with_payload_ix(a, &args) {
        Ok(transfer) => Ok(OutboundRequest { approve, transfer }),
        Err(e) => Err(e),
    }
}

} // verus!
