use xc_swap::codec::{DecodedVaaParameters, SWAP_PAYLOAD_VERSION};
use xc_swap::outbound::{
    init_transfer_out_native, transfer_native_with_payload_ix, AccountMeta, ApproveRequest,
    OutboundAccounts, OutboundError, TransferNativeWithPayloadData,
};
use xc_swap::state::{contract_initialize, ContractState};

const PROGRAM: [u8; 32] = [7; 32];
const MINT: [u8; 32] = [9; 32];
const TB_CUSTODY: [u8; 32] = [
    49, 9, 237, 210, 56, 253, 250, 0, 17, 202, 154, 6, 49, 231, 142, 208, 128, 50, 120, 13, 101,
    43, 176, 212, 225, 60, 40, 145, 17, 181, 171, 216,
];

fn state() -> ContractState {
    let mut slot: Option<ContractState> = None;
    contract_initialize(
        &mut slot,
        &PROGRAM,
        &[2; 32],
        &[3; 32],
        254,
        "8qbHbw2BbbTHBW1sbeqakYXVKRQM8Ne7pLK7m6CVfeR",
        "CktRuQ2mttgRGkXJtyksdKHjUdc2C4TgDzyB98oEzy8",
    )
    .unwrap();
    slot.unwrap()
}

fn accounts(s: &ContractState) -> OutboundAccounts {
    OutboundAccounts {
        payer: [0x50; 32],
        token_bridge_config: s.bridge_config_key,
        from_token_account: [0x51; 32],
        mint: MINT,
        token_bridge_custody: TB_CUSTODY,
        token_bridge_authority_signer: s.authority_signer_key,
        token_bridge_custody_signer: s.custody_signer_key,
        core_bridge_config: s.wormhole_config_key,
        core_bridge: s.wormhole_pubkey,
        wormhole_message: [0x52; 32],
        token_bridge: s.token_bridge_pubkey,
        wormhole_emitter: s.wormhole_emitter_key,
        wormhole_sequence: s.wormhole_sequence_key,
        wormhole_fee_collector: s.fee_collector_key,
        sender: s.sender_key,
        clock: [0x53; 32],
        rent: [0x54; 32],
        system_program: [0x55; 32],
        token_program: [0x56; 32],
    }
}

fn swap() -> DecodedVaaParameters {
    DecodedVaaParameters {
        version: SWAP_PAYLOAD_VERSION,
        swap_amount: (0, 0, 5),
        contract_address: [1; 32],
        relayer_fee: (0, 0, 1),
        estimated_amount: (0, 0, 4),
        recipient_address: [2; 32],
        path: [[3; 32], [4; 32]],
        deadline: (0, 0, 99),
        pool_fee: (0, 500),
        swap_function_type: 0,
        swap_currency_type: 1,
    }
}

#[test]
fn transfer_instruction_data_layout() {
    let s = state();
    let args = TransferNativeWithPayloadData {
        nonce: 0x0102_0304,
        amount: 1_000,
        target_address: [0xAB; 32],
        target_chain: 2,
        payload: vec![7, 8, 9],
        cpi_program_id: Some(PROGRAM),
    };
    let ix = transfer_native_with_payload_ix(&accounts(&s), &args).unwrap();
    let mut expected = vec![12u8, 4, 3, 2, 1];
    expected.extend_from_slice(&1_000u64.to_le_bytes());
    expected.extend_from_slice(&[0xAB; 32]);
    expected.extend_from_slice(&[2, 0]);
    expected.extend_from_slice(&[3, 0, 0, 0, 7, 8, 9]);
    expected.push(1);
    expected.extend_from_slice(&PROGRAM);
    assert_eq!(ix.data, expected);
    assert_eq!(ix.program_id, s.token_bridge_pubkey);
    assert_eq!(ix.accounts.len(), 18);
    assert_eq!(ix.accounts[0], AccountMeta { pubkey: [0x50; 32], is_signer: true, is_writable: true });
    assert_eq!(ix.accounts[8], AccountMeta { pubkey: [0x52; 32], is_signer: true, is_writable: true });
    assert_eq!(ix.accounts[13], AccountMeta { pubkey: s.sender_key, is_signer: true, is_writable: false });
    assert_eq!(ix.accounts[17], AccountMeta { pubkey: [0x56; 32], is_signer: false, is_writable: false });
}

#[test]
fn transfer_instruction_without_program_id() {
    let s = state();
    let args = TransferNativeWithPayloadData {
        nonce: 0,
        amount: 0,
        target_address: [0; 32],
        target_chain: 0,
        payload: vec![],
        cpi_program_id: None,
    };
    let ix = transfer_native_with_payload_ix(&accounts(&s), &args).unwrap();
    assert_eq!(ix.data.len(), 1 + 4 + 8 + 32 + 2 + 4 + 1);
    assert_eq!(*ix.data.last().unwrap(), 0);
}

#[test]
fn outbound_transfer_composes_approve_and_transfer() {
    let s = state();
    let a = accounts(&s);
    let req = init_transfer_out_native(&s, &a, 1_000, 2, [0xAB; 32], 12345, &swap()).unwrap();
    assert_eq!(
        req.approve,
        ApproveRequest { source: [0x51; 32], delegate: s.authority_signer_key, owner: [0x50; 32], amount: 1_000 }
    );
    let mut expected = vec![12u8];
    expected.extend_from_slice(&12345u32.to_le_bytes());
    expected.extend_from_slice(&1_000u64.to_le_bytes());
    expected.extend_from_slice(&[0xAB; 32]);
    expected.extend_from_slice(&2u16.to_le_bytes());
    expected.extend_from_slice(&262u32.to_le_bytes());
    expected.extend_from_slice(&swap().encode());
    expected.push(1);
    expected.extend_from_slice(&PROGRAM);
    assert_eq!(req.transfer.data, expected);
}

#[test]
fn outbound_transfer_checks_accounts() {
    let s = state();
    let mut a = accounts(&s);
    a.wormhole_sequence = [0; 32];
    assert_eq!(
        init_transfer_out_native(&s, &a, 1, 2, [0; 32], 0, &swap()),
        Err(OutboundError::AccountMismatch)
    );
    let mut a = accounts(&s);
    a.token_bridge_custody = [0; 32];
    assert_eq!(
        init_transfer_out_native(&s, &a, 1, 2, [0; 32], 0, &swap()),
        Err(OutboundError::BadDerivation)
    );
    let mut a = accounts(&s);
    a.sender = [0; 32];
    assert_eq!(
        init_transfer_out_native(&s, &a, 1, 2, [0; 32], 0, &swap()),
        Err(OutboundError::BadDerivation)
    );
}
