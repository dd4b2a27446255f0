use xc_swap::codec::{CodecError, DecodedVaaParameters, SWAP_PAYLOAD_VERSION};
use xc_swap::ledger::{ClaimKey, ClaimLedger, NativeSwapError};
use xc_swap::orchestrator::{
    narrow_unum256, process_inbound, rescale_and_net, ExecutionRequest, OrchestratorError,
};
use xc_swap::registry::EndpointRegistry;
use xc_swap::state::{contract_initialize, ContractState};

const PROGRAM: [u8; 32] = [7; 32];
const WORMHOLE: [u8; 32] = [2; 32];
const TOKEN_BRIDGE: [u8; 32] = [3; 32];
const MINT: [u8; 32] = [9; 32];
const CUSTODY: [u8; 32] = [
    141, 142, 3, 21, 208, 100, 40, 152, 114, 152, 77, 35, 244, 139, 180, 159, 149, 203, 88, 240,
    73, 134, 169, 253, 215, 42, 105, 134, 145, 222, 16, 58,
];
const CHAIN: u16 = 2;
const EMITTER: [u8; 32] = [0xEE; 32];

fn state() -> ContractState {
    let mut slot: Option<ContractState> = None;
    contract_initialize(
        &mut slot,
        &PROGRAM,
        &WORMHOLE,
        &TOKEN_BRIDGE,
        254,
        "8qbHbw2BbbTHBW1sbeqakYXVKRQM8Ne7pLK7m6CVfeR",
        "CktRuQ2mttgRGkXJtyksdKHjUdc2C4TgDzyB98oEzy8",
    )
    .unwrap();
    slot.unwrap()
}

fn registry() -> EndpointRegistry {
    let mut reg = EndpointRegistry::new();
    reg.register(CHAIN, EMITTER);
    reg
}

fn swap() -> DecodedVaaParameters {
    DecodedVaaParameters {
        version: SWAP_PAYLOAD_VERSION,
        swap_amount: (0, 0, 990_000_000),
        contract_address: [0x11; 32],
        relayer_fee: (0, 0, 10_000_000),
        estimated_amount: (0, 0, 985_000_000),
        recipient_address: [0x22; 32],
        path: [[0x33; 32], [0x44; 32]],
        deadline: (0, 0, 1_700_000_000),
        pool_fee: (0, 3000),
        swap_function_type: 1,
        swap_currency_type: 2,
    }
}

fn transfer(amount: (u128, u64, u64), payload: &[u8]) -> Vec<u8> {
    let mut t = Vec::new();
    t.extend_from_slice(&amount.0.to_be_bytes());
    t.extend_from_slice(&amount.1.to_be_bytes());
    t.extend_from_slice(&amount.2.to_be_bytes());
    t.extend_from_slice(&[0xAA; 32]);
    t.extend_from_slice(&5u16.to_be_bytes());
    t.extend_from_slice(&[0xBB; 32]);
    t.extend_from_slice(&1u16.to_be_bytes());
    t.extend_from_slice(&[0xCC; 32]);
    t.extend_from_slice(payload);
    t
}

fn envelope(chain: u16, emitter: [u8; 32], sequence: u64, payload: &[u8]) -> Vec<u8> {
    let mut v = b"msg".to_vec();
    v.push(1);
    v.push(32);
    v.extend_from_slice(&1_650_000_000u32.to_le_bytes());
    v.extend_from_slice(&[5u8; 32]);
    v.extend_from_slice(&1_650_000_100u32.to_le_bytes());
    v.extend_from_slice(&42u32.to_le_bytes());
    v.extend_from_slice(&sequence.to_le_bytes());
    v.extend_from_slice(&chain.to_le_bytes());
    v.extend_from_slice(&emitter);
    v.extend_from_slice(&(payload.len() as u32).to_le_bytes());
    v.extend_from_slice(payload);
    v
}

fn key(sequence: u64) -> ClaimKey {
    ClaimKey { emitter_chain: CHAIN, emitter_address: EMITTER, sequence }
}

fn ledger_with_upstream(sequence: u64) -> ClaimLedger {
    let mut ledger = ClaimLedger::new();
    ledger.mark_upstream_claimed(key(sequence));
    ledger
}

fn good_envelope(sequence: u64) -> Vec<u8> {
    envelope(CHAIN, EMITTER, sequence, &transfer((0, 0, 1_000_000_000), &swap().encode()))
}

#[test]
fn rescale_nine_decimals() {
    assert_eq!(
        rescale_and_net(1_000_000_000, 10_000_000, 9),
        Ok(((1_000_000_000 - 10_000_000) * 10, 100_000_000))
    );
    assert_eq!(rescale_and_net(1_000_000_000, 10_000_000, 9), Ok((9_900_000_000, 100_000_000)));
}

#[test]
fn rescale_not_above_reference() {
    assert_eq!(rescale_and_net(500, 20, 8), Ok((480, 20)));
    assert_eq!(rescale_and_net(500, 20, 6), Ok((480, 20)));
    assert_eq!(rescale_and_net(500, 20, 0), Ok((480, 20)));
}

#[test]
fn rescale_overflows() {
    assert_eq!(rescale_and_net(10, 20, 8), Err(OrchestratorError::ArithmeticOverflow));
    assert_eq!(rescale_and_net(u64::MAX, 0, 9), Err(OrchestratorError::ArithmeticOverflow));
    assert_eq!(rescale_and_net(1, 0, 27), Ok((10_000_000_000_000_000_000, 0)));
    assert_eq!(rescale_and_net(2, 0, 27), Err(OrchestratorError::ArithmeticOverflow));
    assert_eq!(rescale_and_net(0, 0, 28), Err(OrchestratorError::ArithmeticOverflow));
    assert_eq!(rescale_and_net(0, 0, 255), Err(OrchestratorError::ArithmeticOverflow));
}

#[test]
fn narrow_only_low_word() {
    assert_eq!(narrow_unum256((0, 0, 77)), Some(77));
    assert_eq!(narrow_unum256((0, 1, 77)), None);
    assert_eq!(narrow_unum256((1, 0, 0)), None);
}

#[test]
fn end_to_end_then_replay() {
    let s = state();
    let reg = registry();
    let mut ledger = ledger_with_upstream(1);
    let raw = good_envelope(1);
    let req = process_inbound(&raw, &s, &reg, &mut ledger, &CUSTODY, &MINT, 9).unwrap();
    assert_eq!(
        req,
        ExecutionRequest {
            key: key(1),
            custody: CUSTODY,
            mint: MINT,
            token_address: [0xAA; 32],
            token_chain: 5,
            recipient: [0x22; 32],
            net_amount: 9_900_000_000,
            fee_amount: 100_000_000,
            swap: swap(),
        }
    );
    assert!(ledger.is_claimed(&key(1)));
    assert_eq!(
        process_inbound(&raw, &s, &reg, &mut ledger, &CUSTODY, &MINT, 9),
        Err(OrchestratorError::Claim(NativeSwapError::AlreadyClaimed))
    );
}

#[test]
fn upstream_not_claimed_is_refused() {
    let mut ledger = ClaimLedger::new();
    assert_eq!(
        process_inbound(&good_envelope(1), &state(), &registry(), &mut ledger, &CUSTODY, &MINT, 8),
        Err(OrchestratorError::Claim(NativeSwapError::UpstreamNotYetClaimed))
    );
    assert!(!ledger.is_claimed(&key(1)));
}

#[test]
fn spoofed_emitter_is_refused() {
    let mut ledger = ClaimLedger::new();
    let spoof = [0x66; 32];
    ledger.mark_upstream_claimed(ClaimKey { emitter_chain: CHAIN, emitter_address: spoof, sequence: 7 });
    let raw = envelope(CHAIN, spoof, 7, &transfer((0, 0, 1_000_000_000), &swap().encode()));
    assert_eq!(
        process_inbound(&raw, &state(), &registry(), &mut ledger, &CUSTODY, &MINT, 8),
        Err(OrchestratorError::UnregisteredEndpoint)
    );
    let unknown_chain = envelope(9, EMITTER, 1, &transfer((0, 0, 1), &swap().encode()));
    assert_eq!(
        process_inbound(&unknown_chain, &state(), &registry(), &mut ledger, &CUSTODY, &MINT, 8),
        Err(OrchestratorError::UnregisteredEndpoint)
    );
}

#[test]
fn wrong_custody_is_refused() {
    let mut ledger = ledger_with_upstream(1);
    assert_eq!(
        process_inbound(&good_envelope(1), &state(), &registry(), &mut ledger, &[0x77; 32], &MINT, 8),
        Err(OrchestratorError::BadDerivation)
    );
    assert_eq!(
        process_inbound(&good_envelope(1), &state(), &registry(), &mut ledger, &CUSTODY, &[8; 32], 8),
        Err(OrchestratorError::BadDerivation)
    );
    assert!(!ledger.is_claimed(&key(1)));
}

#[test]
fn malformed_envelopes_are_refused() {
    let mut ledger = ledger_with_upstream(1);
    let (s, reg) = (state(), registry());
    assert_eq!(
        process_inbound(&[], &s, &reg, &mut ledger, &CUSTODY, &MINT, 8),
        Err(OrchestratorError::MalformedEnvelope)
    );
    let mut raw = good_envelope(1);
    raw.push(0);
    assert_eq!(
        process_inbound(&raw, &s, &reg, &mut ledger, &CUSTODY, &MINT, 8),
        Err(OrchestratorError::MalformedEnvelope)
    );
    let short_transfer = envelope(CHAIN, EMITTER, 1, &[0u8; 131]);
    assert_eq!(
        process_inbound(&short_transfer, &s, &reg, &mut ledger, &CUSTODY, &MINT, 8),
        Err(OrchestratorError::MalformedEnvelope)
    );
    assert!(!ledger.is_claimed(&key(1)));
}

#[test]
fn codec_errors_propagate_without_claiming() {
    let mut ledger = ledger_with_upstream(1);
    let (s, reg) = (state(), registry());
    let mut payload = swap().encode();
    payload.pop();
    let raw = envelope(CHAIN, EMITTER, 1, &transfer((0, 0, 1_000), &payload));
    assert_eq!(
        process_inbound(&raw, &s, &reg, &mut ledger, &CUSTODY, &MINT, 8),
        Err(OrchestratorError::Codec(CodecError::Truncated))
    );
    let mut payload = swap().encode();
    payload[0] = 9;
    let raw = envelope(CHAIN, EMITTER, 1, &transfer((0, 0, 1_000), &payload));
    assert_eq!(
        process_inbound(&raw, &s, &reg, &mut ledger, &CUSTODY, &MINT, 8),
        Err(OrchestratorError::Codec(CodecError::UnsupportedVersion))
    );
    assert!(!ledger.is_claimed(&key(1)));
}

#[test]
fn oversized_amounts_are_refused_without_claiming() {
    let mut ledger = ledger_with_upstream(1);
    let (s, reg) = (state(), registry());
    let raw = envelope(CHAIN, EMITTER, 1, &transfer((0, 1, 0), &swap().encode()));
    assert_eq!(
        process_inbound(&raw, &s, &reg, &mut ledger, &CUSTODY, &MINT, 8),
        Err(OrchestratorError::ArithmeticOverflow)
    );
    let raw = envelope(CHAIN, EMITTER, 1, &transfer((0, 0, 1_000), &swap().encode()));
    assert_eq!(
        process_inbound(&raw, &s, &reg, &mut ledger, &CUSTODY, &MINT, 8),
        Err(OrchestratorError::ArithmeticOverflow)
    );
    assert!(!ledger.is_claimed(&key(1)));
    assert_eq!(
        process_inbound(&good_envelope(1), &s, &reg, &mut ledger, &CUSTODY, &MINT, 8)
            .map(|r| (r.net_amount, r.fee_amount)),
        Ok((990_000_000, 10_000_000))
    );
}
