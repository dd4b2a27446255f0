use xc_swap::envelope::{MessageData, ParseError, PayloadTransferWithPayload};
use xc_swap::ledger::ClaimKey;

fn envelope(chain: u16, emitter: [u8; 32], sequence: u64, payload: &[u8]) -> Vec<u8> {
    let mut v = b"msg".to_vec();
    v.push(1);
    v.push(32);
    v.extend_from_slice(&1_650_000_000u32.to_le_bytes());
    v.extend_from_slice(&[5u8; 32]);
    v.extend_from_slice(&1_650_000_100u32.to_le_bytes());
    v.extend_from_slice(&42u32.to_le_bytes());
    v.extend_from_slice(&sequence.to_le_bytes());
    v.extend_from_slice(&chain.to_le_bytes());
    v.extend_from_slice(&emitter);
    v.extend_from_slice(&(payload.len() as u32).to_le_bytes());
    v.extend_from_slice(payload);
    v
}

#[test]
fn parse_reads_every_header_field() {
    let raw = envelope(0x0102, [0xEE; 32], 0x0102_0304_0506_0708, &[9, 8, 7]);
    let m = MessageData::parse(&raw).unwrap();
    assert_eq!(m.vaa_version, 1);
    assert_eq!(m.consistency_level, 32);
    assert_eq!(m.vaa_time, 1_650_000_000);
    assert_eq!(m.vaa_signature_account, [5u8; 32]);
    assert_eq!(m.submission_time, 1_650_000_100);
    assert_eq!(m.nonce, 42);
    assert_eq!(m.sequence, 0x0102_0304_0506_0708);
    assert_eq!(m.emitter_chain, 0x0102);
    assert_eq!(m.emitter_address, [0xEE; 32]);
    assert_eq!(m.payload, vec![9, 8, 7]);
    assert_eq!(
        m.key(),
        ClaimKey { emitter_chain: 0x0102, emitter_address: [0xEE; 32], sequence: 0x0102_0304_0506_0708 }
    );
}

#[test]
fn parse_accepts_empty_payload() {
    let raw = envelope(2, [1; 32], 1, &[]);
    assert_eq!(raw.len(), 95);
    assert_eq!(MessageData::parse(&raw).unwrap().payload, Vec::<u8>::new());
}

#[test]
fn parse_short_envelope_is_truncated() {
    let raw = envelope(2, [1; 32], 1, &[]);
    for n in 0..raw.len() {
        assert_eq!(MessageData::parse(&raw[..n]), Err(ParseError::Truncated));
    }
}

#[test]
fn parse_rejects_length_mismatch() {
    let mut raw = envelope(2, [1; 32], 1, &[1, 2, 3]);
    raw.push(4);
    assert_eq!(MessageData::parse(&raw), Err(ParseError::PayloadLengthMismatch));
    raw.truncate(raw.len() - 2);
    assert_eq!(MessageData::parse(&raw), Err(ParseError::PayloadLengthMismatch));
}

#[test]
fn transfer_parse_reads_fields_big_endian() {
    let mut t = vec![0u8; 24];
    t.extend_from_slice(&1_000_000_000u64.to_be_bytes());
    t.extend_from_slice(&[0xAA; 32]);
    t.extend_from_slice(&0x0203u16.to_be_bytes());
    t.extend_from_slice(&[0xBB; 32]);
    t.extend_from_slice(&0x0001u16.to_be_bytes());
    t.extend_from_slice(&[0xCC; 32]);
    t.extend_from_slice(&[1, 2]);
    let p = PayloadTransferWithPayload::parse(&t).unwrap();
    assert_eq!(p.amount, (0, 0, 1_000_000_000));
    assert_eq!(p.token_address, [0xAA; 32]);
    assert_eq!(p.token_chain, 0x0203);
    assert_eq!(p.to, [0xBB; 32]);
    assert_eq!(p.to_chain, 1);
    assert_eq!(p.from_address, [0xCC; 32]);
    assert_eq!(p.payload, vec![1, 2]);
}

#[test]
fn transfer_parse_short_is_truncated() {
    assert_eq!(PayloadTransferWithPayload::parse(&[0u8; 131]), Err(ParseError::Truncated));
    assert_eq!(PayloadTransferWithPayload::parse(&[0u8; 132]).unwrap().payload, Vec::<u8>::new());
}
