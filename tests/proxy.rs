use xc_swap::proxy::{
    instantiate, redeem_payload, reply_payouts, ConfigInfo, InstantiateMsg, MigrateMsg, Payee,
    RedeemError, Redemption,
};
use xc_swap::state::ContractError;

fn native(denom: &[u8]) -> [u8; 32] {
    let mut a = [0u8; 32];
    a[0] = 1;
    a[32 - denom.len()..].copy_from_slice(denom);
    a
}

fn payload() -> Vec<u8> {
    let mut p = vec![0x42u8; 32];
    p.extend_from_slice(&[1, 2, 3]);
    p
}

fn msg() -> InstantiateMsg {
    InstantiateMsg {
        token_bridge_contract: "terra1tokenbridge".to_string(),
        wormhole_contract: "terra1wormhole".to_string(),
    }
}

#[test]
fn instantiate_stores_the_two_contracts() {
    let mut slot: Option<ConfigInfo> = None;
    assert_eq!(instantiate(&mut slot, msg()), Ok(()));
    let cfg = slot.unwrap();
    assert_eq!(cfg.token_bridge_contract, "terra1tokenbridge");
    assert_eq!(cfg.wormhole_contract, "terra1wormhole");
    assert_eq!(MigrateMsg {}, MigrateMsg {});
}

#[test]
fn second_instantiate_is_refused() {
    let mut slot: Option<ConfigInfo> = None;
    assert_eq!(instantiate(&mut slot, msg()), Ok(()));
    let other = InstantiateMsg { token_bridge_contract: "a".to_string(), wormhole_contract: "b".to_string() };
    assert_eq!(instantiate(&mut slot, other), Err(ContractError::AlreadyInitialized));
    assert_eq!(slot.unwrap().token_bridge_contract, "terra1tokenbridge");
}

#[test]
fn redeem_native_transfer() {
    let r = redeem_payload(3, true, &payload(), false, &native(b"uluna"), (0, 1_000), (0, 30));
    assert_eq!(
        r,
        Ok(Redemption { recipient: [0x42; 32], amount: 970, fee: 30, denom: b"uluna".to_vec() })
    );
}

#[test]
fn redeem_denom_skips_zero_bytes() {
    let mut t = native(b"uusd");
    t[5] = b'x';
    let r = redeem_payload(3, true, &payload(), false, &t, (0, 5), (0, 0)).unwrap();
    assert_eq!(r.denom, b"xuusd".to_vec());
}

#[test]
fn redeem_checks_in_order() {
    let t = native(b"uluna");
    let p = payload();
    assert_eq!(redeem_payload(1, false, &[], true, &[0; 32], (1, 0), (0, 1)), Err(RedeemError::NotTransferWithPayload));
    assert_eq!(redeem_payload(3, false, &[], true, &[0; 32], (1, 0), (0, 1)), Err(RedeemError::WrongRecipient));
    assert_eq!(redeem_payload(3, true, &[0; 31], true, &[0; 32], (1, 0), (0, 1)), Err(RedeemError::PayloadTooShort));
    assert_eq!(redeem_payload(3, true, &p, true, &[0; 32], (1, 0), (0, 1)), Err(RedeemError::Reentrancy));
    assert_eq!(redeem_payload(3, true, &p, false, &[0; 32], (1, 0), (0, 1)), Err(RedeemError::NotNativeToken));
    assert_eq!(redeem_payload(3, true, &p, false, &t, (1, 5), (0, 1)), Err(RedeemError::AmountTooHigh));
    assert_eq!(redeem_payload(3, true, &p, false, &t, (0, 5), (2, 1)), Err(RedeemError::AmountTooHigh));
    assert_eq!(redeem_payload(3, true, &p, false, &t, (0, 0), (0, 1)), Err(RedeemError::FeeExceedsAmount));
}

#[test]
fn redeem_high_word_comes_before_fee_comparison() {
    let t = native(b"uluna");
    assert_eq!(redeem_payload(3, true, &payload(), false, &t, (1, 0), (0, 1)), Err(RedeemError::AmountTooHigh));
}

#[test]
fn redeem_recipient_is_first_payload_word() {
    let mut p = vec![0u8; 40];
    p[0] = 7;
    p[31] = 9;
    p[32] = 0xFF;
    let r = redeem_payload(3, true, &p, false, &native(b"uluna"), (0, 5), (0, 0)).unwrap();
    let mut expected = [0u8; 32];
    expected[0] = 7;
    expected[31] = 9;
    assert_eq!(r.recipient, expected);
    assert!(redeem_payload(3, true, &p[..32], false, &native(b"uluna"), (0, 5), (0, 0)).is_ok());
}

#[test]
fn reply_pays_recipient_then_relayer() {
    assert_eq!(reply_payouts(970, 30), vec![(Payee::Recipient, 970), (Payee::Relayer, 30)]);
    assert_eq!(reply_payouts(970, 0), vec![(Payee::Recipient, 970)]);
}
