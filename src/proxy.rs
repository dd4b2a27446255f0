//! The payload proxy on the other host: it receives a transfer with
//! payload addressed to itself and forwards the funds to the recipient that
//! the first 32 bytes of the application payload name.
use crate::state::ContractError;
use vstd::prelude::*;

verus! {

/// The token bridge's action code of a transfer with payload.
pub const TRANSFER_WITH_PAYLOAD: u8 = 3;

/// Marker in the first byte of a token address that names a native token.
pub const NATIVE_TOKEN_MARKER: u8 = 1;

/// The configuration of the contract on the other host: the addresses of
/// the two bridge contracts.
#[derive(Clone, Debug, PartialEq, Eq)]
pub struct ConfigInfo {
    pub token_bridge_contract: String,
    pub wormhole_contract: String,
}

/// The message that instantiates the contract on the other host.
#[derive(Clone, Debug, PartialEq, Eq)]
pub struct InstantiateMsg {
    pub token_bridge_contract: String,
    pub wormhole_contract: String,
}

/// The message that migrates the contract on the other host; it carries
/// nothing.
#[derive(Clone, Copy, Debug, PartialEq, Eq)]
pub struct MigrateMsg {}

/// Stores the configuration once: the two addresses of the message,
/// unchanged. A second instantiation is refused and changes nothing.
pub fn instantiate(slot: &mut Option<ConfigInfo>, msg: InstantiateMsg) -> (r: Result<
    (),
    ContractError,
>)
    ensures
        *old(slot) is Some ==> r == Err::<(), ContractError>(ContractError::AlreadyInitialized)
            && *final(slot) == *old(slot),
        *old(slot) is None ==> r is Ok && (*final(slot) matches Some(c)
            && c.token_bridge_contract@ == msg.token_bridge_contract@ && c.wormhole_contract@
            == msg.wormhole_contract@),
{
    if slot.is_some() {
        return Err(ContractError::AlreadyInitialized);
    }
    *slot = Some(
        ConfigInfo {
            token_bridge_contract: msg.token_bridge_contract,
            wormhole_contract: msg.wormhole_contract,
        },
    );
    Ok(())
}

/// Why a redemption is refused.
#[derive(Clone, Copy, Debug, PartialEq, Eq, Structural)]
pub enum RedeemError {
    /// The message is not a transfer with payload.
    NotTransferWithPayload,
    /// The transfer is not addressed to this contract.
    WrongRecipient,
    /// The application payload is too short to name a recipient.
    PayloadTooShort,
    /// A redemption is already under way.
    Reentrancy,
    /// The token is not native to this host.
    NotNativeToken,
    /// The fee exceeds the amount.
    FeeExceedsAmount,
    /// An amount does not fit in 128 bits.
    AmountTooHigh,
}

/// What a redemption forwards: the net amount and the fee, in the token
/// named by `denom`.
#[derive(Clone, Debug, PartialEq, Eq)]
pub struct Redemption {
    /// The recipient that the application payload names.
    pub recipient: [u8; 32],
    pub amount: u128,
    pub fee: u128,
    pub denom: Vec<u8>,
}

/// The denomination bytes of a native token address: every byte after the
/// marker that is not zero.
pub open spec fn denom_of(token_address: Seq<u8>) -> Seq<u8> {
    token_address.drop_first().filter(|b: u8| b != 0)
}

/// The first check that a redemption fails, in order: the action, the
/// transfer's recipient, the payload's recipient, a redemption under way,
/// the native marker, then the 256-bit amounts, whose high halves must be
/// zero before the fee is held against the amount.
pub open spec fn redeem_error(
    action: u8,
    addressed_to_contract: bool,
    payload: Seq<u8>,
    pending: bool,
    token_address: [u8; 32],
    amount: (u128, u128),
    fee: (u128, u128),
) -> Option<RedeemError> {
    if action != TRANSFER_WITH_PAYLOAD {
        Some(RedeemError::NotTransferWithPayload)
    } else if !addressed_to_contract {
        Some(RedeemError::WrongRecipient)
    } else if payload.len() < 32 {
        Some(RedeemError::PayloadTooShort)
    } else if pending {
        Some(RedeemError::Reentrancy)
    } else if token_address[0] != NATIVE_TOKEN_MARKER {
        Some(RedeemError::NotNativeToken)
    } else if amount.0 != 0 || fee.0 != 0 {
        Some(RedeemError::AmountTooHigh)
    } else if fee.1 > amount.1 {
        Some(RedeemError::FeeExceedsAmount)
    } else {
        None
    }
}

/// Decides a redemption from the parsed transfer: `amount` and `fee` are
/// 256-bit magnitudes as (high, low) halves, `addressed_to_contract` says
/// whether the transfer's recipient is this contract, `payload` is the
/// transfer's application payload and `pending` says whether a redemption
/// is under way.
pub fn redeem_payload(
    action: u8,
    addressed_to_contract: bool,
    payload: &[u8],
    pending: bool,
    token_address: &[u8; 32],
    amount: (u128, u128),
    fee: (u128, u128),
) -> (r: Result<Redemption, RedeemError>)
    ensures
        match r {
            Ok(red) => redeem_error(
                action,
                addressed_to_contract,
                payload@,
                pending,
                *token_address,
                amount,
                fee,
            ) is None && red.recipient@ == payload@.subrange(0, 32) && red.amount == amount.1
                - fee.1 && red.fee == fee.1 && red.denom@ == denom_of(token_address@),
            Err(e) => redeem_error(
                action,
                addressed_to_contract,
                payload@,
                pending,
                *token_address,
                amount,
                fee,
            ) == Some(e),
        },
{
    if action != TRANSFER_WITH_PAYLOAD {
        return Err(RedeemError::NotTransferWithPayload);
    }
    if !addressed_to_contract {
        return Err(RedeemError::WrongRecipient);
    }
    if payload.len() < 32 {
        return Err(RedeemError::PayloadTooShort);
    }
    let recipient = crate::bytes::read_array32(payload, 0);
    if pending {
        return Err(RedeemError::Reentrancy);
    }
    if token_address[0] != NATIVE_TOKEN_MARKER {
        return Err(RedeemError::NotNativeToken);
    }
    if amount.0 != 0 || fee.0 != 0 {
        return Err(RedeemError::AmountTooHigh);
    }
    if fee.1 > amount.1 {
        return Err(RedeemError::FeeExceedsAmount);
    }
    let mut denom: Vec<u8> = Vec::new();
    let ghost rest = token_address@.drop_first();
    for i in 1..32
        invariant
            rest == token_address@.drop_first(),
            denom@ == rest.subrange(0, i - 1).filter(|b: u8| b != 0),
    {
        proof {
            let pre = rest.subrange(0, i - 1);
            assert(rest.subrange(0, i as int) =~= pre.push(rest[i - 1]));
            pre.lemma_filter_push(rest[i - 1], |b: u8| b != 0);
        }
        if token_address[i] != 0 {
            denom.push(token_address[i]);
        }
    }
    assert(rest.subrange(0, 31) =~= rest);
    Ok(Redemption { recipient, amount: amount.1 - fee.1, fee: fee.1, denom })
}

/// Who a payout of a completed redemption goes to.
#[derive(Clone, Copy, Debug, PartialEq, Eq, Structural)]
pub enum Payee {
    /// The recipient that the payload names.
    Recipient,
    /// The relayer that submitted the message.
    Relayer,
}

/// The payouts once the bridge has released the funds: the net amount to
/// the recipient, then the fee to the relayer where there is a fee.
pub open spec fn spec_payouts(amount: u128, fee: u128) -> Seq<(Payee, u128)> {
    if fee != 0 {
        seq![(Payee::Recipient, amount), (Payee::Relayer, fee)]
    } else {
        seq![(Payee::Recipient, amount)]
    }
}

/// The payouts once the bridge has released the funds.
pub fn reply_payouts(amount: u128, fee: u128) -> (r: Vec<(Payee, u128)>)
    ensures
        r@ == spec_payouts(amount, fee),
{
    let mut r: Vec<(Payee, u128)> = Vec::new();
    r.push((Payee::Recipient, amount));
    if fee != 0 {
        r.push((Payee::Relayer, fee));
    }
    assert(r@ =~= spec_payouts(amount, fee));
    r
}

} // verus!
