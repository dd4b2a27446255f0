//! The inbound transfer decision: from the envelope bytes and the current
//! state to the request handed to the transfer executor.
use crate::address::{derived_as, seeds_view, verify_derivation, Address};
use crate::bytes::{be_value, lemma_pow256_facts, pow256};
use crate::codec::{
    decode_error, is_decodable, lemma_decode_encode, lemma_encode_fields, lemma_unum256_round_trip, unum256_of,
    unum256_value, CodecError, DecodedVaaParameters, ForeignAddr, Unum256,
};
use crate::envelope::{
    message_error, message_fields, MessageData, PayloadTransferWithPayload, TRANSFER_HEADER_LEN,
};
use crate::ledger::{claim_outcome, claims_after, ClaimKey, ClaimLedger, NativeSwapError};
use crate::registry::EndpointRegistry;
use crate::state::ContractState;
use vstd::prelude::*;

verus! {

/// Fractional digits of amounts as they travel between chains.
pub const REFERENCE_DECIMALS: u8 = 8;

/// Why an inbound transfer is refused.
#[derive(Clone, Copy, Debug, PartialEq, Eq, Structural)]
pub enum OrchestratorError {
    /// The envelope or the transfer in it does not parse.
    MalformedEnvelope,
    /// The sender is not the trusted endpoint of its chain.
    UnregisteredEndpoint,
    /// The custody account is not the one derived for the token.
    BadDerivation,
    /// The claim ledger refuses the message.
    Claim(NativeSwapError),
    /// The swap payload does not decode.
    Codec(CodecError),
    /// An amount does not fit the native integer width.
    ArithmeticOverflow,
}

/// The transfer that the executor is asked to make.
#[derive(Clone, Copy, Debug, PartialEq, Eq)]
pub struct ExecutionRequest {
    /// The message that is consumed.
    pub key: ClaimKey,
    /// The account the funds are released from.
    pub custody: Address,
    /// The local token.
    pub mint: Address,
    /// The token on its home chain.
    pub token_address: ForeignAddr,
    pub token_chain: u16,
    /// Who receives the net amount.
    pub recipient: ForeignAddr,
    /// Amount less fee, in local units.
    pub net_amount: u64,
    /// Fee for the relayer, in local units.
    pub fee_amount: u64,
    /// The decoded swap instruction.
    pub swap: DecodedVaaParameters,
}

/// Ten to the power `n`.
pub open spec fn pow10(n: nat) -> nat
    decreases n,
{
    if n == 0 {
        1
    } else {
        10 * pow10((n - 1) as nat)
    }
}

/// The factor that brings reference units to a token's own units.
pub open spec fn scale_factor(decimals: u8) -> nat {
    if decimals > REFERENCE_DECIMALS {
        pow10((decimals - REFERENCE_DECIMALS) as nat)
    } else {
        1
    }
}

/// The net amount and the fee in a token's own units, or
/// `ArithmeticOverflow` where the factor, a scaled amount or the
/// difference leaves the 64-bit range.
pub open spec fn net_outcome(amount: nat, fee: nat, decimals: u8) -> Result<
    (u64, u64),
    OrchestratorError,
> {
    let k = scale_factor(decimals);
    if k > u64::MAX || amount * k > u64::MAX || fee * k > u64::MAX || fee * k > amount * k {
        Err(OrchestratorError::ArithmeticOverflow)
    } else {
        Ok(((amount * k - fee * k) as u64, (fee * k) as u64))
    }
}

proof fn lemma_pow10_monotone(m: nat, n: nat)
    requires
        m <= n,
    ensures
        1 <= pow10(m) <= pow10(n),
    decreases n,
{
    if n > m {
        lemma_pow10_monotone(m, (n - 1) as nat);
    } else if n > 0 {
        lemma_pow10_monotone(0, (n - 1) as nat);
    }
}

/// Ten to the power `n`, where it fits in 64 bits.
fn checked_pow10(n: u32) -> (r: Option<u64>)
    ensures
        r matches Some(v) ==> v == pow10(n as nat),
        r is None <==> pow10(n as nat) > u64::MAX,
{
    let mut acc: u64 = 1;
    let mut i: u32 = 0;
    while i < n
        invariant
            i <= n,
            acc == pow10(i as nat),
        decreases n - i,
    {
        match acc.checked_mul(10) {
            Some(v) => {
                acc = v;
            },
            None => {
                proof {
                    lemma_pow10_monotone((i + 1) as nat, n as nat);
                }
                return None;
            },
        }
        i = i + 1;
    }
    Some(acc)
}

/// Brings an amount and a fee from reference units to a token's own units
/// and takes the fee from the amount: returns the net amount and the fee.
pub fn rescale_and_net(amount: u64, fee: u64, decimals: u8) -> (r: Result<
    (u64, u64),
    OrchestratorError,
>)
    ensures
        r == net_outcome(amount as nat, fee as nat, decimals),
{
    let mut k: u64 = 1;
    if decimals > REFERENCE_DECIMALS {
        match checked_pow10((decimals - REFERENCE_DECIMALS) as u32) {
            Some(v) => {
                k = v;
            },
            None => {
                return Err(OrchestratorError::ArithmeticOverflow);
            },
        }
    }
    let scaled_amount = match amount.checked_mul(k) {
        Some(v) => v,
        None => {
            return Err(OrchestratorError::ArithmeticOverflow);
        },
    };
    let scaled_fee = match fee.checked_mul(k) {
        Some(v) => v,
        None => {
            return Err(OrchestratorError::ArithmeticOverflow);
        },
    };
    if scaled_fee > scaled_amount {
        return Err(OrchestratorError::ArithmeticOverflow);
    }
    Ok((scaled_amount - scaled_fee, scaled_fee))
}

/// A 256-bit magnitude as a native integer, where it fits.
pub fn narrow_unum256(x: Unum256) -> (r: Option<u64>)
    ensures
        r matches Some(v) ==> v == unum256_value(x),
        r is None <==> unum256_value(x) > u64::MAX,
{
    proof {
        lemma_pow256_facts();
        let (h, m, l) = (x.0 as nat, x.1 as nat, x.2 as nat);
        assert((h > 0 || m > 0) ==> h * pow256(16) + m * pow256(8) + l > u64::MAX)
            by (nonlinear_arith)
            requires
                pow256(16) == 0x1_0000_0000_0000_0000_0000_0000_0000_0000,
                pow256(8) == 0x1_0000_0000_0000_0000,
        ;
    }
    if x.0 == 0 && x.1 == 0 {
        Some(x.2)
    } else {
        None
    }
}

/// The application payload within the bytes of a transfer.
pub open spec fn swap_bytes(transfer: Seq<u8>) -> Seq<u8> {
    transfer.subrange(TRANSFER_HEADER_LEN as int, transfer.len() as int)
}

/// The seeds of the custody account of a token: its mint.
pub open spec fn custody_seeds(mint: Address) -> Seq<Seq<u8>> {
    seq![mint@]
}

/// The amount and the fee of a transfer as numbers: the amount from the
/// transfer, the fee from the swap payload.
pub open spec fn transfer_amounts(transfer: Seq<u8>) -> (nat, nat) {
    (
        unum256_value(unum256_of(transfer.subrange(0, 32))),
        unum256_value(unum256_of(swap_bytes(transfer).subrange(65, 97))),
    )
}

/// The first check that a message fails, in the order of the steps:
/// the transfer must parse, the sender must be the trusted endpoint of its
/// chain, the custody account must be derived from the mint under this
/// program, the ledger must accept the claim, the swap payload must decode,
/// and the rescaled amounts must fit.
pub open spec fn inbound_error(
    m: MessageData,
    program_id: Address,
    endpoint: Option<ForeignAddr>,
    upstream: Set<ClaimKey>,
    local: Set<ClaimKey>,
    custody: Address,
    mint: Address,
    decimals: u8,
) -> Option<OrchestratorError> {
    let t = m.payload@;
    let amounts = transfer_amounts(t);
    if t.len() < TRANSFER_HEADER_LEN {
        Some(OrchestratorError::MalformedEnvelope)
    } else if endpoint != Some(m.emitter_address) {
        Some(OrchestratorError::UnregisteredEndpoint)
    } else if !derived_as(custody, custody_seeds(mint), program_id) {
        Some(OrchestratorError::BadDerivation)
    } else if claim_outcome(upstream, local, m.spec_key()) is Err {
        Some(OrchestratorError::Claim(claim_outcome(upstream, local, m.spec_key())->Err_0))
    } else if !is_decodable(swap_bytes(t)) {
        Some(OrchestratorError::Codec(decode_error(swap_bytes(t))))
    } else if net_outcome(amounts.0, amounts.1, decimals) is Err {
        Some(OrchestratorError::ArithmeticOverflow)
    } else {
        None
    }
}

/// Whether `req` is the request that an accepted message gives.
pub open spec fn inbound_request(
    req: ExecutionRequest,
    m: MessageData,
    custody: Address,
    mint: Address,
    decimals: u8,
) -> bool {
    let t = m.payload@;
    let amounts = transfer_amounts(t);
    let net = net_outcome(amounts.0, amounts.1, decimals)->Ok_0;
    &&& req.key == m.spec_key()
    &&& req.swap.spec_encode() == swap_bytes(t)
    &&& req.custody == custody
    &&& req.mint == mint
    &&& req.token_address@ == t.subrange(32, 64)
    &&& req.token_chain as nat == be_value(t.subrange(64, 66))
    &&& req.recipient == req.swap.recipient_address
    &&& req.net_amount == net.0
    &&& req.fee_amount == net.1
}

/// Whether `r` is what processing `m` returns.
pub open spec fn inbound_result(
    r: Result<ExecutionRequest, OrchestratorError>,
    m: MessageData,
    program_id: Address,
    endpoint: Option<ForeignAddr>,
    upstream: Set<ClaimKey>,
    local: Set<ClaimKey>,
    custody: Address,
    mint: Address,
    decimals: u8,
) -> bool {
    match r {
        Ok(req) => inbound_error(m, program_id, endpoint, upstream, local, custody, mint, decimals)
            is None && inbound_request(req, m, custody, mint, decimals),
        Err(e) => inbound_error(m, program_id, endpoint, upstream, local, custody, mint, decimals)
            == Some(e),
    }
}

/// Processes a parsed message: checks it, claims it, and composes the
/// request. Only an accepted message is claimed; a refused one leaves the
/// ledger as it was.
pub fn process_message(
    m: &MessageData,
    state: &ContractState,
    registry: &EndpointRegistry,
    ledger: &mut ClaimLedger,
    custody: &Address,
    mint: &Address,
    mint_decimals: u8,
) -> (r: Result<ExecutionRequest, OrchestratorError>)
    requires
        old(ledger).wf(),
    ensures
        final(ledger).wf(),
        inbound_result(
            r,
            *m,
            state.program_id,
            registry.endpoint_of(m.emitter_chain),
            old(ledger).upstream_claims(),
            old(ledger).local_claims(),
            *custody,
            *mint,
            mint_decimals,
        ),
        final(ledger).upstream_claims() == old(ledger).upstream_claims(),
        final(ledger).local_claims() == if r is Ok {
            old(ledger).local_claims().insert(m.spec_key())
        } else {
            old(ledger).local_claims()
        },
{
    let ghost t = m.payload@;
    let transfer = match PayloadTransferWithPayload::parse(m.payload.as_slice()) {
        Ok(t) => t,
        Err(_) => {
            return Err(OrchestratorError::MalformedEnvelope);
        },
    };
    if !registry.is_trusted(m.emitter_chain, &m.emitter_address) {
        return Err(OrchestratorError::UnregisteredEndpoint);
    }
    let seeds = vec![mint_seed(mint)];
    assert(seeds_view(seeds@) =~= custody_seeds(*mint));
    if !verify_derivation(custody, &seeds, &state.program_id) {
        return Err(OrchestratorError::BadDerivation);
    }
    let key = m.key();
    if let Err(e) = ledger.check_claim(&key) {
        return Err(OrchestratorError::Claim(e));
    }
    let swap = match DecodedVaaParameters::decode(transfer.payload.as_slice()) {
        Ok(p) => p,
        Err(e) => {
            return Err(OrchestratorError::Codec(e));
        },
    };
    proof {
        lemma_unum256_round_trip(transfer.amount);
        lemma_encode_fields(swap);
    }
    let ghost amounts = transfer_amounts(t);
    assert(amounts.0 == unum256_value(transfer.amount));
    assert(amounts.1 == unum256_value(swap.relayer_fee));
    let amount = match narrow_unum256(transfer.amount) {
        Some(v) => v,
        None => {
            proof {
                lemma_scale_factor_positive(mint_decimals);
                assert(amounts.0 * scale_factor(mint_decimals) >= amounts.0) by (nonlinear_arith)
                    requires
                        scale_factor(mint_decimals) >= 1,
                ;
            }
            return Err(OrchestratorError::ArithmeticOverflow);
        },
    };
    let fee = match narrow_unum256(swap.relayer_fee) {
        Some(v) => v,
        None => {
            proof {
                lemma_scale_factor_positive(mint_decimals);
                assert(amounts.1 * scale_factor(mint_decimals) >= amounts.1) by (nonlinear_arith)
                    requires
                        scale_factor(mint_decimals) >= 1,
                ;
            }
            return Err(OrchestratorError::ArithmeticOverflow);
        },
    };
    let (net_amount, fee_amount) = match rescale_and_net(amount, fee, mint_decimals) {
        Ok(v) => v,
        Err(e) => {
            return Err(e);
        },
    };
    match ledger.claim(key) {
        Ok(()) => {},
        Err(e) => {
            return Err(OrchestratorError::Claim(e));
        },
    }
    Ok(
        ExecutionRequest {
            key,
            custody: *custody,
            mint: *mint,
            token_address: transfer.token_address,
            token_chain: transfer.token_chain,
            recipient: swap.recipient_address,
            net_amount,
            fee_amount,
            swap,
        },
    )
}

proof fn lemma_scale_factor_positive(decimals: u8)
    ensures
        scale_factor(decimals) >= 1,
{
    if decimals > REFERENCE_DECIMALS {
        lemma_pow10_monotone(0, (decimals - REFERENCE_DECIMALS) as nat);
    }
}

/// The mint's address as a seed.
fn mint_seed(mint: &Address) -> (r: Vec<u8>)
    ensures
        r@ == mint@,
{
    let mut r: Vec<u8> = Vec::new();
    crate::bytes::write_array32(&mut r, mint);
    r
}

/// Processes an inbound envelope: parses it, then checks, claims and
/// composes as `process_message` does. An envelope that does not parse is
/// `MalformedEnvelope` and leaves the ledger as it was.
pub fn process_inbound(
    envelope: &[u8],
    state: &ContractState,
    registry: &EndpointRegistry,
    ledger: &mut ClaimLedger,
    custody: &Address,
    mint: &Address,
    mint_decimals: u8,
) -> (r: Result<ExecutionRequest, OrchestratorError>)
    requires
        old(ledger).wf(),
    ensures
        final(ledger).wf(),
        final(ledger).upstream_claims() == old(ledger).upstream_claims(),
        message_error(envelope@) is Some ==> r == Err::<ExecutionRequest, OrchestratorError>(
            OrchestratorError::MalformedEnvelope,
        ) && final(ledger).local_claims() == old(ledger).local_claims(),
        message_error(envelope@) is None ==> exists|m: MessageData|
            #[trigger] message_fields(m, envelope@) && inbound_result(
                r,
                m,
                state.program_id,
                registry.endpoint_of(m.emitter_chain),
                old(ledger).upstream_claims(),
                old(ledger).local_claims(),
                *custody,
                *mint,
                mint_decimals,
            ) && final(ledger).local_claims() == if r is Ok {
                old(ledger).local_claims().insert(m.spec_key())
            } else {
                old(ledger).local_claims()
            },
{
    let m = match MessageData::parse(envelope) {
        Ok(m) => m,
        Err(_) => {
            return Err(OrchestratorError::MalformedEnvelope);
        },
    };
    let r = process_message(&m, state, registry, ledger, custody, mint, mint_decimals);
    assert(message_fields(m, envelope@));
    r
}

/// End to end: a message from the registered endpoint of its chain, with
/// the custody account derived from the mint, claimed upstream and not yet
/// here, whose transfer carries the encoding of a valid swap payload `p`
/// and whose rescaled amounts fit, is accepted; the request it gives
/// carries `p` field for field, and the message is claimed afterwards.
pub proof fn lemma_inbound_accepted(
    m: MessageData,
    program_id: Address,
    endpoint: Option<ForeignAddr>,
    upstream: Set<ClaimKey>,
    local: Set<ClaimKey>,
    custody: Address,
    mint: Address,
    decimals: u8,
    p: DecodedVaaParameters,
    req: ExecutionRequest,
)
    requires
        m.payload@.len() >= TRANSFER_HEADER_LEN,
        swap_bytes(m.payload@) == p.spec_encode(),
        p.is_valid(),
        endpoint == Some(m.emitter_address),
        derived_as(custody, custody_seeds(mint), program_id),
        upstream.contains(m.spec_key()),
        !local.contains(m.spec_key()),
        net_outcome(
            unum256_value(unum256_of(m.payload@.subrange(0, 32))),
            unum256_value(p.relayer_fee),
            decimals,
        ) is Ok,
    ensures
        inbound_error(m, program_id, endpoint, upstream, local, custody, mint, decimals) is None,
        inbound_request(req, m, custody, mint, decimals) ==> req.swap == p,
        claims_after(upstream, local, m.spec_key()) == local.insert(m.spec_key()),
{
    lemma_encode_fields(p);
    lemma_decode_encode(p, req.swap);
}

/// Replay: a message that is accepted, once claimed, is refused with
/// `AlreadyClaimed` on every later submission.
pub proof fn lemma_inbound_replay_refused(
    m: MessageData,
    program_id: Address,
    endpoint: Option<ForeignAddr>,
    upstream: Set<ClaimKey>,
    local: Set<ClaimKey>,
    custody: Address,
    mint: Address,
    decimals: u8,
)
    requires
        inbound_error(m, program_id, endpoint, upstream, local, custody, mint, decimals) is None,
    ensures
        inbound_error(
            m,
            program_id,
            endpoint,
            upstream,
            local.insert(m.spec_key()),
            custody,
            mint,
            decimals,
        ) == Some(OrchestratorError::Claim(NativeSwapError::AlreadyClaimed)),
{
}

/// Endpoint spoofing: a message whose transfer parses but whose sender is
/// not the trusted endpoint of its chain is refused with
/// `UnregisteredEndpoint`, whatever its sequence number and the claims.
pub proof fn lemma_spoofed_endpoint_rejected(
    m: MessageData,
    program_id: Address,
    endpoint: Option<ForeignAddr>,
    upstream: Set<ClaimKey>,
    local: Set<ClaimKey>,
    custody: Address,
    mint: Address,
    decimals: u8,
)
    requires
        m.payload@.len() >= TRANSFER_HEADER_LEN,
        endpoint != Some(m.emitter_address),
    ensures
        inbound_error(m, program_id, endpoint, upstream, local, custody, mint, decimals) == Some(
            OrchestratorError::UnregisteredEndpoint,
        ),
{
}

} // verus!
