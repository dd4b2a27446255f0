//! The claim ledger: at most one claim per message, and only after the
//! upstream bridge has claimed the message on its own ledger.
use crate::address::{derived_as, seeds_view, verify_derivation, Address};
use crate::bytes::{array32_eq, be_bytes, write_array32, write_be};
use vstd::prelude::*;

verus! {

/// The identity of a message: its origin chain, the emitter that sent it
/// there, and its sequence number.
#[derive(Clone, Copy, Debug, PartialEq, Eq)]
pub struct ClaimKey {
    pub emitter_chain: u16,
    pub emitter_address: [u8; 32],
    pub sequence: u64,
}

impl ClaimKey {
    /// The seeds of a claim account: the emitter, then the chain and the
    /// sequence number big-endian.
    pub open spec fn spec_seeds(self) -> Seq<Seq<u8>> {
        seq![
            self.emitter_address@,
            be_bytes(self.emitter_chain as nat, 2),
            be_bytes(self.sequence as nat, 8),
        ]
    }

    pub fn seeds(&self) -> (r: Vec<Vec<u8>>)
        ensures
            seeds_view(r@) == self.spec_seeds(),
    {
        let mut emitter: Vec<u8> = Vec::new();
        write_array32(&mut emitter, &self.emitter_address);
        let mut chain: Vec<u8> = Vec::new();
        write_be(&mut chain, self.emitter_chain as u128, 2);
        let mut sequence: Vec<u8> = Vec::new();
        write_be(&mut sequence, self.sequence as u128, 8);
        let r = vec![emitter, chain, sequence];
        assert(seeds_view(r@) =~= self.spec_seeds());
        r
    }

    /// Whether two keys name the same message.
    pub fn same(&self, other: &ClaimKey) -> (r: bool)
        ensures
            r == (*self == *other),
    {
        self.emitter_chain == other.emitter_chain && self.sequence == other.sequence
            && array32_eq(&self.emitter_address, &other.emitter_address)
    }
}

/// Why a claim is refused.
#[derive(Clone, Copy, Debug, PartialEq, Eq, Structural)]
pub enum NativeSwapError {
    /// The upstream bridge has not claimed the message yet.
    UpstreamNotYetClaimed,
    /// This ledger already holds a claim for the message.
    AlreadyClaimed,
}

/// What claiming `key` returns, given the keys that the upstream bridge has
/// claimed and those claimed here.
pub open spec fn claim_outcome(upstream: Set<ClaimKey>, local: Set<ClaimKey>, key: ClaimKey) -> Result<
    (),
    NativeSwapError,
> {
    if !upstream.contains(key) {
        Err(NativeSwapError::UpstreamNotYetClaimed)
    } else if local.contains(key) {
        Err(NativeSwapError::AlreadyClaimed)
    } else {
        Ok(())
    }
}

/// The keys claimed here after claiming `key`.
pub open spec fn claims_after(upstream: Set<ClaimKey>, local: Set<ClaimKey>, key: ClaimKey) -> Set<
    ClaimKey,
> {
    if claim_outcome(upstream, local, key) is Ok {
        local.insert(key)
    } else {
        local
    }
}

/// Replay safety: once a claim for a key has succeeded, a second claim for
/// it reports `AlreadyClaimed` and leaves the claims as they are.
pub proof fn lemma_second_claim_fails(upstream: Set<ClaimKey>, local: Set<ClaimKey>, key: ClaimKey)
    requires
        claim_outcome(upstream, local, key) is Ok,
    ensures
        claim_outcome(upstream, claims_after(upstream, local, key), key) == Err::<
            (),
            NativeSwapError,
        >(NativeSwapError::AlreadyClaimed),
        claims_after(upstream, claims_after(upstream, local, key), key) == claims_after(
            upstream,
            local,
            key,
        ),
{
}

/// Ordering: while the upstream bridge has not claimed a key, claiming it
/// here fails with `UpstreamNotYetClaimed`, whatever is claimed here.
pub proof fn lemma_upstream_claim_first(upstream: Set<ClaimKey>, local: Set<ClaimKey>, key: ClaimKey)
    requires
        !upstream.contains(key),
    ensures
        claim_outcome(upstream, local, key) == Err::<(), NativeSwapError>(
            NativeSwapError::UpstreamNotYetClaimed,
        ),
        claims_after(upstream, local, key) == local,
{
}

/// The claims of this application, beside a record of the messages that
/// the upstream bridge has claimed.
pub struct ClaimLedger {
    upstream: Vec<ClaimKey>,
    local: Vec<ClaimKey>,
}

/// Whether `key` occurs in `keys`.
fn holds_key(keys: &Vec<ClaimKey>, key: &ClaimKey) -> (r: bool)
    ensures
        r == keys@.contains(*key),
{
    for i in 0..keys.len()
        invariant
            forall|j: int| 0 <= j < i ==> keys@[j] != *key,
    {
        if keys[i].same(key) {
            return true;
        }
    }
    false
}

impl ClaimLedger {
    /// The keys that the upstream bridge has claimed.
    pub closed spec fn upstream_claims(&self) -> Set<ClaimKey> {
        self.upstream@.to_set()
    }

    /// The keys claimed here.
    pub closed spec fn local_claims(&self) -> Set<ClaimKey> {
        self.local@.to_set()
    }

    /// Each key claimed here has exactly one record.
    pub closed spec fn wf(&self) -> bool {
        self.local@.no_duplicates()
    }

    /// The number of records held for claims made here.
    pub closed spec fn record_count(&self) -> nat {
        self.local@.len()
    }

    pub proof fn lemma_one_record_per_claim(&self)
        requires
            self.wf(),
        ensures
            self.record_count() == self.local_claims().len(),
    {
        self.local@.unique_seq_to_set();
    }

    /// An empty ledger.
    pub fn new() -> (r: ClaimLedger)
        ensures
            r.wf(),
            r.upstream_claims() == Set::<ClaimKey>::empty(),
            r.local_claims() == Set::<ClaimKey>::empty(),
    {
        let r = ClaimLedger { upstream: Vec::new(), local: Vec::new() };
        assert(r.upstream@.to_set() =~= Set::<ClaimKey>::empty());
        assert(r.local@.to_set() =~= Set::<ClaimKey>::empty());
        r
    }

    /// Records that the upstream bridge has claimed `key`.
    pub fn mark_upstream_claimed(&mut self, key: ClaimKey)
        requires
            old(self).wf(),
        ensures
            final(self).wf(),
            final(self).upstream_claims() == old(self).upstream_claims().insert(key),
            final(self).local_claims() == old(self).local_claims(),
            final(self).record_count() == old(self).record_count(),
    {
        if !holds_key(&self.upstream, &key) {
            self.upstream.push(key);
            proof {
                old(self).upstream@.lemma_push_to_set_commute(key);
            }
            assert(self.upstream@.to_set() =~= old(self).upstream@.to_set().insert(key));
        } else {
            assert(self.upstream@.to_set() =~= old(self).upstream@.to_set().insert(key));
        }
    }

    /// Whether the upstream bridge has claimed `key`.
    pub fn is_upstream_claimed(&self, key: &ClaimKey) -> (r: bool)
        ensures
            r == self.upstream_claims().contains(*key),
    {
        holds_key(&self.upstream, key)
    }

    /// Whether `key` is claimed here.
    pub fn is_claimed(&self, key: &ClaimKey) -> (r: bool)
        ensures
            r == self.local_claims().contains(*key),
    {
        holds_key(&self.local, key)
    }

    /// What claiming `key` would return, without claiming it.
    pub fn check_claim(&self, key: &ClaimKey) -> (r: Result<(), NativeSwapError>)
        ensures
            r == claim_outcome(self.upstream_claims(), self.local_claims(), *key),
    {
        if !self.is_upstream_claimed(key) {
            Err(NativeSwapError::UpstreamNotYetClaimed)
        } else if self.is_claimed(key) {
            Err(NativeSwapError::AlreadyClaimed)
        } else {
            Ok(())
        }
    }

    /// Claims `key` here: it succeeds only where the upstream bridge has
    /// claimed the key and this ledger has not, and only then adds a record.
    pub fn claim(&mut self, key: ClaimKey) -> (r: Result<(), NativeSwapError>)
        requires
            old(self).wf(),
        ensures
            final(self).wf(),
            r == claim_outcome(old(self).upstream_claims(), old(self).local_claims(), key),
            final(self).upstream_claims() == old(self).upstream_claims(),
            final(self).local_claims() == claims_after(
                old(self).upstream_claims(),
                old(self).local_claims(),
                key,
            ),
            final(self).record_count() == old(self).record_count() + if r is Ok {
                1nat
            } else {
                0nat
            },
    {
        if !self.is_upstream_claimed(&key) {
            return Err(NativeSwapError::UpstreamNotYetClaimed);
        }
        if self.is_claimed(&key) {
            return Err(NativeSwapError::AlreadyClaimed);
        }
        self.local.push(key);
        proof {
            old(self).local@.lemma_push_to_set_commute(key);
        }
        assert(self.local@.to_set() =~= old(self).local@.to_set().insert(key));
        assert(self.local@.no_duplicates()) by {
            assert forall|i: int, j: int|
                0 <= i < self.local@.len() && 0 <= j < self.local@.len() && i != j implies
                self.local@[i] != self.local@[j] by {
                if i == old(self).local@.len() as int {
                    assert(old(self).local@.contains(self.local@[j]));
                } else if j == old(self).local@.len() as int {
                    assert(old(self).local@.contains(self.local@[i]));
                }
            }
        }
        Ok(())
    }
}

/// Whether `account` is the claim account of `key` under `owner`.
pub open spec fn claim_account_of(account: Address, key: ClaimKey, owner: Address) -> bool {
    derived_as(account, key.spec_seeds(), owner)
}

/// Checks that the two claim accounts of a message are the ones derived
/// from its key: the upstream one under the transfer bridge, the local one
/// under this program.
pub fn verify_claim_accounts(
    key: &ClaimKey,
    token_bridge_claim: &Address,
    native_swap_claim: &Address,
    token_bridge_id: &Address,
    program_id: &Address,
) -> (r: bool)
    ensures
        r == (claim_account_of(*token_bridge_claim, *key, *token_bridge_id) && claim_account_of(
            *native_swap_claim,
            *key,
            *program_id,
        )),
{
    let seeds = key.seeds();
    verify_derivation(token_bridge_claim, &seeds, token_bridge_id) && verify_derivation(
        native_swap_claim,
        &seeds,
        program_id,
    )
}

} // verus!
