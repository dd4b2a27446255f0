//! The registry of trusted counterpart endpoints: for each foreign chain,
//! the one emitter whose messages are accepted from it.
use crate::bytes::array32_eq;
use crate::codec::ForeignAddr;
use vstd::prelude::*;

verus! {

/// The trusted emitter of one chain.
#[derive(Clone, Copy, Debug, PartialEq, Eq)]
pub struct Endpoint {
    pub chain: u16,
    pub emitter: ForeignAddr,
}

/// The emitter that the latest of `entries` for `chain` names.
pub open spec fn endpoint_in(entries: Seq<Endpoint>, chain: u16) -> Option<ForeignAddr>
    decreases entries.len(),
{
    if entries.len() == 0 {
        None
    } else if entries.last().chain == chain {
        Some(entries.last().emitter)
    } else {
        endpoint_in(entries.drop_last(), chain)
    }
}

/// Trusted endpoints, at most one per chain.
pub struct EndpointRegistry {
    entries: Vec<Endpoint>,
}

impl EndpointRegistry {
    /// The trusted emitter of `chain`, if one is registered.
    pub closed spec fn endpoint_of(&self, chain: u16) -> Option<ForeignAddr> {
        endpoint_in(self.entries@, chain)
    }

    /// A registry with no endpoint.
    pub fn new() -> (r: EndpointRegistry)
        ensures
            forall|c: u16| r.endpoint_of(c) is None,
    {
        EndpointRegistry { entries: Vec::new() }
    }

    /// The trusted emitter of `chain`, if one is registered.
    pub fn lookup(&self, chain: u16) -> (r: Option<ForeignAddr>)
        ensures
            r == self.endpoint_of(chain),
    {
        let mut i = self.entries.len();
        assert(self.entries@.subrange(0, i as int) =~= self.entries@);
        while i > 0
            invariant
                i <= self.entries@.len(),
                endpoint_in(self.entries@.subrange(0, i as int), chain) == endpoint_in(
                    self.entries@,
                    chain,
                ),
            decreases i,
        {
            let ghost prefix = self.entries@.subrange(0, i as int);
            assert(prefix.drop_last() =~= self.entries@.subrange(0, i - 1));
            if self.entries[i - 1].chain == chain {
                return Some(self.entries[i - 1].emitter);
            }
            i = i - 1;
        }
        None
    }

    /// Registers `emitter` for `chain`; a chain that has an endpoint keeps
    /// it, and the call returns whether the registry changed.
    pub fn register(&mut self, chain: u16, emitter: ForeignAddr) -> (r: bool)
        ensures
            r == old(self).endpoint_of(chain) is None,
            final(self).endpoint_of(chain) == if r {
                Some(emitter)
            } else {
                old(self).endpoint_of(chain)
            },
            forall|c: u16| c != chain ==> final(self).endpoint_of(c) == old(self).endpoint_of(c),
    {
        if self.lookup(chain).is_some() {
            return false;
        }
        self.entries.push(Endpoint { chain, emitter });
        assert(self.entries@.drop_last() =~= old(self).entries@);
        true
    }

    /// Whether `emitter` is the trusted endpoint of `chain`.
    pub fn is_trusted(&self, chain: u16, emitter: &ForeignAddr) -> (r: bool)
        ensures
            r == (self.endpoint_of(chain) == Some(*emitter)),
    {
        match self.lookup(chain) {
            Some(known) => array32_eq(&known, emitter),
            None => false,
        }
    }
}

} // verus!
