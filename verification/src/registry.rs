//! The provenance registry: maps each account to the issuance source that
//! first funded it, and answers ecosystem-eligibility queries.
//!
//! A record is set exactly once, at the first successful mint to the account;
//! the `Invalid` sentinel is never recorded.

use vstd::prelude::*;
use crate::PiCoinSource;
use crate::assoc::{
    assoc_find, assoc_get, distinct_keys, lemma_assoc_get_absent, lemma_assoc_get_index,
    lemma_assoc_get_push, lemma_distinct_push,
};

verus! {

/// Per-account provenance records, keyed by account identifier.
pub struct ProvenanceRegistry {
    pub records: Vec<(u64, PiCoinSource)>,
}

impl ProvenanceRegistry {
    /// Each account has at most one record, and no record holds `Invalid`.
    pub open spec fn well_formed(&self) -> bool {
        &&& distinct_keys(self.records@)
        &&& forall|i: int| 0 <= i < self.records@.len() ==> self.records@[i].1
            != PiCoinSource::Invalid
    }

    /// The source recorded for `account`, if any.
    pub open spec fn source_of(&self, account: u64) -> Option<PiCoinSource> {
        assoc_get(self.records@, account)
    }

    /// An account is ecosystem-eligible iff a record exists and its source is
    /// not `Invalid`.
    pub open spec fn is_eligible(&self, account: u64) -> bool {
        match assoc_get(self.records@, account) {
            Some(source) => source != PiCoinSource::Invalid,
            None => false,
        }
    }

    /// An empty registry: no account has a record yet.
    pub fn new() -> (r: ProvenanceRegistry)
        ensures
            r.well_formed(),
            r.records@.len() == 0,
            forall|a: u64| #[trigger] r.source_of(a) is None,
    {
        let r = ProvenanceRegistry { records: Vec::new() };
        proof {
            assert forall|a: u64| #[trigger] r.source_of(a) is None by {
                lemma_assoc_get_absent(r.records@, a);
            }
        }
        r
    }

    /// The recorded source of `account`, if any.
    pub fn lookup(&self, account: u64) -> (r: Option<PiCoinSource>)
        requires
            self.well_formed(),
        ensures
            r == self.source_of(account),
    {
        match assoc_find(&self.records, account) {
            Some(i) => {
                proof {
                    lemma_assoc_get_index(self.records@, i as int);
                }
                Some(self.records[i].1)
            },
            None => {
                proof {
                    lemma_assoc_get_absent(self.records@, account);
                }
                None
            },
        }
    }

    /// Records `source` for `account` only if no record exists yet; a second
    /// call, or a call with `Invalid`, changes nothing.
    pub fn set_if_absent(&mut self, account: u64, source: PiCoinSource)
        requires
            old(self).well_formed(),
        ensures
            final(self).well_formed(),
            source == PiCoinSource::Invalid || old(self).source_of(account) is Some
                ==> final(self).records@ == old(self).records@,
            source != PiCoinSource::Invalid && old(self).source_of(account) is None
                ==> final(self).records@ == old(self).records@.push((account, source)),
            forall|a: u64| #[trigger] final(self).source_of(a) == if a == account && source
                != PiCoinSource::Invalid && old(self).source_of(account) is None {
                Some(source)
            } else {
                old(self).source_of(a)
            },
    {
        if matches!(source, PiCoinSource::Invalid) {
            return ;
        }
        match assoc_find(&self.records, account) {
            Some(i) => {
                proof {
                    lemma_assoc_get_index(self.records@, i as int);
                }
            },
            None => {
                proof {
                    lemma_assoc_get_absent(self.records@, account);
                    lemma_distinct_push(self.records@, (account, source));
                    lemma_assoc_get_push(self.records@, (account, source));
                }
                self.records.push((account, source));
            },
        }
    }

    /// True iff `account` has a record and its source is not `Invalid`.
    pub fn is_ecosystem_eligible(&self, account: u64) -> (r: bool)
        requires
            self.well_formed(),
        ensures
            r == self.is_eligible(account),
    {
        match self.lookup(account) {
            Some(source) => !matches!(source, PiCoinSource::Invalid),
            None => false,
        }
    }
}

} // verus!
