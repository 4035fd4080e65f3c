//! The ledger core: balances, total supply, collateral backing, and the
//! provenance-gated mint / transfer / peg-verification operations.
//!
//! Conservation invariant: the sum of all balances equals the total supply,
//! and the total supply never exceeds the locked collateral. Every operation
//! preserves it; only a successful mint changes the supply.

use vstd::prelude::*;
use crate::PiCoinSource;
use crate::errors::PiCoinError;
use crate::assoc::{
    assoc_find, assoc_get, distinct_keys, lemma_assoc_get_absent, lemma_assoc_get_index,
    lemma_assoc_get_push, lemma_assoc_get_update, lemma_distinct_push,
};
use crate::oracle::{PegOracle, MAX_PEG_INPUT, PEG_BASE_VALUE, peg_value};
use crate::registry::ProvenanceRegistry;

verus! {

/// The sum of all recorded balances.
pub open spec fn sum_balances(s: Seq<(u64, u64)>) -> int
    decreases s.len(),
{
    if s.len() == 0 {
        0
    } else {
        sum_balances(s.drop_last()) + s.last().1
    }
}

/// The balance recorded for `account`; an account without a record holds 0.
pub open spec fn balance_of(s: Seq<(u64, u64)>, account: u64) -> int {
    match assoc_get(s, account) {
        Some(v) => v as int,
        None => 0,
    }
}

/// Appending a record adds its balance to the sum.
pub proof fn lemma_sum_push(s: Seq<(u64, u64)>, entry: (u64, u64))
    ensures
        sum_balances(s.push(entry)) == sum_balances(s) + entry.1,
{
    assert(s.push(entry).drop_last() =~= s);
}

/// Overwriting the balance of record `i` moves the sum by the difference.
pub proof fn lemma_sum_update(s: Seq<(u64, u64)>, i: int, value: u64)
    requires
        0 <= i < s.len(),
    ensures
        sum_balances(s.update(i, (s[i].0, value))) == sum_balances(s) - s[i].1 + value,
    decreases s.len(),
{
    let t = s.update(i, (s[i].0, value));
    assert(s.last() == s[s.len() - 1]);
    if i == s.len() - 1 {
        assert(t.last() == (s[i].0, value));
        assert(t.drop_last() =~= s.drop_last());
    } else {
        assert(t.last() == s.last());
        assert(s.drop_last()[i] == s[i]);
        assert(t.drop_last() =~= s.drop_last().update(i, (s.drop_last()[i].0, value)));
        lemma_sum_update(s.drop_last(), i, value);
    }
}

/// The sum of balances is never negative.
pub proof fn lemma_sum_nonneg(s: Seq<(u64, u64)>)
    ensures
        sum_balances(s) >= 0,
    decreases s.len(),
{
    if s.len() > 0 {
        lemma_sum_nonneg(s.drop_last());
    }
}

/// No single balance exceeds the sum of all balances.
pub proof fn lemma_balance_le_sum(s: Seq<(u64, u64)>, account: u64)
    ensures
        0 <= balance_of(s, account) <= sum_balances(s),
    decreases s.len(),
{
    if s.len() > 0 {
        lemma_sum_nonneg(s.drop_last());
        if s.last().0 != account {
            lemma_balance_le_sum(s.drop_last(), account);
        }
    }
}

/// Two distinct accounts together hold no more than the sum of all balances.
pub proof fn lemma_two_balances_le_sum(s: Seq<(u64, u64)>, a: u64, b: u64)
    requires
        a != b,
    ensures
        balance_of(s, a) + balance_of(s, b) <= sum_balances(s),
    decreases s.len(),
{
    if s.len() > 0 {
        if s.last().0 == a {
            lemma_balance_le_sum(s.drop_last(), b);
        } else if s.last().0 == b {
            lemma_balance_le_sum(s.drop_last(), a);
        } else {
            lemma_two_balances_le_sum(s.drop_last(), a, b);
        }
    }
}

/// The authoritative ledger state, owned by the caller and passed to every
/// operation explicitly.
pub struct PiCoinData {
    /// Total issued supply; always the sum of all balances.
    pub total_supply: u64,
    /// The locked backing amount; the supply never exceeds it.
    pub collateral_locked: u64,
    /// The fixed peg reference value.
    pub peg_base_value: u64,
    /// Per-account balances, keyed by account identifier.
    pub balances: Vec<(u64, u64)>,
}

impl PiCoinData {
    /// The conservation invariant: one record per account, the balances sum
    /// to the total supply, and the supply is backed one-to-one by the
    /// locked collateral.
    pub open spec fn well_formed(&self) -> bool {
        &&& distinct_keys(self.balances@)
        &&& sum_balances(self.balances@) == self.total_supply
        &&& self.total_supply <= self.collateral_locked
        &&& self.peg_base_value <= MAX_PEG_INPUT
    }

    /// The balance held by `account`.
    pub open spec fn balance(&self, account: u64) -> int {
        balance_of(self.balances@, account)
    }
}

/// The ledger fields and balances are exactly those of `pre`.
pub open spec fn ledger_unchanged(pre: PiCoinData, post: PiCoinData) -> bool {
    &&& post.total_supply == pre.total_supply
    &&& post.collateral_locked == pre.collateral_locked
    &&& post.peg_base_value == pre.peg_base_value
    &&& post.balances@ == pre.balances@
}

/// What a peg verification returns: the peg value at the given logical time
/// for an eligible holder, and `InvalidSource` for any other account.
pub open spec fn verify_peg_result(
    data: PiCoinData,
    registry: ProvenanceRegistry,
    holder: u64,
    time: u64,
) -> Result<u64, PiCoinError> {
    if registry.is_eligible(holder) {
        Ok(peg_value(data.peg_base_value, time) as u64)
    } else {
        Err(PiCoinError::InvalidSource)
    }
}

/// The ledger core: every operation validates, then commits a whole effect
/// or fails with a typed error and leaves the state untouched.
pub struct PiCoinContract;

impl PiCoinContract {
    /// A fresh ledger: nothing issued yet, backed by `collateral_locked`,
    /// pegged to the fixed reference value.
    pub fn initialize(collateral_locked: u64) -> (r: PiCoinData)
        ensures
            r.well_formed(),
            r.total_supply == 0,
            r.collateral_locked == collateral_locked,
            r.peg_base_value == PEG_BASE_VALUE,
            r.balances@.len() == 0,
            forall|a: u64| #[trigger] r.balance(a) == 0,
    {
        let r = PiCoinData {
            total_supply: 0,
            collateral_locked,
            peg_base_value: PEG_BASE_VALUE,
            balances: Vec::new(),
        };
        proof {
            assert forall|a: u64| #[trigger] r.balance(a) == 0 by {
                lemma_assoc_get_absent(r.balances@, a);
            }
        }
        r
    }

    /// Mints `amount` to `to` from a valid issuance source, within the
    /// collateral backing, and records the provenance of the account's first
    /// mint. On any error both states are untouched.
    pub fn mint(
        data: &mut PiCoinData,
        registry: &mut ProvenanceRegistry,
        to: u64,
        amount: u64,
        source: PiCoinSource,
        authorized: bool,
    ) -> (r: Result<(), PiCoinError>)
        requires
            old(data).well_formed(),
            old(registry).well_formed(),
            amount > 0,
        ensures
            final(data).well_formed(),
            final(registry).well_formed(),
            !authorized ==> r == Err::<(), PiCoinError>(PiCoinError::Unauthorized)
                && ledger_unchanged(*old(data), *final(data)) && final(registry).records@ == old(
                registry,
            ).records@,
            authorized && source == PiCoinSource::Invalid ==> r == Err::<(), PiCoinError>(
                PiCoinError::InvalidSource,
            ) && ledger_unchanged(*old(data), *final(data)) && final(registry).records@ == old(
                registry,
            ).records@,
            authorized && source != PiCoinSource::Invalid && old(data).total_supply + amount > old(
                data,
            ).collateral_locked ==> r == Err::<(), PiCoinError>(PiCoinError::InsufficientCollateral)
                && ledger_unchanged(*old(data), *final(data)) && final(registry).records@ == old(
                registry,
            ).records@,
            authorized && source != PiCoinSource::Invalid && old(data).total_supply + amount <= old(
                data,
            ).collateral_locked ==> {
                &&& r == Ok::<(), PiCoinError>(())
                &&& final(data).total_supply == old(data).total_supply + amount
                &&& final(data).collateral_locked == old(data).collateral_locked
                &&& final(data).peg_base_value == old(data).peg_base_value
                &&& final(data).balance(to) == old(data).balance(to) + amount
                &&& forall|a: u64| a != to ==> #[trigger] final(data).balance(a) == old(
                    data,
                ).balance(a)
                &&& forall|a: u64| #[trigger] final(registry).source_of(a) == if a == to && old(
                    registry,
                ).source_of(to) is None {
                    Some(source)
                } else {
                    old(registry).source_of(a)
                }
            },
    {
        if !authorized {
            return Err(PiCoinError::Unauthorized);
        }
        if matches!(source, PiCoinSource::Invalid) {
            return Err(PiCoinError::InvalidSource);
        }
        if amount > data.collateral_locked - data.total_supply {
            return Err(PiCoinError::InsufficientCollateral);
        }
        let ghost s0 = data.balances@;
        match assoc_find(&data.balances, to) {
            Some(i) => {
                let bal = data.balances[i].1;
                proof {
                    lemma_assoc_get_index(s0, i as int);
                    lemma_balance_le_sum(s0, to);
                }
                data.balances[i] = (to, bal + amount);
                proof {
                    lemma_assoc_get_update(s0, i as int, (bal + amount) as u64);
                    lemma_sum_update(s0, i as int, (bal + amount) as u64);
                }
            },
            None => {
                proof {
                    lemma_assoc_get_absent(s0, to);
                    lemma_distinct_push(s0, (to, amount));
                    lemma_assoc_get_push(s0, (to, amount));
                    lemma_sum_push(s0, (to, amount));
                }
                data.balances.push((to, amount));
            },
        }
        data.total_supply = data.total_supply + amount;
        registry.set_if_absent(to, source);
        Ok(())
    }

    /// Transfers `amount` from `from` to `to`: the debit and the credit are
    /// visible together or not at all. `from` must hold a valid provenance
    /// record and a sufficient balance.
    pub fn transfer(
        data: &mut PiCoinData,
        registry: &ProvenanceRegistry,
        from: u64,
        to: u64,
        amount: u64,
        authorized: bool,
    ) -> (r: Result<(), PiCoinError>)
        requires
            old(data).well_formed(),
            registry.well_formed(),
            amount > 0,
        ensures
            final(data).well_formed(),
            !authorized ==> r == Err::<(), PiCoinError>(PiCoinError::Unauthorized)
                && ledger_unchanged(*old(data), *final(data)),
            authorized && !registry.is_eligible(from) ==> r == Err::<(), PiCoinError>(
                PiCoinError::InvalidSource,
            ) && ledger_unchanged(*old(data), *final(data)),
            authorized && registry.is_eligible(from) && old(data).balance(from) < amount ==> r
                == Err::<(), PiCoinError>(PiCoinError::InsufficientBalance) && ledger_unchanged(
                *old(data),
                *final(data),
            ),
            authorized && registry.is_eligible(from) && old(data).balance(from) >= amount ==> {
                &&& r == Ok::<(), PiCoinError>(())
                &&& final(data).total_supply == old(data).total_supply
                &&& final(data).collateral_locked == old(data).collateral_locked
                &&& final(data).peg_base_value == old(data).peg_base_value
                &&& forall|a: u64| #[trigger] final(data).balance(a) == old(data).balance(a) + (
                if a == to {
                    amount as int
                } else {
                    0
                }) - (if a == from {
                    amount as int
                } else {
                    0
                })
            },
    {
        if !authorized {
            return Err(PiCoinError::Unauthorized);
        }
        if !registry.is_ecosystem_eligible(from) {
            return Err(PiCoinError::InvalidSource);
        }
        let ghost s0 = data.balances@;
        let from_idx = match assoc_find(&data.balances, from) {
            Some(i) => i,
            None => {
                proof {
                    lemma_assoc_get_absent(s0, from);
                }
                return Err(PiCoinError::InsufficientBalance);
            },
        };
        let from_bal = data.balances[from_idx].1;
        proof {
            lemma_assoc_get_index(s0, from_idx as int);
        }
        if from_bal < amount {
            return Err(PiCoinError::InsufficientBalance);
        }
        data.balances[from_idx] = (from, from_bal - amount);
        let ghost s1 = data.balances@;
        proof {
            lemma_assoc_get_update(s0, from_idx as int, (from_bal - amount) as u64);
            lemma_sum_update(s0, from_idx as int, (from_bal - amount) as u64);
        }
        match assoc_find(&data.balances, to) {
            Some(j) => {
                let to_bal = data.balances[j].1;
                proof {
                    lemma_assoc_get_index(s1, j as int);
                    if from != to {
                        lemma_two_balances_le_sum(s0, from, to);
                    }
                }
                data.balances[j] = (to, to_bal + amount);
                proof {
                    lemma_assoc_get_update(s1, j as int, (to_bal + amount) as u64);
                    lemma_sum_update(s1, j as int, (to_bal + amount) as u64);
                }
            },
            None => {
                proof {
                    lemma_assoc_get_absent(s1, to);
                    lemma_distinct_push(s1, (to, amount));
                    lemma_assoc_get_push(s1, (to, amount));
                    lemma_sum_push(s1, (to, amount));
                }
                data.balances.push((to, amount));
            },
        }
        Ok(())
    }

    /// The current peg value for `holder` at logical `time`; fails with
    /// `InvalidSource` if the holder has no valid provenance record.
    pub fn verify_peg(
        data: &PiCoinData,
        registry: &ProvenanceRegistry,
        holder: u64,
        time: u64,
    ) -> (r: Result<u64, PiCoinError>)
        requires
            data.well_formed(),
            registry.well_formed(),
        ensures
            r == verify_peg_result(*data, *registry, holder, time),
    {
        if !registry.is_ecosystem_eligible(holder) {
            return Err(PiCoinError::InvalidSource);
        }
        match registry.lookup(holder) {
            Some(source) => match PegOracle::compute(data.peg_base_value, source, time) {
                Ok(v) => Ok(v),
                Err(_) => Err(PiCoinError::InvalidSource),
            },
            None => Err(PiCoinError::InvalidSource),
        }
    }

    /// The balance currently held by `account`.
    pub fn balance_of_account(data: &PiCoinData, account: u64) -> (r: u64)
        requires
            data.well_formed(),
        ensures
            r == data.balance(account),
    {
        match assoc_find(&data.balances, account) {
            Some(i) => {
                proof {
                    lemma_assoc_get_index(data.balances@, i as int);
                }
                data.balances[i].1
            },
            None => {
                proof {
                    lemma_assoc_get_absent(data.balances@, account);
                }
                0
            },
        }
    }

    /// Read-only ecosystem gateway: `account` may enter the ecosystem iff it
    /// holds a valid provenance record.
    pub fn verify_ecosystem_entry(registry: &ProvenanceRegistry, account: u64) -> (r: bool)
        requires
            registry.well_formed(),
        ensures
            r == registry.is_eligible(account),
    {
        registry.is_ecosystem_eligible(account)
    }
}

/// Conservation: in every well-formed ledger state — the state every
/// operation requires and re-establishes — the balances sum to the total
/// supply, and the total supply never exceeds the locked collateral.
pub proof fn lemma_conservation(data: PiCoinData)
    requires
        data.well_formed(),
    ensures
        sum_balances(data.balances@) == data.total_supply,
        data.total_supply <= data.collateral_locked,
{
}

/// Idempotent peg verification: two peg verifications of the same holder at
/// the same logical time against unchanged ledger and registry states return
/// the same value.
pub proof fn lemma_verify_peg_idempotent(
    data: PiCoinData,
    registry: ProvenanceRegistry,
    holder: u64,
    time: u64,
    r1: Result<u64, PiCoinError>,
    r2: Result<u64, PiCoinError>,
)
    requires
        r1 == verify_peg_result(data, registry, holder, time),
        r2 == verify_peg_result(data, registry, holder, time),
    ensures
        r1 == r2,
{
}

} // verus!
