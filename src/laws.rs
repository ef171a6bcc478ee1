use vstd::prelude::*;

use crate::client::{next_state, step, total_of, AccountState};
use crate::errors::TransactionProcessingError;
use crate::types::{BalanceChangeEntryStatus, Transaction, TransactionType};

verus! {

/// The state reached by applying `ts` in order, starting from `s`.
pub open spec fn replay(s: AccountState, ts: Seq<Transaction>) -> AccountState
    decreases ts.len(),
{
    if ts.len() == 0 {
        s
    } else {
        replay(next_state(s, ts[0]), ts.drop_first())
    }
}

/// Whether a transaction kind creates a balance-change record.
pub open spec fn records_entry(ty: TransactionType) -> bool {
    ty == TransactionType::Deposit || ty == TransactionType::Withdrawal
}

/// Whether a transaction kind acts on an existing record.
pub open spec fn names_entry(ty: TransactionType) -> bool {
    ty == TransactionType::Dispute || ty == TransactionType::Resolve || ty
        == TransactionType::Chargeback
}

/// A transaction id, once recorded, stays recorded whatever follows: no
/// transaction removes a record.
pub proof fn lemma_recorded_ids_persist(s: AccountState, ts: Seq<Transaction>, tx: u32)
    requires
        s.entries.contains_key(tx),
    ensures
        replay(s, ts).entries.contains_key(tx),
    decreases ts.len(),
{
    if ts.len() > 0 {
        lemma_recorded_ids_persist(next_state(s, ts[0]), ts.drop_first(), tx);
    }
}

/// A deposit or withdrawal whose id the account already records is
/// rejected with `ReusedTransactionId` and changes nothing.
pub proof fn lemma_recorded_id_rejected(s: AccountState, t: Transaction)
    requires
        records_entry(t.ty),
        s.entries.contains_key(t.tx),
    ensures
        step(s, t) == Err::<AccountState, TransactionProcessingError>(
            TransactionProcessingError::ReusedTransactionId,
        ),
        next_state(s, t) == s,
{
}

/// Once a deposit or withdrawal has been accepted, a later deposit or
/// withdrawal with the same id, after any history in between, is rejected
/// with `ReusedTransactionId` and changes nothing.
pub proof fn lemma_reused_id_rejected(
    s: AccountState,
    first: Transaction,
    between: Seq<Transaction>,
    again: Transaction,
)
    requires
        records_entry(first.ty),
        step(s, first) is Ok,
        records_entry(again.ty),
        again.tx == first.tx,
    ensures
        step(replay(next_state(s, first), between), again) == Err::<
            AccountState,
            TransactionProcessingError,
        >(TransactionProcessingError::ReusedTransactionId),
        next_state(replay(next_state(s, first), between), again) == replay(
            next_state(s, first),
            between,
        ),
{
    lemma_recorded_ids_persist(next_state(s, first), between, first.tx);
    lemma_recorded_id_rejected(replay(next_state(s, first), between), again);
}

/// An accepted withdrawal leaves the available funds non-negative; one that
/// asks for more than is available (with a fresh id and an amount) is
/// rejected with `NoSufficientFunds` and changes nothing.
pub proof fn lemma_withdrawal_never_overdraws(s: AccountState, t: Transaction)
    requires
        t.ty == TransactionType::Withdrawal,
    ensures
        step(s, t) is Ok ==> next_state(s, t).available >= 0,
        !s.entries.contains_key(t.tx) && t.amount is Some && t.amount->0@ > s.available ==> {
            &&& step(s, t) == Err::<AccountState, TransactionProcessingError>(
                TransactionProcessingError::NoSufficientFunds,
            )
            &&& next_state(s, t) == s
        },
{
}

/// An accepted dispute moves exactly the entry's amount from the available
/// funds to the held funds, leaving the total unchanged.
pub proof fn lemma_dispute_moves_amount(s: AccountState, t: Transaction)
    requires
        t.ty == TransactionType::Dispute,
        step(s, t) is Ok,
    ensures
        next_state(s, t).available == s.available - s.entries[t.tx].amount@,
        next_state(s, t).held == s.held + s.entries[t.tx].amount@,
        total_of(next_state(s, t)) == total_of(s),
        next_state(s, t).entries[t.tx].status == BalanceChangeEntryStatus::ActiveDispute,
        next_state(s, t).frozen == s.frozen,
{
}

/// A resolve right after an accepted dispute of the same id is accepted and
/// restores the account exactly to its state before the dispute.
pub proof fn lemma_resolve_reverses_dispute(s: AccountState, d: Transaction, r: Transaction)
    requires
        d.ty == TransactionType::Dispute,
        r.ty == TransactionType::Resolve,
        r.tx == d.tx,
        step(s, d) is Ok,
    ensures
        step(next_state(s, d), r) is Ok,
        next_state(next_state(s, d), r) == s,
{
    let after = next_state(next_state(s, d), r);
    assert(after.entries =~= s.entries);
}

/// An accepted chargeback removes exactly the entry's amount from the held
/// funds, leaves the available funds alone and freezes the account.
pub proof fn lemma_chargeback_removes_held(s: AccountState, t: Transaction)
    requires
        t.ty == TransactionType::Chargeback,
        step(s, t) is Ok,
    ensures
        next_state(s, t).held == s.held - s.entries[t.tx].amount@,
        next_state(s, t).available == s.available,
        next_state(s, t).frozen,
        next_state(s, t).entries[t.tx].status == BalanceChangeEntryStatus::ChargedBack,
{
}

/// A frozen account stays frozen whatever follows.
pub proof fn lemma_frozen_is_permanent(s: AccountState, ts: Seq<Transaction>)
    requires
        s.frozen,
    ensures
        replay(s, ts).frozen,
    decreases ts.len(),
{
    if ts.len() > 0 {
        lemma_frozen_is_permanent(next_state(s, ts[0]), ts.drop_first());
    }
}

/// How one accepted transaction changes the total funds: a deposit adds
/// its amount, a withdrawal and a chargeback take theirs away, and a
/// dispute or resolve only moves funds between available and held.
pub proof fn lemma_total_change(s: AccountState, t: Transaction)
    requires
        step(s, t) is Ok,
    ensures
        total_of(next_state(s, t)) == total_of(s) + match t.ty {
            TransactionType::Deposit => t.amount->0@,
            TransactionType::Withdrawal => -t.amount->0@,
            TransactionType::Dispute => 0,
            TransactionType::Resolve => 0,
            TransactionType::Chargeback => -s.entries[t.tx].amount@,
        },
{
}

/// A charged-back entry stays charged back whatever follows.
pub proof fn lemma_charged_back_is_final(s: AccountState, ts: Seq<Transaction>, tx: u32)
    requires
        s.entries.contains_key(tx),
        s.entries[tx].status == BalanceChangeEntryStatus::ChargedBack,
    ensures
        replay(s, ts).entries.contains_key(tx),
        replay(s, ts).entries[tx] == s.entries[tx],
    decreases ts.len(),
{
    if ts.len() > 0 {
        lemma_charged_back_is_final(next_state(s, ts[0]), ts.drop_first(), tx);
    }
}

/// A dispute, resolve or chargeback naming an id the account does not
/// record is rejected with `UnknownTransactionId` and changes nothing.
pub proof fn lemma_unknown_id_rejected(s: AccountState, t: Transaction)
    requires
        names_entry(t.ty),
        !s.entries.contains_key(t.tx),
    ensures
        step(s, t) == Err::<AccountState, TransactionProcessingError>(
            TransactionProcessingError::UnknownTransactionId,
        ),
        next_state(s, t) == s,
{
}

} // verus!
