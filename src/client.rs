use std::collections::HashMap;

use vstd::prelude::*;

use crate::decimal::{fits, DecimalType};
use crate::errors::TransactionProcessingError;
use crate::types::{
    BalanceChangeEntry, BalanceChangeEntryStatus, BalanceChangeEntryType, Transaction,
    TransactionType,
};

verus! {

broadcast use vstd::std_specs::hash::group_hash_axioms;

/// The abstract state of one account: its recorded balance changes by
/// transaction id, and its balances in ten-thousandths.
pub struct AccountState {
    pub entries: Map<u32, BalanceChangeEntry>,
    pub available: int,
    pub held: int,
    pub frozen: bool,
}

/// The state of an account that has seen no transaction.
pub open spec fn empty_account() -> AccountState {
    AccountState { entries: Map::empty(), available: 0, held: 0, frozen: false }
}

/// The total funds of an account state.
pub open spec fn total_of(s: AccountState) -> int {
    s.available + s.held
}

/// The record that an accepted deposit or withdrawal leaves behind.
pub open spec fn fresh_entry(ty: BalanceChangeEntryType, amount: DecimalType) -> BalanceChangeEntry {
    BalanceChangeEntry { ty, amount, status: BalanceChangeEntryStatus::Valid }
}

/// `e` with its status replaced.
pub open spec fn with_status(
    e: BalanceChangeEntry,
    status: BalanceChangeEntryStatus,
) -> BalanceChangeEntry {
    BalanceChangeEntry { ty: e.ty, amount: e.amount, status }
}

/// A deposit: the id must be new and the amount present; the amount is
/// recorded and made available.
pub open spec fn deposit_step(s: AccountState, t: Transaction) -> Result<
    AccountState,
    TransactionProcessingError,
> {
    if s.entries.contains_key(t.tx) {
        Err(TransactionProcessingError::ReusedTransactionId)
    } else {
        match t.amount {
            None => Err(TransactionProcessingError::AmountNotSpecified),
            Some(a) => Ok(
                AccountState {
                    entries: s.entries.insert(t.tx, fresh_entry(BalanceChangeEntryType::Deposit, a)),
                    available: s.available + a@,
                    held: s.held,
                    frozen: s.frozen,
                },
            ),
        }
    }
}

/// A withdrawal: the id must be new, the amount present and covered by the
/// available funds; the amount is recorded and taken from the available funds.
pub open spec fn withdrawal_step(s: AccountState, t: Transaction) -> Result<
    AccountState,
    TransactionProcessingError,
> {
    if s.entries.contains_key(t.tx) {
        Err(TransactionProcessingError::ReusedTransactionId)
    } else {
        match t.amount {
            None => Err(TransactionProcessingError::AmountNotSpecified),
            Some(a) => if s.available < a@ {
                Err(TransactionProcessingError::NoSufficientFunds)
            } else {
                Ok(
                    AccountState {
                        entries: s.entries.insert(
                            t.tx,
                            fresh_entry(BalanceChangeEntryType::Withdrawal, a),
                        ),
                        available: s.available - a@,
                        held: s.held,
                        frozen: s.frozen,
                    },
                )
            },
        }
    }
}

/// A dispute: the named entry must exist and be valid; its amount moves from
/// the available funds to the held funds.
pub open spec fn dispute_step(s: AccountState, t: Transaction) -> Result<
    AccountState,
    TransactionProcessingError,
> {
    if !s.entries.contains_key(t.tx) {
        Err(TransactionProcessingError::UnknownTransactionId)
    } else {
        let e = s.entries[t.tx];
        if e.status != BalanceChangeEntryStatus::Valid {
            Err(TransactionProcessingError::DoubleDispute)
        } else {
            Ok(
                AccountState {
                    entries: s.entries.insert(
                        t.tx,
                        with_status(e, BalanceChangeEntryStatus::ActiveDispute),
                    ),
                    available: s.available - e.amount@,
                    held: s.held + e.amount@,
                    frozen: s.frozen,
                },
            )
        }
    }
}

/// A resolve: the named entry must be under dispute; its amount moves back
/// from the held funds to the available funds.
pub open spec fn resolve_step(s: AccountState, t: Transaction) -> Result<
    AccountState,
    TransactionProcessingError,
> {
    if !s.entries.contains_key(t.tx) {
        Err(TransactionProcessingError::UnknownTransactionId)
    } else {
        let e = s.entries[t.tx];
        if e.status != BalanceChangeEntryStatus::ActiveDispute {
            Err(TransactionProcessingError::DisputeNotActive)
        } else {
            Ok(
                AccountState {
                    entries: s.entries.insert(t.tx, with_status(e, BalanceChangeEntryStatus::Valid)),
                    available: s.available + e.amount@,
                    held: s.held - e.amount@,
                    frozen: s.frozen,
                },
            )
        }
    }
}

/// A chargeback: the named entry must be under dispute; its amount leaves
/// the held funds and the account is frozen.
pub open spec fn chargeback_step(s: AccountState, t: Transaction) -> Result<
    AccountState,
    TransactionProcessingError,
> {
    if !s.entries.contains_key(t.tx) {
        Err(TransactionProcessingError::UnknownTransactionId)
    } else {
        let e = s.entries[t.tx];
        if e.status != BalanceChangeEntryStatus::ActiveDispute {
            Err(TransactionProcessingError::DisputeNotActive)
        } else {
            Ok(
                AccountState {
                    entries: s.entries.insert(
                        t.tx,
                        with_status(e, BalanceChangeEntryStatus::ChargedBack),
                    ),
                    available: s.available,
                    held: s.held - e.amount@,
                    frozen: true,
                },
            )
        }
    }
}

/// The outcome of one transaction, by its kind.
pub open spec fn step(s: AccountState, t: Transaction) -> Result<
    AccountState,
    TransactionProcessingError,
> {
    match t.ty {
        TransactionType::Deposit => deposit_step(s, t),
        TransactionType::Withdrawal => withdrawal_step(s, t),
        TransactionType::Dispute => dispute_step(s, t),
        TransactionType::Resolve => resolve_step(s, t),
        TransactionType::Chargeback => chargeback_step(s, t),
    }
}

/// The state after one transaction: a rejected one changes nothing.
pub open spec fn next_state(s: AccountState, t: Transaction) -> AccountState {
    match step(s, t) {
        Ok(n) => n,
        Err(_) => s,
    }
}

/// Whether the balances an outcome leads to, and their total, can be stored.
pub open spec fn within_range(r: Result<AccountState, TransactionProcessingError>) -> bool {
    match r {
        Ok(n) => fits(n.available) && fits(n.held) && fits(total_of(n)),
        Err(_) => true,
    }
}

/// A handler's call went as `expected` says: on success the account holds
/// the new state, on failure the expected error came back and the account
/// is exactly as it was.
pub open spec fn handled(
    before: Client,
    after: Client,
    r: Result<(), TransactionProcessingError>,
    expected: Result<AccountState, TransactionProcessingError>,
) -> bool {
    match expected {
        Ok(n) => r is Ok && after@ == n,
        Err(e) => r == Err::<(), TransactionProcessingError>(e) && after == before,
    }
}

/// One account: its balances, its frozen flag, and the record of each
/// accepted deposit and withdrawal by transaction id.
#[derive(Clone, Debug, PartialEq)]
pub struct Client {
    pub balance_changes: HashMap<u32, BalanceChangeEntry>,
    pub available: DecimalType,
    pub held: DecimalType,
    pub is_frozen: bool,
}

impl View for Client {
    type V = AccountState;

    open spec fn view(&self) -> AccountState {
        AccountState {
            entries: self.balance_changes@,
            available: self.available@,
            held: self.held@,
            frozen: self.is_frozen,
        }
    }
}

impl Default for Client {
    fn default() -> (r: Self)
        ensures
            r@ == empty_account(),
    {
        Client::new()
    }
}

impl Client {
    /// An account with zero balances, no records and not frozen.
    pub fn new() -> (r: Client)
        ensures
            r@ == empty_account(),
    {
        Client {
            balance_changes: HashMap::new(),
            available: DecimalType::zero(),
            held: DecimalType::zero(),
            is_frozen: false,
        }
    }

    /// The available and held funds together.
    pub fn total(&self) -> (r: DecimalType)
        requires
            fits(total_of(self@)),
        ensures
            r@ == total_of(self@),
            r@ == self.available@ + self.held@,
    {
        self.available.add(self.held)
    }

    /// Fails when `transaction` reuses an id this account already records.
    fn validate_transaction_uniqueness(&self, transaction: &Transaction) -> (r: Result<
        (),
        TransactionProcessingError,
    >)
        ensures
            r is Ok <==> !self@.entries.contains_key(transaction.tx),
            r is Err ==> r == Err::<(), TransactionProcessingError>(
                TransactionProcessingError::ReusedTransactionId,
            ),
    {
        if self.balance_changes.contains_key(&transaction.tx) {
            return Err(TransactionProcessingError::ReusedTransactionId);
        }
        Ok(())
    }

    /// Applies a deposit, or rejects it with no change.
    pub fn process_deposit(&mut self, transaction: Transaction) -> (r: Result<
        (),
        TransactionProcessingError,
    >)
        requires
            within_range(deposit_step(old(self)@, transaction)),
        ensures
            handled(*old(self), *final(self), r, deposit_step(old(self)@, transaction)),
    {
        match self.validate_transaction_uniqueness(&transaction) {
            Ok(()) => {},
            Err(e) => return Err(e),
        }
        let amount = match get_transaction_amount(&transaction) {
            Ok(a) => a,
            Err(e) => return Err(e),
        };
        self.balance_changes.insert(
            transaction.tx,
            BalanceChangeEntry {
                amount,
                status: BalanceChangeEntryStatus::Valid,
                ty: BalanceChangeEntryType::Deposit,
            },
        );
        self.available.add_assign(amount);
        Ok(())
    }

    /// Applies a withdrawal, or rejects it with no change.
    pub fn process_withdrawal(&mut self, transaction: Transaction) -> (r: Result<
        (),
        TransactionProcessingError,
    >)
        requires
            within_range(withdrawal_step(old(self)@, transaction)),
        ensures
            handled(*old(self), *final(self), r, withdrawal_step(old(self)@, transaction)),
    {
        match self.validate_transaction_uniqueness(&transaction) {
            Ok(()) => {},
            Err(e) => return Err(e),
        }
        let amount = match get_transaction_amount(&transaction) {
            Ok(a) => a,
            Err(e) => return Err(e),
        };
        if self.available.less_than(&amount) {
            return Err(TransactionProcessingError::NoSufficientFunds);
        }
        self.balance_changes.insert(
            transaction.tx,
            BalanceChangeEntry {
                amount,
                status: BalanceChangeEntryStatus::Valid,
                ty: BalanceChangeEntryType::Withdrawal,
            },
        );
        self.available.sub_assign(amount);
        Ok(())
    }

    /// Puts the named deposit or withdrawal under dispute, or rejects the
    /// dispute with no change.
    pub fn process_dispute(&mut self, transaction: Transaction) -> (r: Result<
        (),
        TransactionProcessingError,
    >)
        requires
            within_range(dispute_step(old(self)@, transaction)),
        ensures
            handled(*old(self), *final(self), r, dispute_step(old(self)@, transaction)),
    {
        let mut balance_change = match self.get_balance_change_entry(transaction.tx) {
            Ok(e) => e,
            Err(e) => return Err(e),
        };
        if balance_change.status != BalanceChangeEntryStatus::Valid {
            return Err(TransactionProcessingError::DoubleDispute);
        }
        balance_change.status = BalanceChangeEntryStatus::ActiveDispute;
        let amount = balance_change.amount;
        self.balance_changes.insert(transaction.tx, balance_change);
        self.available.sub_assign(amount);
        self.held.add_assign(amount);
        Ok(())
    }

    /// Ends the dispute on the named entry in the holder's favour, or rejects
    /// the resolve with no change.
    pub fn process_resolve(&mut self, transaction: Transaction) -> (r: Result<
        (),
        TransactionProcessingError,
    >)
        requires
            within_range(resolve_step(old(self)@, transaction)),
        ensures
            handled(*old(self), *final(self), r, resolve_step(old(self)@, transaction)),
    {
        let mut balance_change = match self.get_balance_change_entry(transaction.tx) {
            Ok(e) => e,
            Err(e) => return Err(e),
        };
        if balance_change.status != BalanceChangeEntryStatus::ActiveDispute {
            return Err(TransactionProcessingError::DisputeNotActive);
        }
        balance_change.status = BalanceChangeEntryStatus::Valid;
        let amount = balance_change.amount;
        self.balance_changes.insert(transaction.tx, balance_change);
        self.available.add_assign(amount);
        self.held.sub_assign(amount);
        Ok(())
    }

    /// Reverses the disputed entry and freezes the account, or rejects the
    /// chargeback with no change.
    pub fn process_chargeback(&mut self, transaction: Transaction) -> (r: Result<
        (),
        TransactionProcessingError,
    >)
        requires
            within_range(chargeback_step(old(self)@, transaction)),
        ensures
            handled(*old(self), *final(self), r, chargeback_step(old(self)@, transaction)),
    {
        let mut balance_change = match self.get_balance_change_entry(transaction.tx) {
            Ok(e) => e,
            Err(e) => return Err(e),
        };
        if balance_change.status != BalanceChangeEntryStatus::ActiveDispute {
            return Err(TransactionProcessingError::DisputeNotActive);
        }
        balance_change.status = BalanceChangeEntryStatus::ChargedBack;
        let amount = balance_change.amount;
        self.balance_changes.insert(transaction.tx, balance_change);
        self.held.sub_assign(amount);
        self.is_frozen = true;
        Ok(())
    }

    /// Applies one transaction by its kind. A rejected transaction is
    /// dropped and leaves the account exactly as it was; the handlers above
    /// report why.
    pub fn process_transaction(&mut self, transaction: Transaction)
        requires
            within_range(step(old(self)@, transaction)),
        ensures
            final(self)@ == next_state(old(self)@, transaction),
            step(old(self)@, transaction) is Err ==> *final(self) == *old(self),
    {
        let result = match transaction.ty {
            TransactionType::Deposit => self.process_deposit(transaction),
            TransactionType::Withdrawal => self.process_withdrawal(transaction),
            TransactionType::Dispute => self.process_dispute(transaction),
            TransactionType::Resolve => self.process_resolve(transaction),
            TransactionType::Chargeback => self.process_chargeback(transaction),
        };
        match result {
            Ok(()) => {},
            Err(_) => {},
        }
    }

    /// Whether the balances `transaction` would lead to can be stored, that
    /// is, whether `process_transaction` may be called with it.
    pub fn fits_transaction(&self, transaction: &Transaction) -> (r: bool)
        ensures
            r == within_range(step(self@, *transaction)),
    {
        match transaction.ty {
            TransactionType::Deposit | TransactionType::Withdrawal => {
                if self.balance_changes.contains_key(&transaction.tx) {
                    return true;
                }
                let amount = match transaction.amount {
                    Some(a) => a,
                    None => return true,
                };
                let available = if transaction.ty == TransactionType::Deposit {
                    self.available.checked_add(amount)
                } else if self.available.less_than(&amount) {
                    return true;
                } else {
                    self.available.checked_sub(amount)
                };
                match available {
                    Some(a) => a.checked_add(self.held).is_some(),
                    None => false,
                }
            },
            _ => {
                let entry = match self.balance_changes.get(&transaction.tx) {
                    Some(e) => *e,
                    None => return true,
                };
                let (available, held) = if transaction.ty == TransactionType::Dispute {
                    if entry.status != BalanceChangeEntryStatus::Valid {
                        return true;
                    }
                    (self.available.checked_sub(entry.amount), self.held.checked_add(entry.amount))
                } else {
                    if entry.status != BalanceChangeEntryStatus::ActiveDispute {
                        return true;
                    }
                    let available = if transaction.ty == TransactionType::Resolve {
                        self.available.checked_add(entry.amount)
                    } else {
                        Some(self.available)
                    };
                    (available, self.held.checked_sub(entry.amount))
                };
                match (available, held) {
                    (Some(a), Some(h)) => a.checked_add(h).is_some(),
                    _ => false,
                }
            },
        }
    }

    /// The record kept for transaction `tx`, or `UnknownTransactionId`.
    fn get_balance_change_entry(&self, tx: u32) -> (r: Result<
        BalanceChangeEntry,
        TransactionProcessingError,
    >)
        ensures
            self@.entries.contains_key(tx) ==> r == Ok::<
                BalanceChangeEntry,
                TransactionProcessingError,
            >(self@.entries[tx]),
            !self@.entries.contains_key(tx) ==> r == Err::<
                BalanceChangeEntry,
                TransactionProcessingError,
            >(TransactionProcessingError::UnknownTransactionId),
    {
        match self.balance_changes.get(&tx) {
            Some(e) => Ok(*e),
            None => Err(TransactionProcessingError::UnknownTransactionId),
        }
    }
}

/// The amount a transaction carries, or `AmountNotSpecified`.
fn get_transaction_amount(transaction: &Transaction) -> (r: Result<
    DecimalType,
    TransactionProcessingError,
>)
    ensures
        match transaction.amount {
            Some(a) => r == Ok::<DecimalType, TransactionProcessingError>(a),
            None => r == Err::<DecimalType, TransactionProcessingError>(
                TransactionProcessingError::AmountNotSpecified,
            ),
        },
{
    match transaction.amount {
        Some(a) => Ok(a),
        None => Err(TransactionProcessingError::AmountNotSpecified),
    }
}

} // verus!
