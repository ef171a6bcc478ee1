use vstd::prelude::*;

use crate::decimal::DecimalType;

verus! {

/// What a recorded balance change was.
#[derive(Clone, Copy, Debug, PartialEq, Eq, Structural)]
pub enum BalanceChangeEntryType {
    Deposit,
    Withdrawal,
}

/// Where a recorded balance change stands in its dispute lifecycle.
#[derive(Clone, Copy, Debug, PartialEq, Eq, Structural)]
pub enum BalanceChangeEntryStatus {
    Valid,
    ActiveDispute,
    ChargedBack,
}

/// The record an account keeps of one accepted deposit or withdrawal.
#[derive(Clone, Copy, Debug, PartialEq, Eq, Structural)]
pub struct BalanceChangeEntry {
    pub ty: BalanceChangeEntryType,
    pub amount: DecimalType,
    pub status: BalanceChangeEntryStatus,
}

/// The five kinds of incoming transaction.
#[derive(Clone, Copy, Debug, PartialEq, Eq, Structural)]
pub enum TransactionType {
    Deposit,
    Withdrawal,
    Dispute,
    Resolve,
    Chargeback,
}

/// One incoming transaction: its kind, the account it belongs to, its id,
/// and the amount that deposits and withdrawals carry.
#[derive(Clone, Copy, Debug, PartialEq, Eq)]
pub struct Transaction {
    pub ty: TransactionType,
    pub client: u16,
    pub tx: u32,
    pub amount: Option<DecimalType>,
}

} // verus!
