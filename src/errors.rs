use vstd::prelude::*;

verus! {

/// Why a transaction was rejected. Every kind is a fault in the incoming
/// data; a rejected transaction leaves the account as it was.
#[non_exhaustive]
#[derive(Clone, Copy, Debug, PartialEq, Eq, Structural)]
pub enum TransactionProcessingError {
    /// A deposit or withdrawal reuses a transaction id the account already holds.
    ReusedTransactionId,
    /// A deposit or withdrawal carries no amount.
    AmountNotSpecified,
    /// A withdrawal asks for more than is available.
    NoSufficientFunds,
    /// A dispute, resolve or chargeback names a transaction the account does not hold.
    UnknownTransactionId,
    /// A dispute names a transaction that is already disputed or charged back.
    DoubleDispute,
    /// A resolve or chargeback names a transaction that is not under dispute.
    DisputeNotActive,
}

} // verus!
