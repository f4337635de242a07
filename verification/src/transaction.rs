//! The transaction record that flows through the engine.

use vstd::prelude::*;

verus! {

/// The five kinds of transaction the engine understands. The first two move
/// funds; the last three drive the dispute lifecycle of a stored deposit or
/// withdrawal.
#[derive(Clone, Copy, Debug)]
pub enum TransactionType {
    Deposit,
    Withdrawal,
    Dispute,
    Resolve,
    Chargeback,
}

/// One immutable transaction record.
///
/// Monetary amounts are fixed-point integers counting ten-thousandths of a
/// unit, so four decimal digits are kept exactly and repeated arithmetic never
/// drifts. An amount is present only for deposits and withdrawals; the dispute
/// lifecycle kinds name an earlier transaction through `tx_id` instead.
#[derive(Clone, Copy, Debug)]
pub struct Transaction {
    pub transaction_type: TransactionType,
    pub client_id: u16,
    pub tx_id: u32,
    pub amount: Option<u64>,
}

} // verus!
