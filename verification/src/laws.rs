//! Laws of the account transition relation, each proved once and for all:
//! how the total tracks deposits and withdrawals over whole sequences, what a
//! failed withdrawal or an unknown dispute leaves behind, what a dispute
//! round-trip restores, what a chargeback takes away, and what the lock flag
//! does and does not do.

use vstd::prelude::*;

use crate::account::{
    apply_fits, apply_model, available_model, model_wf, AccountModel, OperationError,
};
use crate::transaction::Transaction;

verus! {

/// A deposit or withdrawal that carries its amount.
pub open spec fn is_funds_move(t: Transaction) -> bool {
    (t.transaction_type is Deposit || t.transaction_type is Withdrawal) && t.amount is Some
}

/// The account model after a whole sequence of transactions, applied in
/// order.
pub open spec fn replay(m: AccountModel, s: Seq<Transaction>) -> AccountModel
    decreases s.len(),
{
    if s.len() == 0 {
        m
    } else {
        replay(apply_model(m, s[0]).0, s.drop_first())
    }
}

/// Every step of the replay stays inside `u64`.
pub open spec fn replay_fits(m: AccountModel, s: Seq<Transaction>) -> bool
    decreases s.len(),
{
    if s.len() == 0 {
        true
    } else {
        apply_fits(m, s[0]) && replay_fits(apply_model(m, s[0]).0, s.drop_first())
    }
}

/// The amounts of all deposits in the sequence, summed.
pub open spec fn deposited_sum(s: Seq<Transaction>) -> int
    decreases s.len(),
{
    if s.len() == 0 {
        0
    } else {
        (if s[0].transaction_type is Deposit {
            s[0].amount->0 as int
        } else {
            0
        }) + deposited_sum(s.drop_first())
    }
}

/// The amounts of the withdrawals that succeed along the replay from `m`: a
/// withdrawal succeeds exactly when it does not exceed the total at its turn.
pub open spec fn withdrawn_sum(m: AccountModel, s: Seq<Transaction>) -> int
    decreases s.len(),
{
    if s.len() == 0 {
        0
    } else {
        (if s[0].transaction_type is Withdrawal && s[0].amount->0 <= m.total {
            s[0].amount->0 as int
        } else {
            0
        }) + withdrawn_sum(apply_model(m, s[0]).0, s.drop_first())
    }
}

/// Over any sequence of deposits and withdrawals, the total moves by exactly
/// the deposits minus the successful withdrawals, and the held balance and
/// lock flag never move; when no hold is outstanding, the reported available
/// balance equals the total.
pub proof fn lemma_total_tracks_funds_moves(m: AccountModel, s: Seq<Transaction>)
    requires
        forall|i: int| 0 <= i < s.len() ==> is_funds_move(#[trigger] s[i]),
        replay_fits(m, s),
    ensures
        replay(m, s).total == m.total + deposited_sum(s) - withdrawn_sum(m, s),
        replay(m, s).held == m.held,
        replay(m, s).locked == m.locked,
        m.held == 0 ==> available_model(replay(m, s)) == replay(m, s).total,
    decreases s.len(),
{
    if s.len() > 0 {
        let m1 = apply_model(m, s[0]).0;
        assert forall|i: int| 0 <= i < s.drop_first().len() implies is_funds_move(
            #[trigger] s.drop_first()[i],
        ) by {
            assert(s.drop_first()[i] == s[i + 1]);
        }
        lemma_total_tracks_funds_moves(m1, s.drop_first());
    }
}

/// A withdrawal that exceeds the current total fails and changes nothing.
pub proof fn lemma_withdrawal_exceeding_total_fails(m: AccountModel, t: Transaction)
    requires
        t.transaction_type is Withdrawal,
        t.amount is Some,
        m.total < t.amount->0,
    ensures
        apply_model(m, t).0 == m,
        apply_model(m, t).1 == Err::<(), OperationError>(
            OperationError::InsufficientBalance(t.client_id, t.tx_id),
        ),
{
}

/// A dispute naming an unknown transaction id changes nothing and reports
/// that the transaction was not found.
pub proof fn lemma_dispute_unknown_tx(m: AccountModel, t: Transaction)
    requires
        t.transaction_type is Dispute,
        !m.txs.contains_key(t.tx_id),
    ensures
        apply_model(m, t).0 == m,
        apply_model(m, t).1 == Err::<(), OperationError>(
            OperationError::TransactionNotFound(t.client_id, t.tx_id),
        ),
{
}

/// Disputing a stored deposit and then resolving it both succeed, the total
/// never moves, and the resolve returns the account to exactly its state
/// before the dispute.
pub proof fn lemma_dispute_resolve_round_trip(
    m: AccountModel,
    dispute_tx: Transaction,
    resolve_tx: Transaction,
)
    requires
        model_wf(m),
        dispute_tx.transaction_type is Dispute,
        resolve_tx.transaction_type is Resolve,
        resolve_tx.tx_id == dispute_tx.tx_id,
        m.txs.contains_key(dispute_tx.tx_id),
        !m.txs[dispute_tx.tx_id].0,
        m.txs[dispute_tx.tx_id].1.transaction_type is Deposit,
        m.held + m.txs[dispute_tx.tx_id].1.amount->0 <= u64::MAX,
    ensures
        ({
            let a = m.txs[dispute_tx.tx_id].1.amount->0;
            let m1 = apply_model(m, dispute_tx).0;
            let m2 = apply_model(m1, resolve_tx).0;
            &&& apply_model(m, dispute_tx).1 == Ok::<(), OperationError>(())
            &&& apply_model(m1, resolve_tx).1 == Ok::<(), OperationError>(())
            &&& m1.total == m.total
            &&& m1.held == m.held + a
            &&& m2 == m
        }),
{
    let m1 = apply_model(m, dispute_tx).0;
    let m2 = apply_model(m1, resolve_tx).0;
    assert(m2.txs =~= m.txs);
    assert(m2 =~= m);
}

/// Disputing a stored deposit and then charging it back both succeed; the
/// chargeback takes the disputed amount out of both held and total, leaving
/// held where it stood before the dispute, and locks the account.
pub proof fn lemma_dispute_chargeback(
    m: AccountModel,
    dispute_tx: Transaction,
    chargeback_tx: Transaction,
)
    requires
        model_wf(m),
        dispute_tx.transaction_type is Dispute,
        chargeback_tx.transaction_type is Chargeback,
        chargeback_tx.tx_id == dispute_tx.tx_id,
        m.txs.contains_key(dispute_tx.tx_id),
        !m.txs[dispute_tx.tx_id].0,
        m.txs[dispute_tx.tx_id].1.transaction_type is Deposit,
        m.held + m.txs[dispute_tx.tx_id].1.amount->0 <= u64::MAX,
        m.txs[dispute_tx.tx_id].1.amount->0 <= m.total,
    ensures
        ({
            let a = m.txs[dispute_tx.tx_id].1.amount->0;
            let m1 = apply_model(m, dispute_tx).0;
            let m2 = apply_model(m1, chargeback_tx).0;
            &&& apply_model(m, dispute_tx).1 == Ok::<(), OperationError>(())
            &&& apply_model(m1, chargeback_tx).1 == Ok::<(), OperationError>(())
            &&& m2.held == m1.held - a
            &&& m2.total == m1.total - a
            &&& m2.held == m.held
            &&& m2.total == m.total - a
            &&& m2.locked
        }),
{
}

/// Once locked, an account stays locked through every later transaction.
pub proof fn lemma_lock_is_permanent(m: AccountModel, t: Transaction)
    requires
        m.locked,
    ensures
        apply_model(m, t).0.locked,
{
}

/// The lock flag gates nothing: a transaction has the same outcome, and the
/// same effect on balances and history, whether the account is locked or not.
pub proof fn lemma_lock_does_not_block(m: AccountModel, t: Transaction)
    ensures
        ({
            let locked_m = (AccountModel { locked: true, ..m });
            let unlocked_m = (AccountModel { locked: false, ..m });
            &&& apply_model(locked_m, t).1 == apply_model(unlocked_m, t).1
            &&& apply_model(locked_m, t).0.total == apply_model(unlocked_m, t).0.total
            &&& apply_model(locked_m, t).0.held == apply_model(unlocked_m, t).0.held
            &&& apply_model(locked_m, t).0.txs == apply_model(unlocked_m, t).0.txs
        }),
{
}

} // verus!
