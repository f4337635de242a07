//! One client's account: balances, lock flag, stored transaction history,
//! and the verified transition rules for the five transaction kinds.

use std::collections::HashMap;

use vstd::prelude::*;

use crate::transaction::{Transaction, TransactionType};

verus! {

broadcast use vstd::std_specs::hash::group_hash_axioms;

/// Why an account refused a transaction. Every variant carries the client id
/// and the transaction id the refusal concerns; none of them is fatal to a
/// run, the failing transaction simply leaves the account unchanged.
#[derive(Clone, Copy, Debug)]
pub enum OperationError {
    InsufficientBalance(u16, u32),
    InvalidData(u16, u32),
    TransactionNotFound(u16, u32),
    DisputeAlreadyUnderDispute(u16, u32),
    ResolveNotUnderDispute(u16, u32),
    ChargebackNotUnderDispute(u16, u32),
    InvalidTransactionForDispute(u16, u32),
    InvalidTransactionForChargeback(u16, u32),
}

/// The mathematical image of an account: balances in fixed-point units, the
/// lock flag, and the stored deposit/withdrawal history keyed by transaction
/// id, each entry carrying a flag that is true while the entry is under
/// dispute.
#[verifier::ext_equal]
pub struct AccountModel {
    pub client_id: u16,
    pub held: u64,
    pub total: u64,
    pub locked: bool,
    pub txs: Map<u32, (bool, Transaction)>,
}

/// The state of a newly created account: zero balances, unlocked, no history.
pub open spec fn fresh_model(client_id: u16) -> AccountModel {
    AccountModel { client_id, held: 0, total: 0, locked: false, txs: Map::empty() }
}

/// Every stored entry carries an amount. Only deposits and withdrawals are
/// ever stored, and both are refused before storage when the amount is
/// missing, so the amount of a stored entry can always be read.
pub open spec fn model_wf(m: AccountModel) -> bool {
    forall|k: u32| #[trigger] m.txs.contains_key(k) ==> m.txs[k].1.amount is Some
}

/// The spendable balance as reported: the whole total, floored to zero when
/// the held amount exceeds it. The floor is a defensive display rule; held can
/// exceed total only through a chargeback that leaves its dispute flag set.
pub open spec fn available_model(m: AccountModel) -> u64 {
    if m.total < m.held {
        0
    } else {
        m.total
    }
}

/// Effect of a deposit: requires an amount, adds it to the total, and stores
/// the record under its transaction id, overwriting any earlier entry with the
/// same id. It never fails for any other reason, locked accounts included.
pub open spec fn deposit_model(m: AccountModel, t: Transaction) -> (AccountModel, Result<
    (),
    OperationError,
>) {
    match t.amount {
        Some(a) => (
            AccountModel {
                total: (m.total + a) as u64,
                txs: m.txs.insert(t.tx_id, (false, t)),
                ..m
            },
            Ok(()),
        ),
        None => (m, Err(OperationError::InvalidData(t.client_id, t.tx_id))),
    }
}

/// Effect of a withdrawal: requires an amount, fails without any state change
/// when it exceeds the current total, and otherwise subtracts it from the
/// total and stores the record under its transaction id.
pub open spec fn withdraw_model(m: AccountModel, t: Transaction) -> (AccountModel, Result<
    (),
    OperationError,
>) {
    match t.amount {
        Some(a) => if m.total < a {
            (m, Err(OperationError::InsufficientBalance(t.client_id, t.tx_id)))
        } else {
            (
                AccountModel {
                    total: (m.total - a) as u64,
                    txs: m.txs.insert(t.tx_id, (false, t)),
                    ..m
                },
                Ok(()),
            )
        },
        None => (m, Err(OperationError::InvalidData(t.client_id, t.tx_id))),
    }
}

/// Effect of a dispute: the named transaction must be stored and not already
/// under dispute; its amount moves into held (total is untouched) and its
/// entry is flagged. Any stored kind may be disputed.
pub open spec fn dispute_model(m: AccountModel, t: Transaction) -> (AccountModel, Result<
    (),
    OperationError,
>) {
    if !m.txs.contains_key(t.tx_id) {
        (m, Err(OperationError::TransactionNotFound(t.client_id, t.tx_id)))
    } else {
        let (under_dispute, stored) = m.txs[t.tx_id];
        if under_dispute {
            (m, Err(OperationError::DisputeAlreadyUnderDispute(stored.client_id, stored.tx_id)))
        } else {
            (
                AccountModel {
                    held: (m.held + stored.amount->0) as u64,
                    txs: m.txs.insert(t.tx_id, (true, stored)),
                    ..m
                },
                Ok(()),
            )
        }
    }
}

/// Effect of a resolve: the named transaction must be stored and under
/// dispute. A disputed deposit releases its hold (total keeps the funds); a
/// disputed withdrawal releases its hold and returns the funds to the total.
/// Any other stored kind is refused defensively. The dispute flag is cleared
/// on success.
pub open spec fn resolve_model(m: AccountModel, t: Transaction) -> (AccountModel, Result<
    (),
    OperationError,
>) {
    if !m.txs.contains_key(t.tx_id) {
        (m, Err(OperationError::TransactionNotFound(t.client_id, t.tx_id)))
    } else {
        let (under_dispute, stored) = m.txs[t.tx_id];
        if !under_dispute {
            (m, Err(OperationError::ResolveNotUnderDispute(stored.client_id, stored.tx_id)))
        } else {
            let a = stored.amount->0;
            match stored.transaction_type {
                TransactionType::Deposit => (
                    AccountModel {
                        held: (m.held - a) as u64,
                        txs: m.txs.insert(t.tx_id, (false, stored)),
                        ..m
                    },
                    Ok(()),
                ),
                TransactionType::Withdrawal => (
                    AccountModel {
                        held: (m.held - a) as u64,
                        total: (m.total + a) as u64,
                        txs: m.txs.insert(t.tx_id, (false, stored)),
                        ..m
                    },
                    Ok(()),
                ),
                _ => (
                    m,
                    Err(
                        OperationError::InvalidTransactionForDispute(
                            stored.client_id,
                            stored.tx_id,
                        ),
                    ),
                ),
            }
        }
    }
}

/// Effect of a chargeback: the named transaction must be stored and under
/// dispute, and only a disputed deposit may be charged back; its amount leaves
/// both held and total and the account locks permanently. A disputed
/// withdrawal is refused, since those funds already left the account. The
/// dispute flag of the charged-back entry is deliberately left set, matching
/// the engine's observable behavior; the lock makes the asymmetry inert only
/// for readers of the flag, not for later lifecycle transactions.
pub open spec fn chargeback_model(m: AccountModel, t: Transaction) -> (AccountModel, Result<
    (),
    OperationError,
>) {
    if !m.txs.contains_key(t.tx_id) {
        (m, Err(OperationError::TransactionNotFound(t.client_id, t.tx_id)))
    } else {
        let (under_dispute, stored) = m.txs[t.tx_id];
        if !under_dispute {
            (m, Err(OperationError::ChargebackNotUnderDispute(stored.client_id, stored.tx_id)))
        } else {
            let a = stored.amount->0;
            match stored.transaction_type {
                TransactionType::Deposit => (
                    AccountModel {
                        held: (m.held - a) as u64,
                        total: (m.total - a) as u64,
                        locked: true,
                        ..m
                    },
                    Ok(()),
                ),
                _ => (
                    m,
                    Err(
                        OperationError::InvalidTransactionForChargeback(
                            stored.client_id,
                            stored.tx_id,
                        ),
                    ),
                ),
            }
        }
    }
}

/// The full transition relation of one account: the state after applying one
/// transaction, and the outcome returned for it.
pub open spec fn apply_model(m: AccountModel, t: Transaction) -> (AccountModel, Result<
    (),
    OperationError,
>) {
    match t.transaction_type {
        TransactionType::Deposit => deposit_model(m, t),
        TransactionType::Withdrawal => withdraw_model(m, t),
        TransactionType::Dispute => dispute_model(m, t),
        TransactionType::Resolve => resolve_model(m, t),
        TransactionType::Chargeback => chargeback_model(m, t),
    }
}

/// The arithmetic of `apply_model` stays inside `u64`: the one precondition of
/// the verified handlers. It can fail only on extreme balances, or on dispute
/// lifecycles replayed against an entry whose hold was already taken away by a
/// chargeback.
pub open spec fn apply_fits(m: AccountModel, t: Transaction) -> bool {
    match t.transaction_type {
        TransactionType::Deposit => t.amount matches Some(a) ==> m.total + a <= u64::MAX,
        TransactionType::Withdrawal => true,
        TransactionType::Dispute => (m.txs.contains_key(t.tx_id) && !m.txs[t.tx_id].0) ==> m.held
            + m.txs[t.tx_id].1.amount->0 <= u64::MAX,
        TransactionType::Resolve => (m.txs.contains_key(t.tx_id) && m.txs[t.tx_id].0) ==> {
            let a = m.txs[t.tx_id].1.amount->0;
            match m.txs[t.tx_id].1.transaction_type {
                TransactionType::Deposit => m.held >= a,
                TransactionType::Withdrawal => m.held >= a && m.total + a <= u64::MAX,
                _ => true,
            }
        },
        TransactionType::Chargeback => (m.txs.contains_key(t.tx_id) && m.txs[t.tx_id].0) ==> {
            let a = m.txs[t.tx_id].1.amount->0;
            match m.txs[t.tx_id].1.transaction_type {
                TransactionType::Deposit => m.held >= a && m.total >= a,
                _ => true,
            }
        },
    }
}

/// One client's account. Balances are fixed-point units of one ten-thousandth;
/// `transactions` stores every applied deposit and withdrawal under its
/// transaction id together with its dispute flag.
pub struct Account {
    client_id: u16,
    held: u64,
    total: u64,
    locked: bool,
    transactions: HashMap<u32, (bool, Transaction)>,
}

impl View for Account {
    type V = AccountModel;

    closed spec fn view(&self) -> AccountModel {
        AccountModel {
            client_id: self.client_id,
            held: self.held,
            total: self.total,
            locked: self.locked,
            txs: self.transactions@,
        }
    }
}

impl Account {
    /// The account's stored history is well formed (see `model_wf`).
    pub open spec fn wf(self) -> bool {
        model_wf(self@)
    }

    /// A new zero-balance, unlocked account for one client.
    pub fn new(client_id: u16) -> (account: Account)
        ensures
            account@ == fresh_model(client_id),
            account.wf(),
    {
        let account = Account {
            client_id,
            held: 0,
            total: 0,
            locked: false,
            transactions: HashMap::new(),
        };
        account
    }

    /// Applies one transaction, dispatching on its kind. The account moves to
    /// exactly the state `apply_model` describes and the outcome is the one
    /// `apply_model` returns.
    pub fn handle(&mut self, transaction: Transaction) -> (r: Result<(), OperationError>)
        requires
            old(self).wf(),
            apply_fits(old(self)@, transaction),
        ensures
            final(self).wf(),
            final(self)@ == apply_model(old(self)@, transaction).0,
            r == apply_model(old(self)@, transaction).1,
    {
        match transaction.transaction_type {
            TransactionType::Deposit => self.deposit(transaction),
            TransactionType::Withdrawal => self.withdraw(transaction),
            TransactionType::Dispute => self.dispute(transaction),
            TransactionType::Resolve => self.resolve(transaction),
            TransactionType::Chargeback => self.chargeback(transaction),
        }
    }

    fn deposit(&mut self, transaction: Transaction) -> (r: Result<(), OperationError>)
        requires
            old(self).wf(),
            transaction.transaction_type is Deposit,
            apply_fits(old(self)@, transaction),
        ensures
            final(self).wf(),
            final(self)@ == deposit_model(old(self)@, transaction).0,
            r == deposit_model(old(self)@, transaction).1,
    {
        match transaction.amount {
            Some(amount) => {
                self.total = self.total + amount;
                self.transactions.insert(transaction.tx_id, (false, transaction));
                Ok(())
            },
            None => Err(OperationError::InvalidData(transaction.client_id, transaction.tx_id)),
        }
    }

    fn withdraw(&mut self, transaction: Transaction) -> (r: Result<(), OperationError>)
        requires
            old(self).wf(),
            transaction.transaction_type is Withdrawal,
        ensures
            final(self).wf(),
            final(self)@ == withdraw_model(old(self)@, transaction).0,
            r == withdraw_model(old(self)@, transaction).1,
    {
        match transaction.amount {
            Some(amount) => {
                if self.total < amount {
                    return Err(
                        OperationError::InsufficientBalance(
                            transaction.client_id,
                            transaction.tx_id,
                        ),
                    );
                }
                self.total = self.total - amount;
                self.transactions.insert(transaction.tx_id, (false, transaction));
                Ok(())
            },
            None => Err(OperationError::InvalidData(transaction.client_id, transaction.tx_id)),
        }
    }

    fn dispute(&mut self, transaction: Transaction) -> (r: Result<(), OperationError>)
        requires
            old(self).wf(),
            transaction.transaction_type is Dispute,
            apply_fits(old(self)@, transaction),
        ensures
            final(self).wf(),
            final(self)@ == dispute_model(old(self)@, transaction).0,
            r == dispute_model(old(self)@, transaction).1,
    {
        let entry: Option<(bool, Transaction)> = match self.transactions.get(&transaction.tx_id) {
            Some(p) => Some(*p),
            None => None,
        };
        match entry {
            Some((under_dispute, stored)) => {
                if under_dispute {
                    return Err(
                        OperationError::DisputeAlreadyUnderDispute(stored.client_id, stored.tx_id),
                    );
                }
                let amount_to_dispute: u64 = stored.amount.unwrap();
                self.held = self.held + amount_to_dispute;
                self.transactions.insert(transaction.tx_id, (true, stored));
                Ok(())
            },
            None => Err(
                OperationError::TransactionNotFound(transaction.client_id, transaction.tx_id),
            ),
        }
    }

    fn resolve(&mut self, transaction: Transaction) -> (r: Result<(), OperationError>)
        requires
            old(self).wf(),
            transaction.transaction_type is Resolve,
            apply_fits(old(self)@, transaction),
        ensures
            final(self).wf(),
            final(self)@ == resolve_model(old(self)@, transaction).0,
            r == resolve_model(old(self)@, transaction).1,
    {
        let entry: Option<(bool, Transaction)> = match self.transactions.get(&transaction.tx_id) {
            Some(p) => Some(*p),
            None => None,
        };
        match entry {
            Some((under_dispute, stored)) => {
                if !under_dispute {
                    return Err(
                        OperationError::ResolveNotUnderDispute(stored.client_id, stored.tx_id),
                    );
                }
                let amount_to_resolve: u64 = stored.amount.unwrap();
                match stored.transaction_type {
                    TransactionType::Deposit => {
                        self.held = self.held - amount_to_resolve;
                    },
                    TransactionType::Withdrawal => {
                        self.held = self.held - amount_to_resolve;
                        self.total = self.total + amount_to_resolve;
                    },
                    _ => {
                        return Err(
                            OperationError::InvalidTransactionForDispute(
                                stored.client_id,
                                stored.tx_id,
                            ),
                        );
                    },
                }
                self.transactions.insert(transaction.tx_id, (false, stored));
                Ok(())
            },
            None => Err(
                OperationError::TransactionNotFound(transaction.client_id, transaction.tx_id),
            ),
        }
    }

    fn chargeback(&mut self, transaction: Transaction) -> (r: Result<(), OperationError>)
        requires
            old(self).wf(),
            transaction.transaction_type is Chargeback,
            apply_fits(old(self)@, transaction),
        ensures
            final(self).wf(),
            final(self)@ == chargeback_model(old(self)@, transaction).0,
            r == chargeback_model(old(self)@, transaction).1,
    {
        let entry: Option<(bool, Transaction)> = match self.transactions.get(&transaction.tx_id) {
            Some(p) => Some(*p),
            None => None,
        };
        match entry {
            Some((under_dispute, stored)) => {
                if !under_dispute {
                    return Err(
                        OperationError::ChargebackNotUnderDispute(stored.client_id, stored.tx_id),
                    );
                }
                let amount_to_chargeback: u64 = stored.amount.unwrap();
                match stored.transaction_type {
                    TransactionType::Deposit => {
                        self.held = self.held - amount_to_chargeback;
                        self.total = self.total - amount_to_chargeback;
                        self.locked = true;
                        Ok(())
                    },
                    _ => Err(
                        OperationError::InvalidTransactionForChargeback(
                            stored.client_id,
                            stored.tx_id,
                        ),
                    ),
                }
            },
            None => Err(
                OperationError::TransactionNotFound(transaction.client_id, transaction.tx_id),
            ),
        }
    }

    /// Whether `handle` may be called on this account for `transaction`
    /// without leaving `u64`: an executable test of `apply_fits`, for callers
    /// that cannot establish it any other way.
    pub fn fits(&self, transaction: &Transaction) -> (b: bool)
        requires
            self.wf(),
        ensures
            b == apply_fits(self@, *transaction),
    {
        match transaction.transaction_type {
            TransactionType::Deposit => match transaction.amount {
                Some(a) => self.total <= u64::MAX - a,
                None => true,
            },
            TransactionType::Withdrawal => true,
            TransactionType::Dispute => match self.transactions.get(&transaction.tx_id) {
                Some(p) => {
                    let (under_dispute, stored) = *p;
                    under_dispute || self.held <= u64::MAX - stored.amount.unwrap()
                },
                None => true,
            },
            TransactionType::Resolve => match self.transactions.get(&transaction.tx_id) {
                Some(p) => {
                    let (under_dispute, stored) = *p;
                    let a: u64 = stored.amount.unwrap();
                    !under_dispute || match stored.transaction_type {
                        TransactionType::Deposit => self.held >= a,
                        TransactionType::Withdrawal => self.held >= a && self.total <= u64::MAX
                            - a,
                        _ => true,
                    }
                },
                None => true,
            },
            TransactionType::Chargeback => match self.transactions.get(&transaction.tx_id) {
                Some(p) => {
                    let (under_dispute, stored) = *p;
                    let a: u64 = stored.amount.unwrap();
                    !under_dispute || match stored.transaction_type {
                        TransactionType::Deposit => self.held >= a && self.total >= a,
                        _ => true,
                    }
                },
                None => true,
            },
        }
    }

    /// The total balance, in fixed-point units.
    pub fn get_total(&self) -> (r: u64)
        ensures
            r == self@.total,
    {
        self.total
    }

    /// The held balance, in fixed-point units.
    pub fn get_held(&self) -> (r: u64)
        ensures
            r == self@.held,
    {
        self.held
    }

    /// The spendable balance as reported, in fixed-point units: the whole
    /// total, floored to zero when the held amount exceeds it.
    pub fn get_available(&self) -> (r: u64)
        ensures
            r == available_model(self@),
    {
        if self.total < self.held {
            return 0;
        }
        self.total
    }

    /// Whether a chargeback has locked this account.
    pub fn is_locked(&self) -> (r: bool)
        ensures
            r == self@.locked,
    {
        self.locked
    }
}

} // verus!
