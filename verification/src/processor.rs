//! The registry that routes each transaction to the account of its client,
//! creating the account on first sight of a client id.

use std::collections::HashMap;

use vstd::prelude::*;

use crate::account::{apply_fits, apply_model, fresh_model, Account, AccountModel, OperationError};
use crate::transaction::Transaction;

verus! {

broadcast use vstd::std_specs::hash::group_hash_axioms;

/// All accounts of one run, keyed by client id. Accounts are created on first
/// sight of a client and never deleted; any error an account returns is handed
/// back to the caller and the run goes on.
pub struct PaymentProcessor {
    accounts: HashMap<u16, Account>,
}

impl View for PaymentProcessor {
    type V = Map<u16, Account>;

    closed spec fn view(&self) -> Map<u16, Account> {
        self.accounts@
    }
}

impl PaymentProcessor {
    /// Every account is well formed and stored under its own client id.
    pub open spec fn wf(self) -> bool {
        forall|c: u16| #[trigger] self@.contains_key(c) ==> self@[c].wf() && self@[c]@.client_id
            == c
    }

    /// The model of the account a transaction for `client_id` would reach:
    /// the stored one, or a fresh account if the client is unknown.
    pub open spec fn routed_model(self, client_id: u16) -> AccountModel {
        if self@.contains_key(client_id) {
            self@[client_id]@
        } else {
            fresh_model(client_id)
        }
    }

    /// An empty registry.
    pub fn new() -> (processor: PaymentProcessor)
        ensures
            processor@ == Map::<u16, Account>::empty(),
            processor.wf(),
    {
        PaymentProcessor { accounts: HashMap::new() }
    }

    /// Whether `process` may be called for `transaction` without leaving
    /// `u64`: an executable test of its one precondition.
    pub fn can_process(&self, transaction: &Transaction) -> (b: bool)
        requires
            self.wf(),
        ensures
            b == apply_fits(self.routed_model(transaction.client_id), *transaction),
    {
        match self.accounts.get(&transaction.client_id) {
            Some(account) => {
                proof {
                    assert(self@.contains_key(transaction.client_id) && self@[transaction.client_id]
                        == *account);
                }
                account.fits(transaction)
            },
            None => true,
        }
    }

    /// Routes one transaction: looks the client's account up, creating it
    /// first when absent, and applies the transaction to it. The routed
    /// account moves exactly as `apply_model` describes, every other account
    /// is untouched, and the account's outcome is returned for the caller to
    /// report.
    pub fn process(&mut self, transaction: Transaction) -> (r: Result<(), OperationError>)
        requires
            old(self).wf(),
            apply_fits(old(self).routed_model(transaction.client_id), transaction),
        ensures
            final(self).wf(),
            forall|c: u16| #[trigger] final(self)@.contains_key(c) <==> (old(self)@.contains_key(c)
                || c == transaction.client_id),
            forall|c: u16| c != transaction.client_id && old(self)@.contains_key(c)
                ==> final(self)@[c] == old(self)@[c],
            final(self)@.contains_key(transaction.client_id),
            final(self)@[transaction.client_id]@ == apply_model(
                old(self).routed_model(transaction.client_id),
                transaction,
            ).0,
            r == apply_model(old(self).routed_model(transaction.client_id), transaction).1,
    {
        let client_id = transaction.client_id;
        let mut account = match self.accounts.remove(&client_id) {
            Some(account) => account,
            None => Account::new(client_id),
        };
        let r = account.handle(transaction);
        self.accounts.insert(client_id, account);
        r
    }

    /// The accounts known to this run, keyed by client id, for reporting.
    pub fn get_accounts(&self) -> (accounts: &HashMap<u16, Account>)
        ensures
            accounts@ == self@,
    {
        &self.accounts
    }
}

} // verus!
