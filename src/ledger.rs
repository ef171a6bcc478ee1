use std::collections::HashMap;

use vstd::prelude::*;

use crate::client::{empty_account, next_state, step, total_of, within_range, AccountState, Client};
use crate::decimal::{fits, DecimalType};
use crate::types::Transaction;

verus! {

broadcast use vstd::std_specs::hash::group_hash_axioms;

/// The state of account `id`, or that of a fresh account if none exists yet.
pub open spec fn account_or_empty(accounts: Map<u16, AccountState>, id: u16) -> AccountState {
    if accounts.contains_key(id) {
        accounts[id]
    } else {
        empty_account()
    }
}

/// What is reported of one account: its balances and whether it is locked.
#[derive(Clone, Copy, Debug, PartialEq, Eq, Structural)]
pub struct AccountSnapshot {
    pub client: u16,
    pub available: DecimalType,
    pub held: DecimalType,
    pub total: DecimalType,
    pub locked: bool,
}

/// All accounts, by account id, with the ids in the order in which each
/// account was first referenced.
pub struct Ledger {
    clients: HashMap<u16, Client>,
    ids: Vec<u16>,
}

impl Ledger {
    /// The state of each known account.
    pub closed spec fn accounts(&self) -> Map<u16, AccountState> {
        self.clients@.map_values(|c: Client| c@)
    }

    /// The known account ids, in order of first reference.
    pub closed spec fn known_ids(&self) -> Seq<u16> {
        self.ids@
    }

    /// The ids list each account once, and every account's total can be stored.
    pub closed spec fn wf(&self) -> bool {
        &&& self.ids@.no_duplicates()
        &&& forall|id: u16| self.clients@.contains_key(id) <==> self.ids@.contains(id)
        &&& forall|id: u16| #[trigger]
            self.clients@.contains_key(id) ==> fits(total_of(self.clients@[id]@))
    }

    /// A ledger with no accounts.
    pub fn new() -> (r: Ledger)
        ensures
            r.wf(),
            r.accounts() == Map::<u16, AccountState>::empty(),
            r.known_ids() == Seq::<u16>::empty(),
    {
        let r = Ledger { clients: HashMap::new(), ids: Vec::new() };
        assert(r.accounts() =~= Map::<u16, AccountState>::empty());
        r
    }

    /// Hands `transaction` to the account it names, creating that account
    /// first if it is new. A rejected transaction changes no balance, but
    /// still makes its account known.
    pub fn route(&mut self, transaction: Transaction)
        requires
            old(self).wf(),
            within_range(
                step(account_or_empty(old(self).accounts(), transaction.client), transaction),
            ),
        ensures
            final(self).wf(),
            final(self).accounts() == old(self).accounts().insert(
                transaction.client,
                next_state(account_or_empty(old(self).accounts(), transaction.client), transaction),
            ),
            final(self).known_ids() == if old(self).accounts().contains_key(transaction.client) {
                old(self).known_ids()
            } else {
                old(self).known_ids().push(transaction.client)
            },
    {
        let id = transaction.client;
        let ghost before = self.clients@;
        let mut client = match self.clients.remove(&id) {
            Some(c) => c,
            None => {
                proof {
                    assert(!self.ids@.contains(id));
                }
                self.ids.push(id);
                Client::new()
            },
        };
        assert(client@ == account_or_empty(old(self).accounts(), id));
        client.process_transaction(transaction);
        self.clients.insert(id, client);
        assert(self.clients@ == before.insert(id, client));
        assert(self.accounts() =~= old(self).accounts().insert(id, client@));
        assert forall|k: u16| self.clients@.contains_key(k) <==> self.ids@.contains(k) by {
            assert(before.contains_key(k) <==> old(self).ids@.contains(k));
            assert(self.clients@.contains_key(k) <==> (before.contains_key(k) || k == id));
            if before.contains_key(id) {
                assert(self.ids@ == old(self).ids@);
            } else {
                assert(self.ids@ == old(self).ids@.push(id));
                assert(self.ids@.contains(k) <==> (old(self).ids@.contains(k) || k == id)) by {
                    if k == id {
                        assert(self.ids@[self.ids@.len() - 1] == id);
                    }
                    if self.ids@.contains(k) && k != id {
                        let j = choose|j: int| 0 <= j < self.ids@.len() && self.ids@[j] == k;
                        assert(old(self).ids@[j] == k);
                    }
                    if old(self).ids@.contains(k) {
                        let j = choose|j: int| 0 <= j < old(self).ids@.len() && old(self).ids@[j] == k;
                        assert(self.ids@[j] == k);
                    }
                }
            }
        }
    }

    /// Whether the balances `transaction` would lead to in its account can
    /// be stored, that is, whether `route` may be called with it.
    pub fn fits_transaction(&self, transaction: &Transaction) -> (r: bool)
        ensures
            r == within_range(
                step(account_or_empty(self.accounts(), transaction.client), *transaction),
            ),
    {
        match self.clients.get(&transaction.client) {
            Some(c) => c.fits_transaction(transaction),
            None => Client::new().fits_transaction(transaction),
        }
    }

    /// The account with id `id`, if it is known.
    pub fn get(&self, id: u16) -> (r: Option<&Client>)
        ensures
            match r {
                Some(c) => self.accounts().contains_key(id) && c@ == self.accounts()[id],
                None => !self.accounts().contains_key(id),
            },
    {
        self.clients.get(&id)
    }

    /// The balances and lock flag of account `id`, if it is known.
    pub fn snapshot(&self, id: u16) -> (r: Option<AccountSnapshot>)
        requires
            self.wf(),
        ensures
            r is Some <==> self.accounts().contains_key(id),
            r is Some ==> {
                let s = self.accounts()[id];
                let snap = r->0;
                &&& snap.client == id
                &&& snap.available@ == s.available
                &&& snap.held@ == s.held
                &&& snap.total@ == total_of(s)
                &&& snap.total@ == snap.available@ + snap.held@
                &&& snap.locked == s.frozen
            },
    {
        match self.clients.get(&id) {
            Some(c) => Some(
                AccountSnapshot {
                    client: id,
                    available: c.available,
                    held: c.held,
                    total: c.total(),
                    locked: c.is_frozen,
                },
            ),
            None => None,
        }
    }

    /// Every known account id once, in order of first reference.
    pub fn client_ids(&self) -> (r: Vec<u16>)
        requires
            self.wf(),
        ensures
            r@ == self.known_ids(),
            r@.no_duplicates(),
            forall|id: u16| r@.contains(id) <==> self.accounts().contains_key(id),
    {
        let mut r: Vec<u16> = Vec::new();
        let mut i: usize = 0;
        while i < self.ids.len()
            invariant
                i <= self.ids@.len(),
                r@ == self.ids@.subrange(0, i as int),
            decreases self.ids@.len() - i,
        {
            r.push(self.ids[i]);
            i += 1;
            assert(r@ =~= self.ids@.subrange(0, i as int));
        }
        assert(r@ =~= self.ids@);
        r
    }
}

} // verus!
