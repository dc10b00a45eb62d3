use crate::error::LedgerError;
use crate::model::{
    counter_created, counter_stepped, counter_value, fresh_account, with_account, AccountView,
    LedgerView, Step,
};
use vstd::hash_map::StringHashMap;
use vstd::prelude::*;

verus! {

/// One account: a balance and its named counters.
pub struct Account {
    pub balance: u64,
    pub counters: StringHashMap<i64>,
}

impl View for Account {
    type V = AccountView;

    open spec fn view(&self) -> AccountView {
        AccountView {
            balance: self.balance as nat,
            counters: self.counters@.map_values(|value: i64| value as int),
        }
    }
}

/// All accounts, by address. Each account lives in a slot of `accounts`;
/// `slots` gives the slot of every known address.
pub struct Blockchain {
    slots: StringHashMap<usize>,
    accounts: Vec<Account>,
}

impl View for Blockchain {
    type V = LedgerView;

    /// The account that the ledger holds at each known address.
    closed spec fn view(&self) -> LedgerView {
        Map::new(
            |a: Seq<char>| self.slots@.contains_key(a),
            |a: Seq<char>| self.accounts@[self.slots@[a] as int]@,
        )
    }
}

impl Blockchain {
    /// Every known address has a slot of its own.
    pub closed spec fn wf(&self) -> bool {
        &&& forall|a: Seq<char>| #[trigger]
            self.slots@.contains_key(a) ==> self.slots@[a] < self.accounts@.len()
        &&& forall|a: Seq<char>, b: Seq<char>|
            #[trigger] self.slots@.contains_key(a) && #[trigger] self.slots@.contains_key(b)
                && self.slots@[a] == self.slots@[b] ==> a == b
    }

    /// A ledger without accounts.
    pub fn new() -> (ledger: Self)
        ensures
            ledger.wf(),
            ledger@ == Map::<Seq<char>, AccountView>::empty(),
    {
        let ledger = Blockchain { slots: StringHashMap::new(), accounts: Vec::new() };
        assert(ledger@ =~= Map::<Seq<char>, AccountView>::empty());
        ledger
    }

    /// The account at `address`, created with a balance of 100 and no
    /// counters where the address was unknown. Whatever the caller leaves in
    /// the account is what the ledger then holds at `address`.
    pub fn get_or_create_account(&mut self, address: &str) -> (account: &mut Account)
        requires
            old(self).wf(),
        ensures
            account@ == with_account(old(self)@, address@)[address@],
            final(self).wf(),
            final(self)@ == with_account(old(self)@, address@).insert(address@, final(account)@),
    {
        let known = match self.slots.get(address) {
            Some(slot) => Some(*slot),
            None => None,
        };
        let slot: usize = match known {
            Some(slot) => slot,
            None => {
                let slot: usize = self.accounts.len();
                let account = Account { balance: 100, counters: StringHashMap::new() };
                assert(account@.counters =~= fresh_account().counters);
                self.accounts.push(account);
                self.slots.insert(address.to_owned(), slot);
                slot
            },
        };
        assert(self@ =~= with_account(old(self)@, address@));
        &mut self.accounts[slot]
    }

    /// Sets the counter `counter_name` of the account at `address` to zero,
    /// creating the account, the counter or both where they are missing.
    pub fn create_counter(&mut self, address: &str, counter_name: &str)
        requires
            old(self).wf(),
        ensures
            final(self).wf(),
            final(self)@ == counter_created(old(self)@, address@, counter_name@),
    {
        let account = self.get_or_create_account(address);
        let ghost before = account@;
        account.counters.insert(counter_name.to_owned(), 0);
        assert(account@.counters =~= before.counters.insert(counter_name@, 0));
    }

    /// Adds one to the counter `counter_name` of the account at `address`.
    /// The account is created where it is missing; a missing counter is
    /// not, and is reported by name.
    pub fn increment_counter(&mut self, address: &str, counter_name: &str) -> (result: Result<
        (),
        LedgerError,
    >)
        requires
            old(self).wf(),
            counter_value(old(self)@, address@, counter_name@) != Some(i64::MAX as int),
        ensures
            final(self).wf(),
            final(self)@ == counter_stepped(old(self)@, address@, counter_name@, Step::Increment),
            match result {
                Ok(_) => counter_value(old(self)@, address@, counter_name@) is Some,
                Err(error) => counter_value(old(self)@, address@, counter_name@) is None
                    && error.counter() == counter_name@,
            },
            result is Err ==> forall|a: Seq<char>, c: Seq<char>|
                counter_value(final(self)@, a, c) == counter_value(old(self)@, a, c),
    {
        let account = self.get_or_create_account(address);
        let ghost before = account@;
        let found = match account.counters.get(counter_name) {
            Some(value) => Some(*value),
            None => None,
        };
        match found {
            Some(value) => {
                account.counters.insert(counter_name.to_owned(), value + 1);
                assert(account@.counters =~= before.counters.insert(counter_name@, value + 1));
                Ok(())
            },
            None => {
                assert(account@ == before);
                Err(LedgerError::CounterNotFound(counter_name.to_owned()))
            },
        }
    }

    /// Takes one from the counter `counter_name` of the account at
    /// `address`; the value may go below zero. The account is created where
    /// it is missing; a missing counter is not, and is reported by name.
    pub fn decrement_counter(&mut self, address: &str, counter_name: &str) -> (result: Result<
        (),
        LedgerError,
    >)
        requires
            old(self).wf(),
            counter_value(old(self)@, address@, counter_name@) != Some(i64::MIN as int),
        ensures
            final(self).wf(),
            final(self)@ == counter_stepped(old(self)@, address@, counter_name@, Step::Decrement),
            match result {
                Ok(_) => counter_value(old(self)@, address@, counter_name@) is Some,
                Err(error) => counter_value(old(self)@, address@, counter_name@) is None
                    && error.counter() == counter_name@,
            },
            result is Err ==> forall|a: Seq<char>, c: Seq<char>|
                counter_value(final(self)@, a, c) == counter_value(old(self)@, a, c),
    {
        let account = self.get_or_create_account(address);
        let ghost before = account@;
        let found = match account.counters.get(counter_name) {
            Some(value) => Some(*value),
            None => None,
        };
        match found {
            Some(value) => {
                account.counters.insert(counter_name.to_owned(), value - 1);
                assert(account@.counters =~= before.counters.insert(counter_name@, value - 1));
                Ok(())
            },
            None => {
                assert(account@ == before);
                Err(LedgerError::CounterNotFound(counter_name.to_owned()))
            },
        }
    }

    /// The value of the counter, where the account and the counter exist,
    /// and `None` where either is missing. Nothing is created.
    pub fn get_counter(&self, address: &str, counter_name: &str) -> (value: Option<i64>)
        requires
            self.wf(),
        ensures
            match value {
                Some(v) => counter_value(self@, address@, counter_name@) == Some(v as int),
                None => counter_value(self@, address@, counter_name@) is None,
            },
    {
        match self.slots.get(address) {
            Some(slot) => match self.accounts[*slot].counters.get(counter_name) {
                Some(value) => Some(*value),
                None => None,
            },
            None => None,
        }
    }
}

} // verus!
