//! The bridge between native accounts and Ethereum-style addresses: a table
//! that gives each native account an address of its own on first use.

use vstd::prelude::*;
use crate::account::{AccountId, Address};

verus! {

/// The address of the account that was registered at position `i`. Position
/// zero gets address one: the all-zero address is nobody's.
pub open spec fn spec_address_at(i: int) -> Address {
    Address { head: 0, tail: (i + 1) as u128 }
}

/// The table of bridged accounts, in the order in which they were first used.
#[derive(Debug)]
pub struct Bridge {
    accounts: Vec<AccountId>,
}

impl Bridge {
    /// The accounts, in the order of their registration.
    pub closed spec fn view(self) -> Seq<AccountId> {
        self.accounts@
    }

    /// No account is registered twice.
    pub open spec fn well_formed(self) -> bool {
        self@.no_duplicates()
    }

    /// The account has an address.
    pub open spec fn spec_is_bridged(self, account: AccountId) -> bool {
        self@.contains(account)
    }

    /// The position at which a bridged account was registered.
    pub open spec fn spec_position(self, account: AccountId) -> int {
        choose|i: int| 0 <= i < self@.len() && self@[i] == account
    }

    /// The address of a bridged account.
    pub open spec fn spec_address_of(self, account: AccountId) -> Option<Address> {
        if self.spec_is_bridged(account) {
            Some(spec_address_at(self.spec_position(account)))
        } else {
            None
        }
    }

    /// The account behind an address, if the address was given out.
    pub open spec fn spec_account_of(self, address: Address) -> Option<AccountId> {
        if address.head == 0 && 1 <= address.tail <= self@.len() {
            Some(self@[address.tail - 1])
        } else {
            None
        }
    }

    /// A bridge over which no account has passed yet.
    pub fn new() -> (b: Bridge)
        ensures
            b@ == Seq::<AccountId>::empty(),
            b.well_formed(),
    {
        Bridge { accounts: Vec::new() }
    }

    fn find(&self, account: AccountId) -> (r: Option<usize>)
        ensures
            match r {
                Some(i) => i < self@.len() && self@[i as int] == account,
                None => !self@.contains(account),
            },
    {
        let mut i: usize = 0;
        while i < self.accounts.len()
            invariant
                i <= self.accounts.len(),
                forall|j: int| 0 <= j < i ==> self.accounts@[j] != account,
            decreases self.accounts.len() - i,
        {
            if self.accounts[i] == account {
                return Some(i);
            }
            i = i + 1;
        }
        None
    }

    /// The address of `account`, if it has one.
    pub fn address_of(&self, account: AccountId) -> (r: Option<Address>)
        requires
            self.well_formed(),
        ensures
            r == self.spec_address_of(account),
            r is Some ==> self.spec_account_of(r.unwrap()) == Some(account),
    {
        match self.find(account) {
            Some(i) => {
                assert(self.spec_position(account) == i);
                Some(Address { head: 0, tail: i as u128 + 1 })
            },
            None => None,
        }
    }

    /// The account to which `address` was given, if it was given out.
    pub fn account_of(&self, address: Address) -> (r: Option<AccountId>)
        ensures
            r == self.spec_account_of(address),
    {
        if address.head == 0 && 1 <= address.tail && address.tail <= self.accounts.len() as u128 {
            Some(self.accounts[(address.tail - 1) as usize])
        } else {
            None
        }
    }

    /// The address of `account`. An account that comes for the first time is
    /// registered behind the others and gets the next address; one that came
    /// before keeps the address it has. No other account's address changes.
    pub fn to_address(&mut self, account: AccountId) -> (r: Address)
        requires
            old(self).well_formed(),
        ensures
            final(self).well_formed(),
            final(self)@ == if old(self).spec_is_bridged(account) {
                old(self)@
            } else {
                old(self)@.push(account)
            },
            final(self).spec_address_of(account) == Some(r),
            final(self).spec_account_of(r) == Some(account),
            old(self).spec_is_bridged(account) ==> old(self).spec_address_of(account) == Some(r),
            !old(self).spec_is_bridged(account) ==> r == spec_address_at(old(self)@.len() as int),
    {
        match self.find(account) {
            Some(i) => {
                assert(self.spec_position(account) == i);
                Address { head: 0, tail: i as u128 + 1 }
            },
            None => {
                let n = self.accounts.len();
                let ghost before = self.accounts@;
                self.accounts.push(account);
                assert(self.accounts@[n as int] == account);
                assert(self.accounts@.no_duplicates()) by {
                    assert forall|i: int, j: int|
                        0 <= i < self.accounts@.len() && 0 <= j < self.accounts@.len() && i
                            != j implies self.accounts@[i] != self.accounts@[j] by {
                        if i < n {
                            assert(before[i] == self.accounts@[i]);
                            assert(before.contains(before[i]));
                        }
                        if j < n {
                            assert(before[j] == self.accounts@[j]);
                            assert(before.contains(before[j]));
                        }
                    }
                }
                assert(self@.contains(account));
                assert(self.spec_position(account) == n);
                Address { head: 0, tail: n as u128 + 1 }
            },
        }
    }
}

/// Two different accounts never share an address.
pub proof fn lemma_addresses_distinct(b: Bridge, a1: AccountId, a2: AccountId)
    requires
        b.well_formed(),
        a1 != a2,
        b.spec_is_bridged(a1),
        b.spec_is_bridged(a2),
    ensures
        b.spec_address_of(a1) != b.spec_address_of(a2),
{
    let i = b.spec_position(a1);
    let j = b.spec_position(a2);
    assert(b@[i] == a1 && b@[j] == a2);
    assert(i != j);
    assert(b@.len() <= usize::MAX) by {
        b.lemma_len_bounded();
    }
}

/// An address leads back to the account that it was given to.
pub proof fn lemma_address_round_trip(b: Bridge, a: AccountId)
    requires
        b.well_formed(),
        b.spec_is_bridged(a),
    ensures
        b.spec_account_of(b.spec_address_of(a).unwrap()) == Some(a),
{
    b.lemma_len_bounded();
}

/// An address, once given, is permanent: registering further accounts
/// changes the address of none that was bridged before.
pub proof fn lemma_address_permanent(before: Bridge, after: Bridge, newcomer: AccountId, a: AccountId)
    requires
        before.well_formed(),
        after.well_formed(),
        after@ == before@.push(newcomer),
        before.spec_is_bridged(a),
    ensures
        after.spec_address_of(a) == before.spec_address_of(a),
{
    let i = before.spec_position(a);
    assert(after@[i] == a);
    assert(after@.contains(a));
    let j = after.spec_position(a);
    assert(after@[j] == a);
    assert(i == j);
}

impl Bridge {
    /// The table is no longer than a vector can be.
    proof fn lemma_len_bounded(self)
        ensures
            self@.len() <= usize::MAX,
    {
        assert(self.accounts.len() == self.accounts@.len());
    }
}

} // verus!
