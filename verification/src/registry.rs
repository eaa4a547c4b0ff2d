//! The application's shared account registry.
//!
//! The registry is the one piece of application state both workflows touch:
//! the account-creation wizard inserts the freshly created account exactly
//! once on completion, and the transfer-destination selector reads the list
//! to offer every account other than the sender.

use vstd::prelude::*;

verus! {

/// Identifier of an account known to the wallet runtime.
pub type AccountId = u64;

/// First entry of `s` other than `exclude`, if any.
pub open spec fn first_other_spec(s: Seq<AccountId>, exclude: AccountId) -> Option<AccountId>
    decreases s.len(),
{
    if s.len() == 0 {
        None
    } else if s[0] != exclude {
        Some(s[0])
    } else {
        first_other_spec(s.drop_first(), exclude)
    }
}

/// The shared, ordered collection of the wallet's accounts.
pub struct AccountRegistry {
    accounts: Vec<AccountId>,
}

impl AccountRegistry {
    /// The registered accounts, in insertion order.
    pub closed spec fn view(&self) -> Seq<AccountId> {
        self.accounts@
    }

    /// An empty registry.
    pub fn new() -> (r: Self)
        ensures
            r@ == Seq::<AccountId>::empty(),
    {
        AccountRegistry { accounts: Vec::new() }
    }

    /// Number of registered accounts.
    pub fn len(&self) -> (r: usize)
        ensures
            r == self@.len(),
    {
        self.accounts.len()
    }

    /// The account at position `i`.
    pub fn get(&self, i: usize) -> (r: AccountId)
        requires
            i < self@.len(),
        ensures
            r == self@[i as int],
    {
        self.accounts[i]
    }

    /// Registers an account at the end of the list.
    pub fn insert(&mut self, account: AccountId)
        ensures
            final(self)@ == old(self)@.push(account),
    {
        self.accounts.push(account);
    }

    /// The registered accounts as a list.
    pub fn list(&self) -> (r: &Vec<AccountId>)
        ensures
            r@ == self@,
    {
        &self.accounts
    }

    /// The first registered account other than `exclude`, if any: the default
    /// transfer destination when only one other account exists.
    pub fn first_other(&self, exclude: AccountId) -> (r: Option<AccountId>)
        ensures
            r == first_other_spec(self@, exclude),
    {
        let mut i: usize = 0;
        proof {
            assert(self@.skip(0) =~= self@);
        }
        while i < self.accounts.len()
            invariant
                i <= self@.len(),
                forall|j: int| 0 <= j < i ==> self@[j] == exclude,
                first_other_spec(self@, exclude) == first_other_spec(self@.skip(i as int), exclude),
            decreases self@.len() - i,
        {
            let account = self.accounts[i];
            proof {
                assert(self@.skip(i as int)[0] == self@[i as int]);
                assert(self@.skip(i as int).drop_first() =~= self@.skip(i + 1));
            }
            if account != exclude {
                return Some(account);
            }
            i = i + 1;
        }
        proof {
            assert(self@.skip(i as int) =~= Seq::<AccountId>::empty());
        }
        None
    }
}

} // verus!
