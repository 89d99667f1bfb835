//! Identities of the two account models, and what the ledger holds for one.

use vstd::prelude::*;
use crate::fee::Balance;

verus! {

/// The position of a transaction in its sender's sequence.
pub type Nonce = u32;

/// A native account: 32 bytes, as two halves.
#[derive(Clone, Copy, Debug, PartialEq, Eq, Structural)]
pub struct AccountId {
    pub high: u128,
    pub low: u128,
}

/// An Ethereum-style account: 20 bytes, the first four and the other sixteen.
#[derive(Clone, Copy, Debug, PartialEq, Eq, Structural)]
pub struct Address {
    pub head: u32,
    pub tail: u128,
}

/// Who a transaction is from, in either account model.
#[derive(Clone, Copy, Debug, PartialEq, Eq, Structural)]
pub enum Identity {
    Native(AccountId),
    Ethereum(Address),
}

impl Identity {
    /// The identity is the all-zero one of its model.
    pub open spec fn spec_is_zero(self) -> bool {
        match self {
            Identity::Native(a) => a.high == 0 && a.low == 0,
            Identity::Ethereum(a) => a.head == 0 && a.tail == 0,
        }
    }

    #[verifier::when_used_as_spec(spec_is_zero)]
    pub fn is_zero(self) -> (b: bool)
        ensures
            b == self.spec_is_zero(),
    {
        match self {
            Identity::Native(a) => a.high == 0 && a.low == 0,
            Identity::Ethereum(a) => a.head == 0 && a.tail == 0,
        }
    }
}

/// What the ledger holds for one identity.
#[derive(Clone, Copy, Debug, PartialEq, Eq, Structural)]
pub struct AccountState {
    /// The nonce that the identity's next transaction must carry.
    pub nonce: Nonce,
    pub balance: Balance,
}

/// Why a nonce and a fee could not be taken from an account.
#[derive(Clone, Copy, Debug, PartialEq, Eq, Structural)]
pub enum ChargeError {
    /// The nonce was used before.
    Stale,
    /// The nonce is ahead of the account's.
    Future,
    /// The account's nonce cannot grow any more.
    NonceOverflow,
    /// The balance does not cover the fee.
    InsufficientFunds,
}

/// What stands in the way of taking `fee` from `account` under
/// `expected_nonce`: the nonce is judged first, the balance after it.
pub open spec fn spec_charge_error(
    account: AccountState,
    fee: Balance,
    expected_nonce: Nonce,
) -> Option<ChargeError> {
    if expected_nonce < account.nonce {
        Some(ChargeError::Stale)
    } else if expected_nonce > account.nonce {
        Some(ChargeError::Future)
    } else if account.nonce == u32::MAX {
        Some(ChargeError::NonceOverflow)
    } else if account.balance < fee {
        Some(ChargeError::InsufficientFunds)
    } else {
        None
    }
}

/// The account after `fee` was taken and the nonce moved on by one.
pub open spec fn spec_charged_account(account: AccountState, fee: Balance) -> AccountState {
    AccountState {
        nonce: (account.nonce + 1) as u32,
        balance: (account.balance - fee) as u128,
    }
}

/// Takes `fee` from `account` and moves its nonce on by one, or does neither:
/// the result is the whole new state or the reason why nothing was changed.
pub fn charge_fee_and_nonce(account: AccountState, fee: Balance, expected_nonce: Nonce) -> (r:
    Result<AccountState, ChargeError>)
    ensures
        match spec_charge_error(account, fee, expected_nonce) {
            Some(e) => r == Err::<AccountState, ChargeError>(e),
            None => r == Ok::<AccountState, ChargeError>(spec_charged_account(account, fee)),
        },
{
    if expected_nonce < account.nonce {
        Err(ChargeError::Stale)
    } else if expected_nonce > account.nonce {
        Err(ChargeError::Future)
    } else if account.nonce == u32::MAX {
        Err(ChargeError::NonceOverflow)
    } else if account.balance < fee {
        Err(ChargeError::InsufficientFunds)
    } else {
        Ok(AccountState { nonce: account.nonce + 1, balance: account.balance - fee })
    }
}

/// A transaction that was applied moved the nonce on by exactly one, and the
/// same nonce is stale from then on, whatever the fee.
pub proof fn lemma_nonce_used_once(
    account: AccountState,
    fee: Balance,
    nonce: Nonce,
    later_fee: Balance,
)
    requires
        spec_charge_error(account, fee, nonce) is None,
    ensures
        spec_charged_account(account, fee).nonce == account.nonce + 1,
        spec_charge_error(spec_charged_account(account, fee), later_fee, nonce) == Some(
            ChargeError::Stale,
        ),
{
}

} // verus!
