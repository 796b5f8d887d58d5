//! The balances pallet: a ledger of account balances with checked transfers.
use vstd::prelude::*;

use crate::storage::StringMap;
use crate::support::{Dispatch, DispatchError, DispatchResult};
use crate::types::{AccountId, Balance};

verus! {

/// The calls that the balances pallet accepts.
#[derive(Debug)]
pub enum Call {
    /// Move `amount` from the caller to `to`.
    Transfer { to: AccountId, amount: Balance },
}

/// The balance of `who` in `ledger`; an account without an entry has zero.
pub open spec fn balance_in(ledger: Map<Seq<char>, Balance>, who: Seq<char>) -> Balance {
    if ledger.contains_key(who) {
        ledger[who]
    } else {
        0
    }
}

/// The ledger after a transfer of `amount` from `caller` to `to`, and its
/// outcome. The debit is checked first, then the credit; a failed transfer
/// changes nothing, and a transfer to oneself moves nothing.
pub open spec fn transfer_spec(
    ledger: Map<Seq<char>, Balance>,
    caller: Seq<char>,
    to: Seq<char>,
    amount: Balance,
) -> (Map<Seq<char>, Balance>, DispatchResult) {
    let from_balance = balance_in(ledger, caller);
    let to_balance = balance_in(ledger, to);
    if amount > from_balance {
        (ledger, Err(DispatchError::InsufficientBalance))
    } else if caller == to {
        (ledger, Ok(()))
    } else if to_balance + amount > Balance::MAX {
        (ledger, Err(DispatchError::BalanceOverflow))
    } else {
        (
            ledger.insert(caller, (from_balance - amount) as Balance).insert(
                to,
                (to_balance + amount) as Balance,
            ),
            Ok(()),
        )
    }
}

/// Balance conservation: a successful transfer keeps the sum of the two
/// balances and takes exactly `amount` from a caller who pays someone else;
/// every other account keeps its balance.
pub proof fn lemma_transfer_conserves(
    ledger: Map<Seq<char>, Balance>,
    caller: Seq<char>,
    to: Seq<char>,
    amount: Balance,
)
    requires
        transfer_spec(ledger, caller, to, amount).1 is Ok,
    ensures
        ({
            let after = transfer_spec(ledger, caller, to, amount).0;
            &&& balance_in(after, caller) + balance_in(after, to) == balance_in(ledger, caller)
                + balance_in(ledger, to)
            &&& caller != to ==> balance_in(after, caller) == balance_in(ledger, caller) - amount
            &&& forall|other: Seq<char>|
                other != caller && other != to ==> #[trigger] balance_in(after, other) == balance_in(
                    ledger,
                    other,
                )
        }),
{
}

/// Insufficient funds: a transfer of more than the caller holds fails with
/// `InsufficientBalance` and leaves the ledger as it was.
pub proof fn lemma_insufficient_funds_rejected(
    ledger: Map<Seq<char>, Balance>,
    caller: Seq<char>,
    to: Seq<char>,
    amount: Balance,
)
    requires
        amount > balance_in(ledger, caller),
    ensures
        transfer_spec(ledger, caller, to, amount) == (ledger, Err::<(), DispatchError>(
            DispatchError::InsufficientBalance,
        )),
{
}

/// Default balance: an account that was never given an entry has balance zero.
pub proof fn lemma_default_balance_zero(ledger: Map<Seq<char>, Balance>, who: Seq<char>)
    requires
        !ledger.contains_key(who),
    ensures
        balance_in(ledger, who) == 0,
{
}

/// Relies on num's `CheckedSub` for `u128`: the difference, or `None` when
/// it would be below zero.
#[verifier::external_body]
fn balance_checked_sub(a: u128, b: u128) -> (r: Option<u128>)
    ensures
        r == (if a >= b {
            Some((a - b) as u128)
        } else {
            None::<u128>
        }),
{
    num::CheckedSub::checked_sub(&a, &b)
}

/// Relies on num's `CheckedAdd` for `u128`: the sum, or `None` when it
/// exceeds `u128::MAX`.
#[verifier::external_body]
fn balance_checked_add(a: u128, b: u128) -> (r: Option<u128>)
    ensures
        r == (if a + b <= u128::MAX {
            Some((a + b) as u128)
        } else {
            None::<u128>
        }),
{
    num::CheckedAdd::checked_add(&a, &b)
}

/// The balances pallet: the balance of each account that has one.
#[derive(Debug)]
pub struct Pallet {
    balances: StringMap<Balance>,
}

impl View for Pallet {
    type V = Map<Seq<char>, Balance>;

    closed spec fn view(&self) -> Map<Seq<char>, Balance> {
        self.balances@
    }
}

impl Pallet {
    /// A ledger with no entries.
    pub fn new() -> (r: Self)
        ensures
            r@ == Map::<Seq<char>, Balance>::empty(),
    {
        Pallet { balances: StringMap::new() }
    }

    /// Sets the balance of `who` to `amount`, whatever it was.
    pub fn set_balance(&mut self, who: AccountId, amount: Balance)
        ensures
            final(self)@ == old(self)@.insert(who@, amount),
    {
        self.balances.insert(who, amount);
    }

    /// The balance of `who`; zero for an account without an entry.
    pub fn balance(&self, who: AccountId) -> (r: Balance)
        ensures
            r == balance_in(self@, who@),
    {
        match self.balances.get(&who) {
            Some(b) => *b,
            None => 0,
        }
    }

    /// Moves `amount` from `caller` to `to`. Fails with `InsufficientBalance`
    /// when the caller has less than `amount`, and with `BalanceOverflow` when
    /// the recipient's balance would leave the range; either way nothing
    /// changes. Both new balances are computed before either is written.
    pub fn transfer(&mut self, caller: AccountId, to: AccountId, amount: Balance) -> (r: DispatchResult)
        ensures
            (final(self)@, r) == transfer_spec(old(self)@, caller@, to@, amount),
    {
        let caller_balance = self.balance(caller.clone());
        let to_balance = self.balance(to.clone());
        let debited = match balance_checked_sub(caller_balance, amount) {
            Some(b) => b,
            None => return Err(DispatchError::InsufficientBalance),
        };
        if caller == to {
            return Ok(());
        }
        let credited = match balance_checked_add(to_balance, amount) {
            Some(b) => b,
            None => return Err(DispatchError::BalanceOverflow),
        };
        self.set_balance(caller, debited);
        self.set_balance(to, credited);
        Ok(())
    }
}

impl Dispatch for Pallet {
    type Caller = AccountId;
    type Call = Call;

    fn dispatch(&mut self, caller: AccountId, call: Call) -> (r: DispatchResult)
        ensures
            match call {
                Call::Transfer { to, amount } => (final(self)@, r) == transfer_spec(
                    old(self)@,
                    caller@,
                    to@,
                    amount,
                ),
            },
    {
        match call {
            Call::Transfer { to, amount } => self.transfer(caller, to, amount),
        }
    }
}

} // verus!
