//! The system pallet: the current block number and each account's nonce.
use vstd::prelude::*;

use crate::storage::StringMap;
use crate::support::{DispatchError, DispatchResult};
use crate::types::{AccountId, BlockNumber, Nonce};

verus! {

/// What the system pallet holds: the block number and the nonce of each
/// account that has one.
pub struct SystemState {
    pub block_number: BlockNumber,
    pub nonces: Map<Seq<char>, Nonce>,
}

/// The nonce of `who` in `nonces`; an account without one has nonce zero.
pub open spec fn nonce_in(nonces: Map<Seq<char>, Nonce>, who: Seq<char>) -> Nonce {
    if nonces.contains_key(who) {
        nonces[who]
    } else {
        0
    }
}

/// The state after bumping the nonce of `who`, and the outcome: the nonce
/// goes up by one, or the bump fails with `NonceOverflow` and nothing changes.
pub open spec fn inc_nonce_spec(s: SystemState, who: Seq<char>) -> (SystemState, DispatchResult) {
    let n = nonce_in(s.nonces, who);
    if n == Nonce::MAX {
        (s, Err(DispatchError::NonceOverflow))
    } else {
        (SystemState { nonces: s.nonces.insert(who, (n + 1) as Nonce), ..s }, Ok(()))
    }
}

/// Relies on num's `CheckedAdd` for `u32`: the sum, or `None` when it
/// exceeds `u32::MAX`.
#[verifier::external_body]
fn nonce_checked_add(a: u32, b: u32) -> (r: Option<u32>)
    ensures
        r == (if a + b <= u32::MAX {
            Some((a + b) as u32)
        } else {
            None::<u32>
        }),
{
    num::CheckedAdd::checked_add(&a, &b)
}

/// The system pallet: the current block number and the nonce of each account.
#[derive(Debug)]
pub struct Pallet {
    block_number: BlockNumber,
    nonce: StringMap<Nonce>,
}

impl View for Pallet {
    type V = SystemState;

    closed spec fn view(&self) -> SystemState {
        SystemState { block_number: self.block_number, nonces: self.nonce@ }
    }
}

impl Pallet {
    /// A system pallet at block zero, with no nonces.
    pub fn new() -> (r: Self)
        ensures
            r@.block_number == 0,
            r@.nonces == Map::<Seq<char>, Nonce>::empty(),
    {
        Pallet { block_number: 0, nonce: StringMap::new() }
    }

    /// The current block number.
    pub fn block_number(&self) -> (r: BlockNumber)
        ensures
            r == self@.block_number,
    {
        self.block_number
    }

    /// Advances the block number by one. The block number must not be at the
    /// top of its range.
    pub fn inc_block_number(&mut self)
        requires
            old(self)@.block_number < BlockNumber::MAX,
        ensures
            final(self)@.block_number == old(self)@.block_number + 1,
            final(self)@.nonces == old(self)@.nonces,
    {
        self.block_number = self.block_number + 1;
    }

    /// The nonce of `who`; zero for an account that has none.
    pub fn nonce(&self, who: &AccountId) -> (r: Nonce)
        ensures
            r == nonce_in(self@.nonces, who@),
    {
        match self.nonce.get(who) {
            Some(n) => *n,
            None => 0,
        }
    }

    /// Increments the nonce of `who`. At the top of the nonce's range this
    /// fails with `NonceOverflow` and changes nothing.
    pub fn inc_nonce(&mut self, who: &AccountId) -> (r: DispatchResult)
        ensures
            (final(self)@, r) == inc_nonce_spec(old(self)@, who@),
    {
        let current = self.nonce(who);
        match nonce_checked_add(current, 1) {
            Some(next) => {
                self.nonce.insert(who.clone(), next);
                Ok(())
            },
            None => Err(DispatchError::NonceOverflow),
        }
    }
}

} // verus!
