//! The proof-of-existence pallet: accounts claim content, and each piece of
//! content has at most one owner at a time.
use vstd::prelude::*;

use crate::storage::StringMap;
use crate::support::{Dispatch, DispatchError, DispatchResult};
use crate::types::{AccountId, Content};

verus! {

/// The calls that the proof-of-existence pallet accepts.
#[derive(Debug)]
pub enum Call {
    /// Claim `claim` for the caller.
    CreateClaim { claim: Content },
    /// Give up the caller's claim on `claim`.
    RevokeClaim { claim: Content },
}

/// The registry after `caller` claims `claim`, and the outcome: the claim is
/// recorded unless the content already has an owner.
pub open spec fn create_claim_spec(
    claims: Map<Seq<char>, Seq<char>>,
    caller: Seq<char>,
    claim: Seq<char>,
) -> (Map<Seq<char>, Seq<char>>, DispatchResult) {
    if claims.contains_key(claim) {
        (claims, Err(DispatchError::ClaimAlreadyExists))
    } else {
        (claims.insert(claim, caller), Ok(()))
    }
}

/// The registry after `caller` revokes `claim`, and the outcome: the claim
/// is removed when it exists and belongs to the caller.
pub open spec fn revoke_claim_spec(
    claims: Map<Seq<char>, Seq<char>>,
    caller: Seq<char>,
    claim: Seq<char>,
) -> (Map<Seq<char>, Seq<char>>, DispatchResult) {
    if !claims.contains_key(claim) {
        (claims, Err(DispatchError::ClaimNotFound))
    } else if claims[claim] != caller {
        (claims, Err(DispatchError::Unauthorized))
    } else {
        (claims.remove(claim), Ok(()))
    }
}

/// Claim uniqueness: once `a` has claimed `content`, `a` owns it, and a
/// claim on it by anyone fails with `ClaimAlreadyExists` and changes nothing.
pub proof fn lemma_claim_unique(
    claims: Map<Seq<char>, Seq<char>>,
    a: Seq<char>,
    b: Seq<char>,
    content: Seq<char>,
)
    requires
        create_claim_spec(claims, a, content).1 is Ok,
    ensures
        ({
            let after = create_claim_spec(claims, a, content).0;
            &&& after.contains_key(content)
            &&& after[content] == a
            &&& create_claim_spec(after, b, content) == (after, Err::<(), DispatchError>(
                DispatchError::ClaimAlreadyExists,
            ))
        }),
{
}

/// Authorized revoke only: a revoke by anyone but the owner fails with
/// `Unauthorized` and changes nothing, while the owner's revoke succeeds and
/// leaves the content unclaimed.
pub proof fn lemma_only_owner_revokes(
    claims: Map<Seq<char>, Seq<char>>,
    b: Seq<char>,
    content: Seq<char>,
)
    requires
        claims.contains_key(content),
    ensures
        b != claims[content] ==> revoke_claim_spec(claims, b, content) == (
            claims,
            Err::<(), DispatchError>(DispatchError::Unauthorized),
        ),
        revoke_claim_spec(claims, claims[content], content).1 is Ok,
        !revoke_claim_spec(claims, claims[content], content).0.contains_key(content),
{
}

/// A registry from claimed content to the account that owns it.
#[derive(Debug)]
pub struct Pallet {
    claims: StringMap<AccountId>,
}

impl View for Pallet {
    type V = Map<Seq<char>, Seq<char>>;

    closed spec fn view(&self) -> Map<Seq<char>, Seq<char>> {
        self.claims@
    }
}

impl Pallet {
    /// A registry with no claims.
    pub fn new() -> (r: Self)
        ensures
            r@ == Map::<Seq<char>, Seq<char>>::empty(),
    {
        Pallet { claims: StringMap::new() }
    }

    /// The owner of `claim`, if it has one.
    pub fn get_claim(&self, claim: &Content) -> (r: Option<&AccountId>)
        ensures
            match r {
                Some(owner) => self@.contains_key(claim@) && owner@ == self@[claim@],
                None => !self@.contains_key(claim@),
            },
    {
        self.claims.get(claim)
    }

    /// Records `caller` as the owner of `claim`. Fails with
    /// `ClaimAlreadyExists`, changing nothing, when `claim` has an owner.
    pub fn create_claim(&mut self, caller: AccountId, claim: Content) -> (r: DispatchResult)
        ensures
            (final(self)@, r) == create_claim_spec(old(self)@, caller@, claim@),
    {
        if self.claims.contains_key(&claim) {
            return Err(DispatchError::ClaimAlreadyExists);
        }
        self.claims.insert(claim, caller);
        Ok(())
    }

    /// Removes the claim on `claim`. Fails with `ClaimNotFound` when it has no
    /// owner and with `Unauthorized` when its owner is not `caller`; either way
    /// nothing changes.
    pub fn revoke_claim(&mut self, caller: AccountId, claim: Content) -> (r: DispatchResult)
        ensures
            (final(self)@, r) == revoke_claim_spec(old(self)@, caller@, claim@),
    {
        match self.get_claim(&claim) {
            None => {
                return Err(DispatchError::ClaimNotFound);
            },
            Some(owner) => {
                if caller != *owner {
                    return Err(DispatchError::Unauthorized);
                }
            },
        }
        self.claims.remove(&claim);
        Ok(())
    }
}

impl Dispatch for Pallet {
    type Caller = AccountId;
    type Call = Call;

    fn dispatch(&mut self, caller: AccountId, call: Call) -> (r: DispatchResult)
        ensures
            match call {
                Call::CreateClaim { claim } => (final(self)@, r) == create_claim_spec(
                    old(self)@,
                    caller@,
                    claim@,
                ),
                Call::RevokeClaim { claim } => (final(self)@, r) == revoke_claim_spec(
                    old(self)@,
                    caller@,
                    claim@,
                ),
            },
    {
        match call {
            Call::CreateClaim { claim } => self.create_claim(caller, claim),
            Call::RevokeClaim { claim } => self.revoke_claim(caller, claim),
        }
    }
}

} // verus!
