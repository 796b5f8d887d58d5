//! The pieces shared by every pallet: the dispatch capability, the error
//! kinds, and the shape of blocks and extrinsics.
use vstd::prelude::*;

verus! {

/// Why a dispatched call or a block was rejected.
#[derive(Debug, Clone, Copy, PartialEq, Eq, Structural)]
pub enum DispatchError {
    /// A transfer's debit would take the sender's balance below zero.
    InsufficientBalance,
    /// A transfer's credit would exceed the balance type's range.
    BalanceOverflow,
    /// A claim was created on content that already has an owner.
    ClaimAlreadyExists,
    /// A claim was revoked on content that has no owner.
    ClaimNotFound,
    /// A claim was revoked by an account that does not own it.
    Unauthorized,
    /// An account's nonce cannot be incremented any further.
    NonceOverflow,
    /// A block's header number is not the next block number.
    BlockNumberMismatch,
}

impl DispatchError {
    /// A human-readable reason for the error.
    pub fn message(&self) -> (r: &'static str)
        ensures
            r@ == match *self {
                DispatchError::InsufficientBalance => "Insufficient balance"@,
                DispatchError::BalanceOverflow => "Balance overflow"@,
                DispatchError::ClaimAlreadyExists => "A claim has already been made"@,
                DispatchError::ClaimNotFound => "Claim does not exist"@,
                DispatchError::Unauthorized => "You are not the rightful owner"@,
                DispatchError::NonceOverflow => "Nonce overflow"@,
                DispatchError::BlockNumberMismatch => "Block number mismatch"@,
            },
    {
        match self {
            DispatchError::InsufficientBalance => "Insufficient balance",
            DispatchError::BalanceOverflow => "Balance overflow",
            DispatchError::ClaimAlreadyExists => "A claim has already been made",
            DispatchError::ClaimNotFound => "Claim does not exist",
            DispatchError::Unauthorized => "You are not the rightful owner",
            DispatchError::NonceOverflow => "Nonce overflow",
            DispatchError::BlockNumberMismatch => "Block number mismatch",
        }
    }
}

/// The outcome of dispatching one call.
pub type DispatchResult = Result<(), DispatchError>;

/// The header of a block: the number it claims to have.
#[derive(Debug)]
pub struct Header<BlockNumber> {
    pub block_number: BlockNumber,
}

/// One call, made on behalf of `caller`.
#[derive(Debug)]
pub struct Extrinsic<Caller, Call> {
    pub caller: Caller,
    pub call: Call,
}

/// A header and the extrinsics to apply, in order.
#[derive(Debug)]
pub struct Block<Header, Extrinsic> {
    pub header: Header,
    pub extrinsics: Vec<Extrinsic>,
}

/// The capability to apply a call made by a caller. Each pallet implements it
/// for its own calls, and the runtime implements it by routing each call to
/// the pallet that owns it.
pub trait Dispatch {
    type Caller;
    type Call;

    fn dispatch(&mut self, caller: Self::Caller, call: Self::Call) -> (r: DispatchResult);
}

} // verus!
