//! The concrete configuration of the runtime: which types stand for
//! accounts, block numbers, nonces, balances and claimed content.
use vstd::prelude::*;

verus! {

pub type AccountId = String;

pub type BlockNumber = u32;

pub type Nonce = u32;

pub type Balance = u128;

pub type Content = String;

pub type Extrinsic = crate::support::Extrinsic<AccountId, crate::runtime::RuntimeCall>;

pub type Header = crate::support::Header<BlockNumber>;

pub type Block = crate::support::Block<Header, Extrinsic>;

} // verus!
