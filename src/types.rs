use vstd::prelude::*;

verus! {

/// Identifies an account.
pub type AccountId = String;

/// An account's balance.
pub type Balance = u128;

/// The number of a block.
pub type BlockNumber = u32;

/// How many calls an account has made.
pub type Nonce = u32;

/// Content that an account can claim.
pub type Content = String;

/// A block of this runtime.
pub type Block = crate::support::Block<Header, Extrinsic>;

/// A header of this runtime.
pub type Header = crate::support::Header<BlockNumber>;

/// An extrinsic of this runtime.
pub type Extrinsic = crate::support::Extrinsic<AccountId, crate::runtime::RuntimeCall>;

} // verus!
