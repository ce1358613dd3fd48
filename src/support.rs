use vstd::prelude::*;

verus! {

/// A block: a header and the extrinsics to apply, in order.
pub struct Block<Header, Extrinsic> {
    pub header: Header,
    pub extrinsics: Vec<Extrinsic>,
}

/// The header of a block, which carries its number.
pub struct Header<BlockNumber> {
    pub block_number: BlockNumber,
}

/// One instruction: the account that acts, and the call it makes.
pub struct Extrinsic<Caller, Call> {
    pub caller: Caller,
    pub call: Call,
}

/// Why a dispatched call was rejected. Such an error stays local to its extrinsic.
#[derive(Clone, Copy, Debug, PartialEq, Eq, Structural)]
pub enum DispatchError {
    InsufficientFunds,
    Overflow,
    AlreadyClaimed,
    NotFound,
    NotOwner,
}

/// Why a whole block was rejected before any of it was applied.
#[derive(Clone, Copy, Debug, PartialEq, Eq, Structural)]
pub enum BlockError {
    InvalidBlock,
}

/// The outcome of one dispatched call.
pub type DispatchResult = Result<(), DispatchError>;

impl DispatchError {
    pub open spec fn message_spec(self) -> &'static str {
        match self {
            DispatchError::InsufficientFunds => "Not enough funds",
            DispatchError::Overflow => "Balance overflow",
            DispatchError::AlreadyClaimed => "This content is already claimed",
            DispatchError::NotFound => "Claim does not exist",
            DispatchError::NotOwner => "The caller does not own this claim",
        }
    }

    /// A human-readable description of the error.
    #[verifier::when_used_as_spec(message_spec)]
    pub fn message(self) -> (r: &'static str)
        ensures
            r == self.message_spec(),
    {
        match self {
            DispatchError::InsufficientFunds => "Not enough funds",
            DispatchError::Overflow => "Balance overflow",
            DispatchError::AlreadyClaimed => "This content is already claimed",
            DispatchError::NotFound => "Claim does not exist",
            DispatchError::NotOwner => "The caller does not own this claim",
        }
    }
}

impl BlockError {
    /// A human-readable description of the error.
    pub fn message(self) -> (r: &'static str)
        ensures
            r == "block number does not match what is expected",
    {
        "block number does not match what is expected"
    }
}

} // verus!
