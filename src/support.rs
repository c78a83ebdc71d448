//! Results shared by the pallets and the runtime.
use vstd::prelude::*;

verus! {

/// A recoverable failure of one dispatched call. It leaves the state of the
/// pallet that reported it unchanged.
#[derive(Debug, Clone, Copy, PartialEq, Eq, Structural)]
pub enum DispatchError {
    /// The caller's balance is smaller than the amount to transfer.
    InsufficientBalance,
    /// The receiver's balance would exceed the largest balance.
    Overflow,
    /// Someone already holds a claim on the content.
    ClaimAlreadyExists,
    /// Nobody holds a claim on the content.
    ClaimNotFound,
    /// The claim on the content belongs to another account.
    NotClaimOwner,
}

/// The outcome of one dispatched call.
pub type DispatchResult = Result<(), DispatchError>;

/// A fatal failure of a whole block: none of its extrinsics ran.
#[derive(Debug, Clone, Copy, PartialEq, Eq, Structural)]
pub enum BlockError {
    /// The header's block number is not the one that comes next.
    BlockNumberMismatch,
}

/// The text that describes a dispatch error.
pub open spec fn dispatch_error_text(e: DispatchError) -> Seq<char> {
    match e {
        DispatchError::InsufficientBalance => "Insufficient balance"@,
        DispatchError::Overflow => "Overflow"@,
        DispatchError::ClaimAlreadyExists => "This claim already exists"@,
        DispatchError::ClaimNotFound => "This claim does not exist"@,
        DispatchError::NotClaimOwner => "This claim does not belong to you"@,
    }
}

impl DispatchError {
    /// A short human-readable description of the error.
    pub fn message(&self) -> (r: &'static str)
        ensures
            r@ == dispatch_error_text(*self),
    {
        match self {
            DispatchError::InsufficientBalance => "Insufficient balance",
            DispatchError::Overflow => "Overflow",
            DispatchError::ClaimAlreadyExists => "This claim already exists",
            DispatchError::ClaimNotFound => "This claim does not exist",
            DispatchError::NotClaimOwner => "This claim does not belong to you",
        }
    }
}

impl BlockError {
    /// A short human-readable description of the error.
    pub fn message(&self) -> (r: &'static str)
        ensures
            r@ == "Block number mismatch"@,
    {
        match self {
            BlockError::BlockNumberMismatch => "Block number mismatch",
        }
    }
}

} // verus!
