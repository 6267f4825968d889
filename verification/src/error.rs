//! The ways in which an operation on the store can fail.

use vstd::prelude::*;

verus! {

/// Why an operation was refused. A refused operation changes nothing.
#[derive(Clone, Copy, Debug, PartialEq, Eq, Structural)]
pub enum MovieReviewError {
    /// The rating of a new review is not between 1 and 5.
    InvalidRating,
    /// The title of a new review has more than 20 bytes.
    TitleTooLong,
    /// The description of a new review has more than 50 bytes.
    DescriptionTooLong,
    /// An account is already stored at the address.
    AddressInUse,
    /// No account is stored at the address, or the account does not hold
    /// the bytes or the balance asked for.
    NotFound,
    /// No address can be resolved for the signer, or what is stored at it
    /// is not a review of the signer.
    AuthorityMismatch,
    /// The reward mint has not been initialized, or who signs for it is
    /// not its authority.
    MintAuthorityMismatch,
    /// The reward could not be issued.
    MintFailure,
    /// The reward mint is initialized already.
    AlreadyInitialized,
}

} // verus!
