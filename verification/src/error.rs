//! The error taxonomy.  Every operation returns a success value or one of
//! these kinds; revocation of a stake is a normal result, not an error.

use vstd::prelude::*;
use vstd::string::StringExecFns;
use crate::text::spec_u64_dec;
use crate::text::u64_to_string;

verus! {

/// Why an operation was refused.
#[derive(Clone, Copy, PartialEq, Eq, Structural, Debug)]
pub enum Error {
    /// No profile exists for the user id.
    UserNotFound,
    /// The user lacks a resolved decentralized identity.
    IdentityNotFound,
    /// The offered stake is below the tier's minimum; carries the amount
    /// that the tier requires.
    InsufficientStake { required: u64 },
    /// A penalty was requested against a user with no stake record.
    NoActiveStake,
    /// The backing store was never initialized.  Raised only at the host
    /// boundary; the library's own operations never produce it.
    StorageUninitialized,
    /// No product exists for the product id.
    ProductNotFound,
    /// An unverified user tried to publish a review.
    ReviewerUnverified,
    /// Analytics were requested without a live subscription.
    SubscriptionRequired,
}

/// The human-readable message of an error, carrying the offending
/// parameter.
pub open spec fn spec_message(e: Error) -> Seq<char> {
    match e {
        Error::UserNotFound => "User not found"@,
        Error::IdentityNotFound => "User profile or DID not found"@,
        Error::InsufficientStake { required } => "Insufficient stake amount. Required: "@
            + spec_u64_dec(required as int) + " IDR"@,
        Error::NoActiveStake => "User has no stake to penalize"@,
        Error::StorageUninitialized => "Storage not initialized"@,
        Error::ProductNotFound => "Product not found"@,
        Error::ReviewerUnverified => "User must be verified to create reviews"@,
        Error::SubscriptionRequired => "Valid analytics subscription required"@,
    }
}

impl Error {
    /// Render the message.
    pub fn message(&self) -> (r: String)
        ensures
            r@ == spec_message(*self),
    {
        match self {
            Error::UserNotFound => String::from_str("User not found"),
            Error::IdentityNotFound => String::from_str("User profile or DID not found"),
            Error::InsufficientStake { required } => {
                let mut s = String::from_str("Insufficient stake amount. Required: ");
                let num = u64_to_string(*required);
                s.append(num.as_str());
                s.append(" IDR");
                s
            },
            Error::NoActiveStake => String::from_str("User has no stake to penalize"),
            Error::StorageUninitialized => String::from_str("Storage not initialized"),
            Error::ProductNotFound => String::from_str("Product not found"),
            Error::ReviewerUnverified => String::from_str(
                "User must be verified to create reviews",
            ),
            Error::SubscriptionRequired => String::from_str(
                "Valid analytics subscription required",
            ),
        }
    }
}

} // verus!
