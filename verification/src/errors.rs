//! The reasons for which a record is refused.

use vstd::prelude::*;
use vstd::string::*;

verus! {

/// Why a log record was not created.
#[derive(Debug, Clone, Copy, PartialEq, Eq, Structural)]
pub enum CustomError {
    /// The category label takes more bytes than a record has room for.
    CategoryTooLong,
    /// A record already lives at the address derived for the new one.
    DuplicateRecord,
    /// No valid address could be derived from the owner and the timestamp.
    AddressUnavailable,
}

impl CustomError {
    /// Whether the caller's input was at fault, as opposed to the state of
    /// the ledger: only such an error is mended by sending the same record
    /// again with a corrected field.
    pub open spec fn spec_is_validation(&self) -> bool {
        *self == CustomError::CategoryTooLong
    }

    /// Executable form of [`CustomError::spec_is_validation`].
    #[verifier::when_used_as_spec(spec_is_validation)]
    pub fn is_validation(&self) -> (r: bool)
        ensures
            r == self.spec_is_validation(),
    {
        match self {
            CustomError::CategoryTooLong => true,
            CustomError::DuplicateRecord => false,
            CustomError::AddressUnavailable => false,
        }
    }

    /// The text shown to the caller for this error.
    pub open spec fn spec_message(&self) -> Seq<char> {
        match self {
            CustomError::CategoryTooLong => "Category too long (max 32 chars)"@,
            CustomError::DuplicateRecord => "A log already exists for this owner and timestamp"@,
            CustomError::AddressUnavailable => "No address can be derived for this log"@,
        }
    }

    /// The text shown to the caller for this error.
    pub fn message(&self) -> (r: String)
        ensures
            r@ == self.spec_message(),
    {
        match self {
            CustomError::CategoryTooLong => String::from_str("Category too long (max 32 chars)"),
            CustomError::DuplicateRecord => String::from_str(
                "A log already exists for this owner and timestamp",
            ),
            CustomError::AddressUnavailable => String::from_str(
                "No address can be derived for this log",
            ),
        }
    }
}

} // verus!
