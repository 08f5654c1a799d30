use vstd::prelude::*;

verus! {

#[verifier::external_type_specification]
#[verifier::external_body]
pub struct ExSqliteError(rusqlite::Error);

/// Why an estimator call failed.
#[derive(Debug)]
pub enum EstimatorError {
    /// Some dimension of the operation's class has never been observed.
    NoEstimateAvailable,
    /// The store could not be opened or created.
    StorageUnavailable(rusqlite::Error),
    /// A stored value is present but cannot be read back.
    DeserializationError,
    /// The store failed during a read, a write or a commit.
    StorageError(rusqlite::Error),
}

} // verus!
