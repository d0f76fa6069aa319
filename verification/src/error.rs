//! Error taxonomy: named conflict errors, infrastructure errors, and the
//! single boundary conversion that flattens both into a storage message.

use vstd::prelude::*;

verus! {

/// Opaque error of the key-value store.
#[verifier::external_type_specification]
#[verifier::external_body]
pub struct ExFjallError(fjall::Error);

/// Opaque error kind of the record serializer.
#[verifier::external_type_specification]
#[verifier::external_body]
pub struct ExBincodeErrorKind(bincode::ErrorKind);

/// Opaque error of a clock read that lies before the epoch.
#[verifier::external_type_specification]
#[verifier::external_body]
pub struct ExSystemTimeError(std::time::SystemTimeError);

/// Opaque error of bytes that are no UTF-8 text.
#[verifier::external_type_specification]
#[verifier::external_body]
pub struct ExUtf8Error(std::str::Utf8Error);

/// Opaque error of a byte slice whose length is not that of the array asked
/// for.
#[verifier::external_type_specification]
#[verifier::external_body]
pub struct ExTryFromSliceError(std::array::TryFromSliceError);

/// A conflict that the caller recovers from by aborting or retrying.
#[derive(Debug, Clone, Copy, PartialEq, Eq)]
pub enum TransactionError {
    Abort(&'static str),
}

impl TransactionError {
    /// The human-readable reason.
    pub open spec fn reason(self) -> Seq<char> {
        match self {
            TransactionError::Abort(msg) => msg@,
        }
    }

    /// The human-readable reason as an owned string.
    pub fn message(&self) -> (text: String)
        ensures
            text@ == self.reason(),
    {
        match self {
            TransactionError::Abort(msg) => (*msg).to_owned(),
        }
    }
}

/// Every failure an operation of this layer can meet.
pub enum StorageError {
    Fjall(fjall::Error),
    Bincode(bincode::Error),
    Str(std::str::Utf8Error),
    SystemTime(std::time::SystemTimeError),
    TryFromSlice(std::array::TryFromSliceError),
    TransactionError(TransactionError),
}

/// The generic error handed to the query engine.
#[derive(Debug, Clone, PartialEq, Eq)]
pub enum EngineError {
    StorageMsg(String),
}

impl EngineError {
    /// The message carried by the error.
    pub open spec fn text(self) -> Seq<char> {
        match self {
            EngineError::StorageMsg(msg) => msg@,
        }
    }

    /// The message carried by the error, as an owned string.
    pub fn message(&self) -> (text: String)
        ensures
            text@ == self.text(),
    {
        match self {
            EngineError::StorageMsg(msg) => msg.clone(),
        }
    }
}

/// Views a result by the message of its error, so that contracts can compare
/// outcomes as plain values.
pub open spec fn outcome<T>(r: Result<T, EngineError>) -> Result<T, Seq<char>> {
    match r {
        Ok(v) => Ok(v),
        Err(e) => Err(e.text()),
    }
}

/// Builds the storage error that carries `msg`.
pub fn storage_msg(msg: &str) -> (e: EngineError)
    ensures
        e.text() == msg@,
{
    EngineError::StorageMsg(msg.to_owned())
}

/// Whether `e` is what `cause` flattens to: for a conflict the error that
/// carries its reason, for an infrastructure failure the error that carries
/// the text its source displays.
pub open spec fn flattened(cause: StorageError, e: EngineError) -> bool {
    match (cause, e) {
        (StorageError::Fjall(source), EngineError::StorageMsg(msg)) => {
            vstd::string::to_string_from_display_ensures(&source, msg)
        },
        (StorageError::Bincode(source), EngineError::StorageMsg(msg)) => {
            vstd::string::to_string_from_display_ensures(&source, msg)
        },
        (StorageError::Str(source), EngineError::StorageMsg(msg)) => {
            vstd::string::to_string_from_display_ensures(&source, msg)
        },
        (StorageError::SystemTime(source), EngineError::StorageMsg(msg)) => {
            vstd::string::to_string_from_display_ensures(&source, msg)
        },
        (StorageError::TryFromSlice(source), EngineError::StorageMsg(msg)) => {
            vstd::string::to_string_from_display_ensures(&source, msg)
        },
        (StorageError::TransactionError(conflict), EngineError::StorageMsg(msg)) => {
            msg@ == conflict.reason()
        },
    }
}

/// Whether `e` reports a failure of the store itself: of its reads and
/// writes or of the decoding of what it holds.
pub open spec fn store_failure(e: EngineError) -> bool {
    exists|cause: StorageError|
        (cause is Fjall || cause is Bincode) && #[trigger] flattened(cause, e)
}

/// Whether `e` reports a failure of the wall clock.
pub open spec fn clock_failure(e: EngineError) -> bool {
    exists|cause: StorageError| cause is SystemTime && #[trigger] flattened(cause, e)
}

/// Flattens any failure into the query engine's error: a conflict keeps its
/// reason as the message, an infrastructure failure becomes the text that its
/// source displays.
pub fn err_into(e: StorageError) -> (r: EngineError)
    ensures
        flattened(e, r),
        e matches StorageError::TransactionError(t) ==> r.text() == t.reason(),
        (e is Fjall || e is Bincode) ==> store_failure(r),
        e is SystemTime ==> clock_failure(r),
{
    match e {
        StorageError::Fjall(e) => EngineError::StorageMsg(e.to_string()),
        StorageError::Bincode(e) => EngineError::StorageMsg(e.to_string()),
        StorageError::Str(e) => EngineError::StorageMsg(e.to_string()),
        StorageError::SystemTime(e) => EngineError::StorageMsg(e.to_string()),
        StorageError::TryFromSlice(e) => EngineError::StorageMsg(e.to_string()),
        StorageError::TransactionError(e) => EngineError::StorageMsg(e.message()),
    }
}

} // verus!
