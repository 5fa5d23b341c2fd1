use vstd::prelude::*;

verus! {

/// The registry of error codes.
///
/// A code is the stable identifier of an error category. It travels between
/// services, so its text is part of the wire contract: two codes are the same
/// exactly when their texts are the same, character for character.
pub struct Code;

impl Code {
    /// Code of an [`ObjectNotFoundException`](crate::errors::ObjectNotFoundException).
    pub const OBJECT_NOT_FOUND: &'static str = "OBJECT_NOT_FOUND";

    /// Code of a [`SomethingWentWrongException`](crate::errors::SomethingWentWrongException),
    /// the category of every error that has no other.
    pub const SOMETHING_WENT_WRONG: &'static str = "SOMETHING_WENT_WRONG";

    /// Code of a [`SecurityException`](crate::errors::SecurityException).
    pub const INVALID_AUTHORIZATION: &'static str = "INVALID_AUTHORIZATION";

    /// Code of a [`ValidationException`](crate::errors::ValidationException).
    pub const INVALID_MESSAGE: &'static str = "INVALID_MESSAGE";

    /// Code of a [`DbRowLockedException`](crate::errors::DbRowLockedException).
    pub const DATABASE_ROW_LOCKED: &'static str = "DATABASE_ROW_LOCKED";

    /// Code of a [`DbUpdateConcurrencyException`](crate::errors::DbUpdateConcurrencyException).
    pub const DATABASE_CONCURRENCY: &'static str = "DATABASE_CONCURRENCY";

    /// Code of a [`TimeoutException`](crate::errors::TimeoutException).
    pub const TIMEOUT: &'static str = "TIMEOUT";

    /// Code of a [`MaxRetriesExceededException`](crate::errors::MaxRetriesExceededException).
    pub const MAX_RETRIES_EXCEEDED: &'static str = "MAX_RETRIES_EXCEEDED";

    /// Code of an [`OperationNotAllowedException`](crate::errors::OperationNotAllowedException).
    pub const OPERATION_NOT_ALLOWED: &'static str = "OPERATION_NOT_ALLOWED";

    /// Whether `code` is, character for character, one of the codes of the registry.
    pub open spec fn is_registered(code: Seq<char>) -> bool {
        ||| code == Code::OBJECT_NOT_FOUND@
        ||| code == Code::SOMETHING_WENT_WRONG@
        ||| code == Code::INVALID_AUTHORIZATION@
        ||| code == Code::INVALID_MESSAGE@
        ||| code == Code::DATABASE_ROW_LOCKED@
        ||| code == Code::DATABASE_CONCURRENCY@
        ||| code == Code::TIMEOUT@
        ||| code == Code::MAX_RETRIES_EXCEEDED@
        ||| code == Code::OPERATION_NOT_ALLOWED@
    }
}

} // verus!
