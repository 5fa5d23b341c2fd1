use crate::code::Code;
use crate::level::Level;
use crate::text::text_eq;
use vstd::prelude::*;

verus! {

/// The nine kinds of error. Each kind is bound to exactly one code of the
/// registry and to the severity that an error of the kind has unless it is
/// given another.
#[derive(Debug, Clone, Copy, PartialEq, Eq, Structural)]
pub enum ErrorKind {
    ObjectNotFound,
    Security,
    Validation,
    DbRowLocked,
    DbUpdateConcurrency,
    Timeout,
    MaxRetriesExceeded,
    OperationNotAllowed,
    /// The kind of every error that is of no other kind.
    SomethingWentWrong,
}

impl ErrorKind {
    /// The text of the code that the kind is bound to.
    pub open spec fn spec_code(self) -> Seq<char> {
        match self {
            ErrorKind::ObjectNotFound => Code::OBJECT_NOT_FOUND@,
            ErrorKind::Security => Code::INVALID_AUTHORIZATION@,
            ErrorKind::Validation => Code::INVALID_MESSAGE@,
            ErrorKind::DbRowLocked => Code::DATABASE_ROW_LOCKED@,
            ErrorKind::DbUpdateConcurrency => Code::DATABASE_CONCURRENCY@,
            ErrorKind::Timeout => Code::TIMEOUT@,
            ErrorKind::MaxRetriesExceeded => Code::MAX_RETRIES_EXCEEDED@,
            ErrorKind::OperationNotAllowed => Code::OPERATION_NOT_ALLOWED@,
            ErrorKind::SomethingWentWrong => Code::SOMETHING_WENT_WRONG@,
        }
    }

    /// The severity of an error of the kind that was given none: `Warning` for
    /// an object that was not found, `Error` for every other kind.
    pub open spec fn spec_default_level(self) -> Level {
        match self {
            ErrorKind::ObjectNotFound => Level::Warning,
            _ => Level::Error,
        }
    }

    /// The kind that a code stands for: the kind bound to it where the text is
    /// exactly that of a code, and `SomethingWentWrong` for every other text.
    pub open spec fn spec_from_code(code: Seq<char>) -> ErrorKind {
        if code == Code::OBJECT_NOT_FOUND@ {
            ErrorKind::ObjectNotFound
        } else if code == Code::INVALID_AUTHORIZATION@ {
            ErrorKind::Security
        } else if code == Code::INVALID_MESSAGE@ {
            ErrorKind::Validation
        } else if code == Code::DATABASE_ROW_LOCKED@ {
            ErrorKind::DbRowLocked
        } else if code == Code::DATABASE_CONCURRENCY@ {
            ErrorKind::DbUpdateConcurrency
        } else if code == Code::TIMEOUT@ {
            ErrorKind::Timeout
        } else if code == Code::MAX_RETRIES_EXCEEDED@ {
            ErrorKind::MaxRetriesExceeded
        } else if code == Code::OPERATION_NOT_ALLOWED@ {
            ErrorKind::OperationNotAllowed
        } else {
            ErrorKind::SomethingWentWrong
        }
    }

    /// The code that the kind is bound to.
    pub fn code(self) -> (code: &'static str)
        ensures
            code@ == self.spec_code(),
    {
        match self {
            ErrorKind::ObjectNotFound => Code::OBJECT_NOT_FOUND,
            ErrorKind::Security => Code::INVALID_AUTHORIZATION,
            ErrorKind::Validation => Code::INVALID_MESSAGE,
            ErrorKind::DbRowLocked => Code::DATABASE_ROW_LOCKED,
            ErrorKind::DbUpdateConcurrency => Code::DATABASE_CONCURRENCY,
            ErrorKind::Timeout => Code::TIMEOUT,
            ErrorKind::MaxRetriesExceeded => Code::MAX_RETRIES_EXCEEDED,
            ErrorKind::OperationNotAllowed => Code::OPERATION_NOT_ALLOWED,
            ErrorKind::SomethingWentWrong => Code::SOMETHING_WENT_WRONG,
        }
    }

    /// The severity of an error of the kind that was given none.
    pub fn default_level(self) -> (level: Level)
        ensures
            level == self.spec_default_level(),
    {
        match self {
            ErrorKind::ObjectNotFound => Level::Warning,
            _ => Level::Error,
        }
    }

    /// Looks a code up in the registry. The lookup is total: a text that is not
    /// exactly a code of the registry gives `SomethingWentWrong`.
    pub fn from_code(code: &str) -> (kind: ErrorKind)
        ensures
            kind == ErrorKind::spec_from_code(code@),
    {
        if text_eq(code, Code::OBJECT_NOT_FOUND) {
            ErrorKind::ObjectNotFound
        } else if text_eq(code, Code::INVALID_AUTHORIZATION) {
            ErrorKind::Security
        } else if text_eq(code, Code::INVALID_MESSAGE) {
            ErrorKind::Validation
        } else if text_eq(code, Code::DATABASE_ROW_LOCKED) {
            ErrorKind::DbRowLocked
        } else if text_eq(code, Code::DATABASE_CONCURRENCY) {
            ErrorKind::DbUpdateConcurrency
        } else if text_eq(code, Code::TIMEOUT) {
            ErrorKind::Timeout
        } else if text_eq(code, Code::MAX_RETRIES_EXCEEDED) {
            ErrorKind::MaxRetriesExceeded
        } else if text_eq(code, Code::OPERATION_NOT_ALLOWED) {
            ErrorKind::OperationNotAllowed
        } else {
            ErrorKind::SomethingWentWrong
        }
    }
}

/// Length and first character of each kind's code: enough to tell any two apart.
proof fn lemma_code_shape(kind: ErrorKind)
    ensures
        kind.spec_code().len() == match kind {
            ErrorKind::ObjectNotFound => 16nat,
            ErrorKind::Security => 21nat,
            ErrorKind::Validation => 15nat,
            ErrorKind::DbRowLocked => 19nat,
            ErrorKind::DbUpdateConcurrency => 20nat,
            ErrorKind::Timeout => 7nat,
            ErrorKind::MaxRetriesExceeded => 20nat,
            ErrorKind::OperationNotAllowed => 21nat,
            ErrorKind::SomethingWentWrong => 20nat,
        },
        kind.spec_code()[0] == match kind {
            ErrorKind::ObjectNotFound => 'O',
            ErrorKind::Security => 'I',
            ErrorKind::Validation => 'I',
            ErrorKind::DbRowLocked => 'D',
            ErrorKind::DbUpdateConcurrency => 'D',
            ErrorKind::Timeout => 'T',
            ErrorKind::MaxRetriesExceeded => 'M',
            ErrorKind::OperationNotAllowed => 'O',
            ErrorKind::SomethingWentWrong => 'S',
        },
{
    reveal_strlit("OBJECT_NOT_FOUND");
    reveal_strlit("SOMETHING_WENT_WRONG");
    reveal_strlit("INVALID_AUTHORIZATION");
    reveal_strlit("INVALID_MESSAGE");
    reveal_strlit("DATABASE_ROW_LOCKED");
    reveal_strlit("DATABASE_CONCURRENCY");
    reveal_strlit("TIMEOUT");
    reveal_strlit("MAX_RETRIES_EXCEEDED");
    reveal_strlit("OPERATION_NOT_ALLOWED");
}

/// No two kinds share a code.
pub proof fn lemma_codes_distinct(a: ErrorKind, b: ErrorKind)
    ensures
        a.spec_code() == b.spec_code() <==> a == b,
{
    lemma_code_shape(a);
    lemma_code_shape(b);
}

/// The text of a code is registered exactly when some kind is bound to it.
pub proof fn lemma_registered_codes(code: Seq<char>)
    ensures
        Code::is_registered(code) <==> exists|kind: ErrorKind| kind.spec_code() == code,
{
    if Code::is_registered(code) {
        let kind = ErrorKind::spec_from_code(code);
        assert(kind.spec_code() == code);
    }
}

/// Looking up the code of a kind gives that kind back, for each of the nine.
pub proof fn lemma_from_code_of_code(kind: ErrorKind)
    ensures
        ErrorKind::spec_from_code(kind.spec_code()) == kind,
{
    // The lookup gives a kind with the same code, and no other kind has it.
    lemma_codes_distinct(ErrorKind::spec_from_code(kind.spec_code()), kind);
}

/// A registered code is the code of the kind that the lookup gives for it.
pub proof fn lemma_code_of_from_code(code: Seq<char>)
    requires
        Code::is_registered(code),
    ensures
        ErrorKind::spec_from_code(code).spec_code() == code,
{
}

/// A text that is not registered stands for `SomethingWentWrong`.
pub proof fn lemma_unregistered_falls_back(code: Seq<char>)
    requires
        !Code::is_registered(code),
    ensures
        ErrorKind::spec_from_code(code) == ErrorKind::SomethingWentWrong,
{
}

/// A registered code has one of six lengths. So the empty text is not
/// registered, nor is a code with a character put before, into or after it.
pub proof fn lemma_registered_length(code: Seq<char>)
    requires
        Code::is_registered(code),
    ensures
        code.len() == 7 || code.len() == 15 || code.len() == 16 || code.len() == 19 || code.len()
            == 20 || code.len() == 21,
{
    lemma_code_shape(ErrorKind::spec_from_code(code));
}

} // verus!
