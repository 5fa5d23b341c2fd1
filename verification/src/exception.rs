use crate::errors::{
    BaseError, DbRowLockedException, DbUpdateConcurrencyException, MaxRetriesExceededException,
    ObjectNotFoundException, OperationNotAllowedException, SecurityException,
    SomethingWentWrongException, TimeoutException, ValidationException,
};
use crate::kind::ErrorKind;
use crate::level::Level;
use crate::model::ErrorModel;
use crate::text::opt_text;
use vstd::prelude::*;

verus! {

/// An error of any of the nine kinds: what comes out where the kind is only
/// known from a code.
#[derive(Debug)]
pub enum Exception {
    ObjectNotFound(ObjectNotFoundException),
    Security(SecurityException),
    Validation(ValidationException),
    DbRowLocked(DbRowLockedException),
    DbUpdateConcurrency(DbUpdateConcurrencyException),
    Timeout(TimeoutException),
    MaxRetriesExceeded(MaxRetriesExceededException),
    OperationNotAllowed(OperationNotAllowedException),
    SomethingWentWrong(SomethingWentWrongException),
}

impl View for Exception {
    type V = ErrorModel;

    open spec fn view(&self) -> ErrorModel {
        match self {
            Exception::ObjectNotFound(e) => e@,
            Exception::Security(e) => e@,
            Exception::Validation(e) => e@,
            Exception::DbRowLocked(e) => e@,
            Exception::DbUpdateConcurrency(e) => e@,
            Exception::Timeout(e) => e@,
            Exception::MaxRetriesExceeded(e) => e@,
            Exception::OperationNotAllowed(e) => e@,
            Exception::SomethingWentWrong(e) => e@,
        }
    }
}

impl Exception {
    /// The kind that the variant stands for.
    pub open spec fn variant(&self) -> ErrorKind {
        match self {
            Exception::ObjectNotFound(_) => ErrorKind::ObjectNotFound,
            Exception::Security(_) => ErrorKind::Security,
            Exception::Validation(_) => ErrorKind::Validation,
            Exception::DbRowLocked(_) => ErrorKind::DbRowLocked,
            Exception::DbUpdateConcurrency(_) => ErrorKind::DbUpdateConcurrency,
            Exception::Timeout(_) => ErrorKind::Timeout,
            Exception::MaxRetriesExceeded(_) => ErrorKind::MaxRetriesExceeded,
            Exception::OperationNotAllowed(_) => ErrorKind::OperationNotAllowed,
            Exception::SomethingWentWrong(_) => ErrorKind::SomethingWentWrong,
        }
    }

    /// The kind of the error that a variant holds is the kind that the
    /// variant stands for.
    pub proof fn lemma_variant_kind(&self)
        ensures
            self@.kind == self.variant(),
    {
        match self {
            Exception::ObjectNotFound(e) => e.lemma_kind(),
            Exception::Security(e) => e.lemma_kind(),
            Exception::Validation(e) => e.lemma_kind(),
            Exception::DbRowLocked(e) => e.lemma_kind(),
            Exception::DbUpdateConcurrency(e) => e.lemma_kind(),
            Exception::Timeout(e) => e.lemma_kind(),
            Exception::MaxRetriesExceeded(e) => e.lemma_kind(),
            Exception::OperationNotAllowed(e) => e.lemma_kind(),
            Exception::SomethingWentWrong(e) => e.lemma_kind(),
        }
    }

    /// An error of the given kind with the given message and detail, of the
    /// severity that the kind brings.
    pub fn new(kind: ErrorKind, message: &str, detail: Option<String>) -> (error: Self)
        ensures
            error@ == ErrorModel::new(kind, message@, opt_text(detail)),
            error.variant() == kind,
    {
        match kind {
            ErrorKind::ObjectNotFound => Exception::ObjectNotFound(ObjectNotFoundException::new(message, detail)),
            ErrorKind::Security => Exception::Security(SecurityException::new(message, detail)),
            ErrorKind::Validation => Exception::Validation(ValidationException::new(message, detail)),
            ErrorKind::DbRowLocked => Exception::DbRowLocked(DbRowLockedException::new(message, detail)),
            ErrorKind::DbUpdateConcurrency => Exception::DbUpdateConcurrency(DbUpdateConcurrencyException::new(message, detail)),
            ErrorKind::Timeout => Exception::Timeout(TimeoutException::new(message, detail)),
            ErrorKind::MaxRetriesExceeded => Exception::MaxRetriesExceeded(MaxRetriesExceededException::new(message, detail)),
            ErrorKind::OperationNotAllowed => Exception::OperationNotAllowed(OperationNotAllowedException::new(message, detail)),
            ErrorKind::SomethingWentWrong => Exception::SomethingWentWrong(SomethingWentWrongException::new(message, detail)),
        }
    }
}

impl BaseError for Exception {
    fn code(&self) -> (code: &'static str) {
        match self {
            Exception::ObjectNotFound(e) => e.code(),
            Exception::Security(e) => e.code(),
            Exception::Validation(e) => e.code(),
            Exception::DbRowLocked(e) => e.code(),
            Exception::DbUpdateConcurrency(e) => e.code(),
            Exception::Timeout(e) => e.code(),
            Exception::MaxRetriesExceeded(e) => e.code(),
            Exception::OperationNotAllowed(e) => e.code(),
            Exception::SomethingWentWrong(e) => e.code(),
        }
    }

    fn level(&self) -> (level: Level) {
        match self {
            Exception::ObjectNotFound(e) => e.level(),
            Exception::Security(e) => e.level(),
            Exception::Validation(e) => e.level(),
            Exception::DbRowLocked(e) => e.level(),
            Exception::DbUpdateConcurrency(e) => e.level(),
            Exception::Timeout(e) => e.level(),
            Exception::MaxRetriesExceeded(e) => e.level(),
            Exception::OperationNotAllowed(e) => e.level(),
            Exception::SomethingWentWrong(e) => e.level(),
        }
    }

    fn detail(&self) -> (detail: Option<&str>) {
        match self {
            Exception::ObjectNotFound(e) => e.detail(),
            Exception::Security(e) => e.detail(),
            Exception::Validation(e) => e.detail(),
            Exception::DbRowLocked(e) => e.detail(),
            Exception::DbUpdateConcurrency(e) => e.detail(),
            Exception::Timeout(e) => e.detail(),
            Exception::MaxRetriesExceeded(e) => e.detail(),
            Exception::OperationNotAllowed(e) => e.detail(),
            Exception::SomethingWentWrong(e) => e.detail(),
        }
    }

    fn set_detail(&mut self, detail: String) {
        match self {
            Exception::ObjectNotFound(e) => e.set_detail(detail),
            Exception::Security(e) => e.set_detail(detail),
            Exception::Validation(e) => e.set_detail(detail),
            Exception::DbRowLocked(e) => e.set_detail(detail),
            Exception::DbUpdateConcurrency(e) => e.set_detail(detail),
            Exception::Timeout(e) => e.set_detail(detail),
            Exception::MaxRetriesExceeded(e) => e.set_detail(detail),
            Exception::OperationNotAllowed(e) => e.set_detail(detail),
            Exception::SomethingWentWrong(e) => e.set_detail(detail),
        }
    }

    fn to_string(&self) -> (message: String) {
        match self {
            Exception::ObjectNotFound(e) => e.to_string(),
            Exception::Security(e) => e.to_string(),
            Exception::Validation(e) => e.to_string(),
            Exception::DbRowLocked(e) => e.to_string(),
            Exception::DbUpdateConcurrency(e) => e.to_string(),
            Exception::Timeout(e) => e.to_string(),
            Exception::MaxRetriesExceeded(e) => e.to_string(),
            Exception::OperationNotAllowed(e) => e.to_string(),
            Exception::SomethingWentWrong(e) => e.to_string(),
        }
    }
}

} // verus!
