use crate::code::Code;
use crate::kind::ErrorKind;
use crate::level::Level;
use crate::model::ErrorModel;
use crate::response::PmsResponse;
use crate::text::{opt_str_text, opt_text};
use vstd::prelude::*;

verus! {

/// What every error of the taxonomy offers.
///
/// An error is a value: its kind is fixed by its type, its message and its
/// severity by its construction, and only its detail can be set afterwards.
pub trait BaseError: View<V = ErrorModel> + Send + Sync + 'static {
    /// The code that the error's kind is bound to.
    fn code(&self) -> (code: &'static str)
        ensures
            code@ == self@.code(),
    ;

    /// The severity of the error.
    fn level(&self) -> (level: Level)
        ensures
            level == self@.level,
    ;

    /// The detail of the error, if it has one.
    fn detail(&self) -> (detail: Option<&str>)
        ensures
            opt_str_text(detail) == self@.detail,
    ;

    /// Gives the error a detail, in place of the one it may have had.
    /// Kind, message and severity stay as they are.
    fn set_detail(&mut self, detail: String)
        ensures
            final(self)@ == old(self)@.set_detail(detail@),
    ;

    /// The message of the error, exactly as it was given: nothing is put
    /// before or after it and nothing is cut off.
    fn to_string(&self) -> (message: String)
        ensures
            message@ == self@.message,
    ;

    /// The record in which the error travels: its code, its message, and its
    /// detail, or `null` where it has none. The severity does not travel.
    fn to_pms_response(&self) -> (response: PmsResponse)
        ensures
            response@ == self@.to_pms_response(),
    {
        let code = self.code().to_owned();
        let message = self.to_string();
        let detail = match self.detail() {
            Some(d) => Some(d.to_owned()),
            None => None,
        };
        PmsResponse::new(code, message, detail)
    }
}

/// An object that was looked for is not there.
#[derive(Debug)]
pub struct ObjectNotFoundException {
    message: String,
    detail: Option<String>,
    level: Level,
}

impl View for ObjectNotFoundException {
    type V = ErrorModel;

    closed spec fn view(&self) -> ErrorModel {
        ErrorModel {
            kind: ErrorKind::ObjectNotFound,
            message: self.message@,
            detail: opt_text(self.detail),
            level: self.level,
        }
    }
}

impl ObjectNotFoundException {
    /// An error with the given message and detail, of severity `Warning`.
    pub fn new(message: &str, detail: Option<String>) -> (error: Self)
        ensures
            error@ == ErrorModel::new(ErrorKind::ObjectNotFound, message@, opt_text(detail)),
    {
        ObjectNotFoundException {
            message: message.to_owned(),
            detail,
            level: ErrorKind::ObjectNotFound.default_level(),
        }
    }

    /// An error with the given message, detail and severity.
    pub fn with_level(message: &str, detail: Option<String>, level: Level) -> (error: Self)
        ensures
            error@ == ErrorModel::with_level(ErrorKind::ObjectNotFound, message@, opt_text(detail), level),
    {
        ObjectNotFoundException { message: message.to_owned(), detail, level }
    }

    /// Every value of this type is of the kind `ObjectNotFound`.
    pub proof fn lemma_kind(&self)
        ensures
            self@.kind == ErrorKind::ObjectNotFound,
    {
    }
}

impl BaseError for ObjectNotFoundException {
    fn code(&self) -> (code: &'static str)
        ensures
            code@ == Code::OBJECT_NOT_FOUND@,
    {
        ErrorKind::ObjectNotFound.code()
    }

    fn level(&self) -> (level: Level) {
        self.level
    }

    fn detail(&self) -> (detail: Option<&str>) {
        match &self.detail {
            Some(d) => Some(d.as_str()),
            None => None,
        }
    }

    fn set_detail(&mut self, detail: String) {
        self.detail = Some(detail);
    }

    fn to_string(&self) -> (message: String) {
        self.message.clone()
    }
}

/// The caller is not authorized to do what it asked for.
#[derive(Debug)]
pub struct SecurityException {
    message: String,
    detail: Option<String>,
    level: Level,
}

impl View for SecurityException {
    type V = ErrorModel;

    closed spec fn view(&self) -> ErrorModel {
        ErrorModel {
            kind: ErrorKind::Security,
            message: self.message@,
            detail: opt_text(self.detail),
            level: self.level,
        }
    }
}

impl SecurityException {
    /// An error with the given message and detail, of severity `Error`.
    pub fn new(message: &str, detail: Option<String>) -> (error: Self)
        ensures
            error@ == ErrorModel::new(ErrorKind::Security, message@, opt_text(detail)),
    {
        SecurityException {
            message: message.to_owned(),
            detail,
            level: ErrorKind::Security.default_level(),
        }
    }

    /// An error with the given message, detail and severity.
    pub fn with_level(message: &str, detail: Option<String>, level: Level) -> (error: Self)
        ensures
            error@ == ErrorModel::with_level(ErrorKind::Security, message@, opt_text(detail), level),
    {
        SecurityException { message: message.to_owned(), detail, level }
    }

    /// Every value of this type is of the kind `Security`.
    pub proof fn lemma_kind(&self)
        ensures
            self@.kind == ErrorKind::Security,
    {
    }
}

impl BaseError for SecurityException {
    fn code(&self) -> (code: &'static str)
        ensures
            code@ == Code::INVALID_AUTHORIZATION@,
    {
        ErrorKind::Security.code()
    }

    fn level(&self) -> (level: Level) {
        self.level
    }

    fn detail(&self) -> (detail: Option<&str>) {
        match &self.detail {
            Some(d) => Some(d.as_str()),
            None => None,
        }
    }

    fn set_detail(&mut self, detail: String) {
        self.detail = Some(detail);
    }

    fn to_string(&self) -> (message: String) {
        self.message.clone()
    }
}

/// A message or an input is not valid.
#[derive(Debug)]
pub struct ValidationException {
    message: String,
    detail: Option<String>,
    level: Level,
}

impl View for ValidationException {
    type V = ErrorModel;

    closed spec fn view(&self) -> ErrorModel {
        ErrorModel {
            kind: ErrorKind::Validation,
            message: self.message@,
            detail: opt_text(self.detail),
            level: self.level,
        }
    }
}

impl ValidationException {
    /// An error with the given message and detail, of severity `Error`.
    pub fn new(message: &str, detail: Option<String>) -> (error: Self)
        ensures
            error@ == ErrorModel::new(ErrorKind::Validation, message@, opt_text(detail)),
    {
        ValidationException {
            message: message.to_owned(),
            detail,
            level: ErrorKind::Validation.default_level(),
        }
    }

    /// An error with the given message, detail and severity.
    pub fn with_level(message: &str, detail: Option<String>, level: Level) -> (error: Self)
        ensures
            error@ == ErrorModel::with_level(ErrorKind::Validation, message@, opt_text(detail), level),
    {
        ValidationException { message: message.to_owned(), detail, level }
    }

    /// Every value of this type is of the kind `Validation`.
    pub proof fn lemma_kind(&self)
        ensures
            self@.kind == ErrorKind::Validation,
    {
    }
}

impl BaseError for ValidationException {
    fn code(&self) -> (code: &'static str)
        ensures
            code@ == Code::INVALID_MESSAGE@,
    {
        ErrorKind::Validation.code()
    }

    fn level(&self) -> (level: Level) {
        self.level
    }

    fn detail(&self) -> (detail: Option<&str>) {
        match &self.detail {
            Some(d) => Some(d.as_str()),
            None => None,
        }
    }

    fn set_detail(&mut self, detail: String) {
        self.detail = Some(detail);
    }

    fn to_string(&self) -> (message: String) {
        self.message.clone()
    }
}

/// A database row is locked by someone else.
#[derive(Debug)]
pub struct DbRowLockedException {
    message: String,
    detail: Option<String>,
    level: Level,
}

impl View for DbRowLockedException {
    type V = ErrorModel;

    closed spec fn view(&self) -> ErrorModel {
        ErrorModel {
            kind: ErrorKind::DbRowLocked,
            message: self.message@,
            detail: opt_text(self.detail),
            level: self.level,
        }
    }
}

impl DbRowLockedException {
    /// An error with the given message and detail, of severity `Error`.
    pub fn new(message: &str, detail: Option<String>) -> (error: Self)
        ensures
            error@ == ErrorModel::new(ErrorKind::DbRowLocked, message@, opt_text(detail)),
    {
        DbRowLockedException {
            message: message.to_owned(),
            detail,
            level: ErrorKind::DbRowLocked.default_level(),
        }
    }

    /// An error with the given message, detail and severity.
    pub fn with_level(message: &str, detail: Option<String>, level: Level) -> (error: Self)
        ensures
            error@ == ErrorModel::with_level(ErrorKind::DbRowLocked, message@, opt_text(detail), level),
    {
        DbRowLockedException { message: message.to_owned(), detail, level }
    }

    /// Every value of this type is of the kind `DbRowLocked`.
    pub proof fn lemma_kind(&self)
        ensures
            self@.kind == ErrorKind::DbRowLocked,
    {
    }
}

impl BaseError for DbRowLockedException {
    fn code(&self) -> (code: &'static str)
        ensures
            code@ == Code::DATABASE_ROW_LOCKED@,
    {
        ErrorKind::DbRowLocked.code()
    }

    fn level(&self) -> (level: Level) {
        self.level
    }

    fn detail(&self) -> (detail: Option<&str>) {
        match &self.detail {
            Some(d) => Some(d.as_str()),
            None => None,
        }
    }

    fn set_detail(&mut self, detail: String) {
        self.detail = Some(detail);
    }

    fn to_string(&self) -> (message: String) {
        self.message.clone()
    }
}

/// A database update met a concurrent one.
#[derive(Debug)]
pub struct DbUpdateConcurrencyException {
    message: String,
    detail: Option<String>,
    level: Level,
}

impl View for DbUpdateConcurrencyException {
    type V = ErrorModel;

    closed spec fn view(&self) -> ErrorModel {
        ErrorModel {
            kind: ErrorKind::DbUpdateConcurrency,
            message: self.message@,
            detail: opt_text(self.detail),
            level: self.level,
        }
    }
}

impl DbUpdateConcurrencyException {
    /// An error with the given message and detail, of severity `Error`.
    pub fn new(message: &str, detail: Option<String>) -> (error: Self)
        ensures
            error@ == ErrorModel::new(ErrorKind::DbUpdateConcurrency, message@, opt_text(detail)),
    {
        DbUpdateConcurrencyException {
            message: message.to_owned(),
            detail,
            level: ErrorKind::DbUpdateConcurrency.default_level(),
        }
    }

    /// An error with the given message, detail and severity.
    pub fn with_level(message: &str, detail: Option<String>, level: Level) -> (error: Self)
        ensures
            error@ == ErrorModel::with_level(ErrorKind::DbUpdateConcurrency, message@, opt_text(detail), level),
    {
        DbUpdateConcurrencyException { message: message.to_owned(), detail, level }
    }

    /// Every value of this type is of the kind `DbUpdateConcurrency`.
    pub proof fn lemma_kind(&self)
        ensures
            self@.kind == ErrorKind::DbUpdateConcurrency,
    {
    }
}

impl BaseError for DbUpdateConcurrencyException {
    fn code(&self) -> (code: &'static str)
        ensures
            code@ == Code::DATABASE_CONCURRENCY@,
    {
        ErrorKind::DbUpdateConcurrency.code()
    }

    fn level(&self) -> (level: Level) {
        self.level
    }

    fn detail(&self) -> (detail: Option<&str>) {
        match &self.detail {
            Some(d) => Some(d.as_str()),
            None => None,
        }
    }

    fn set_detail(&mut self, detail: String) {
        self.detail = Some(detail);
    }

    fn to_string(&self) -> (message: String) {
        self.message.clone()
    }
}

/// An operation took longer than it was given.
#[derive(Debug)]
pub struct TimeoutException {
    message: String,
    detail: Option<String>,
    level: Level,
}

impl View for TimeoutException {
    type V = ErrorModel;

    closed spec fn view(&self) -> ErrorModel {
        ErrorModel {
            kind: ErrorKind::Timeout,
            message: self.message@,
            detail: opt_text(self.detail),
            level: self.level,
        }
    }
}

impl TimeoutException {
    /// An error with the given message and detail, of severity `Error`.
    pub fn new(message: &str, detail: Option<String>) -> (error: Self)
        ensures
            error@ == ErrorModel::new(ErrorKind::Timeout, message@, opt_text(detail)),
    {
        TimeoutException {
            message: message.to_owned(),
            detail,
            level: ErrorKind::Timeout.default_level(),
        }
    }

    /// An error with the given message, detail and severity.
    pub fn with_level(message: &str, detail: Option<String>, level: Level) -> (error: Self)
        ensures
            error@ == ErrorModel::with_level(ErrorKind::Timeout, message@, opt_text(detail), level),
    {
        TimeoutException { message: message.to_owned(), detail, level }
    }

    /// Every value of this type is of the kind `Timeout`.
    pub proof fn lemma_kind(&self)
        ensures
            self@.kind == ErrorKind::Timeout,
    {
    }
}

impl BaseError for TimeoutException {
    fn code(&self) -> (code: &'static str)
        ensures
            code@ == Code::TIMEOUT@,
    {
        ErrorKind::Timeout.code()
    }

    fn level(&self) -> (level: Level) {
        self.level
    }

    fn detail(&self) -> (detail: Option<&str>) {
        match &self.detail {
            Some(d) => Some(d.as_str()),
            None => None,
        }
    }

    fn set_detail(&mut self, detail: String) {
        self.detail = Some(detail);
    }

    fn to_string(&self) -> (message: String) {
        self.message.clone()
    }
}

/// An operation failed as often as it could be tried.
#[derive(Debug)]
pub struct MaxRetriesExceededException {
    message: String,
    detail: Option<String>,
    level: Level,
}

impl View for MaxRetriesExceededException {
    type V = ErrorModel;

    closed spec fn view(&self) -> ErrorModel {
        ErrorModel {
            kind: ErrorKind::MaxRetriesExceeded,
            message: self.message@,
            detail: opt_text(self.detail),
            level: self.level,
        }
    }
}

impl MaxRetriesExceededException {
    /// An error with the given message and detail, of severity `Error`.
    pub fn new(message: &str, detail: Option<String>) -> (error: Self)
        ensures
            error@ == ErrorModel::new(ErrorKind::MaxRetriesExceeded, message@, opt_text(detail)),
    {
        MaxRetriesExceededException {
            message: message.to_owned(),
            detail,
            level: ErrorKind::MaxRetriesExceeded.default_level(),
        }
    }

    /// An error with the given message, detail and severity.
    pub fn with_level(message: &str, detail: Option<String>, level: Level) -> (error: Self)
        ensures
            error@ == ErrorModel::with_level(ErrorKind::MaxRetriesExceeded, message@, opt_text(detail), level),
    {
        MaxRetriesExceededException { message: message.to_owned(), detail, level }
    }

    /// Every value of this type is of the kind `MaxRetriesExceeded`.
    pub proof fn lemma_kind(&self)
        ensures
            self@.kind == ErrorKind::MaxRetriesExceeded,
    {
    }
}

impl BaseError for MaxRetriesExceededException {
    fn code(&self) -> (code: &'static str)
        ensures
            code@ == Code::MAX_RETRIES_EXCEEDED@,
    {
        ErrorKind::MaxRetriesExceeded.code()
    }

    fn level(&self) -> (level: Level) {
        self.level
    }

    fn detail(&self) -> (detail: Option<&str>) {
        match &self.detail {
            Some(d) => Some(d.as_str()),
            None => None,
        }
    }

    fn set_detail(&mut self, detail: String) {
        self.detail = Some(detail);
    }

    fn to_string(&self) -> (message: String) {
        self.message.clone()
    }
}

/// The operation is not allowed.
#[derive(Debug)]
pub struct OperationNotAllowedException {
    message: String,
    detail: Option<String>,
    level: Level,
}

impl View for OperationNotAllowedException {
    type V = ErrorModel;

    closed spec fn view(&self) -> ErrorModel {
        ErrorModel {
            kind: ErrorKind::OperationNotAllowed,
            message: self.message@,
            detail: opt_text(self.detail),
            level: self.level,
        }
    }
}

impl OperationNotAllowedException {
    /// An error with the given message and detail, of severity `Error`.
    pub fn new(message: &str, detail: Option<String>) -> (error: Self)
        ensures
            error@ == ErrorModel::new(ErrorKind::OperationNotAllowed, message@, opt_text(detail)),
    {
        OperationNotAllowedException {
            message: message.to_owned(),
            detail,
            level: ErrorKind::OperationNotAllowed.default_level(),
        }
    }

    /// An error with the given message, detail and severity.
    pub fn with_level(message: &str, detail: Option<String>, level: Level) -> (error: Self)
        ensures
            error@ == ErrorModel::with_level(ErrorKind::OperationNotAllowed, message@, opt_text(detail), level),
    {
        OperationNotAllowedException { message: message.to_owned(), detail, level }
    }

    /// Every value of this type is of the kind `OperationNotAllowed`.
    pub proof fn lemma_kind(&self)
        ensures
            self@.kind == ErrorKind::OperationNotAllowed,
    {
    }
}

impl BaseError for OperationNotAllowedException {
    fn code(&self) -> (code: &'static str)
        ensures
            code@ == Code::OPERATION_NOT_ALLOWED@,
    {
        ErrorKind::OperationNotAllowed.code()
    }

    fn level(&self) -> (level: Level) {
        self.level
    }

    fn detail(&self) -> (detail: Option<&str>) {
        match &self.detail {
            Some(d) => Some(d.as_str()),
            None => None,
        }
    }

    fn set_detail(&mut self, detail: String) {
        self.detail = Some(detail);
    }

    fn to_string(&self) -> (message: String) {
        self.message.clone()
    }
}

/// An error of no other kind.
#[derive(Debug)]
pub struct SomethingWentWrongException {
    message: String,
    detail: Option<String>,
    level: Level,
}

impl View for SomethingWentWrongException {
    type V = ErrorModel;

    closed spec fn view(&self) -> ErrorModel {
        ErrorModel {
            kind: ErrorKind::SomethingWentWrong,
            message: self.message@,
            detail: opt_text(self.detail),
            level: self.level,
        }
    }
}

impl SomethingWentWrongException {
    /// An error with the given message and detail, of severity `Error`.
    pub fn new(message: &str, detail: Option<String>) -> (error: Self)
        ensures
            error@ == ErrorModel::new(ErrorKind::SomethingWentWrong, message@, opt_text(detail)),
    {
        SomethingWentWrongException {
            message: message.to_owned(),
            detail,
            level: ErrorKind::SomethingWentWrong.default_level(),
        }
    }

    /// An error with the given message, detail and severity.
    pub fn with_level(message: &str, detail: Option<String>, level: Level) -> (error: Self)
        ensures
            error@ == ErrorModel::with_level(ErrorKind::SomethingWentWrong, message@, opt_text(detail), level),
    {
        SomethingWentWrongException { message: message.to_owned(), detail, level }
    }

    /// Every value of this type is of the kind `SomethingWentWrong`.
    pub proof fn lemma_kind(&self)
        ensures
            self@.kind == ErrorKind::SomethingWentWrong,
    {
    }
}

impl BaseError for SomethingWentWrongException {
    fn code(&self) -> (code: &'static str)
        ensures
            code@ == Code::SOMETHING_WENT_WRONG@,
    {
        ErrorKind::SomethingWentWrong.code()
    }

    fn level(&self) -> (level: Level) {
        self.level
    }

    fn detail(&self) -> (detail: Option<&str>) {
        match &self.detail {
            Some(d) => Some(d.as_str()),
            None => None,
        }
    }

    fn set_detail(&mut self, detail: String) {
        self.detail = Some(detail);
    }

    fn to_string(&self) -> (message: String) {
        self.message.clone()
    }
}

} // verus!
