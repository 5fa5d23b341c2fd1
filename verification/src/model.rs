use crate::kind::ErrorKind;
use crate::level::Level;
use crate::response::{PmsResponse, PmsResponseView};
use vstd::prelude::*;

verus! {

/// What an error is, as mathematical values: its kind, its message, its
/// detail where it has one, and its severity.
pub struct ErrorModel {
    pub kind: ErrorKind,
    pub message: Seq<char>,
    pub detail: Option<Seq<char>>,
    pub level: Level,
}

impl ErrorModel {
    /// An error of a kind, with the severity that the kind brings.
    pub open spec fn new(
        kind: ErrorKind,
        message: Seq<char>,
        detail: Option<Seq<char>>,
    ) -> ErrorModel {
        ErrorModel { kind, message, detail, level: kind.spec_default_level() }
    }

    /// An error of a kind, with a severity of its own.
    pub open spec fn with_level(
        kind: ErrorKind,
        message: Seq<char>,
        detail: Option<Seq<char>>,
        level: Level,
    ) -> ErrorModel {
        ErrorModel { kind, message, detail, level }
    }

    /// The code of the error: that of its kind.
    pub open spec fn code(self) -> Seq<char> {
        self.kind.spec_code()
    }

    /// The same error with `detail` in place of whatever detail it had.
    pub open spec fn set_detail(self, detail: Seq<char>) -> ErrorModel {
        ErrorModel { detail: Some(detail), ..self }
    }

    /// The record in which the error travels.
    pub open spec fn to_pms_response(self) -> PmsResponseView {
        PmsResponse::spec_new(self.code(), self.message, self.detail)
    }

    /// The error that the parts of a record stand for: of the kind that the
    /// code stands for, with the severity that the kind brings.
    pub open spec fn from_pms_response(
        code: Seq<char>,
        message: Seq<char>,
        detail: Option<Seq<char>>,
    ) -> ErrorModel {
        ErrorModel::new(ErrorKind::spec_from_code(code), message, detail)
    }
}

} // verus!
