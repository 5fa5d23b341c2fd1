use crate::text::opt_text;
use vstd::prelude::*;

verus! {

/// What a [`PmsResponse`] holds, as three character sequences.
pub struct PmsResponseView {
    pub code: Seq<char>,
    pub detail: Seq<char>,
    pub message: Seq<char>,
}

/// The record in which an error travels between services.
///
/// All three fields are always present. An error without detail is written
/// with the detail [`PmsResponse::NO_DETAIL`], the four characters `null`:
/// a text, not an absent value.
#[derive(Debug, Clone)]
pub struct PmsResponse {
    pub exception_code: String,
    pub exception_detail: String,
    pub exception_message: String,
}

impl View for PmsResponse {
    type V = PmsResponseView;

    open spec fn view(&self) -> PmsResponseView {
        PmsResponseView {
            code: self.exception_code@,
            detail: self.exception_detail@,
            message: self.exception_message@,
        }
    }
}

impl PmsResponse {
    /// Name of the code's field where the record is written out.
    pub const CODE_FIELD: &'static str = "ExceptionCode";

    /// Name of the detail's field where the record is written out.
    pub const DETAIL_FIELD: &'static str = "ExceptionDetail";

    /// Name of the message's field where the record is written out.
    pub const MESSAGE_FIELD: &'static str = "ExceptionMessage";

    /// What the detail field holds for an error without detail.
    pub const NO_DETAIL: &'static str = "null";

    /// The detail as it is written into a record: the detail itself where
    /// there is one, and `null` where there is none.
    pub open spec fn wire_detail(detail: Option<Seq<char>>) -> Seq<char> {
        match detail {
            Some(d) => d,
            None => PmsResponse::NO_DETAIL@,
        }
    }

    /// The record of a code, a message and an optional detail.
    pub open spec fn spec_new(
        code: Seq<char>,
        message: Seq<char>,
        detail: Option<Seq<char>>,
    ) -> PmsResponseView {
        PmsResponseView { code, detail: PmsResponse::wire_detail(detail), message }
    }

    /// Builds the record of a code, a message and an optional detail. Code
    /// and message are taken as they are, and so is a detail that is there.
    pub fn new(code: String, message: String, detail: Option<String>) -> (response: Self)
        ensures
            response@ == PmsResponse::spec_new(code@, message@, opt_text(detail)),
    {
        let exception_detail = match detail {
            Some(d) => d,
            None => PmsResponse::NO_DETAIL.to_owned(),
        };
        PmsResponse { exception_code: code, exception_message: message, exception_detail }
    }

    /// The three fields in the order in which the record is written out, each
    /// with its name.
    pub fn fields(&self) -> (fields: [(&'static str, &str); 3])
        ensures
            fields[0].0@ == PmsResponse::CODE_FIELD@,
            fields[0].1@ == self@.code,
            fields[1].0@ == PmsResponse::DETAIL_FIELD@,
            fields[1].1@ == self@.detail,
            fields[2].0@ == PmsResponse::MESSAGE_FIELD@,
            fields[2].1@ == self@.message,
    {
        [
            (PmsResponse::CODE_FIELD, self.exception_code.as_str()),
            (PmsResponse::DETAIL_FIELD, self.exception_detail.as_str()),
            (PmsResponse::MESSAGE_FIELD, self.exception_message.as_str()),
        ]
    }
}

} // verus!
