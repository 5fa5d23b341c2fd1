use crate::code::Code;
use crate::kind::{
    lemma_from_code_of_code, lemma_registered_length, lemma_unregistered_falls_back, ErrorKind,
};
use crate::model::ErrorModel;
use crate::response::PmsResponse;
use vstd::prelude::*;

verus! {

/// An error rebuilt from the code of a kind is of that kind and has that
/// code, whatever the message and the detail are.
pub proof fn lemma_registered_code_is_kept(
    kind: ErrorKind,
    message: Seq<char>,
    detail: Option<Seq<char>>,
)
    ensures
        ErrorModel::from_pms_response(kind.spec_code(), message, detail).kind == kind,
        ErrorModel::from_pms_response(kind.spec_code(), message, detail).code()
            == kind.spec_code(),
{
    lemma_from_code_of_code(kind);
}

/// An error rebuilt from a text that is no code of the registry is a
/// `SomethingWentWrong` and has that kind's code, whatever the message and
/// the detail are.
pub proof fn lemma_unregistered_code_falls_back(
    code: Seq<char>,
    message: Seq<char>,
    detail: Option<Seq<char>>,
)
    requires
        !Code::is_registered(code),
    ensures
        ErrorModel::from_pms_response(code, message, detail).kind
            == ErrorKind::SomethingWentWrong,
        ErrorModel::from_pms_response(code, message, detail).code()
            == Code::SOMETHING_WENT_WRONG@,
{
    lemma_unregistered_falls_back(code);
}

/// The empty text is no code: an error rebuilt from it is a
/// `SomethingWentWrong`.
pub proof fn lemma_empty_code_falls_back(message: Seq<char>, detail: Option<Seq<char>>)
    ensures
        !Code::is_registered(Seq::<char>::empty()),
        ErrorModel::from_pms_response(Seq::<char>::empty(), message, detail).kind
            == ErrorKind::SomethingWentWrong,
{
    if Code::is_registered(Seq::<char>::empty()) {
        lemma_registered_length(Seq::<char>::empty());
    }
}

/// Whatever the code is, the error rebuilt from it has a code of the registry,
/// and holds the message and the detail that were handed in.
pub proof fn lemma_rebuilt_error_is_of_the_registry(
    code: Seq<char>,
    message: Seq<char>,
    detail: Option<Seq<char>>,
)
    ensures
        Code::is_registered(ErrorModel::from_pms_response(code, message, detail).code()),
        ErrorModel::from_pms_response(code, message, detail).message == message,
        ErrorModel::from_pms_response(code, message, detail).detail == detail,
{
}

/// An error that travels as a record and is rebuilt from the record's three
/// fields comes back with its kind, its code and its message. The detail
/// comes back as the record held it: a detail that was there comes back
/// unchanged, and one that was not comes back as the text `null`. The
/// severity does not travel: it comes back as the one that the kind brings.
pub proof fn lemma_round_trip(error: ErrorModel)
    ensures
        ({
            let record = error.to_pms_response();
            let back = ErrorModel::from_pms_response(
                record.code,
                record.message,
                Some(record.detail),
            );
            &&& back.kind == error.kind
            &&& back.code() == error.code()
            &&& back.message == error.message
            &&& back.detail == Some(PmsResponse::wire_detail(error.detail))
            &&& error.detail is Some ==> back.detail == error.detail
            &&& back.level == error.kind.spec_default_level()
        }),
{
    lemma_from_code_of_code(error.kind);
}

/// The record of an error without detail holds the four characters `null` as
/// its detail: a text that is there and is not empty.
pub proof fn lemma_absent_detail_travels_as_null(error: ErrorModel)
    requires
        error.detail is None,
    ensures
        error.to_pms_response().detail == PmsResponse::NO_DETAIL@,
        error.to_pms_response().detail == seq!['n', 'u', 'l', 'l'],
        error.to_pms_response().detail.len() == 4,
{
    reveal_strlit("null");
    assert(PmsResponse::NO_DETAIL@ =~= seq!['n', 'u', 'l', 'l']);
}

/// The record of an error holds the error's code and message, and a detail
/// that is there, exactly as they are.
pub proof fn lemma_record_keeps_the_fields(error: ErrorModel)
    ensures
        error.to_pms_response().code == error.code(),
        error.to_pms_response().message == error.message,
        error.detail matches Some(d) ==> error.to_pms_response().detail == d,
{
}

/// Setting a detail overwrites: after two settings the error holds the
/// second detail and is what it would be had the first never been set.
/// Kind, message and severity are untouched.
pub proof fn lemma_set_detail_overwrites(error: ErrorModel, first: Seq<char>, second: Seq<char>)
    ensures
        error.set_detail(second).detail == Some(second),
        error.set_detail(first).set_detail(second) == error.set_detail(second),
        error.set_detail(second).kind == error.kind,
        error.set_detail(second).message == error.message,
        error.set_detail(second).level == error.level,
{
}

} // verus!
