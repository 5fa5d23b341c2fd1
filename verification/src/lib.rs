//! A shared taxonomy of application errors for a family of services.
//!
//! Every error has a stable [`Code`], a message, an optional detail and a
//! severity [`Level`]. An error travels between services as a
//! [`PmsResponse`], and [`from_pms_response`] rebuilds it on the other side.
//! The contracts are stated over [`ErrorModel`], and the module [`laws`]
//! holds what follows from them for every error.

pub mod code;
pub mod errors;
pub mod exception;
pub mod kind;
pub mod laws;
pub mod level;
pub mod model;
pub mod response;
pub mod text;

pub use code::Code;
pub use errors::{
    BaseError, DbRowLockedException, DbUpdateConcurrencyException, MaxRetriesExceededException,
    ObjectNotFoundException, OperationNotAllowedException, SecurityException,
    SomethingWentWrongException, TimeoutException, ValidationException,
};
pub use exception::Exception;
pub use kind::ErrorKind;
pub use level::Level;
pub use model::ErrorModel;
pub use response::{PmsResponse, PmsResponseView};

use text::opt_text;
use vstd::prelude::*;

verus! {

/// Rebuilds an error from the parts of a record that was received.
///
/// The code is looked up by exact match. A code of the registry gives an
/// error of the kind bound to it; any other text, the empty one too, gives a
/// `SomethingWentWrong`. Message and detail are taken as they are, and the
/// severity is the one that the kind brings. There is no input on which this
/// fails.
pub fn from_pms_response(code: &str, message: &str, detail: Option<String>) -> (error: Exception)
    ensures
        error@ == ErrorModel::from_pms_response(code@, message@, opt_text(detail)),
        error.variant() == ErrorKind::spec_from_code(code@),
{
    Exception::new(ErrorKind::from_code(code), message, detail)
}

} // verus!
