//! The rule that an identifier must be positive, reported with the error type
//! of the `validator` crate.

use validator::ValidationError;
use vstd::prelude::*;

verus! {

/// `validator::ValidationError`, carried through verified code as an opaque
/// value.
#[verifier::external_type_specification]
#[verifier::external_body]
pub struct ExValidationError(validator::ValidationError);

/// The text in the `code` field of a validation error.
pub uninterp spec fn error_code(error: ValidationError) -> Seq<char>;

/// `ValidationError::new` stores the code it is given in the `code` field of
/// the error it returns (with no message and no parameters).
pub assume_specification[ ValidationError::new ](code: &'static str) -> (error: ValidationError)
    ensures
        error_code(error) == code@,
;

/// Reads the `code` field of a validation error into an owned string.
#[verifier::external_body]
pub(crate) fn code_of(error: &ValidationError) -> (code: String)
    ensures
        code@ == error_code(*error),
{
    error.code.to_string()
}

/// The code of the error that `validate_id` reports.
pub const ID_NOT_POSITIVE: &'static str = "id must be greater than 0";

/// An identifier is valid when it is at least one.
pub open spec fn id_is_valid(id: i32) -> bool {
    id >= 1
}

/// Accepts the identifiers from one upward and rejects all others with an
/// error whose code is `ID_NOT_POSITIVE`.
pub fn validate_id(id: i32) -> (res: Result<(), ValidationError>)
    ensures
        res is Ok <==> id_is_valid(id),
        res matches Err(error) ==> error_code(error) == ID_NOT_POSITIVE@,
{
    if id < 1 {
        return Err(ValidationError::new(ID_NOT_POSITIVE));
    }
    Ok(())
}

} // verus!
