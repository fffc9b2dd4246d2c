use vstd::prelude::*;

use super::error::{error_code_text, ApiError, ErrorCode, STATUS_BAD_REQUEST};

verus! {

/// A request body that parsed as JSON of the expected shape.
pub struct ValidatedBody<T>(pub T);

/// The answer to a request body that did not parse: with the parser's detail when
/// the JSON was well formed but did not fit the expected shape.
pub fn invalid_body_error(data_error: Option<&str>) -> (r: (u16, ApiError))
    ensures
        r.0 == STATUS_BAD_REQUEST,
        r.1.error.code@ == error_code_text(ErrorCode::ValidationError),
        data_error matches Some(d) ==> r.1.error.message@ == "Invalid request body: "@ + d@,
        data_error is None ==> r.1.error.message@ == "Invalid request body"@,
{
    match data_error {
        Some(detail) => {
            let mut message = "Invalid request body: ".to_owned();
            message.append(detail);
            ApiError::new(STATUS_BAD_REQUEST, ErrorCode::ValidationError, message.as_str())
        },
        None => ApiError::new(STATUS_BAD_REQUEST, ErrorCode::ValidationError, "Invalid request body"),
    }
}

} // verus!
