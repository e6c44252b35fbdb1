//! What an answer of the remote side amounts to, once the driver has read
//! it into plain values.

use crate::error::{Error, ErrorView};
use crate::text::joined;
use vstd::prelude::*;

verus! {

/// What is said of an answer that holds errors, before the errors.
pub const RESPONSE_ERRORS_MESSAGE: &'static str = "errors in response: ";

/// What is said of an answer that holds neither errors nor data.
pub const NO_DATA_MESSAGE: &'static str = "no data in response";

/// What an answer of the remote side amounts to: its errors, if it holds
/// any; else its data; and without data a failure.
pub fn check_response<T>(errors: Option<String>, data: Option<T>) -> (r: Result<T, Error>)
    ensures
        match (errors, data) {
            (Some(errors), _) => (r matches Err(error) && error@ == (ErrorView::Response {
                message: RESPONSE_ERRORS_MESSAGE@ + errors@,
            })),
            (None, Some(data)) => r == Ok::<T, Error>(data),
            (None, None) => (r matches Err(error) && error@ == (ErrorView::Response {
                message: NO_DATA_MESSAGE@,
            })),
        },
{
    match errors {
        Some(errors) => Err(
            Error::Response { message: joined(RESPONSE_ERRORS_MESSAGE, errors.as_str()) },
        ),
        None => match data {
            Some(data) => Ok(data),
            None => Err(Error::Response { message: String::from_str(NO_DATA_MESSAGE) }),
        },
    }
}

/// What is said where the remote side created a label and gave no id.
pub const NO_LABEL_MESSAGE: &'static str = "label creation failed";

/// What is said where the remote side created an issue and gave no id.
pub const NO_ISSUE_MESSAGE: &'static str = "issue creation failed";

/// The id of what the remote side created, or the failure that `message`
/// tells of where it gave none.
pub fn created_id(id: Option<String>, message: &str) -> (r: Result<String, Error>)
    ensures
        match id {
            Some(id) => r == Ok::<String, Error>(id),
            None => (r matches Err(error) && error@ == (ErrorView::Response {
                message: message@,
            })),
        },
{
    match id {
        Some(id) => Ok(id),
        None => Err(Error::Response { message: String::from_str(message) }),
    }
}

} // verus!
