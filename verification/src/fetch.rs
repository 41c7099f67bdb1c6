use vstd::prelude::*;
use crate::error::WatchdogError;

verus! {

/// The status code on which the moderation API reports success.
pub const SUCCESS_STATUS: i32 = 200;

/// Classify a response from the moderation API by its status code: a
/// success hands the raw body on to decoding; anything else is an API
/// error carrying the code and the raw body for diagnostics.
pub fn classify_status(code: i32, body: String) -> (r: Result<String, WatchdogError>)
    ensures
        code == SUCCESS_STATUS ==> r == Ok::<String, WatchdogError>(body),
        code != SUCCESS_STATUS ==> r == Err::<String, WatchdogError>(
            WatchdogError::Api { code, body },
        ),
{
    if code == SUCCESS_STATUS {
        Ok(body)
    } else {
        Err(WatchdogError::Api { code, body })
    }
}

} // verus!
