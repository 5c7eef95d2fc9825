//! Classification of the HTTP status code of the fetch response.

use vstd::prelude::*;

verus! {

/// How the fetcher treats a response, decided by the status code alone:
/// a successful listing is persisted, an unauthorized response is skipped
/// without touching the output file, and every other status is fatal.
#[derive(Clone, Copy, Debug, PartialEq, Eq, Structural)]
pub enum StatusClass {
    Success,
    Unauthorized,
    Unexpected,
}

/// Maps an HTTP status code to the fetcher's treatment of the response:
/// 200 is the one success, 401 is the one recoverable failure, and every
/// other code is unexpected and fatal.
pub fn classify_status(status: u16) -> (r: StatusClass)
    ensures
        r == StatusClass::Success <==> status == 200,
        r == StatusClass::Unauthorized <==> status == 401,
        r == StatusClass::Unexpected <==> status != 200 && status != 401,
{
    if status == 200 {
        StatusClass::Success
    } else if status == 401 {
        StatusClass::Unauthorized
    } else {
        StatusClass::Unexpected
    }
}

} // verus!
