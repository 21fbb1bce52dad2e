//! Opening a link with the operating system's default application.
//!
//! The host makes the request; this module says what is requested and how a
//! failure is reported to the page that asked.

use vstd::prelude::*;
use vstd::string::*;

verus! {

/// What every report of a failed request starts with.
pub const OPEN_FAILURE_PREFIX: &'static str = "failed to open url: ";

/// The report of a request that failed because of `cause`.
pub open spec fn open_failure_of(cause: Seq<char>) -> Seq<char> {
    OPEN_FAILURE_PREFIX@ + cause
}

/// A request to open something outside the shell.
#[derive(Debug, Clone, PartialEq, Eq)]
pub struct OpenRequest {
    /// What is opened, exactly as it was given.
    pub target: String,
    /// The application that opens it; `None` leaves the choice to the
    /// operating system.
    pub with: Option<String>,
}

/// The request for `url`: the text is passed on as it is, whatever its
/// shape, and the operating system picks the application.
pub fn open_request(url: String) -> (request: OpenRequest)
    ensures
        request.target == url,
        request.with is None,
{
    OpenRequest { target: url, with: None }
}

/// The report of a request that failed because of `cause`: the prefix, then
/// the cause as the operating system worded it.
pub fn open_failure(cause: &str) -> (message: String)
    ensures
        message@ == open_failure_of(cause@),
        message@.len() > 0,
        message@.skip(OPEN_FAILURE_PREFIX@.len() as int) == cause@,
{
    proof {
        reveal_strlit("failed to open url: ");
    }
    let mut message = String::from_str(OPEN_FAILURE_PREFIX);
    message.append(cause);
    assert(message@.skip(OPEN_FAILURE_PREFIX@.len() as int) =~= cause@);
    message
}

/// What the page is told about a request that the host has made: nothing
/// if it went through, the report of the failure if it did not.
pub fn open_result(opened: Result<(), String>) -> (result: Result<(), String>)
    ensures
        opened is Ok ==> result is Ok,
        opened matches Err(cause) ==> (result matches Err(message) && message@ == open_failure_of(
            cause@,
        ) && message@.len() > 0),
{
    match opened {
        Ok(_) => Ok(()),
        Err(cause) => Err(open_failure(cause.as_str())),
    }
}

} // verus!
