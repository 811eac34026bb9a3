//! The shared-secret gate in front of the write endpoint.

use vstd::prelude::*;
use crate::model::{optional_text, DayCount, SetRequest};
use crate::text::same_text;

verus! {

/// The environment variable that holds the shared secret, when one is
/// configured.
pub const SECRET_VARIABLE: &'static str = "ABSOLUTELYRIGHT_SECRET";

/// The body of the answer to an accepted write.
pub const ACKNOWLEDGEMENT: &'static str = "ok";

/// Why a write was refused.
#[derive(Clone, Copy, Debug, PartialEq, Eq)]
pub enum SetError {
    /// A secret is configured and the request did not supply that secret.
    InvalidSecret,
}

impl SetError {
    /// The HTTP status that answers the refused request.
    pub fn status_code(&self) -> (code: u16)
        ensures
            code == 401,
    {
        401
    }

    /// The plain-text body that answers the refused request.
    pub fn message(&self) -> (body: &'static str)
        ensures
            body@ == "Invalid secret"@,
    {
        "Invalid secret"
    }
}

/// Whether a write may proceed: always when no secret is configured,
/// otherwise only when the request supplies exactly the configured secret.
pub open spec fn secret_accepted(
    configured: Option<Seq<char>>,
    provided: Option<Seq<char>>,
) -> bool {
    match configured {
        None => true,
        Some(expected) => provided == Some(expected),
    }
}

/// Checks the secret of a request against the configured one.
pub fn check_secret(configured: &Option<String>, provided: &Option<String>) -> (accepted: bool)
    ensures
        accepted == secret_accepted(optional_text(*configured), optional_text(*provided)),
{
    match configured {
        None => true,
        Some(expected) => match provided {
            None => false,
            Some(given) => same_text(given.as_str(), expected.as_str()),
        },
    }
}

/// Decides a write request. An accepted request yields the row to store,
/// which replaces both counters of its day; a refused one yields the error
/// and nothing to store.
pub fn set_day(configured: &Option<String>, payload: SetRequest) -> (decision: Result<
    DayCount,
    SetError,
>)
    ensures
        secret_accepted(optional_text(*configured), optional_text(payload.secret)) ==> (
        decision matches Ok(row) && row@ == payload.record()),
        !secret_accepted(optional_text(*configured), optional_text(payload.secret))
            ==> decision == Err::<DayCount, SetError>(SetError::InvalidSecret),
{
    if !check_secret(configured, &payload.secret) {
        return Err(SetError::InvalidSecret);
    }
    let right_count: u32 = match payload.right_count {
        Some(n) => n,
        None => 0,
    };
    Ok(DayCount { day: payload.day, count: payload.count, right_count })
}

} // verus!
