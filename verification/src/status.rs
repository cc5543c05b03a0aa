//! Fail-fast handling of HTTP outcomes. Any non-success status is fatal; the
//! full response body is kept in the failure so the operator can read the
//! provider's error detail.

use vstd::prelude::*;
use crate::text::{dec_str, push_char, u16_to_string};

verus! {

/// Whether an HTTP status code reports success.
pub open spec fn is_success(status: u16) -> bool {
    200 <= status < 300
}

/// The diagnostic line for a fatal outcome: the status code in decimal, then
/// the response body verbatim.
pub open spec fn fatal_message_spec(status: u16, body: Seq<char>) -> Seq<char> {
    "Error: status "@ + dec_str(status as nat) + ", "@ + body
}

/// A fatal pipeline failure: the HTTP status and the full response body.
#[derive(Debug)]
pub struct FatalError {
    pub status: u16,
    pub body: String,
}

impl FatalError {
    /// The diagnostic text, carrying both the status and the body.
    pub fn message(&self) -> (r: String)
        ensures
            r@ == fatal_message_spec(self.status, self.body@),
    {
        let mut r = String::from_str("Error: status ");
        let num = u16_to_string(self.status);
        r.append(num.as_str());
        r.append(", ");
        r.append(self.body.as_str());
        proof {
            assert(r@ =~= fatal_message_spec(self.status, self.body@));
        }
        r
    }
}

/// Checks an HTTP outcome: success passes, anything else is fatal and the
/// failure captures the status and the full body.
pub fn check_status(status: u16, body: &str) -> (r: Result<(), FatalError>)
    ensures
        r is Ok <==> is_success(status),
        match r {
            Ok(()) => is_success(status),
            Err(e) => e.status == status && e.body@ == body@,
        },
{
    if 200 <= status && status < 300 {
        Ok(())
    } else {
        Err(FatalError { status, body: String::from_str(body) })
    }
}

} // verus!
