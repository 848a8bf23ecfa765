//! The one place where a backend fault becomes a reply, and the text that
//! stands for what a backend left out.

use vstd::prelude::*;
use vstd::string::*;

verus! {

/// What every rendered backend fault starts with.
pub const FAILURE_PREFIX: &'static str = "Failed with err: ";

/// What stands for a value that a backend did not give.
pub const NOT_AVAILABLE: &'static str = "N/A";

/// The reply for a backend call that failed with the given message.
pub fn render_failure(message: &str) -> (r: String)
    ensures
        r@ == FAILURE_PREFIX@ + message@,
{
    let mut r = String::from_str(FAILURE_PREFIX);
    r.append(message);
    r
}

} // verus!
