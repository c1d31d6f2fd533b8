//! The one computation of the greeting endpoint: composing the welcome
//! message for a named user.

use vstd::prelude::*;

verus! {

/// The message returned for a user name.
pub fn welcome_message(username: &str) -> (r: String)
    ensures
        r@ == "Welcome, "@ + username@ + "!"@,
{
    let mut out = String::from_str("Welcome, ");
    out.append(username);
    out.append("!");
    out
}

} // verus!
