//! Default messages for common bot responses.
use vstd::prelude::*;

verus! {

/// Access denied for unauthorized users.
pub const ACCESS_DENIED: &'static str = "Sorry, you are not authorized to use this service. Please contact the administrator if you believe this is an error.";

/// Generic error message.
pub const GENERIC_ERROR: &'static str = "Sorry, I encountered an error processing your request. Please try again.";

} // verus!
