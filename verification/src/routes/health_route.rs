//! The health probe.

use vstd::prelude::*;

verus! {

/// The message with which the service reports that it is up.
pub fn health_checker_handler() -> (message: String)
    ensures
        message@ == "Up and running!"@,
{
    "Up and running!".to_owned()
}

} // verus!
