//! Arguments of the operator's update loop.

use vstd::prelude::*;

verus! {

/// Arguments of the update loop.
#[derive(Debug, Clone)]
pub struct Args {
    /// Run one update and exit instead of looping.
    pub only_once: bool,
}

} // verus!
