//! Response values the engine hands back to its caller.

use vstd::prelude::*;

verus! {

/// The verdict of a flag check: whether the flag is enabled.
#[derive(Clone, Copy, Debug, PartialEq, Eq, Structural)]
pub struct FlagCheck {
    /// Status of the flag.
    pub enabled: bool,
}

impl FlagCheck {
    /// The verdict that the flag is enabled.
    pub fn get_enabled() -> (check: FlagCheck)
        ensures
            check.enabled,
    {
        FlagCheck { enabled: true }
    }

    /// The verdict that the flag is disabled.
    pub fn get_disabled() -> (check: FlagCheck)
        ensures
            !check.enabled,
    {
        FlagCheck { enabled: false }
    }
}

/// Reply to a creation request: the unique id the store assigned to the new
/// record.
#[derive(Clone, Debug, PartialEq)]
pub struct Created {
    /// Unique id generated for the record.
    pub id: String,
}

impl Created {
    /// Wraps the assigned id.
    pub fn new(id: &str) -> (created: Created)
        ensures
            created.id@ == id@,
    {
        Created { id: id.to_owned() }
    }
}

} // verus!
