//! The error type shared by the fallible registry operations.

use vstd::prelude::*;

verus! {

/// Returned by operations that reference a tab key which is not
/// currently registered. No partial mutation happens in that case.
#[derive(Debug, Clone, PartialEq, Eq)]
pub struct IdNotFound {
    pub id: String,
}

impl IdNotFound {
    /// The key that was looked up and not found.
    pub fn id(&self) -> (r: &str)
        ensures
            r@ == self.id@,
    {
        self.id.as_str()
    }
}

} // verus!
