use vstd::prelude::*;

verus! {

/// Options of `status`; there are none.
#[derive(Debug, Default, Clone)]
pub struct Status {}

/// Why `status` failed.
#[derive(Debug, Clone, PartialEq, Eq)]
pub enum Error {
    GetServiceStatusFailed,
}

impl Error {
    /// The message shown for this error.
    pub fn message(&self) -> (r: String)
        ensures
            r@ == "Failed to get service status"@,
    {
        String::from_str("Failed to get service status")
    }
}

} // verus!
