use vstd::prelude::*;

verus! {

/// Options of `update`.
#[derive(Debug, Default, Clone)]
pub struct Args {
    /// Take alpha releases too.
    pub alpha: bool,
}

} // verus!
