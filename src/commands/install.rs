use vstd::prelude::*;

verus! {

/// Options of `install`; there are none.
#[derive(Debug, Default, Clone)]
pub struct Args {}

} // verus!
