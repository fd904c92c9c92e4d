use vstd::prelude::*;

verus! {

/// Settings shared by the service commands; there are none yet.
#[derive(Debug)]
pub struct Config {}

impl Default for Config {
    fn default() -> (r: Config)
        ensures
            r == (Config {}),
    {
        Config {}
    }
}

} // verus!
