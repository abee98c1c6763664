//! The rend3 gfx backend's configuration.
use vstd::prelude::*;

verus! {

/// Configuration of the rend3 backend; it has no settings yet.
#[derive(Debug, Clone, Copy, PartialEq, Eq)]
pub struct Rend3Config {}

impl Default for Rend3Config {
    /// The only configuration.
    fn default() -> (c: Rend3Config)
        ensures
            c == (Rend3Config {}),
    {
        Rend3Config {}
    }
}

} // verus!
