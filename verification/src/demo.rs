//! The state of the demo application that the crate's examples run.
use vstd::prelude::*;

verus! {

/// The demo application's state: whether its checkbox is ticked.
#[derive(Debug, Clone, Copy, PartialEq, Eq, Structural)]
pub struct App {
    pub check: bool,
}

} // verus!
