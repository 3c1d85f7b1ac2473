//! The capability of driving the gateway.
use vstd::prelude::*;

verus! {

/// Whatever runs the gateway's main loop.
pub trait RuntimeController {
    /// Runs the main loop.
    fn run(&mut self);
}

} // verus!
