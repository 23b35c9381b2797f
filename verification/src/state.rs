//! The closed set of full-screen views.

use vstd::prelude::*;

verus! {

/// The view that currently owns the screen. Exactly one is current at a time.
#[derive(Clone, Copy, Debug, PartialEq, Eq, Structural)]
pub enum State {
    Dashboard,
    Normal,
    Help,
}

} // verus!
