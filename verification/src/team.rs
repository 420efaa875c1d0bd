//! The teams a club runs.

use vstd::prelude::*;

verus! {

/// One of a club's teams.
#[derive(Debug, Clone, Copy, PartialEq, Eq, Structural)]
pub enum TeamType {
    Main,
    B,
    U18,
    U19,
    U21,
    U23,
}

} // verus!
