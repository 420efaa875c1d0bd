//! What every tick is given.

use crate::date::Date;
use vstd::prelude::*;

verus! {

/// The state of the simulation that a tick may read: the simulated day.
#[derive(Debug, Clone, Copy)]
pub struct SimulationContext {
    pub date: Date,
}

impl SimulationContext {
    /// The context of the day `date`.
    pub fn new(date: Date) -> (r: SimulationContext)
        ensures
            r.date == date,
    {
        SimulationContext { date }
    }
}

} // verus!
