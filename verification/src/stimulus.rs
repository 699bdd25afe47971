use vstd::prelude::*;
use crate::timeframe::TimeFrame;

verus! {

/// What a cortex perceives.
#[derive(Debug)]
pub enum Stimulus {
    /// Perceive the passage of time(frame).
    Time(TimeFrame),
    /// Perceive a guided action.
    Interface(),
}

} // verus!
