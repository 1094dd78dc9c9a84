//! The apply step's timer rule.
//!
//! Each time the active plan has been pushed into effect, the timer is armed
//! anew, so that the plan is applied again after its interval.

use vstd::prelude::*;
use crate::engine::{EngineState, EngineStateView};

verus! {

/// Seconds between two applications of a plan that sets no interval of its
/// own.
pub const DEFAULT_INTERVAL_SEC: u32 = 120;

/// The number of seconds to arm the timer with: the active plan's interval,
/// or the default where it sets none. `None` when no plan is active, in which
/// case no timer is armed.
pub open spec fn timer_interval(engine: EngineStateView) -> Option<u64> {
    match engine.active_plan {
        Some(plan) => match plan.update_interval_sec {
            Some(seconds) => Some(seconds as u64),
            None => Some(DEFAULT_INTERVAL_SEC as u64),
        },
        None => None,
    }
}

/// Decides how the timer is armed once the engine has applied its active
/// plan.
pub fn timer_seconds(engine: &EngineState) -> (seconds: Option<u64>)
    ensures
        seconds == timer_interval(engine.deep_view()),
        engine.active_plan is None <==> seconds is None,
{
    match &engine.active_plan {
        Some(plan) => {
            let interval: u32 = match plan.update_interval_sec {
                Some(seconds) => seconds,
                None => DEFAULT_INTERVAL_SEC,
            };
            Some(interval as u64)
        },
        None => None,
    }
}

} // verus!
