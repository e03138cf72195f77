use vstd::prelude::*;

use crate::actuator::plan;
use crate::actuator::Actuator;
use crate::actuator::Step;
use crate::profile::Profile;
use crate::session::SharedTarget;

verus! {

/// The interval between two ticks of the control loop, in milliseconds.
pub const TICK_INTERVAL_MS: u64 = 2000;

/// What one tick decides: the requested profile that the published
/// snapshot reports, and the steps that enforce the limits.
pub struct TickOutcome {
    pub profile: Profile,
    pub steps: Vec<Step>,
}

/// One tick of the control loop, after the sensors were read: reads the
/// requested profile once and lets the actuator decide what to enforce.
pub fn tick(actuator: &mut Actuator, target: &SharedTarget, is_plugged_in: bool) -> (r: TickOutcome)
    ensures
        r.profile == target@,
        r.steps@ == plan(old(actuator).last_plugged(), target@, is_plugged_in),
        final(actuator).last_requested() == Some(target@),
        final(actuator).last_plugged() == Some(is_plugged_in),
        final(actuator).config_spec() == old(actuator).config_spec(),
{
    let profile = target.get();
    let steps = actuator.apply_profile(&profile, is_plugged_in);
    TickOutcome { profile, steps }
}

} // verus!
