use vstd::prelude::*;

use crate::config::NitroConfig;
use crate::config::ProfileConfig;
use crate::profile::Profile;

verus! {

/// How long to wait between the two applications after the machine leaves
/// external power, in milliseconds.
pub const UNPLUG_SETTLE_MS: u64 = 100;

/// One thing for the caller to do, in order, to enforce a profile.
#[derive(Clone, Copy, Debug, PartialEq, Eq, Structural)]
pub enum Step {
    /// Run the limit-setting tool with the limits of this profile.
    Enforce(Profile),
    /// Wait this many milliseconds.
    Pause(u64),
}

/// The profile actually enforced: external power always gets the most
/// permissive one, whatever was requested.
pub open spec fn effective(requested: Profile, is_plugged_in: bool) -> Profile {
    if is_plugged_in {
        Profile::Pro
    } else {
        requested
    }
}

/// What one call of `apply_profile` asks the caller to do, given the power
/// source seen by the call before. The limits are enforced on every call; on
/// a change from external power to battery they are enforced twice, a short
/// pause apart.
pub open spec fn plan(last_plugged_in: Option<bool>, requested: Profile, is_plugged_in: bool) -> Seq<Step> {
    let e = effective(requested, is_plugged_in);
    if !is_plugged_in && last_plugged_in == Some(true) {
        seq![Step::Enforce(e), Step::Pause(UNPLUG_SETTLE_MS), Step::Enforce(e)]
    } else {
        seq![Step::Enforce(e)]
    }
}

pub open spec fn digit(d: nat) -> char {
    seq!['0', '1', '2', '3', '4', '5', '6', '7', '8', '9'][(d % 10) as int]
}

/// The decimal digits of `n`, without leading zeros.
pub open spec fn decimal(n: nat) -> Seq<char>
    decreases n,
{
    if n < 10 {
        seq![digit(n)]
    } else {
        decimal(n / 10).push(digit(n % 10))
    }
}

/// The command-line flag `--name=value`.
pub open spec fn flag(name: Seq<char>, value: nat) -> Seq<char> {
    seq!['-', '-'] + name + seq!['='] + decimal(value)
}

/// Whether a temperature ceiling configured for `p` is passed on: the
/// conservative and balanced profiles carry one, the permissive one never.
pub open spec fn carries_temp(p: Profile) -> bool {
    p != Profile::Pro
}

/// The arguments of the limit-setting tool for profile `p` with limits `c`.
pub open spec fn limit_args_spec(p: Profile, c: ProfileConfig) -> Seq<Seq<char>> {
    let base = seq![
        flag("slow-limit"@, c.slow_limit as nat),
        flag("fast-limit"@, c.fast_limit as nat),
        flag("stapm-limit"@, c.stapm_limit as nat),
    ];
    match c.tctl_temp {
        Some(t) if carries_temp(p) => base.push(flag("tctl-temp"@, t as nat)),
        _ => base,
    }
}

/// Relies on std's `format!` and the `Display` impl of `u32`, which writes
/// the decimal digits of the value without leading zeros or sign.
#[verifier::external_body]
fn render_flag(name: &str, value: u32) -> (r: String)
    ensures
        r@ == flag(name@, value as nat),
{
    format!("--{}={}", name, value)
}

/// Decides and remembers which limits to enforce; the caller carries out
/// the steps it returns.
pub struct Actuator {
    last_profile: Option<Profile>,
    last_plugged_in: Option<bool>,
    config: NitroConfig,
}

impl Actuator {
    /// The profile requested at the last call, if any.
    pub closed spec fn last_requested(&self) -> Option<Profile> {
        self.last_profile
    }

    /// The power source seen at the last call, if any.
    pub closed spec fn last_plugged(&self) -> Option<bool> {
        self.last_plugged_in
    }

    pub closed spec fn config_spec(&self) -> NitroConfig {
        self.config
    }

    /// An actuator that has applied nothing yet.
    pub fn new(config: NitroConfig) -> (r: Actuator)
        ensures
            r.last_requested() is None,
            r.last_plugged() is None,
            r.config_spec() == config,
    {
        Actuator { last_profile: None, last_plugged_in: None, config }
    }

    /// Decides the steps that enforce `profile` under the given power source,
    /// and remembers the request and the power source.
    pub fn apply_profile(&mut self, profile: &Profile, is_plugged_in: bool) -> (r: Vec<Step>)
        ensures
            r@ == plan(old(self).last_plugged(), *profile, is_plugged_in),
            final(self).last_requested() == Some(*profile),
            final(self).last_plugged() == Some(is_plugged_in),
            final(self).config_spec() == old(self).config_spec(),
    {
        let target = if is_plugged_in {
            Profile::Pro
        } else {
            *profile
        };
        let mut steps: Vec<Step> = Vec::new();
        steps.push(Step::Enforce(target));
        if !is_plugged_in && self.last_plugged_in == Some(true) {
            steps.push(Step::Pause(UNPLUG_SETTLE_MS));
            steps.push(Step::Enforce(target));
        }
        self.last_profile = Some(*profile);
        self.last_plugged_in = Some(is_plugged_in);
        proof {
            let e = effective(*profile, is_plugged_in);
            if !is_plugged_in && old(self).last_plugged_in == Some(true) {
                assert(steps@ =~= seq![Step::Enforce(e), Step::Pause(UNPLUG_SETTLE_MS), Step::Enforce(e)]);
            } else {
                assert(steps@ =~= seq![Step::Enforce(e)]);
            }
        }
        steps
    }

    /// The arguments of the limit-setting tool that enforce `profile`.
    pub fn limit_args(&self, profile: &Profile) -> (r: Vec<String>)
        ensures
            r@.len() == limit_args_spec(*profile, self.config_spec().limits_spec(*profile)).len(),
            forall|i: int|
                0 <= i < r@.len() ==> #[trigger] r@[i]@ == limit_args_spec(
                    *profile,
                    self.config_spec().limits_spec(*profile),
                )[i],
    {
        let c = self.config.limits(*profile);
        let mut args: Vec<String> = Vec::new();
        args.push(render_flag("slow-limit", c.slow_limit));
        args.push(render_flag("fast-limit", c.fast_limit));
        args.push(render_flag("stapm-limit", c.stapm_limit));
        let with_temp = *profile != Profile::Pro;
        if with_temp {
            if let Some(t) = c.tctl_temp {
                args.push(render_flag("tctl-temp", t));
            }
        }
        args
    }
}

} // verus!
