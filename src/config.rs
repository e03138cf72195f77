use vstd::prelude::*;

verus! {

/// The limits enforced for one profile: power limits in milliwatts and an
/// optional temperature ceiling in degrees Celsius.
#[derive(Clone, Copy, Debug, PartialEq, Eq, Structural)]
pub struct ProfileConfig {
    pub stapm_limit: u32,
    pub fast_limit: u32,
    pub slow_limit: u32,
    pub tctl_temp: Option<u32>,
}

/// The limits of all three profiles.
#[derive(Clone, Copy, Debug, PartialEq, Eq, Structural)]
pub struct NitroConfig {
    pub monk: ProfileConfig,
    pub eco: ProfileConfig,
    pub pro: ProfileConfig,
}

/// Values given for one profile by a configuration source; a field left
/// `None` keeps its default.
#[derive(Clone, Copy, Debug, PartialEq, Eq, Structural)]
pub struct ProfileOverrides {
    pub stapm_limit: Option<u32>,
    pub fast_limit: Option<u32>,
    pub slow_limit: Option<u32>,
    pub tctl_temp: Option<u32>,
}

/// Values given for all three profiles by a configuration source.
#[derive(Clone, Copy, Debug, PartialEq, Eq, Structural)]
pub struct ConfigOverrides {
    pub monk: ProfileOverrides,
    pub eco: ProfileOverrides,
    pub pro: ProfileOverrides,
}

pub open spec fn or_default(o: Option<u32>, d: u32) -> u32 {
    match o {
        Some(v) => v,
        None => d,
    }
}

pub open spec fn or_default_opt(o: Option<u32>, d: Option<u32>) -> Option<u32> {
    match o {
        Some(v) => Some(v),
        None => d,
    }
}

/// The built-in limits used where no source gives a value.
pub open spec fn default_config() -> NitroConfig {
    NitroConfig {
        monk: ProfileConfig { stapm_limit: 5000, fast_limit: 8000, slow_limit: 5000, tctl_temp: None },
        eco: ProfileConfig { stapm_limit: 8000, fast_limit: 15000, slow_limit: 8000, tctl_temp: Some(85) },
        pro: ProfileConfig { stapm_limit: 25000, fast_limit: 35000, slow_limit: 25000, tctl_temp: None },
    }
}

/// `base` with every value that `o` gives put in place of its own.
pub open spec fn merged(base: ProfileConfig, o: ProfileOverrides) -> ProfileConfig {
    ProfileConfig {
        stapm_limit: or_default(o.stapm_limit, base.stapm_limit),
        fast_limit: or_default(o.fast_limit, base.fast_limit),
        slow_limit: or_default(o.slow_limit, base.slow_limit),
        tctl_temp: or_default_opt(o.tctl_temp, base.tctl_temp),
    }
}

pub open spec fn loaded(o: ConfigOverrides) -> NitroConfig {
    NitroConfig {
        monk: merged(default_config().monk, o.monk),
        eco: merged(default_config().eco, o.eco),
        pro: merged(default_config().pro, o.pro),
    }
}

fn pick(o: Option<u32>, d: u32) -> (r: u32)
    ensures
        r == or_default(o, d),
{
    match o {
        Some(v) => v,
        None => d,
    }
}

fn pick_opt(o: Option<u32>, d: Option<u32>) -> (r: Option<u32>)
    ensures
        r == or_default_opt(o, d),
{
    match o {
        Some(v) => Some(v),
        None => d,
    }
}

impl ProfileConfig {
    /// These limits with every value that `o` gives put in their place.
    pub fn merge(&self, o: &ProfileOverrides) -> (r: ProfileConfig)
        ensures
            r == merged(*self, *o),
    {
        ProfileConfig {
            stapm_limit: pick(o.stapm_limit, self.stapm_limit),
            fast_limit: pick(o.fast_limit, self.fast_limit),
            slow_limit: pick(o.slow_limit, self.slow_limit),
            tctl_temp: pick_opt(o.tctl_temp, self.tctl_temp),
        }
    }
}

impl ProfileOverrides {
    /// Overrides that give no value.
    pub fn none() -> (r: ProfileOverrides)
        ensures
            r.stapm_limit is None,
            r.fast_limit is None,
            r.slow_limit is None,
            r.tctl_temp is None,
    {
        ProfileOverrides { stapm_limit: None, fast_limit: None, slow_limit: None, tctl_temp: None }
    }
}

impl ConfigOverrides {
    /// Overrides that give no value for any profile.
    pub fn none() -> (r: ConfigOverrides)
        ensures
            r.monk == ProfileOverrides::none_spec(),
            r.eco == ProfileOverrides::none_spec(),
            r.pro == ProfileOverrides::none_spec(),
    {
        ConfigOverrides {
            monk: ProfileOverrides::none(),
            eco: ProfileOverrides::none(),
            pro: ProfileOverrides::none(),
        }
    }
}

impl ProfileOverrides {
    pub open spec fn none_spec() -> ProfileOverrides {
        ProfileOverrides { stapm_limit: None, fast_limit: None, slow_limit: None, tctl_temp: None }
    }
}

impl NitroConfig {
    /// The built-in limits.
    pub fn defaults() -> (r: NitroConfig)
        ensures
            r == default_config(),
    {
        NitroConfig {
            monk: ProfileConfig { stapm_limit: 5000, fast_limit: 8000, slow_limit: 5000, tctl_temp: None },
            eco: ProfileConfig { stapm_limit: 8000, fast_limit: 15000, slow_limit: 8000, tctl_temp: Some(85) },
            pro: ProfileConfig { stapm_limit: 25000, fast_limit: 35000, slow_limit: 25000, tctl_temp: None },
        }
    }

    /// The configuration in force: the built-in limits, with every value
    /// that the configuration source gives put in their place.
    pub fn load(overrides: &ConfigOverrides) -> (r: NitroConfig)
        ensures
            r == loaded(*overrides),
    {
        let d = NitroConfig::defaults();
        NitroConfig {
            monk: d.monk.merge(&overrides.monk),
            eco: d.eco.merge(&overrides.eco),
            pro: d.pro.merge(&overrides.pro),
        }
    }

    /// The limits configured for `p`.
    pub fn limits(&self, p: crate::profile::Profile) -> (r: ProfileConfig)
        ensures
            r == self.limits_spec(p),
    {
        match p {
            crate::profile::Profile::Monk => self.monk,
            crate::profile::Profile::Eco => self.eco,
            crate::profile::Profile::Pro => self.pro,
        }
    }

    pub open spec fn limits_spec(&self, p: crate::profile::Profile) -> ProfileConfig {
        match p {
            crate::profile::Profile::Monk => self.monk,
            crate::profile::Profile::Eco => self.eco,
            crate::profile::Profile::Pro => self.pro,
        }
    }
}

} // verus!
