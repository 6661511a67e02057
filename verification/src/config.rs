//! Power profiles: one per power source.

use vstd::prelude::*;
use vstd::string::StringExecFns;

verus! {

/// The path of the preference file below the home directory `home`.
pub fn settings_file_path(home: String) -> (path: String)
    ensures
        path@ == home@ + "/.local/share/razercontrol/daemon.json"@,
{
    home.concat("/.local/share/razercontrol/daemon.json")
}

/// Index of the profile that applies on battery.
pub const BATTERY: usize = 0;

/// Index of the profile that applies on line power.
pub const AC: usize = 1;

/// The highest power mode; it alone takes CPU and GPU boost tiers.
pub const CUSTOM_MODE: u8 = 4;

/// The highest CPU boost tier.
pub const MAX_CPU_BOOST: u8 = 3;

/// The highest GPU boost tier.
pub const MAX_GPU_BOOST: u8 = 2;

/// The settings kept for one power source.
#[derive(Copy, Clone, Debug, PartialEq, Eq, Structural)]
pub struct PowerConfig {
    pub power_mode: u8,
    pub cpu_boost: u8,
    pub gpu_boost: u8,
    /// Negative: unknown; zero: automatic; positive: a fixed speed.
    pub fan_rpm: i32,
    /// Whether the light goes off while the screen is blank.
    pub screensaver: bool,
    /// Idle timeout; zero disables it.
    pub idle: u32,
}

impl PowerConfig {
    /// Mode and boost tiers lie in their ranges.
    pub open spec fn wf(&self) -> bool {
        &&& self.power_mode <= CUSTOM_MODE
        &&& self.cpu_boost <= MAX_CPU_BOOST
        &&& self.gpu_boost <= MAX_GPU_BOOST
    }

    /// The profile of a fresh installation.
    pub open spec fn initial() -> PowerConfig {
        PowerConfig {
            power_mode: 0,
            cpu_boost: 1,
            gpu_boost: 0,
            fan_rpm: 0,
            screensaver: false,
            idle: 0,
        }
    }

    /// Tests `wf` at run time.
    pub fn is_wf(&self) -> (b: bool)
        ensures
            b == self.wf(),
    {
        self.power_mode <= CUSTOM_MODE && self.cpu_boost <= MAX_CPU_BOOST && self.gpu_boost
            <= MAX_GPU_BOOST
    }

    pub fn new() -> (c: PowerConfig)
        ensures
            c == PowerConfig::initial(),
            c.wf(),
    {
        PowerConfig {
            power_mode: 0,
            cpu_boost: 1,
            gpu_boost: 0,
            fan_rpm: 0,
            screensaver: false,
            idle: 0,
        }
    }
}

/// The two profiles, at the indices `BATTERY` and `AC`.
#[derive(Copy, Clone, Debug)]
pub struct Configuration {
    pub power: [PowerConfig; 2],
}

impl Configuration {
    /// Both profiles are well formed.
    pub open spec fn wf(&self) -> bool {
        &&& self.power[0].wf()
        &&& self.power[1].wf()
    }

    /// The profile kept for `source`.
    pub open spec fn profile(&self, source: int) -> PowerConfig
        recommends
            0 <= source < 2,
    {
        self.power[source]
    }

    /// This configuration with the profile of `source` replaced by `p`.
    pub open spec fn with_profile(&self, source: int, p: PowerConfig) -> Configuration
        recommends
            0 <= source < 2,
    {
        if source == 0 {
            Configuration { power: [p, self.power[1]] }
        } else {
            Configuration { power: [self.power[0], p] }
        }
    }

    pub fn new() -> (c: Configuration)
        ensures
            c.power[0] == PowerConfig::initial(),
            c.power[1] == PowerConfig::initial(),
            c.wf(),
    {
        Configuration { power: [PowerConfig::new(), PowerConfig::new()] }
    }

    /// Tests `wf` at run time.
    pub fn is_wf(&self) -> (b: bool)
        ensures
            b == self.wf(),
    {
        self.power[0].is_wf() && self.power[1].is_wf()
    }

    /// Reads the profile of `source`.
    pub fn get(&self, source: usize) -> (p: PowerConfig)
        requires
            source < 2,
        ensures
            p == self.profile(source as int),
    {
        self.power[source]
    }

    /// Replaces the profile of `source` and leaves the other one as it was.
    pub fn put(&mut self, source: usize, p: PowerConfig)
        requires
            source < 2,
        ensures
            *final(self) == old(self).with_profile(source as int, p),
            final(self).profile(source as int) == p,
            final(self).profile(1 - source as int) == old(self).profile(1 - source as int),
    {
        self.power[source] = p;
        assert(self.power =~= old(self).with_profile(source as int, p).power);
    }
}

} // verus!
