//! The device controller: the daemon's single source of truth.
//!
//! The controller never talks to the hardware itself. For each write it names the
//! call that the hardware adapter has to make (`*_call`), and the write itself
//! takes the adapter's answer to that call as `hw_ok`. A request that names no
//! call is refused whatever `hw_ok` says, so an invalid request cannot reach the
//! adapter.

use vstd::prelude::*;
use crate::config::{Configuration, PowerConfig, AC, BATTERY, CUSTOM_MODE, MAX_CPU_BOOST, MAX_GPU_BOOST};
use crate::device::SupportedDevice;

verus! {

/// The charge threshold that the optimizer reports while it is off.
pub const BHO_OFF_THRESHOLD: u8 = 80;

/// A charge threshold is valid if it is a multiple of five from 50 to 80.
pub open spec fn valid_threshold(threshold: u8) -> bool {
    threshold % 5 == 0 && 50 <= threshold <= 80
}

/// A power mode with its boost tiers is valid if the mode is at most `CUSTOM_MODE`
/// and, in that mode, the tiers lie in their ranges.
pub open spec fn valid_power_request(mode: u8, cpu: u8, gpu: u8) -> bool {
    mode <= CUSTOM_MODE && (mode == CUSTOM_MODE ==> cpu <= MAX_CPU_BOOST && gpu <= MAX_GPU_BOOST)
}

/// The CPU tier that goes with `mode`: the given one in the custom mode, else 0.
pub open spec fn effective_cpu(mode: u8, cpu: u8) -> u8 {
    if mode == CUSTOM_MODE { cpu } else { 0 }
}

/// The GPU tier that goes with `mode`: the given one in the custom mode, else 0.
pub open spec fn effective_gpu(mode: u8, gpu: u8) -> u8 {
    if mode == CUSTOM_MODE { gpu } else { 0 }
}

/// One call on the hardware adapter.
#[derive(Copy, Clone, Debug, PartialEq, Eq, Structural)]
pub enum HardwareCall {
    SetPowerMode { mode: u8, cpu: u8, gpu: u8 },
    SetFanRpm { rpm: i32 },
    SetBho { enabled: bool, threshold: u8 },
    LightOff,
    RestoreLight,
}

/// The ids that an attached device reports, spelled as the catalog spells them.
#[derive(Clone, Debug)]
pub struct UsbId {
    pub vid: String,
    pub pid: String,
}

/// The battery health optimizer: whether it caps charging, and at what percentage.
#[derive(Copy, Clone, Debug, PartialEq, Eq, Structural)]
pub struct OptimizerState {
    pub enabled: bool,
    pub threshold: u8,
}

impl OptimizerState {
    /// The threshold is a percentage, and a valid one while the optimizer is on.
    pub open spec fn wf(&self) -> bool {
        self.threshold <= 100 && (self.enabled ==> valid_threshold(self.threshold))
    }
}

/// Some entry of `catalog` carries the ids of `id`.
pub open spec fn supported(catalog: Seq<SupportedDevice>, id: UsbId) -> bool {
    exists|k: int| 0 <= k < catalog.len() && (#[trigger] catalog[k]).identified_by(id.vid@, id.pid@)
}

/// `k` is the first entry of `catalog` that carries the ids of `id`.
pub open spec fn first_entry_for(catalog: Seq<SupportedDevice>, id: UsbId, k: int) -> bool {
    &&& 0 <= k < catalog.len()
    &&& catalog[k].identified_by(id.vid@, id.pid@)
    &&& forall|m: int| 0 <= m < k ==> !(#[trigger] catalog[m]).identified_by(id.vid@, id.pid@)
}

/// `i` is the first of `attached` that the catalog supports, and `k` its first entry.
pub open spec fn first_supported(
    catalog: Seq<SupportedDevice>,
    attached: Seq<UsbId>,
    i: int,
    k: int,
) -> bool {
    &&& 0 <= i < attached.len()
    &&& first_entry_for(catalog, attached[i], k)
    &&& forall|j: int| 0 <= j < i ==> !supported(catalog, #[trigger] attached[j])
}

/// The first entry of `catalog` that carries the ids of `id`, if there is one.
pub fn find_entry(catalog: &Vec<SupportedDevice>, id: &UsbId) -> (found: Option<usize>)
    ensures
        found.is_none() <==> !supported(catalog@, *id),
        found matches Some(k) ==> first_entry_for(catalog@, *id, k as int),
{
    let m: usize = catalog.len();
    let mut k: usize = 0;
    while k < m
        invariant
            m == catalog@.len(),
            k <= m,
            forall|x: int| 0 <= x < k ==> !(#[trigger] catalog@[x]).identified_by(id.vid@, id.pid@),
        decreases m - k,
    {
        if catalog[k].matches(&id.vid, &id.pid) {
            return Some(k);
        }
        k += 1;
    }
    None
}

/// The controller's state.
#[derive(Clone, Debug)]
pub struct DeviceManager {
    /// The catalog of supported models.
    pub supported_devices: Vec<SupportedDevice>,
    /// The bound device, as an index into the catalog; `None` if none was found.
    pub device: Option<usize>,
    /// The profiles, one per power source.
    pub config: Configuration,
    /// The current power source: `BATTERY` or `AC`.
    pub ac_state: usize,
    /// The battery health optimizer, as last applied.
    pub bho: OptimizerState,
    /// The identifier of the idle watch.
    pub idle_id: u32,
    /// The identifier of the active watch.
    pub active_id: u32,
}

impl DeviceManager {
    /// What every operation keeps: profiles and optimizer are well formed, the
    /// power source is one of the two, and a bound device is in the catalog.
    pub open spec fn wf(&self) -> bool {
        &&& self.config.wf()
        &&& self.ac_state < 2
        &&& self.bho.wf()
        &&& (self.device matches Some(k) ==> k < self.supported_devices@.len())
    }

    /// A device is bound.
    pub open spec fn has_device(&self) -> bool {
        self.device.is_some()
    }

    /// Tests `wf` at run time.
    pub fn is_wf(&self) -> (b: bool)
        ensures
            b == self.wf(),
    {
        let device_ok: bool = match self.device {
            Some(k) => k < self.supported_devices.len(),
            None => true,
        };
        let bho_ok: bool = self.bho.threshold <= 100 && (!self.bho.enabled || (self.bho.threshold
            % 5 == 0 && 50 <= self.bho.threshold && self.bho.threshold <= 80));
        self.config.is_wf() && self.ac_state < 2 && bho_ok && device_ok
    }

    /// The display name of the bound device, or a fixed name where none is bound.
    pub open spec fn device_name(&self) -> Seq<char> {
        match self.device {
            Some(k) => self.supported_devices@[k as int].name@,
            None => "Unknown Device"@,
        }
    }

    pub fn get_device_name(&self) -> (name: String)
        requires
            self.wf(),
        ensures
            name@ == self.device_name(),
    {
        match self.device {
            Some(k) => self.supported_devices[k].get_name(),
            None => "Unknown Device".to_owned(),
        }
    }

    /// A controller over `catalog`: no device bound, default profiles, on battery,
    /// the optimizer off.
    pub fn with_catalog(catalog: Vec<SupportedDevice>) -> (d: DeviceManager)
        ensures
            d.supported_devices == catalog,
            d.device.is_none(),
            d.config.profile(0) == PowerConfig::initial(),
            d.config.profile(1) == PowerConfig::initial(),
            d.ac_state == BATTERY,
            d.bho == (OptimizerState { enabled: false, threshold: BHO_OFF_THRESHOLD }),
            d.idle_id == 0,
            d.active_id == 0,
            d.wf(),
    {
        DeviceManager {
            supported_devices: catalog,
            device: None,
            config: Configuration::new(),
            ac_state: BATTERY,
            bho: OptimizerState { enabled: false, threshold: BHO_OFF_THRESHOLD },
            idle_id: 0,
            active_id: 0,
        }
    }

    /// A controller with an empty catalog.
    pub fn new() -> (d: DeviceManager)
        ensures
            d.supported_devices@.len() == 0,
            d.device.is_none(),
            d.config.profile(0) == PowerConfig::initial(),
            d.config.profile(1) == PowerConfig::initial(),
            d.ac_state == BATTERY,
            d.bho == (OptimizerState { enabled: false, threshold: BHO_OFF_THRESHOLD }),
            d.idle_id == 0,
            d.active_id == 0,
            d.wf(),
    {
        DeviceManager::with_catalog(Vec::new())
    }

    /// Takes over the profiles that the preference store held. Where it held
    /// none, or profiles that are not well formed, the default profiles stand in.
    pub fn restore_config(&mut self, stored: Option<Configuration>) -> (kept: bool)
        ensures
            kept == (stored matches Some(c) && c.wf()),
            kept ==> Some(final(self).config) == stored,
            !kept ==> final(self).config.profile(0) == PowerConfig::initial()
                && final(self).config.profile(1) == PowerConfig::initial(),
            final(self).supported_devices == old(self).supported_devices,
            final(self).device == old(self).device,
            final(self).ac_state == old(self).ac_state,
            final(self).bho == old(self).bho,
            final(self).idle_id == old(self).idle_id,
            final(self).active_id == old(self).active_id,
            old(self).wf() ==> final(self).wf(),
    {
        match stored {
            Some(c) => {
                if c.is_wf() {
                    self.config = c;
                    return true;
                }
            },
            None => {},
        }
        self.config = Configuration::new();
        false
    }

    /// The profile of the current power source.
    pub fn active_profile(&self) -> (p: PowerConfig)
        requires
            self.ac_state < 2,
        ensures
            p == self.config.profile(self.ac_state as int),
    {
        self.config.get(self.ac_state)
    }

    /// Binds the first of `attached` that the catalog supports, to its first
    /// catalog entry; binds nothing if the catalog supports none of them.
    pub fn discover_devices(&mut self, attached: &Vec<UsbId>)
        ensures
            final(self).supported_devices == old(self).supported_devices,
            final(self).config == old(self).config,
            final(self).ac_state == old(self).ac_state,
            final(self).bho == old(self).bho,
            final(self).idle_id == old(self).idle_id,
            final(self).active_id == old(self).active_id,
            final(self).device.is_none() <==> forall|j: int|
                0 <= j < attached@.len() ==> !supported(
                    old(self).supported_devices@,
                    #[trigger] attached@[j],
                ),
            final(self).device matches Some(k) ==> exists|i: int|
                first_supported(old(self).supported_devices@, attached@, i, k as int),
            old(self).wf() ==> final(self).wf(),
    {
        self.device = None;
        let n: usize = attached.len();
        let mut i: usize = 0;
        while i < n
            invariant
                n == attached@.len(),
                i <= n,
                self.device.is_none(),
                self.supported_devices == old(self).supported_devices,
                self.config == old(self).config,
                self.ac_state == old(self).ac_state,
                self.bho == old(self).bho,
                self.idle_id == old(self).idle_id,
                self.active_id == old(self).active_id,
                forall|j: int|
                    0 <= j < i ==> !supported(self.supported_devices@, #[trigger] attached@[j]),
            decreases n - i,
        {
            match find_entry(&self.supported_devices, &attached[i]) {
                Some(k) => {
                    self.device = Some(k);
                    proof {
                        assert(first_supported(
                            self.supported_devices@,
                            attached@,
                            i as int,
                            k as int,
                        ));
                    }
                    return ;
                },
                None => {},
            }
            i += 1;
        }
    }

    /// The bound device, if there is one.
    pub fn get_device(&self) -> (dev: Option<&SupportedDevice>)
        requires
            self.wf(),
        ensures
            dev.is_some() == self.has_device(),
            self.device matches Some(k) ==> dev == Some(&self.supported_devices@[k as int]),
    {
        match self.device {
            Some(k) => Some(&self.supported_devices[k]),
            None => None,
        }
    }

    /// The adapter call that a power mode request needs: none without a device or
    /// for an invalid request; else the mode with the tiers that go with it.
    pub open spec fn spec_power_mode_call(&self, mode: u8, cpu: u8, gpu: u8) -> Option<
        HardwareCall,
    > {
        if self.has_device() && valid_power_request(mode, cpu, gpu) {
            Some(
                HardwareCall::SetPowerMode {
                    mode,
                    cpu: effective_cpu(mode, cpu),
                    gpu: effective_gpu(mode, gpu),
                },
            )
        } else {
            None
        }
    }

    /// The profile `p` once a power mode request has been applied to it.
    pub open spec fn profile_with_mode(p: PowerConfig, mode: u8, cpu: u8, gpu: u8) -> PowerConfig {
        PowerConfig {
            power_mode: mode,
            cpu_boost: effective_cpu(mode, cpu),
            gpu_boost: effective_gpu(mode, gpu),
            ..p
        }
    }

    /// The state after `set_power_mode`: mode and tiers of the profile of `source`
    /// change together where the request named a call and the adapter succeeded;
    /// else nothing changes.
    pub open spec fn after_power_mode(
        &self,
        source: usize,
        mode: u8,
        cpu: u8,
        gpu: u8,
        hw_ok: bool,
    ) -> DeviceManager {
        if self.spec_power_mode_call(mode, cpu, gpu).is_some() && hw_ok {
            DeviceManager {
                config: self.config.with_profile(
                    source as int,
                    Self::profile_with_mode(self.config.profile(source as int), mode, cpu, gpu),
                ),
                ..*self
            }
        } else {
            *self
        }
    }

    #[verifier::when_used_as_spec(spec_power_mode_call)]
    pub fn power_mode_call(&self, mode: u8, cpu: u8, gpu: u8) -> (call: Option<HardwareCall>)
        ensures
            call == self.spec_power_mode_call(mode, cpu, gpu),
    {
        if self.device.is_none() || mode > CUSTOM_MODE {
            return None;
        }
        if mode == CUSTOM_MODE {
            if cpu > MAX_CPU_BOOST || gpu > MAX_GPU_BOOST {
                return None;
            }
            Some(HardwareCall::SetPowerMode { mode, cpu, gpu })
        } else {
            Some(HardwareCall::SetPowerMode { mode, cpu: 0, gpu: 0 })
        }
    }

    /// Applies a power mode request to the profile of `source`, given the
    /// adapter's answer `hw_ok` to the call that `power_mode_call` named.
    pub fn set_power_mode(&mut self, source: usize, mode: u8, cpu: u8, gpu: u8, hw_ok: bool) -> (ok:
        bool)
        requires
            source < 2,
        ensures
            ok == (old(self).spec_power_mode_call(mode, cpu, gpu).is_some() && hw_ok),
            *final(self) == old(self).after_power_mode(source, mode, cpu, gpu, hw_ok),
            !ok ==> *final(self) == *old(self),
            old(self).wf() ==> final(self).wf(),
    {
        if !hw_ok {
            return false;
        }
        match self.power_mode_call(mode, cpu, gpu) {
            Some(HardwareCall::SetPowerMode { mode: m, cpu: c, gpu: g }) => {
                let mut p: PowerConfig = self.config.get(source);
                p.power_mode = m;
                p.cpu_boost = c;
                p.gpu_boost = g;
                self.config.put(source, p);
                true
            },
            _ => false,
        }
    }

    /// The adapter call that a fan request needs: none without a device.
    pub open spec fn spec_fan_rpm_call(&self, rpm: i32) -> Option<HardwareCall> {
        if self.has_device() {
            Some(HardwareCall::SetFanRpm { rpm })
        } else {
            None
        }
    }

    /// The state after `set_fan_rpm`.
    pub open spec fn after_fan_rpm(&self, source: usize, rpm: i32, hw_ok: bool) -> DeviceManager {
        if self.has_device() && hw_ok {
            DeviceManager {
                config: self.config.with_profile(
                    source as int,
                    PowerConfig { fan_rpm: rpm, ..self.config.profile(source as int) },
                ),
                ..*self
            }
        } else {
            *self
        }
    }

    #[verifier::when_used_as_spec(spec_fan_rpm_call)]
    pub fn fan_rpm_call(&self, rpm: i32) -> (call: Option<HardwareCall>)
        ensures
            call == self.spec_fan_rpm_call(rpm),
    {
        if self.device.is_some() {
            Some(HardwareCall::SetFanRpm { rpm })
        } else {
            None
        }
    }

    /// Records a fan speed in the profile of `source`, given the adapter's answer
    /// `hw_ok` to the call that `fan_rpm_call` named. Every `rpm` is passed on.
    pub fn set_fan_rpm(&mut self, source: usize, rpm: i32, hw_ok: bool) -> (ok: bool)
        requires
            source < 2,
        ensures
            ok == (old(self).has_device() && hw_ok),
            *final(self) == old(self).after_fan_rpm(source, rpm, hw_ok),
            !ok ==> *final(self) == *old(self),
            old(self).wf() ==> final(self).wf(),
    {
        if self.device.is_none() || !hw_ok {
            return false;
        }
        let mut p: PowerConfig = self.config.get(source);
        p.fan_rpm = rpm;
        self.config.put(source, p);
        true
    }

    /// The state after `change_idle`.
    pub open spec fn after_idle(&self, source: usize, value: u32) -> DeviceManager {
        DeviceManager {
            config: self.config.with_profile(
                source as int,
                PowerConfig { idle: value, ..self.config.profile(source as int) },
            ),
            ..*self
        }
    }

    /// Sets the idle timeout of the profile of `source`. No hardware is involved,
    /// so this always succeeds.
    pub fn change_idle(&mut self, source: usize, value: u32) -> (ok: bool)
        requires
            source < 2,
        ensures
            ok,
            *final(self) == old(self).after_idle(source, value),
            old(self).wf() ==> final(self).wf(),
    {
        let mut p: PowerConfig = self.config.get(source);
        p.idle = value;
        self.config.put(source, p);
        true
    }

    pub fn get_power_mode(&self, source: usize) -> (mode: u8)
        requires
            source < 2,
        ensures
            mode == self.config.profile(source as int).power_mode,
    {
        self.config.get(source).power_mode
    }

    pub fn get_cpu_boost(&self, source: usize) -> (cpu: u8)
        requires
            source < 2,
        ensures
            cpu == self.config.profile(source as int).cpu_boost,
    {
        self.config.get(source).cpu_boost
    }

    pub fn get_gpu_boost(&self, source: usize) -> (gpu: u8)
        requires
            source < 2,
        ensures
            gpu == self.config.profile(source as int).gpu_boost,
    {
        self.config.get(source).gpu_boost
    }

    pub fn get_fan_rpm(&self, source: usize) -> (rpm: i32)
        requires
            source < 2,
        ensures
            rpm == self.config.profile(source as int).fan_rpm,
    {
        self.config.get(source).fan_rpm
    }

    /// The optimizer state that a request asks for: off always reads as
    /// `BHO_OFF_THRESHOLD`.
    pub open spec fn requested_bho(enabled: bool, threshold: u8) -> OptimizerState {
        OptimizerState {
            enabled,
            threshold: if enabled { threshold } else { BHO_OFF_THRESHOLD },
        }
    }

    /// The adapter call that an optimizer request needs: none without a device,
    /// and none for switching on with an invalid threshold.
    pub open spec fn spec_bho_call(&self, enabled: bool, threshold: u8) -> Option<HardwareCall> {
        if self.has_device() && (enabled ==> valid_threshold(threshold)) {
            Some(
                HardwareCall::SetBho {
                    enabled,
                    threshold: Self::requested_bho(enabled, threshold).threshold,
                },
            )
        } else {
            None
        }
    }

    /// The state after `set_bho`.
    pub open spec fn after_bho(&self, enabled: bool, threshold: u8, hw_ok: bool) -> DeviceManager {
        if self.spec_bho_call(enabled, threshold).is_some() && hw_ok {
            DeviceManager { bho: Self::requested_bho(enabled, threshold), ..*self }
        } else {
            *self
        }
    }

    #[verifier::when_used_as_spec(spec_bho_call)]
    pub fn bho_call(&self, enabled: bool, threshold: u8) -> (call: Option<HardwareCall>)
        ensures
            call == self.spec_bho_call(enabled, threshold),
    {
        if self.device.is_none() {
            return None;
        }
        if !enabled {
            return Some(HardwareCall::SetBho { enabled: false, threshold: BHO_OFF_THRESHOLD });
        }
        if threshold % 5 != 0 || threshold < 50 || threshold > 80 {
            return None;
        }
        Some(HardwareCall::SetBho { enabled: true, threshold })
    }

    /// Switches the optimizer, given the adapter's answer `hw_ok` to the call that
    /// `bho_call` named. Switching on with an invalid threshold names no call and
    /// fails whatever `hw_ok` says.
    pub fn set_bho(&mut self, enabled: bool, threshold: u8, hw_ok: bool) -> (ok: bool)
        ensures
            ok == (old(self).spec_bho_call(enabled, threshold).is_some() && hw_ok),
            ok && enabled ==> valid_threshold(threshold),
            *final(self) == old(self).after_bho(enabled, threshold, hw_ok),
            !ok ==> *final(self) == *old(self),
            old(self).wf() ==> final(self).wf(),
    {
        if !hw_ok {
            return false;
        }
        match self.bho_call(enabled, threshold) {
            Some(HardwareCall::SetBho { enabled: e, threshold: t }) => {
                self.bho = OptimizerState { enabled: e, threshold: t };
                true
            },
            _ => false,
        }
    }

    /// What `get_bho` returns: the optimizer state, or nothing without a device.
    pub open spec fn spec_get_bho(&self) -> Option<(bool, u8)> {
        if self.has_device() {
            Some((self.bho.enabled, self.bho.threshold))
        } else {
            None
        }
    }

    #[verifier::when_used_as_spec(spec_get_bho)]
    pub fn get_bho(&self) -> (state: Option<(bool, u8)>)
        ensures
            state == self.spec_get_bho(),
    {
        if self.device.is_some() {
            Some((self.bho.enabled, self.bho.threshold))
        } else {
            None
        }
    }

    /// The profile index for a line-power signal.
    pub open spec fn source_for(online: bool) -> usize {
        if online { AC } else { BATTERY }
    }

    /// Makes the power source follow a line-power signal.
    pub fn set_ac_state(&mut self, online: bool)
        ensures
            *final(self) == (DeviceManager { ac_state: Self::source_for(online), ..*old(self) }),
            old(self).wf() ==> final(self).wf(),
    {
        self.ac_state = if online { AC } else { BATTERY };
    }

    /// Makes the power source follow a fresh reading of the line power; a reading
    /// that failed (`None`) changes nothing.
    pub fn set_ac_state_get(&mut self, reading: Option<bool>)
        ensures
            reading matches Some(online) ==> *final(self) == (DeviceManager {
                ac_state: Self::source_for(online),
                ..*old(self)
            }),
            reading.is_none() ==> *final(self) == *old(self),
            old(self).wf() ==> final(self).wf(),
    {
        match reading {
            Some(online) => self.set_ac_state(online),
            None => {},
        }
    }

    /// Stores the identifier under which the idle watch was registered.
    pub fn add_idle_watch(&mut self, id: u32)
        ensures
            *final(self) == (DeviceManager { idle_id: id, ..*old(self) }),
            old(self).wf() ==> final(self).wf(),
    {
        self.idle_id = id;
    }

    /// Stores the identifier under which the active watch was registered.
    pub fn add_active_watch(&mut self, id: u32)
        ensures
            *final(self) == (DeviceManager { active_id: id, ..*old(self) }),
            old(self).wf() ==> final(self).wf(),
    {
        self.active_id = id;
    }

    /// The call that switches the indicator light off; it is due in every state.
    pub fn light_off(&self) -> (call: HardwareCall)
        ensures
            call == HardwareCall::LightOff,
    {
        HardwareCall::LightOff
    }

    /// The call that restores the indicator light; it is due in every state.
    pub fn restore_light(&self) -> (call: HardwareCall)
        ensures
            call == HardwareCall::RestoreLight,
    {
        HardwareCall::RestoreLight
    }
}

/// A fixed mode that was written reads back as written, with both boost tiers
/// at 0 whatever tiers came with it: for every bound device, every profile, every
/// mode below the custom one, where the adapter succeeded.
pub proof fn lemma_fixed_mode_reads_back(d: DeviceManager, source: usize, mode: u8, cpu: u8, gpu: u8)
    requires
        source < 2,
        mode < CUSTOM_MODE,
        d.has_device(),
    ensures
        d.after_power_mode(source, mode, cpu, gpu, true).config.profile(source as int).power_mode
            == mode,
        d.after_power_mode(source, mode, cpu, gpu, true).config.profile(source as int).cpu_boost
            == 0,
        d.after_power_mode(source, mode, cpu, gpu, true).config.profile(source as int).gpu_boost
            == 0,
{
}

/// The custom mode that was written with tiers in range reads back with exactly
/// those tiers, where a device is bound and the adapter succeeded.
pub proof fn lemma_custom_mode_reads_back(d: DeviceManager, source: usize, cpu: u8, gpu: u8)
    requires
        source < 2,
        cpu <= MAX_CPU_BOOST,
        gpu <= MAX_GPU_BOOST,
        d.has_device(),
    ensures
        d.after_power_mode(source, CUSTOM_MODE, cpu, gpu, true).config.profile(
            source as int,
        ).power_mode == CUSTOM_MODE,
        d.after_power_mode(source, CUSTOM_MODE, cpu, gpu, true).config.profile(
            source as int,
        ).cpu_boost == cpu,
        d.after_power_mode(source, CUSTOM_MODE, cpu, gpu, true).config.profile(
            source as int,
        ).gpu_boost == gpu,
{
}

/// A write to one profile leaves the other profile, and everything but the
/// profiles, as it was.
pub proof fn lemma_power_mode_touches_one_profile(
    d: DeviceManager,
    source: usize,
    mode: u8,
    cpu: u8,
    gpu: u8,
    hw_ok: bool,
)
    requires
        source < 2,
    ensures
        d.after_power_mode(source, mode, cpu, gpu, hw_ok).config.profile(1 - source as int)
            == d.config.profile(1 - source as int),
        d.after_power_mode(source, mode, cpu, gpu, hw_ok).bho == d.bho,
        d.after_power_mode(source, mode, cpu, gpu, hw_ok).ac_state == d.ac_state,
        d.after_power_mode(source, mode, cpu, gpu, hw_ok).device == d.device,
{
}

/// The state after the power mode writes `writes` to the profile of `source`,
/// applied one after the other, each with an adapter that succeeds.
pub open spec fn after_writes(d: DeviceManager, source: usize, writes: Seq<(u8, u8, u8)>) -> DeviceManager
    decreases writes.len(),
{
    if writes.len() == 0 {
        d
    } else {
        after_writes(d, source, writes.drop_last()).after_power_mode(
            source,
            writes.last().0,
            writes.last().1,
            writes.last().2,
            true,
        )
    }
}

/// Whatever the order in which writers get their turn, after any number of valid
/// power mode writes to one profile the profile holds mode and tiers of the
/// write that came last, all three from that one write: no mixture of two
/// writes can be read. The rest of the profile is as it was before.
pub proof fn lemma_last_power_mode_write_wins(
    d: DeviceManager,
    source: usize,
    writes: Seq<(u8, u8, u8)>,
)
    requires
        source < 2,
        d.has_device(),
        writes.len() > 0,
        forall|i: int|
            0 <= i < writes.len() ==> valid_power_request(
                (#[trigger] writes[i]).0,
                writes[i].1,
                writes[i].2,
            ),
    ensures
        after_writes(d, source, writes).config.profile(source as int)
            == DeviceManager::profile_with_mode(
            d.config.profile(source as int),
            writes.last().0,
            writes.last().1,
            writes.last().2,
        ),
        after_writes(d, source, writes).has_device(),
    decreases writes.len(),
{
    let before = writes.drop_last();
    if before.len() > 0 {
        assert forall|i: int| 0 <= i < before.len() implies valid_power_request(
            (#[trigger] before[i]).0,
            before[i].1,
            before[i].2,
        ) by {
            assert(before[i] == writes[i]);
        }
        lemma_last_power_mode_write_wins(d, source, before);
    } else {
        assert(after_writes(d, source, before) == d);
    }
}

/// Switching the optimizer on succeeds only with a valid threshold. With any
/// other threshold no adapter call is named, the request fails whatever the
/// adapter would have said, and the state stays as it was.
pub proof fn lemma_invalid_threshold_is_refused(d: DeviceManager, threshold: u8, hw_ok: bool)
    requires
        !valid_threshold(threshold),
    ensures
        d.spec_bho_call(true, threshold).is_none(),
        d.after_bho(true, threshold, hw_ok) == d,
{
}

/// Switching the optimizer on with a valid threshold names a call with exactly
/// that threshold and, where the adapter succeeds, reads back as on at it.
pub proof fn lemma_valid_threshold_reads_back(d: DeviceManager, threshold: u8)
    requires
        valid_threshold(threshold),
        d.has_device(),
    ensures
        d.spec_bho_call(true, threshold) == Some(
            HardwareCall::SetBho { enabled: true, threshold },
        ),
        d.after_bho(true, threshold, true).spec_get_bho() == Some((true, threshold)),
{
}

/// Switching the optimizer off reads back as off at `BHO_OFF_THRESHOLD`,
/// whatever threshold came with the request, where a device is bound and the
/// adapter succeeded.
pub proof fn lemma_bho_off_reads_back_normalized(d: DeviceManager, threshold: u8)
    requires
        d.has_device(),
    ensures
        d.spec_bho_call(false, threshold).is_some(),
        d.after_bho(false, threshold, true).spec_get_bho() == Some((false, BHO_OFF_THRESHOLD)),
{
}

/// A fan speed that was written reads back as written, where a device is bound
/// and the adapter succeeded.
pub proof fn lemma_fan_rpm_reads_back(d: DeviceManager, source: usize, rpm: i32)
    requires
        source < 2,
        d.has_device(),
    ensures
        d.after_fan_rpm(source, rpm, true).config.profile(source as int).fan_rpm == rpm,
{
}

/// Every operation on the controller keeps it well formed.
pub proof fn lemma_operations_keep_wf(
    d: DeviceManager,
    source: usize,
    mode: u8,
    cpu: u8,
    gpu: u8,
    rpm: i32,
    idle: u32,
    enabled: bool,
    threshold: u8,
    hw_ok: bool,
)
    requires
        d.wf(),
        source < 2,
    ensures
        d.after_power_mode(source, mode, cpu, gpu, hw_ok).wf(),
        d.after_fan_rpm(source, rpm, hw_ok).wf(),
        d.after_idle(source, idle).wf(),
        d.after_bho(enabled, threshold, hw_ok).wf(),
{
}

} // verus!
