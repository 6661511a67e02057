//! The daemon's decisions: what a client's request does and answers, and what
//! each monitored signal asks of the controller.
//!
//! The program around this library owns the socket, the buses and the hardware
//! adapter. Per request it asks `hardware_call` for the adapter call that is due,
//! makes it, and hands the adapter's answer to `process_client_request`.

use vstd::prelude::*;
use crate::comms::{DaemonCommand, DaemonResponse};
use crate::manager::{DeviceManager, HardwareCall};

verus! {

/// The profile index of `cmd`, where it names one, is one of the two.
pub open spec fn source_in_range(cmd: DaemonCommand) -> bool {
    cmd.spec_source() matches Some(ac) ==> ac < 2
}

/// A response is owed: the profile index is in range, and a query of the
/// optimizer finds a device.
pub open spec fn served(d: DeviceManager, cmd: DaemonCommand) -> bool {
    &&& source_in_range(cmd)
    &&& cmd is GetBatteryHealthOptimizer ==> d.has_device()
}

/// The adapter call that `cmd` needs in state `d`, if it needs one.
pub open spec fn spec_hardware_call(d: DeviceManager, cmd: DaemonCommand) -> Option<HardwareCall> {
    if !source_in_range(cmd) {
        None
    } else {
        match cmd {
            DaemonCommand::SetPowerMode { pwr, cpu, gpu, .. } => d.spec_power_mode_call(
                pwr,
                cpu,
                gpu,
            ),
            DaemonCommand::SetFanSpeed { rpm, .. } => d.spec_fan_rpm_call(rpm),
            DaemonCommand::SetBatteryHealthOptimizer { is_on, threshold } => d.spec_bho_call(
                is_on,
                threshold,
            ),
            _ => None,
        }
    }
}

/// The state in which `cmd` leaves `d`, given the adapter's answer `hw_ok`.
pub open spec fn state_after(d: DeviceManager, cmd: DaemonCommand, hw_ok: bool) -> DeviceManager {
    if !source_in_range(cmd) {
        d
    } else {
        match cmd {
            DaemonCommand::SetPowerMode { ac, pwr, cpu, gpu } => d.after_power_mode(
                ac,
                pwr,
                cpu,
                gpu,
                hw_ok,
            ),
            DaemonCommand::SetFanSpeed { ac, rpm } => d.after_fan_rpm(ac, rpm, hw_ok),
            DaemonCommand::SetIdle { ac, val } => d.after_idle(ac, val),
            DaemonCommand::SetBatteryHealthOptimizer { is_on, threshold } => d.after_bho(
                is_on,
                threshold,
                hw_ok,
            ),
            _ => d,
        }
    }
}

/// `resp` is the response that `cmd` gets in state `d`, given the adapter's
/// answer `hw_ok`. A write reports whether its call was due and succeeded; a read
/// reports the profile; the name is that of the bound device.
pub open spec fn answers(d: DeviceManager, cmd: DaemonCommand, hw_ok: bool, resp: DaemonResponse) -> bool {
    match cmd {
        DaemonCommand::SetPowerMode { pwr, cpu, gpu, .. } => resp == (DaemonResponse::SetPowerMode {
            result: d.spec_power_mode_call(pwr, cpu, gpu).is_some() && hw_ok,
        }),
        DaemonCommand::SetFanSpeed { .. } => resp == (DaemonResponse::SetFanSpeed {
            result: d.has_device() && hw_ok,
        }),
        DaemonCommand::SetIdle { .. } => resp == (DaemonResponse::SetIdle { result: true }),
        DaemonCommand::GetFanSpeed { ac } => resp == (DaemonResponse::GetFanSpeed {
            rpm: d.config.profile(ac as int).fan_rpm,
        }),
        DaemonCommand::GetPwrLevel { ac } => resp == (DaemonResponse::GetPwrLevel {
            pwr: d.config.profile(ac as int).power_mode,
        }),
        DaemonCommand::GetCPUBoost { ac } => resp == (DaemonResponse::GetCPUBoost {
            cpu: d.config.profile(ac as int).cpu_boost,
        }),
        DaemonCommand::GetGPUBoost { ac } => resp == (DaemonResponse::GetGPUBoost {
            gpu: d.config.profile(ac as int).gpu_boost,
        }),
        DaemonCommand::SetBatteryHealthOptimizer { is_on, threshold } => resp == (
        DaemonResponse::SetBatteryHealthOptimizer {
            result: d.spec_bho_call(is_on, threshold).is_some() && hw_ok,
        }),
        DaemonCommand::GetBatteryHealthOptimizer => resp == (
        DaemonResponse::GetBatteryHealthOptimizer {
            is_on: d.bho.enabled,
            threshold: d.bho.threshold,
        }),
        DaemonCommand::GetDeviceName => resp matches DaemonResponse::GetDeviceName { name }
            && name@ == d.device_name(),
    }
}

/// Names the adapter call that has to be made before `cmd` is processed. There is
/// none for a read, for an invalid write, or while no device is bound.
pub fn hardware_call(d: &DeviceManager, cmd: &DaemonCommand) -> (call: Option<HardwareCall>)
    ensures
        call == spec_hardware_call(*d, *cmd),
{
    match cmd {
        DaemonCommand::SetPowerMode { ac, pwr, cpu, gpu } => {
            if *ac < 2 {
                d.power_mode_call(*pwr, *cpu, *gpu)
            } else {
                None
            }
        },
        DaemonCommand::SetFanSpeed { ac, rpm } => {
            if *ac < 2 {
                d.fan_rpm_call(*rpm)
            } else {
                None
            }
        },
        DaemonCommand::SetBatteryHealthOptimizer { is_on, threshold } => d.bho_call(
            *is_on,
            *threshold,
        ),
        _ => None,
    }
}

/// Serves one request. `hw_ok` is the adapter's answer to the call that
/// `hardware_call` named for it, and is ignored where it named none. Exactly one
/// response of the request's own kind comes back, unless the request names a
/// profile that does not exist or asks for the optimizer while no device is
/// bound: then there is none, and nothing changes.
pub fn process_client_request(d: &mut DeviceManager, cmd: DaemonCommand, hw_ok: bool) -> (resp:
    Option<DaemonResponse>)
    requires
        old(d).wf(),
    ensures
        resp.is_some() == served(*old(d), cmd),
        resp matches Some(r) ==> answers(*old(d), cmd, hw_ok, r) && r.spec_kind()
            == cmd.spec_kind(),
        *final(d) == state_after(*old(d), cmd, hw_ok),
        spec_hardware_call(*old(d), cmd).is_none() ==> *final(d) == state_after(
            *old(d),
            cmd,
            false,
        ),
        final(d).wf(),
{
    match cmd.source() {
        Some(ac) => {
            if ac >= 2 {
                return None;
            }
        },
        None => {},
    }
    match cmd {
        DaemonCommand::SetPowerMode { ac, pwr, cpu, gpu } => Some(
            DaemonResponse::SetPowerMode { result: d.set_power_mode(ac, pwr, cpu, gpu, hw_ok) },
        ),
        DaemonCommand::SetFanSpeed { ac, rpm } => Some(
            DaemonResponse::SetFanSpeed { result: d.set_fan_rpm(ac, rpm, hw_ok) },
        ),
        DaemonCommand::SetIdle { ac, val } => Some(
            DaemonResponse::SetIdle { result: d.change_idle(ac, val) },
        ),
        DaemonCommand::GetFanSpeed { ac } => Some(
            DaemonResponse::GetFanSpeed { rpm: d.get_fan_rpm(ac) },
        ),
        DaemonCommand::GetPwrLevel { ac } => Some(
            DaemonResponse::GetPwrLevel { pwr: d.get_power_mode(ac) },
        ),
        DaemonCommand::GetCPUBoost { ac } => Some(
            DaemonResponse::GetCPUBoost { cpu: d.get_cpu_boost(ac) },
        ),
        DaemonCommand::GetGPUBoost { ac } => Some(
            DaemonResponse::GetGPUBoost { gpu: d.get_gpu_boost(ac) },
        ),
        DaemonCommand::SetBatteryHealthOptimizer { is_on, threshold } => Some(
            DaemonResponse::SetBatteryHealthOptimizer { result: d.set_bho(is_on, threshold, hw_ok) },
        ),
        DaemonCommand::GetBatteryHealthOptimizer => {
            match d.get_bho() {
                Some((is_on, threshold)) => Some(
                    DaemonResponse::GetBatteryHealthOptimizer { is_on, threshold },
                ),
                None => None,
            }
        },
        DaemonCommand::GetDeviceName => Some(
            DaemonResponse::GetDeviceName { name: d.get_device_name() },
        ),
    }
}

/// Whether the profiles have to be written to the preference file after `resp`:
/// after every write to a profile that succeeded.
pub fn persist_after(resp: &DaemonResponse) -> (due: bool)
    ensures
        due == match *resp {
            DaemonResponse::SetPowerMode { result } => result,
            DaemonResponse::SetFanSpeed { result } => result,
            DaemonResponse::SetIdle { result } => result,
            _ => false,
        },
{
    match resp {
        DaemonResponse::SetPowerMode { result } => *result,
        DaemonResponse::SetFanSpeed { result } => *result,
        DaemonResponse::SetIdle { result } => *result,
        _ => false,
    }
}

/// What a fired watch asks for: the light off for the idle watch, the light
/// restored for the active watch, nothing for any other identifier. Where both
/// watches carry one identifier, it counts as the idle watch.
pub open spec fn spec_on_watch_fired(d: DeviceManager, id: u32) -> Option<HardwareCall> {
    if id == d.idle_id {
        Some(HardwareCall::LightOff)
    } else if id == d.active_id {
        Some(HardwareCall::RestoreLight)
    } else {
        None
    }
}

/// Dispatches a "watch fired" signal of the idle monitor.
pub fn on_watch_fired(d: &DeviceManager, id: u32) -> (call: Option<HardwareCall>)
    ensures
        call == spec_on_watch_fired(*d, id),
{
    if d.idle_id == id {
        Some(d.light_off())
    } else if d.active_id == id {
        Some(d.restore_light())
    } else {
        None
    }
}

/// Dispatches an "active changed" signal of the screensaver: the light goes off
/// when the screensaver starts and comes back when it ends.
pub fn on_screensaver_active(d: &DeviceManager, active: bool) -> (call: HardwareCall)
    ensures
        call == if active { HardwareCall::LightOff } else { HardwareCall::RestoreLight },
{
    if active {
        d.light_off()
    } else {
        d.restore_light()
    }
}

/// The display's power-save mode in which the screen is off.
pub const POWER_SAVE_OFF: i32 = 3;

/// The display's power-save mode in which the screen is on.
pub const POWER_SAVE_ON: i32 = 0;

/// Dispatches a change of the display's power-save mode: the light goes off with
/// the screen and comes back with it; other modes ask for nothing.
pub fn on_power_save_mode(d: &DeviceManager, mode: i32) -> (call: Option<HardwareCall>)
    ensures
        call == if mode == POWER_SAVE_OFF {
            Some(HardwareCall::LightOff)
        } else if mode == POWER_SAVE_ON {
            Some(HardwareCall::RestoreLight)
        } else {
            None
        },
{
    if mode == POWER_SAVE_OFF {
        Some(d.light_off())
    } else if mode == POWER_SAVE_ON {
        Some(d.restore_light())
    } else {
        None
    }
}

/// Dispatches a "prepare for sleep" signal. `reading` is a fresh reading of the
/// line power, which the power source follows first; then the light goes off
/// when the machine goes to sleep and comes back when it resumes.
pub fn on_prepare_for_sleep(d: &mut DeviceManager, entering: bool, reading: Option<bool>) -> (call:
    HardwareCall)
    ensures
        call == if entering { HardwareCall::LightOff } else { HardwareCall::RestoreLight },
        reading matches Some(online) ==> *final(d) == (DeviceManager {
            ac_state: DeviceManager::source_for(online),
            ..*old(d)
        }),
        reading.is_none() ==> *final(d) == *old(d),
        old(d).wf() ==> final(d).wf(),
{
    d.set_ac_state_get(reading);
    if entering {
        d.light_off()
    } else {
        d.restore_light()
    }
}

/// The watches to register again after one cycle of the session bus.
#[derive(Copy, Clone, Debug, PartialEq, Eq, Structural)]
pub struct WatchPlan {
    pub active: bool,
    pub idle: bool,
}

/// Which watches are registered again after a cycle of the session bus.
/// `processed` is what the cycle reported: `None` if it failed, else whether a
/// message came in. After a cycle that succeeded the idle watch is registered
/// again, and the active watch too where a message came in.
pub fn watches_after_cycle(processed: Option<bool>) -> (plan: WatchPlan)
    ensures
        plan.idle == processed.is_some(),
        plan.active == (processed == Some(true)),
{
    match processed {
        Some(occurred) => WatchPlan { active: occurred, idle: true },
        None => WatchPlan { active: false, idle: false },
    }
}

/// A fired watch with the idle identifier asks for the light to go off and for
/// nothing else; one with the active identifier, where that differs, asks for
/// the light to be restored; any other identifier asks for nothing.
pub proof fn lemma_watch_dispatch(d: DeviceManager, id: u32)
    ensures
        id == d.idle_id ==> spec_on_watch_fired(d, id) == Some(HardwareCall::LightOff),
        id == d.active_id && id != d.idle_id ==> spec_on_watch_fired(d, id) == Some(
            HardwareCall::RestoreLight,
        ),
        id != d.idle_id && id != d.active_id ==> spec_on_watch_fired(d, id).is_none(),
{
}

/// A request that names no adapter call leaves the state as a failed call would:
/// a write that is invalid, or that finds no device, changes nothing, and a read
/// changes nothing either.
pub proof fn lemma_no_call_no_change(d: DeviceManager, cmd: DaemonCommand, hw_ok: bool)
    requires
        spec_hardware_call(d, cmd).is_none(),
        !(cmd is SetIdle),
    ensures
        state_after(d, cmd, hw_ok) == d,
{
}

/// A write that names no adapter call is answered with a failure, whatever the
/// adapter would have said: an invalid write is refused before the hardware.
pub proof fn lemma_no_call_answers_failure(
    d: DeviceManager,
    cmd: DaemonCommand,
    hw_ok: bool,
    resp: DaemonResponse,
)
    requires
        source_in_range(cmd),
        spec_hardware_call(d, cmd).is_none(),
        answers(d, cmd, hw_ok, resp),
    ensures
        cmd is SetPowerMode ==> resp == (DaemonResponse::SetPowerMode { result: false }),
        cmd is SetFanSpeed ==> resp == (DaemonResponse::SetFanSpeed { result: false }),
        cmd is SetBatteryHealthOptimizer ==> resp == (DaemonResponse::SetBatteryHealthOptimizer {
            result: false,
        }),
{
}

/// A write and the read that follows it, as requests: after a power mode request
/// that succeeded, the three reads of that profile answer with the mode and with
/// the tiers that go with it.
pub proof fn lemma_power_mode_request_reads_back(
    d: DeviceManager,
    ac: usize,
    pwr: u8,
    cpu: u8,
    gpu: u8,
)
    requires
        ac < 2,
        spec_hardware_call(d, DaemonCommand::SetPowerMode { ac, pwr, cpu, gpu }).is_some(),
    ensures
        ({
            let after = state_after(d, DaemonCommand::SetPowerMode { ac, pwr, cpu, gpu }, true);
            &&& answers(
                after,
                DaemonCommand::GetPwrLevel { ac },
                false,
                DaemonResponse::GetPwrLevel { pwr },
            )
            &&& answers(
                after,
                DaemonCommand::GetCPUBoost { ac },
                false,
                DaemonResponse::GetCPUBoost { cpu: crate::manager::effective_cpu(pwr, cpu) },
            )
            &&& answers(
                after,
                DaemonCommand::GetGPUBoost { ac },
                false,
                DaemonResponse::GetGPUBoost { gpu: crate::manager::effective_gpu(pwr, gpu) },
            )
        }),
{
}

/// After a fan speed request that succeeded, the read of that profile answers
/// with the speed that was written.
pub proof fn lemma_fan_request_reads_back(d: DeviceManager, ac: usize, rpm: i32)
    requires
        ac < 2,
        d.has_device(),
    ensures
        answers(
            state_after(d, DaemonCommand::SetFanSpeed { ac, rpm }, true),
            DaemonCommand::GetFanSpeed { ac },
            false,
            DaemonResponse::GetFanSpeed { rpm },
        ),
{
}

} // verus!
