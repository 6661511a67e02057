//! The client's decisions: which request a command line stands for, which are
//! refused before anything is sent, and what a response means.

use vstd::prelude::*;
use crate::comms::{DaemonCommand, DaemonResponse};
use crate::config::{CUSTOM_MODE, MAX_CPU_BOOST, MAX_GPU_BOOST};
use crate::manager::{valid_threshold, BHO_OFF_THRESHOLD};

verus! {

/// The two states that the optimizer can be asked for.
#[derive(Copy, Clone, Debug, PartialEq, Eq, Structural)]
pub enum OnOff {
    On,
    Off,
}

impl OnOff {
    pub fn is_on(&self) -> (on: bool)
        ensures
            on == (*self == OnOff::On),
    {
        match self {
            OnOff::On => true,
            OnOff::Off => false,
        }
    }
}

/// Why a command line is refused before anything is sent.
#[derive(Copy, Clone, Debug, PartialEq, Eq, Structural)]
pub enum CliError {
    /// The threshold is no multiple of five from 50 to 80.
    InvalidThreshold,
    /// The optimizer is to go on and no threshold is given.
    MissingThreshold,
    /// The power mode is above 4.
    InvalidPowerMode,
    /// The power mode is 4 and no CPU tier is given.
    MissingCpuMode,
    /// The CPU tier is above 3.
    InvalidCpuMode,
    /// The power mode is 4 and no GPU tier is given.
    MissingGpuMode,
    /// The GPU tier is above 2.
    InvalidGpuMode,
}

pub fn valid_bho_threshold(threshold: u8) -> (valid: bool)
    ensures
        valid == valid_threshold(threshold),
{
    if threshold % 5 != 0 {
        return false;
    }
    if threshold < 50 || threshold > 80 {
        return false;
    }
    return true;
}

/// The request that switches the optimizer off; it always carries
/// `BHO_OFF_THRESHOLD`.
pub fn bho_toggle_off() -> (cmd: DaemonCommand)
    ensures
        cmd == (DaemonCommand::SetBatteryHealthOptimizer {
            is_on: false,
            threshold: BHO_OFF_THRESHOLD,
        }),
{
    DaemonCommand::SetBatteryHealthOptimizer { is_on: false, threshold: BHO_OFF_THRESHOLD }
}

/// The request that switches the optimizer on at `threshold`; none if the
/// threshold is invalid.
pub fn bho_toggle_on(threshold: u8) -> (cmd: Option<DaemonCommand>)
    ensures
        cmd == if valid_threshold(threshold) {
            Some(DaemonCommand::SetBatteryHealthOptimizer { is_on: true, threshold })
        } else {
            None
        },
{
    if !valid_bho_threshold(threshold) {
        return None;
    }
    Some(DaemonCommand::SetBatteryHealthOptimizer { is_on: true, threshold })
}

/// The request that `write_bho` sends, if it sends one.
pub open spec fn spec_write_bho(on: bool, threshold: u8) -> Option<DaemonCommand> {
    if !on {
        Some(
            DaemonCommand::SetBatteryHealthOptimizer {
                is_on: false,
                threshold: BHO_OFF_THRESHOLD,
            },
        )
    } else if valid_threshold(threshold) {
        Some(DaemonCommand::SetBatteryHealthOptimizer { is_on: true, threshold })
    } else {
        None
    }
}

/// The request for the optimizer: off ignores the threshold, on needs a valid one.
pub fn write_bho(on: bool, threshold: u8) -> (cmd: Option<DaemonCommand>)
    ensures
        cmd == spec_write_bho(on, threshold),
{
    if !on {
        return Some(bho_toggle_off());
    }
    bho_toggle_on(threshold)
}

/// What `validate_and_write_bho` decides.
pub open spec fn spec_validate_bho(threshold: Option<u8>, state: OnOff) -> Result<
    DaemonCommand,
    CliError,
> {
    match threshold {
        Some(t) => if !valid_threshold(t) {
            Err(CliError::InvalidThreshold)
        } else if state == OnOff::On {
            Ok(DaemonCommand::SetBatteryHealthOptimizer { is_on: true, threshold: t })
        } else {
            Ok(
                DaemonCommand::SetBatteryHealthOptimizer {
                    is_on: false,
                    threshold: BHO_OFF_THRESHOLD,
                },
            )
        },
        None => if state == OnOff::On {
            Err(CliError::MissingThreshold)
        } else {
            Ok(
                DaemonCommand::SetBatteryHealthOptimizer {
                    is_on: false,
                    threshold: BHO_OFF_THRESHOLD,
                },
            )
        },
    }
}

/// Checks an optimizer command line and names its request. A threshold that is
/// given has to be valid, also for switching off; switching on needs one.
pub fn validate_and_write_bho(threshold: Option<u8>, state: OnOff) -> (res: Result<
    DaemonCommand,
    CliError,
>)
    ensures
        res == spec_validate_bho(threshold, state),
{
    match threshold {
        Some(t) => {
            if !valid_bho_threshold(t) {
                return Err(CliError::InvalidThreshold);
            }
            match write_bho(state.is_on(), t) {
                Some(cmd) => Ok(cmd),
                None => Err(CliError::InvalidThreshold),
            }
        },
        None => {
            if state.is_on() {
                return Err(CliError::MissingThreshold);
            }
            match write_bho(state.is_on(), BHO_OFF_THRESHOLD) {
                Some(cmd) => Ok(cmd),
                None => Err(CliError::InvalidThreshold),
            }
        },
    }
}

/// What `write_pwr_mode` decides. The checks come in this order: the mode, the
/// CPU tier, the GPU tier. Outside the custom mode a tier that is left out
/// counts as 0, and one that is given is still checked and sent.
pub open spec fn spec_write_pwr_mode(ac: usize, pwr: u8, cpu: Option<u8>, gpu: Option<u8>) -> Result<
    DaemonCommand,
    CliError,
> {
    if pwr > CUSTOM_MODE {
        Err(CliError::InvalidPowerMode)
    } else if pwr == CUSTOM_MODE && cpu.is_none() {
        Err(CliError::MissingCpuMode)
    } else if cpu.unwrap_or(0) > MAX_CPU_BOOST {
        Err(CliError::InvalidCpuMode)
    } else if pwr == CUSTOM_MODE && gpu.is_none() {
        Err(CliError::MissingGpuMode)
    } else if gpu.unwrap_or(0) > MAX_GPU_BOOST {
        Err(CliError::InvalidGpuMode)
    } else {
        Ok(DaemonCommand::SetPowerMode { ac, pwr, cpu: cpu.unwrap_or(0), gpu: gpu.unwrap_or(0) })
    }
}

/// Checks a power mode command line and names its request.
pub fn write_pwr_mode(ac: usize, pwr_mode: u8, cpu_mode: Option<u8>, gpu_mode: Option<u8>) -> (res:
    Result<DaemonCommand, CliError>)
    ensures
        res == spec_write_pwr_mode(ac, pwr_mode, cpu_mode, gpu_mode),
{
    if pwr_mode > CUSTOM_MODE {
        return Err(CliError::InvalidPowerMode);
    }
    let cm: u8 = match cpu_mode {
        Some(c) => c,
        None => {
            if pwr_mode == CUSTOM_MODE {
                return Err(CliError::MissingCpuMode);
            }
            0
        },
    };
    if cm > MAX_CPU_BOOST {
        return Err(CliError::InvalidCpuMode);
    }
    let gm: u8 = match gpu_mode {
        Some(g) => g,
        None => {
            if pwr_mode == CUSTOM_MODE {
                return Err(CliError::MissingGpuMode);
            }
            0
        },
    };
    if gm > MAX_GPU_BOOST {
        return Err(CliError::InvalidGpuMode);
    }
    Ok(DaemonCommand::SetPowerMode { ac, pwr: pwr_mode, cpu: cm, gpu: gm })
}

/// The request that sets the fan speed; every speed is sent as it is.
pub fn write_fan_speed(ac: usize, rpm: i32) -> (cmd: DaemonCommand)
    ensures
        cmd == (DaemonCommand::SetFanSpeed { ac, rpm }),
{
    DaemonCommand::SetFanSpeed { ac, rpm }
}

/// What a stored fan speed means.
#[derive(Copy, Clone, Debug, PartialEq, Eq, Structural)]
pub enum FanSetting {
    /// A negative speed: not known.
    Unknown,
    /// Speed 0: the firmware controls the fan.
    Automatic,
    /// A fixed speed in revolutions per minute.
    Rpm(i32),
}

/// The meaning of the stored speed `rpm`.
pub open spec fn spec_fan_setting(rpm: i32) -> FanSetting {
    if rpm < 0 {
        FanSetting::Unknown
    } else if rpm == 0 {
        FanSetting::Automatic
    } else {
        FanSetting::Rpm(rpm)
    }
}

#[verifier::when_used_as_spec(spec_fan_setting)]
pub fn fan_setting(rpm: i32) -> (setting: FanSetting)
    ensures
        setting == spec_fan_setting(rpm),
{
    if rpm < 0 {
        FanSetting::Unknown
    } else if rpm == 0 {
        FanSetting::Automatic
    } else {
        FanSetting::Rpm(rpm)
    }
}

/// What the client reports after asking for the fan speed.
#[derive(Copy, Clone, Debug, PartialEq, Eq, Structural)]
pub enum FanReport {
    Setting(FanSetting),
    /// The daemon answered with a response of another kind.
    InvalidData,
    /// No response came.
    NoResponse,
}

/// Reads the response to a fan speed query.
pub fn read_fan_rpm(resp: &Option<DaemonResponse>) -> (report: FanReport)
    ensures
        report == match *resp {
            Some(DaemonResponse::GetFanSpeed { rpm }) => FanReport::Setting(spec_fan_setting(rpm)),
            Some(_) => FanReport::InvalidData,
            None => FanReport::NoResponse,
        },
{
    match resp {
        Some(DaemonResponse::GetFanSpeed { rpm }) => FanReport::Setting(fan_setting(*rpm)),
        Some(_) => FanReport::InvalidData,
        None => FanReport::NoResponse,
    }
}

/// What the client reports after asking for the optimizer, or after switching it.
#[derive(Copy, Clone, Debug, PartialEq, Eq, Structural)]
pub enum BhoReport {
    /// The optimizer is on at this threshold.
    On { threshold: u8 },
    /// The optimizer is off.
    Off,
    /// The daemon could not switch the optimizer.
    Failed,
    /// No response came.
    NoResponse,
    /// A response of another kind came; the client stays silent.
    Ignored,
}

/// Reads the response to an optimizer query.
pub fn read_bho(resp: &Option<DaemonResponse>) -> (report: BhoReport)
    ensures
        report == match *resp {
            Some(DaemonResponse::GetBatteryHealthOptimizer { is_on, threshold }) => if is_on {
                BhoReport::On { threshold }
            } else {
                BhoReport::Off
            },
            Some(_) => BhoReport::Ignored,
            None => BhoReport::NoResponse,
        },
{
    match resp {
        Some(DaemonResponse::GetBatteryHealthOptimizer { is_on, threshold }) => {
            if *is_on {
                BhoReport::On { threshold: *threshold }
            } else {
                BhoReport::Off
            }
        },
        Some(_) => BhoReport::Ignored,
        None => BhoReport::NoResponse,
    }
}

/// Reads the response to a request that switches the optimizer to `requested`,
/// which is `BhoReport::On` with the threshold sent, or `BhoReport::Off`.
pub fn read_bho_toggle(resp: &Option<DaemonResponse>, requested: BhoReport) -> (report: BhoReport)
    ensures
        report == match *resp {
            Some(DaemonResponse::SetBatteryHealthOptimizer { result }) => if result {
                requested
            } else {
                BhoReport::Failed
            },
            Some(_) => BhoReport::Ignored,
            None => BhoReport::NoResponse,
        },
{
    match resp {
        Some(DaemonResponse::SetBatteryHealthOptimizer { result }) => {
            if *result {
                requested
            } else {
                BhoReport::Failed
            }
        },
        Some(_) => BhoReport::Ignored,
        None => BhoReport::NoResponse,
    }
}

/// What the client does after asking for the power mode.
#[derive(Copy, Clone, Debug, PartialEq, Eq, Structural)]
pub enum PowerReport {
    /// The mode; `boosts` says whether the two boost tiers are asked for next,
    /// which is so in the custom mode alone.
    Mode { pwr: u8, boosts: bool },
    /// The daemon answered with a response of another kind.
    InvalidData,
    /// No response came; the client stays silent.
    NoResponse,
}

/// Reads the response to a power mode query.
pub fn read_power_mode(resp: &Option<DaemonResponse>) -> (report: PowerReport)
    ensures
        report == match *resp {
            Some(DaemonResponse::GetPwrLevel { pwr }) => PowerReport::Mode {
                pwr,
                boosts: pwr == CUSTOM_MODE,
            },
            Some(_) => PowerReport::InvalidData,
            None => PowerReport::NoResponse,
        },
{
    match resp {
        Some(DaemonResponse::GetPwrLevel { pwr }) => PowerReport::Mode {
            pwr: *pwr,
            boosts: *pwr == CUSTOM_MODE,
        },
        Some(_) => PowerReport::InvalidData,
        None => PowerReport::NoResponse,
    }
}

/// The name of a power mode.
pub open spec fn spec_power_mode_name(pwr: u8) -> Seq<char> {
    if pwr == 0 {
        "Balanced"@
    } else if pwr == 1 {
        "Gaming"@
    } else if pwr == 2 {
        "Creator"@
    } else if pwr == 3 {
        "Silent"@
    } else if pwr == 4 {
        "Custom"@
    } else {
        "Unknown"@
    }
}

pub fn power_mode_name(pwr: u8) -> (name: &'static str)
    ensures
        name@ == spec_power_mode_name(pwr),
{
    match pwr {
        0 => "Balanced",
        1 => "Gaming",
        2 => "Creator",
        3 => "Silent",
        4 => "Custom",
        _ => "Unknown",
    }
}

/// The name of a boost tier; the GPU has no tier 3.
pub open spec fn spec_boost_name(tier: u8, top: u8) -> Seq<char> {
    if tier > top {
        "Unknown"@
    } else if tier == 0 {
        "Low"@
    } else if tier == 1 {
        "Medium"@
    } else if tier == 2 {
        "High"@
    } else {
        "Boost"@
    }
}

pub fn cpu_boost_name(cpu: u8) -> (name: &'static str)
    ensures
        name@ == spec_boost_name(cpu, MAX_CPU_BOOST),
{
    match cpu {
        0 => "Low",
        1 => "Medium",
        2 => "High",
        3 => "Boost",
        _ => "Unknown",
    }
}

pub fn gpu_boost_name(gpu: u8) -> (name: &'static str)
    ensures
        name@ == spec_boost_name(gpu, MAX_GPU_BOOST),
{
    match gpu {
        0 => "Low",
        1 => "Medium",
        2 => "High",
        _ => "Unknown",
    }
}

/// A command line for the custom mode that leaves out a boost tier is refused;
/// one that is accepted carries the mode and both tiers as they were given.
pub proof fn lemma_custom_mode_needs_both_tiers(ac: usize, cpu: Option<u8>, gpu: Option<u8>)
    ensures
        cpu.is_none() || gpu.is_none() ==> spec_write_pwr_mode(ac, CUSTOM_MODE, cpu, gpu).is_err(),
        spec_write_pwr_mode(ac, CUSTOM_MODE, cpu, gpu).is_ok() <==> (cpu.is_some() && gpu.is_some()
            && cpu.unwrap() <= MAX_CPU_BOOST && gpu.unwrap() <= MAX_GPU_BOOST),
        spec_write_pwr_mode(ac, CUSTOM_MODE, cpu, gpu) matches Ok(cmd) ==> cmd == (
        DaemonCommand::SetPowerMode {
            ac,
            pwr: CUSTOM_MODE,
            cpu: cpu.unwrap(),
            gpu: gpu.unwrap(),
        }),
{
}

/// Every request that the client's checks let through is one that the
/// controller takes as valid.
pub proof fn lemma_checked_requests_are_valid(
    ac: usize,
    pwr: u8,
    cpu: Option<u8>,
    gpu: Option<u8>,
    threshold: Option<u8>,
    state: OnOff,
)
    ensures
        spec_write_pwr_mode(ac, pwr, cpu, gpu) matches Ok(DaemonCommand::SetPowerMode {
            pwr: p,
            cpu: c,
            gpu: g,
            ..
        }) ==> crate::manager::valid_power_request(p, c, g),
        spec_validate_bho(threshold, state) matches Ok(
            DaemonCommand::SetBatteryHealthOptimizer { is_on, threshold: t },
        ) ==> valid_threshold(t) && is_on == (state == OnOff::On),
{
}

/// A stored fan speed of 0 means automatic, a negative one unknown, and a
/// positive one exactly that speed.
pub proof fn lemma_fan_setting_cases(rpm: i32)
    ensures
        rpm == 0 <==> spec_fan_setting(rpm) == FanSetting::Automatic,
        rpm < 0 <==> spec_fan_setting(rpm) == FanSetting::Unknown,
        rpm > 0 <==> spec_fan_setting(rpm) == FanSetting::Rpm(rpm),
{
}

} // verus!
