//! The closed set of requests and responses that client and daemon exchange.

use vstd::prelude::*;

verus! {

/// The size of the buffer into which one message is read. There is no length
/// prefix: a message is whatever one read delivers, so it has to fit in here.
pub const MESSAGE_CAPACITY: usize = 4096;

/// A request. `ac` selects the profile: 0 for battery, 1 for line power.
#[derive(Copy, Clone, Debug, PartialEq, Eq, Structural)]
pub enum DaemonCommand {
    SetPowerMode { ac: usize, pwr: u8, cpu: u8, gpu: u8 },
    SetFanSpeed { ac: usize, rpm: i32 },
    SetIdle { ac: usize, val: u32 },
    GetFanSpeed { ac: usize },
    GetPwrLevel { ac: usize },
    GetCPUBoost { ac: usize },
    GetGPUBoost { ac: usize },
    SetBatteryHealthOptimizer { is_on: bool, threshold: u8 },
    GetBatteryHealthOptimizer,
    GetDeviceName,
}

/// A response; each request has exactly one kind of response.
#[derive(Clone, Debug, PartialEq, Eq)]
pub enum DaemonResponse {
    SetPowerMode { result: bool },
    SetFanSpeed { result: bool },
    SetIdle { result: bool },
    GetFanSpeed { rpm: i32 },
    GetPwrLevel { pwr: u8 },
    GetCPUBoost { cpu: u8 },
    GetGPUBoost { gpu: u8 },
    SetBatteryHealthOptimizer { result: bool },
    GetBatteryHealthOptimizer { is_on: bool, threshold: u8 },
    GetDeviceName { name: String },
}

/// The kinds of message, by which a response is paired with its request.
#[derive(Copy, Clone, Debug, PartialEq, Eq, Structural)]
pub enum MessageKind {
    SetPowerMode,
    SetFanSpeed,
    SetIdle,
    GetFanSpeed,
    GetPwrLevel,
    GetCPUBoost,
    GetGPUBoost,
    SetBatteryHealthOptimizer,
    GetBatteryHealthOptimizer,
    GetDeviceName,
}

impl DaemonCommand {
    pub open spec fn spec_kind(&self) -> MessageKind {
        match *self {
            DaemonCommand::SetPowerMode { .. } => MessageKind::SetPowerMode,
            DaemonCommand::SetFanSpeed { .. } => MessageKind::SetFanSpeed,
            DaemonCommand::SetIdle { .. } => MessageKind::SetIdle,
            DaemonCommand::GetFanSpeed { .. } => MessageKind::GetFanSpeed,
            DaemonCommand::GetPwrLevel { .. } => MessageKind::GetPwrLevel,
            DaemonCommand::GetCPUBoost { .. } => MessageKind::GetCPUBoost,
            DaemonCommand::GetGPUBoost { .. } => MessageKind::GetGPUBoost,
            DaemonCommand::SetBatteryHealthOptimizer { .. } => MessageKind::SetBatteryHealthOptimizer,
            DaemonCommand::GetBatteryHealthOptimizer => MessageKind::GetBatteryHealthOptimizer,
            DaemonCommand::GetDeviceName => MessageKind::GetDeviceName,
        }
    }

    /// The profile index that the request names, if it names one.
    pub open spec fn spec_source(&self) -> Option<usize> {
        match *self {
            DaemonCommand::SetPowerMode { ac, .. } => Some(ac),
            DaemonCommand::SetFanSpeed { ac, .. } => Some(ac),
            DaemonCommand::SetIdle { ac, .. } => Some(ac),
            DaemonCommand::GetFanSpeed { ac } => Some(ac),
            DaemonCommand::GetPwrLevel { ac } => Some(ac),
            DaemonCommand::GetCPUBoost { ac } => Some(ac),
            DaemonCommand::GetGPUBoost { ac } => Some(ac),
            _ => None,
        }
    }

    #[verifier::when_used_as_spec(spec_kind)]
    pub fn kind(&self) -> (k: MessageKind)
        ensures
            k == self.spec_kind(),
    {
        match self {
            DaemonCommand::SetPowerMode { .. } => MessageKind::SetPowerMode,
            DaemonCommand::SetFanSpeed { .. } => MessageKind::SetFanSpeed,
            DaemonCommand::SetIdle { .. } => MessageKind::SetIdle,
            DaemonCommand::GetFanSpeed { .. } => MessageKind::GetFanSpeed,
            DaemonCommand::GetPwrLevel { .. } => MessageKind::GetPwrLevel,
            DaemonCommand::GetCPUBoost { .. } => MessageKind::GetCPUBoost,
            DaemonCommand::GetGPUBoost { .. } => MessageKind::GetGPUBoost,
            DaemonCommand::SetBatteryHealthOptimizer { .. } => MessageKind::SetBatteryHealthOptimizer,
            DaemonCommand::GetBatteryHealthOptimizer => MessageKind::GetBatteryHealthOptimizer,
            DaemonCommand::GetDeviceName => MessageKind::GetDeviceName,
        }
    }

    #[verifier::when_used_as_spec(spec_source)]
    pub fn source(&self) -> (s: Option<usize>)
        ensures
            s == self.spec_source(),
    {
        match self {
            DaemonCommand::SetPowerMode { ac, .. } => Some(*ac),
            DaemonCommand::SetFanSpeed { ac, .. } => Some(*ac),
            DaemonCommand::SetIdle { ac, .. } => Some(*ac),
            DaemonCommand::GetFanSpeed { ac } => Some(*ac),
            DaemonCommand::GetPwrLevel { ac } => Some(*ac),
            DaemonCommand::GetCPUBoost { ac } => Some(*ac),
            DaemonCommand::GetGPUBoost { ac } => Some(*ac),
            _ => None,
        }
    }
}

impl DaemonResponse {
    pub open spec fn spec_kind(&self) -> MessageKind {
        match *self {
            DaemonResponse::SetPowerMode { .. } => MessageKind::SetPowerMode,
            DaemonResponse::SetFanSpeed { .. } => MessageKind::SetFanSpeed,
            DaemonResponse::SetIdle { .. } => MessageKind::SetIdle,
            DaemonResponse::GetFanSpeed { .. } => MessageKind::GetFanSpeed,
            DaemonResponse::GetPwrLevel { .. } => MessageKind::GetPwrLevel,
            DaemonResponse::GetCPUBoost { .. } => MessageKind::GetCPUBoost,
            DaemonResponse::GetGPUBoost { .. } => MessageKind::GetGPUBoost,
            DaemonResponse::SetBatteryHealthOptimizer { .. } => MessageKind::SetBatteryHealthOptimizer,
            DaemonResponse::GetBatteryHealthOptimizer { .. } => MessageKind::GetBatteryHealthOptimizer,
            DaemonResponse::GetDeviceName { .. } => MessageKind::GetDeviceName,
        }
    }

    #[verifier::when_used_as_spec(spec_kind)]
    pub fn kind(&self) -> (k: MessageKind)
        ensures
            k == self.spec_kind(),
    {
        match self {
            DaemonResponse::SetPowerMode { .. } => MessageKind::SetPowerMode,
            DaemonResponse::SetFanSpeed { .. } => MessageKind::SetFanSpeed,
            DaemonResponse::SetIdle { .. } => MessageKind::SetIdle,
            DaemonResponse::GetFanSpeed { .. } => MessageKind::GetFanSpeed,
            DaemonResponse::GetPwrLevel { .. } => MessageKind::GetPwrLevel,
            DaemonResponse::GetCPUBoost { .. } => MessageKind::GetCPUBoost,
            DaemonResponse::GetGPUBoost { .. } => MessageKind::GetGPUBoost,
            DaemonResponse::SetBatteryHealthOptimizer { .. } => MessageKind::SetBatteryHealthOptimizer,
            DaemonResponse::GetBatteryHealthOptimizer { .. } => MessageKind::GetBatteryHealthOptimizer,
            DaemonResponse::GetDeviceName { .. } => MessageKind::GetDeviceName,
        }
    }
}

} // verus!
