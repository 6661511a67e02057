use razer_control::comms::{DaemonCommand, DaemonResponse, MessageKind, MESSAGE_CAPACITY};
use razer_control::daemon::{
    hardware_call, on_power_save_mode, on_prepare_for_sleep, on_screensaver_active,
    on_watch_fired, persist_after, process_client_request, watches_after_cycle, WatchPlan,
};
use razer_control::device::SupportedDevice;
use razer_control::manager::{DeviceManager, HardwareCall, UsbId};

fn bound() -> DeviceManager {
    let dev = SupportedDevice {
        name: "Blade 15".to_string(),
        vid: "1532".to_string(),
        pid: "0233".to_string(),
        features: vec!["boost".to_string()],
        fan: vec![3500, 5000],
    };
    let mut d = DeviceManager::with_catalog(vec![dev]);
    d.discover_devices(&vec![UsbId { vid: "1532".to_string(), pid: "0233".to_string() }]);
    d
}

/// Serves one request as the daemon does: the call that is due, then the request.
fn serve(d: &mut DeviceManager, cmd: DaemonCommand, answer: bool, calls: &mut usize) -> Option<DaemonResponse> {
    let ok = match hardware_call(d, &cmd) {
        Some(_) => {
            *calls += 1;
            answer
        }
        None => false,
    };
    process_client_request(d, cmd, ok)
}

#[test]
fn every_request_gets_the_response_of_its_kind() {
    let cmds = [
        DaemonCommand::SetPowerMode { ac: 1, pwr: 2, cpu: 0, gpu: 0 },
        DaemonCommand::SetFanSpeed { ac: 0, rpm: 4000 },
        DaemonCommand::SetIdle { ac: 0, val: 5 },
        DaemonCommand::GetFanSpeed { ac: 0 },
        DaemonCommand::GetPwrLevel { ac: 1 },
        DaemonCommand::GetCPUBoost { ac: 1 },
        DaemonCommand::GetGPUBoost { ac: 1 },
        DaemonCommand::SetBatteryHealthOptimizer { is_on: true, threshold: 70 },
        DaemonCommand::GetBatteryHealthOptimizer,
        DaemonCommand::GetDeviceName,
    ];
    let mut d = bound();
    let mut calls = 0;
    for cmd in cmds {
        let resp = serve(&mut d, cmd, true, &mut calls).expect("a response is owed");
        assert_eq!(resp.kind(), cmd.kind());
    }
    assert_eq!(calls, 3);
}

#[test]
fn power_mode_request_then_reads() {
    let mut d = bound();
    let mut calls = 0;
    assert_eq!(
        serve(&mut d, DaemonCommand::SetPowerMode { ac: 1, pwr: 4, cpu: 3, gpu: 2 }, true, &mut calls),
        Some(DaemonResponse::SetPowerMode { result: true })
    );
    assert_eq!(serve(&mut d, DaemonCommand::GetPwrLevel { ac: 1 }, true, &mut calls), Some(DaemonResponse::GetPwrLevel { pwr: 4 }));
    assert_eq!(serve(&mut d, DaemonCommand::GetCPUBoost { ac: 1 }, true, &mut calls), Some(DaemonResponse::GetCPUBoost { cpu: 3 }));
    assert_eq!(serve(&mut d, DaemonCommand::GetGPUBoost { ac: 1 }, true, &mut calls), Some(DaemonResponse::GetGPUBoost { gpu: 2 }));
    assert_eq!(serve(&mut d, DaemonCommand::GetPwrLevel { ac: 0 }, true, &mut calls), Some(DaemonResponse::GetPwrLevel { pwr: 0 }));
    assert_eq!(serve(&mut d, DaemonCommand::GetCPUBoost { ac: 0 }, true, &mut calls), Some(DaemonResponse::GetCPUBoost { cpu: 1 }));
    assert_eq!(
        serve(&mut d, DaemonCommand::SetPowerMode { ac: 1, pwr: 1, cpu: 3, gpu: 2 }, true, &mut calls),
        Some(DaemonResponse::SetPowerMode { result: true })
    );
    assert_eq!(serve(&mut d, DaemonCommand::GetPwrLevel { ac: 1 }, true, &mut calls), Some(DaemonResponse::GetPwrLevel { pwr: 1 }));
    assert_eq!(serve(&mut d, DaemonCommand::GetCPUBoost { ac: 1 }, true, &mut calls), Some(DaemonResponse::GetCPUBoost { cpu: 0 }));
    assert_eq!(serve(&mut d, DaemonCommand::GetGPUBoost { ac: 1 }, true, &mut calls), Some(DaemonResponse::GetGPUBoost { gpu: 0 }));
    assert_eq!(calls, 2);
}

#[test]
fn fan_request_then_read() {
    let mut d = bound();
    let mut calls = 0;
    for rpm in [0i32, -5, 4400] {
        assert_eq!(
            hardware_call(&d, &DaemonCommand::SetFanSpeed { ac: 0, rpm }),
            Some(HardwareCall::SetFanRpm { rpm })
        );
        assert_eq!(
            serve(&mut d, DaemonCommand::SetFanSpeed { ac: 0, rpm }, true, &mut calls),
            Some(DaemonResponse::SetFanSpeed { result: true })
        );
        assert_eq!(serve(&mut d, DaemonCommand::GetFanSpeed { ac: 0 }, true, &mut calls), Some(DaemonResponse::GetFanSpeed { rpm }));
    }
    assert_eq!(calls, 3);
}

#[test]
fn idle_request_needs_no_hardware() {
    let mut d = bound();
    let mut calls = 0;
    assert_eq!(hardware_call(&d, &DaemonCommand::SetIdle { ac: 1, val: 10 }), None);
    assert_eq!(
        serve(&mut d, DaemonCommand::SetIdle { ac: 1, val: 10 }, false, &mut calls),
        Some(DaemonResponse::SetIdle { result: true })
    );
    assert_eq!(d.config.get(1).idle, 10);
    assert_eq!(calls, 0);
}

#[test]
fn invalid_optimizer_request_never_reaches_the_adapter() {
    for t in 0..=255u8 {
        let valid = t % 5 == 0 && (50..=80).contains(&t);
        let mut d = bound();
        let mut calls = 0;
        let cmd = DaemonCommand::SetBatteryHealthOptimizer { is_on: true, threshold: t };
        assert_eq!(
            serve(&mut d, cmd, true, &mut calls),
            Some(DaemonResponse::SetBatteryHealthOptimizer { result: valid })
        );
        assert_eq!(calls, if valid { 1 } else { 0 });
        assert_eq!(
            process_client_request(&mut d.clone(), cmd, true),
            Some(DaemonResponse::SetBatteryHealthOptimizer { result: valid })
        );
    }
}

#[test]
fn optimizer_off_end_to_end() {
    let mut d = bound();
    let mut calls = 0;
    assert_eq!(
        serve(&mut d, DaemonCommand::SetBatteryHealthOptimizer { is_on: true, threshold: 55 }, true, &mut calls),
        Some(DaemonResponse::SetBatteryHealthOptimizer { result: true })
    );
    assert_eq!(
        serve(&mut d, DaemonCommand::GetBatteryHealthOptimizer, true, &mut calls),
        Some(DaemonResponse::GetBatteryHealthOptimizer { is_on: true, threshold: 55 })
    );
    assert_eq!(
        serve(&mut d, DaemonCommand::SetBatteryHealthOptimizer { is_on: false, threshold: 13 }, true, &mut calls),
        Some(DaemonResponse::SetBatteryHealthOptimizer { result: true })
    );
    assert_eq!(
        serve(&mut d, DaemonCommand::GetBatteryHealthOptimizer, true, &mut calls),
        Some(DaemonResponse::GetBatteryHealthOptimizer { is_on: false, threshold: 80 })
    );
    assert_eq!(calls, 2);
}

#[test]
fn hardware_failure_is_reported_and_changes_nothing() {
    let mut d = bound();
    let mut calls = 0;
    assert_eq!(
        serve(&mut d, DaemonCommand::SetPowerMode { ac: 0, pwr: 3, cpu: 0, gpu: 0 }, false, &mut calls),
        Some(DaemonResponse::SetPowerMode { result: false })
    );
    assert_eq!(
        serve(&mut d, DaemonCommand::SetFanSpeed { ac: 0, rpm: 5000 }, false, &mut calls),
        Some(DaemonResponse::SetFanSpeed { result: false })
    );
    assert_eq!(
        serve(&mut d, DaemonCommand::SetBatteryHealthOptimizer { is_on: true, threshold: 60 }, false, &mut calls),
        Some(DaemonResponse::SetBatteryHealthOptimizer { result: false })
    );
    assert_eq!(calls, 3);
    assert_eq!(d.get_power_mode(0), 0);
    assert_eq!(d.get_fan_rpm(0), 0);
    assert_eq!(d.get_bho(), Some((false, 80)));
}

#[test]
fn requests_for_a_missing_profile_get_no_response() {
    let cmds = [
        DaemonCommand::SetPowerMode { ac: 2, pwr: 2, cpu: 0, gpu: 0 },
        DaemonCommand::SetFanSpeed { ac: 2, rpm: 4000 },
        DaemonCommand::SetIdle { ac: usize::MAX, val: 5 },
        DaemonCommand::GetFanSpeed { ac: 2 },
        DaemonCommand::GetPwrLevel { ac: 3 },
        DaemonCommand::GetCPUBoost { ac: 4 },
        DaemonCommand::GetGPUBoost { ac: 5 },
    ];
    for cmd in cmds {
        let mut d = bound();
        let mut calls = 0;
        assert_eq!(serve(&mut d, cmd, true, &mut calls), None);
        assert_eq!(process_client_request(&mut d, cmd, true), None);
        assert_eq!(calls, 0);
        assert_eq!(d.config.get(0), DeviceManager::new().config.get(0));
        assert_eq!(d.config.get(1), DeviceManager::new().config.get(1));
    }
}

#[test]
fn requests_without_a_device() {
    let mut d = DeviceManager::new();
    let mut calls = 0;
    assert_eq!(serve(&mut d, DaemonCommand::GetBatteryHealthOptimizer, true, &mut calls), None);
    assert_eq!(
        serve(&mut d, DaemonCommand::GetDeviceName, true, &mut calls),
        Some(DaemonResponse::GetDeviceName { name: "Unknown Device".to_string() })
    );
    assert_eq!(
        serve(&mut d, DaemonCommand::SetPowerMode { ac: 0, pwr: 1, cpu: 0, gpu: 0 }, true, &mut calls),
        Some(DaemonResponse::SetPowerMode { result: false })
    );
    assert_eq!(
        process_client_request(&mut d, DaemonCommand::SetFanSpeed { ac: 0, rpm: 1 }, true),
        Some(DaemonResponse::SetFanSpeed { result: false })
    );
    assert_eq!(serve(&mut d, DaemonCommand::GetFanSpeed { ac: 1 }, true, &mut calls), Some(DaemonResponse::GetFanSpeed { rpm: 0 }));
    assert_eq!(calls, 0);
}

#[test]
fn device_name_of_the_bound_device() {
    let mut d = bound();
    assert_eq!(
        process_client_request(&mut d, DaemonCommand::GetDeviceName, false),
        Some(DaemonResponse::GetDeviceName { name: "Blade 15".to_string() })
    );
}

#[test]
fn message_kinds_and_sources() {
    assert_eq!(DaemonCommand::GetDeviceName.kind(), MessageKind::GetDeviceName);
    assert_eq!(DaemonCommand::GetDeviceName.source(), None);
    assert_eq!(DaemonCommand::GetBatteryHealthOptimizer.source(), None);
    assert_eq!(DaemonCommand::SetBatteryHealthOptimizer { is_on: true, threshold: 50 }.source(), None);
    assert_eq!(DaemonCommand::SetIdle { ac: 1, val: 0 }.source(), Some(1));
    assert_eq!(DaemonCommand::GetGPUBoost { ac: 9 }.source(), Some(9));
    assert_eq!(DaemonResponse::GetFanSpeed { rpm: 1 }.kind(), MessageKind::GetFanSpeed);
    assert_eq!(DaemonResponse::SetIdle { result: true }.kind(), MessageKind::SetIdle);
}

#[test]
fn profiles_are_persisted_after_successful_profile_writes() {
    assert!(persist_after(&DaemonResponse::SetPowerMode { result: true }));
    assert!(persist_after(&DaemonResponse::SetFanSpeed { result: true }));
    assert!(persist_after(&DaemonResponse::SetIdle { result: true }));
    assert!(!persist_after(&DaemonResponse::SetPowerMode { result: false }));
    assert!(!persist_after(&DaemonResponse::SetFanSpeed { result: false }));
    assert!(!persist_after(&DaemonResponse::SetBatteryHealthOptimizer { result: true }));
    assert!(!persist_after(&DaemonResponse::GetFanSpeed { rpm: 3 }));
    assert!(!persist_after(&DaemonResponse::GetDeviceName { name: String::new() }));
}

#[test]
fn fired_watch_is_dispatched_by_identifier() {
    let mut d = bound();
    d.add_idle_watch(11);
    d.add_active_watch(12);
    assert_eq!(on_watch_fired(&d, 11), Some(HardwareCall::LightOff));
    assert_eq!(on_watch_fired(&d, 12), Some(HardwareCall::RestoreLight));
    assert_eq!(on_watch_fired(&d, 13), None);
    assert_eq!(on_watch_fired(&d, 0), None);
    d.add_active_watch(11);
    assert_eq!(on_watch_fired(&d, 11), Some(HardwareCall::LightOff));
}

#[test]
fn screensaver_and_power_save_dispatch() {
    let d = DeviceManager::new();
    assert_eq!(on_screensaver_active(&d, true), HardwareCall::LightOff);
    assert_eq!(on_screensaver_active(&d, false), HardwareCall::RestoreLight);
    assert_eq!(on_power_save_mode(&d, 3), Some(HardwareCall::LightOff));
    assert_eq!(on_power_save_mode(&d, 0), Some(HardwareCall::RestoreLight));
    assert_eq!(on_power_save_mode(&d, 1), None);
    assert_eq!(on_power_save_mode(&d, 2), None);
    assert_eq!(on_power_save_mode(&d, -1), None);
}

#[test]
fn sleep_refreshes_the_power_source_first() {
    let mut d = bound();
    assert_eq!(on_prepare_for_sleep(&mut d, true, Some(true)), HardwareCall::LightOff);
    assert_eq!(d.ac_state, 1);
    assert_eq!(on_prepare_for_sleep(&mut d, false, None), HardwareCall::RestoreLight);
    assert_eq!(d.ac_state, 1);
    assert_eq!(on_prepare_for_sleep(&mut d, false, Some(false)), HardwareCall::RestoreLight);
    assert_eq!(d.ac_state, 0);
}

#[test]
fn watches_registered_after_a_bus_cycle() {
    assert_eq!(watches_after_cycle(Some(true)), WatchPlan { active: true, idle: true });
    assert_eq!(watches_after_cycle(Some(false)), WatchPlan { active: false, idle: true });
    assert_eq!(watches_after_cycle(None), WatchPlan { active: false, idle: false });
}

#[test]
fn one_message_fits_one_read() {
    assert_eq!(MESSAGE_CAPACITY, 4096);
}
