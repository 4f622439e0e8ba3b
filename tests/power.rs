use mainboard::charger::{
    interrupt_mask, ChargeFaultStatus, ChargeStatus, ChargeTimer, NewFaultRegister, NtcFaultStatus,
    PowerOnConfiguration, SystemStatusRegister, VbusStatus, WatchdogTimer,
};
use mainboard::error::AnyError;
use mainboard::expander::{expander_address, pcf8574_address, ExpanderStatus, CHARGER_ADDRESS, INPUT_PINS_MASK};
use mainboard::power::{
    initial_mode, interrupt_target, sleep_secs, PowerController, PowerControllerConfig, PowerControllerError,
    PowerControllerMode, PowerRequest,
};
use mainboard::power_task::{ChargerReadings, PowerAction, PowerEvent, PowerPhase, PowerTask, BACKOFF_MILLIS};

fn status(charge: ChargeStatus) -> SystemStatusRegister {
    SystemStatusRegister {
        vbus_status: VbusStatus::Unknown,
        charge_status: charge,
        dpm_active: false,
        power_good: true,
        thermal_regulation_active: false,
        vsys_regulation_active: false,
    }
}

fn no_faults() -> NewFaultRegister {
    NewFaultRegister {
        watchdog_fault: false,
        otg_fault: false,
        charge_fault_status: ChargeFaultStatus::Normal,
        battery_fault: false,
        ntc_fault_status: NtcFaultStatus::Normal,
    }
}

fn readings(charge: ChargeStatus, byte: u8) -> ChargerReadings {
    ChargerReadings { charger_status: status(charge), charger_faults: no_faults(), expander_byte: byte }
}

/// A task past setup and its initial mode, waiting in `mode` for requests.
fn running_task(vbus: bool) -> PowerTask {
    let (mut t, _) = PowerTask::new(PowerControllerConfig::default());
    t.step(PowerEvent::SetupDone(Ok(())));
    let byte = if vbus { 0xBF } else { 0xFF };
    t.step(PowerEvent::StatsRead(Ok(readings(ChargeStatus::NotCharging, byte))));
    t.step(PowerEvent::ModeApplied(Ok(())));
    assert_eq!(t.phase(), PowerPhase::Waiting);
    t
}

#[test]
fn expander_polarities() {
    let s = ExpanderStatus::from_byte(0xFF);
    assert!(!s.chr_en());
    assert!(s.chr_otg());
    assert!(!s.chr_psel());
    assert!(s.vbus_enable());
    assert!(!s.vbus_flg());
    assert!(!s.vbus_present());
    assert!(!s.dc_jack_present());
    let s = ExpanderStatus::from_byte(0x00);
    assert!(s.chr_en() && !s.chr_otg() && s.chr_psel() && !s.vbus_enable());
    assert!(s.vbus_flg() && s.vbus_present() && s.dc_jack_present());
}

#[test]
fn expander_setters_touch_one_bit() {
    let mut s = ExpanderStatus::from_byte(0xFF);
    s.set_chr_en(true);
    assert_eq!(s.into_byte(), 0xFE);
    s.set_vbus_enable(false);
    assert_eq!(s.into_byte(), 0xDE);
    s.set_chr_psel(true);
    assert_eq!(s.into_byte(), 0xD6);
    s.set_chr_otg(false);
    assert_eq!(s.into_byte(), 0xD4);
    s.set_chr_en(false);
    s.set_vbus_enable(true);
    s.set_chr_psel(false);
    s.set_chr_otg(true);
    assert_eq!(s.into_byte(), 0xFF);
}

#[test]
fn expander_setup_byte_and_addresses() {
    assert_eq!(ExpanderStatus::initial().into_byte(), 0xFF);
    assert_eq!(expander_address(), 0x25);
    assert_eq!(pcf8574_address(false, false, false), 0x20);
    assert_eq!(pcf8574_address(true, true, true), 0x27);
    assert_eq!(CHARGER_ADDRESS, 0x6B);
    assert_eq!(INPUT_PINS_MASK, 0b1101_0000);
}

#[test]
fn mode_table() {
    let c = PowerController::new(PowerControllerConfig::default());
    let stats = c.read_stats(status(ChargeStatus::NotCharging), no_faults(), 0xFF);
    let passive = c.switch_mode(PowerControllerMode::Passive, &stats);
    assert!(!passive.expander.chr_en() && passive.expander.vbus_enable());
    assert_eq!(passive.charger, PowerOnConfiguration { charging_enabled: false, otg_enabled: false });
    let charging = c.switch_mode(PowerControllerMode::Charging, &stats);
    assert_eq!(charging.expander.into_byte(), 0xFE);
    assert_eq!(charging.charger, PowerOnConfiguration { charging_enabled: true, otg_enabled: false });
    let otg = c.switch_mode(PowerControllerMode::Otg, &stats);
    assert_eq!(otg.expander.into_byte(), 0xDF);
    assert_eq!(otg.charger, PowerOnConfiguration { charging_enabled: false, otg_enabled: true });
    // other bits are kept
    let stats = c.read_stats(status(ChargeStatus::NotCharging), no_faults(), 0x02);
    assert_eq!(c.switch_mode(PowerControllerMode::Charging, &stats).expander.into_byte(), 0x22);
}

#[test]
fn automatic_mode_decisions() {
    assert_eq!(initial_mode(true), PowerControllerMode::Charging);
    assert_eq!(initial_mode(false), PowerControllerMode::Otg);
    assert_eq!(interrupt_target(PowerControllerMode::Otg, true), Some(PowerControllerMode::Charging));
    assert_eq!(interrupt_target(PowerControllerMode::Otg, false), None);
    assert_eq!(interrupt_target(PowerControllerMode::Charging, false), Some(PowerControllerMode::Otg));
    assert_eq!(interrupt_target(PowerControllerMode::Passive, false), Some(PowerControllerMode::Otg));
    assert_eq!(interrupt_target(PowerControllerMode::Charging, true), None);
    assert_eq!(interrupt_target(PowerControllerMode::Passive, true), None);
}

#[test]
fn watchdog_sleep_is_half_window() {
    assert_eq!(sleep_secs(WatchdogTimer::Disabled), 20);
    assert_eq!(sleep_secs(WatchdogTimer::Seconds40), 20);
    assert_eq!(sleep_secs(WatchdogTimer::Seconds80), 40);
    assert_eq!(sleep_secs(WatchdogTimer::Seconds160), 80);
}

#[test]
fn fault_interrupt_mask_values() {
    assert_eq!(interrupt_mask(false, false), 0);
    assert_eq!(interrupt_mask(false, true), 1);
    assert_eq!(interrupt_mask(true, false), 2);
    assert_eq!(interrupt_mask(true, true), 3);
}

#[test]
fn default_configuration_programs_charger() {
    let config = PowerControllerConfig::default();
    assert_eq!(config.charging_current, 1024);
    assert_eq!(config.i2c_watchdog_timer, WatchdogTimer::Seconds160);
    let c = PowerController::new(config);
    let setup = c.write_charger_config();
    assert_eq!(setup.charge_current_limit_ma, 1024);
    assert_eq!(setup.precharge_current_ma, 512);
    assert_eq!(setup.termination_current_ma, 100);
    assert_eq!(setup.charge_voltage_limit_mv, 4100);
    assert_eq!(setup.input_voltage_dpm_mv, 4360);
    assert_eq!(setup.system_min_voltage_mv, 3700);
    assert_eq!(setup.boost_voltage_mv, 4998);
    assert_eq!(setup.charge_timer, Some(ChargeTimer::Hours8));
    assert_eq!(setup.interrupt_mask, 3);
    assert!(setup.boost_low_temp_m20 && setup.batfet_enabled && setup.termination_enabled);
    assert!(setup.reset_i2c_watchdog && setup.dpdm_detection_enabled);
    assert!(!setup.hiz_enabled && !setup.timer_2x_enabled);
}

#[test]
fn reconfigure_without_safety_timer() {
    let mut c = PowerController::new(PowerControllerConfig::default());
    let mut config = PowerControllerConfig::default();
    config.charge_timer = None;
    config.enable_charge_fault_int = false;
    let setup = c.reconfigure(config);
    assert_eq!(setup.charge_timer, None);
    assert_eq!(setup.interrupt_mask, 1);
    assert_eq!(c.config().charge_timer, None);
}

#[test]
fn boost_converter_level() {
    let mut c = PowerController::new(PowerControllerConfig::default());
    assert!(!c.is_boost_converter_enabled());
    c.enable_boost_converter();
    assert!(c.is_boost_converter_enabled());
    c.disable_boost_converter();
    assert!(!c.is_boost_converter_enabled());
    assert_eq!(c.get_mode(), PowerControllerMode::Passive);
}

#[test]
fn shipping_mode_writes() {
    let c = PowerController::new(PowerControllerConfig::default());
    let stats = c.read_stats(status(ChargeStatus::NotCharging), no_faults(), 0xFF);
    let (change, shipping) = c.enter_shipping_mode(&stats);
    assert_eq!(change.mode, PowerControllerMode::Charging);
    assert!(change.charger.charging_enabled);
    assert_eq!(shipping.watchdog_timer, WatchdogTimer::Disabled);
    assert!(!shipping.batfet_enabled);
}

#[test]
fn error_messages() {
    assert_eq!(
        PowerControllerError::I2cBusError.message(),
        "Power Controller error due to I2C bus malfunction"
    );
    assert_eq!(
        PowerControllerError::I2CExpanderError.message(),
        "Power Controller error due to I2C expander error"
    );
    let e: AnyError = PowerControllerError::I2cBusError.into();
    assert_eq!(e, AnyError::PowerControllerError(PowerControllerError::I2cBusError));
    assert_eq!(e.message(), "Power Controller error due to I2C bus malfunction");
}

#[test]
fn cold_boot_without_vbus() {
    let (mut t, first) = PowerTask::new(PowerControllerConfig::default());
    match first.action {
        PowerAction::Setup { expander, charger } => {
            assert_eq!(expander.into_byte(), 0xFF);
            assert_eq!(charger.watchdog_timer, WatchdogTimer::Seconds160);
        }
        _ => panic!("expected the setup writes"),
    }
    assert!(matches!(t.step(PowerEvent::SetupDone(Ok(()))).action, PowerAction::ReadStats));
    let step = t.step(PowerEvent::StatsRead(Ok(readings(ChargeStatus::NotCharging, 0xFF))));
    let published = step.publish.unwrap();
    assert!(!published.expander_status.vbus_present());
    assert!(!published.boost_enabled);
    let change = match step.action {
        PowerAction::ApplyMode(c) => c,
        _ => panic!("expected the initial mode switch"),
    };
    assert_eq!(change.mode, PowerControllerMode::Otg);
    assert!(change.charger.otg_enabled && !change.charger.charging_enabled);
    assert!(!change.expander.vbus_enable());
    let step = t.step(PowerEvent::ModeApplied(Ok(())));
    assert!(matches!(step.action, PowerAction::WaitForRequest { timeout_secs: 80 }));
    assert_eq!(t.controller().get_mode(), PowerControllerMode::Otg);
}

#[test]
fn plug_in_usb_switches_to_charging() {
    let mut t = running_task(false);
    assert_eq!(t.controller().get_mode(), PowerControllerMode::Otg);
    let step = t.step(PowerEvent::Request(PowerRequest::CheckInterrupt));
    assert!(matches!(step.action, PowerAction::ReadStats));
    // the written OTG byte, with vbus_present now active (low)
    let step = t.step(PowerEvent::StatsRead(Ok(readings(ChargeStatus::NotCharging, 0x9F))));
    assert!(step.publish.is_none());
    let change = match step.action {
        PowerAction::ApplyMode(c) => c,
        _ => panic!("expected a switch to charging"),
    };
    assert_eq!(change.mode, PowerControllerMode::Charging);
    assert_eq!(change.expander.into_byte(), 0xBE);
    assert!(matches!(t.step(PowerEvent::ModeApplied(Ok(()))).action, PowerAction::Respond(Ok(()))));
    assert!(matches!(t.step(PowerEvent::ResponseSent).action, PowerAction::ResetWatchdog));
    assert!(matches!(t.step(PowerEvent::WatchdogReset(Ok(()))).action, PowerAction::ReadStats));
    let step = t.step(PowerEvent::StatsRead(Ok(readings(ChargeStatus::FastCharging, 0xBE))));
    let s = step.publish.unwrap();
    assert_eq!(s.charger_status.charge_status, ChargeStatus::FastCharging);
    assert!(s.expander_status.vbus_enable() && s.expander_status.chr_en());
    assert_eq!(t.controller().get_mode(), PowerControllerMode::Charging);
}

#[test]
fn set_mode_is_reflected_in_next_snapshot() {
    let mut t = running_task(true);
    t.step(PowerEvent::Request(PowerRequest::SetMode(PowerControllerMode::Passive)));
    let step = t.step(PowerEvent::StatsRead(Ok(readings(ChargeStatus::NotCharging, 0xBE))));
    let change = match step.action {
        PowerAction::ApplyMode(c) => c,
        _ => panic!("expected the mode writes"),
    };
    assert_eq!(change.charger, PowerOnConfiguration { charging_enabled: false, otg_enabled: false });
    assert!(matches!(t.step(PowerEvent::ModeApplied(Ok(()))).action, PowerAction::Respond(Ok(()))));
    assert!(t.step(PowerEvent::ResponseSent).publish.is_none());
    assert!(t.step(PowerEvent::WatchdogReset(Ok(()))).publish.is_none());
    let step = t.step(PowerEvent::StatsRead(Ok(readings(ChargeStatus::NotCharging, change.expander.into_byte()))));
    let s = step.publish.unwrap();
    assert!(!s.expander_status.chr_en());
    assert!(s.expander_status.vbus_enable());
    assert_eq!(t.controller().get_mode(), PowerControllerMode::Passive);
}

#[test]
fn failed_mode_switch_is_reported() {
    let mut t = running_task(true);
    t.step(PowerEvent::Request(PowerRequest::SetMode(PowerControllerMode::Otg)));
    t.step(PowerEvent::StatsRead(Ok(readings(ChargeStatus::NotCharging, 0xBE))));
    let step = t.step(PowerEvent::ModeApplied(Err(PowerControllerError::I2CExpanderError)));
    assert!(matches!(step.action, PowerAction::Respond(Err(PowerControllerError::I2CExpanderError))));
    assert_eq!(t.controller().get_mode(), PowerControllerMode::Charging);
    let mut t = running_task(true);
    t.step(PowerEvent::Request(PowerRequest::CheckInterrupt));
    let step = t.step(PowerEvent::StatsRead(Err(PowerControllerError::I2cBusError)));
    assert!(matches!(step.action, PowerAction::Respond(Err(PowerControllerError::I2cBusError))));
}

#[test]
fn boost_command_is_idempotent() {
    let mut t = running_task(true);
    for x in [true, false, true, true, true] {
        let step = t.step(PowerEvent::Request(PowerRequest::EnableBoostConverter(x)));
        assert_eq!(step.set_boost, Some(x));
        assert!(matches!(step.action, PowerAction::Respond(Ok(()))));
        t.step(PowerEvent::ResponseSent);
        t.step(PowerEvent::WatchdogReset(Ok(())));
        t.step(PowerEvent::StatsRead(Ok(readings(ChargeStatus::NotCharging, 0xBE))));
    }
    assert!(t.controller().is_boost_converter_enabled());
}

#[test]
fn watchdog_loop_and_backoff() {
    let mut t = running_task(true);
    assert!(matches!(t.step(PowerEvent::TimedOut).action, PowerAction::ResetWatchdog));
    let step = t.step(PowerEvent::WatchdogReset(Err(PowerControllerError::I2cBusError)));
    assert!(matches!(step.action, PowerAction::ReadStats));
    let step = t.step(PowerEvent::StatsRead(Err(PowerControllerError::I2cBusError)));
    assert!(step.publish.is_none());
    assert!(matches!(step.action, PowerAction::Sleep { millis } if millis == BACKOFF_MILLIS));
    assert!(matches!(t.step(PowerEvent::BackoffElapsed).action, PowerAction::ReadStats));
    let step = t.step(PowerEvent::StatsRead(Ok(readings(ChargeStatus::ChargeDone, 0xBE))));
    assert!(step.publish.is_some());
    assert!(matches!(step.action, PowerAction::WaitForRequest { timeout_secs: 80 }));
}

#[test]
fn setup_failure_stops_task() {
    let (mut t, _) = PowerTask::new(PowerControllerConfig::default());
    let step = t.step(PowerEvent::SetupDone(Err(PowerControllerError::I2CExpanderError)));
    assert!(matches!(step.action, PowerAction::Exit));
    assert_eq!(t.phase(), PowerPhase::Stopped);
    assert!(matches!(t.step(PowerEvent::TimedOut).action, PowerAction::Ignore));
}

#[test]
fn unexpected_event_is_ignored() {
    let mut t = running_task(false);
    assert!(matches!(t.step(PowerEvent::ResponseSent).action, PowerAction::Ignore));
    assert_eq!(t.phase(), PowerPhase::Waiting);
}

#[test]
fn power_handle_publishes_latest() {
    let mut h = mainboard::power_task::PowerHandle::new();
    assert_eq!(h.state(), None);
    let c = PowerController::new(PowerControllerConfig::default());
    let first = c.read_stats(status(ChargeStatus::NotCharging), no_faults(), 0xFF);
    let second = c.read_stats(status(ChargeStatus::FastCharging), no_faults(), 0xBE);
    h.publish(first);
    assert_eq!(h.state(), Some(first));
    h.publish(second);
    assert_eq!(h.state(), Some(second));
}
