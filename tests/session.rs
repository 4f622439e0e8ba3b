use mainboard::charger::{WatchdogTimer, ChargeFaultStatus, ChargeStatus, NewFaultRegister, NtcFaultStatus, SystemStatusRegister, VbusStatus};
use mainboard::digital_io::{DigitalIoHandle, DigitalPinID, PinMode, PinState};
use mainboard::expander::{expander_address, CHARGER_ADDRESS};
use mainboard::i2c::{i2c_read, i2c_read_request, i2c_scan, i2c_write, i2c_write_request, scan_addresses, I2C_SCAN_COUNT};
use mainboard::power::{sleep_secs, PowerController, PowerControllerConfig, PowerControllerMode, PowerRequest};
use mainboard::power_task::{ChargerReadings, PowerAction, PowerEvent, PowerTask};
use mainboard::server::{
    dispatch, format_power_stats_response, frame_outcome, parse_pin_mode, FrameOutcome, InboundFrame, ReadErrorKind,
    SessionAction, WebSocketCommand,
};
use mainboard::shutdown::{shutdown_plan, ShutdownStep};
use mainboard::uart::{UartHandle, UartReceiveData, MAX_UART_BATCH};

#[test]
fn pin_mode_names() {
    assert_eq!(parse_pin_mode(&"OpenDrain".to_string()), Some(PinMode::OpenDrain));
    assert_eq!(parse_pin_mode(&"PushPull".to_string()), Some(PinMode::PushPull));
    assert_eq!(parse_pin_mode(&"pushpull".to_string()), None);
    assert_eq!(parse_pin_mode(&"".to_string()), None);
}

#[test]
fn commands_dispatch() {
    assert!(matches!(
        dispatch(WebSocketCommand::Digital { id: 4, value: 7 }),
        SessionAction::SetPin(DigitalPinID::D4, true)
    ));
    assert!(matches!(dispatch(WebSocketCommand::Digital { id: 5, value: 1 }), SessionAction::Ignore));
    assert!(matches!(
        dispatch(WebSocketCommand::DigitalMode { id: 1, mode: "PushPull".to_string() }),
        SessionAction::SetPinMode(DigitalPinID::D1, PinMode::PushPull)
    ));
    assert!(matches!(
        dispatch(WebSocketCommand::DigitalMode { id: 1, mode: "Input".to_string() }),
        SessionAction::Ignore
    ));
    assert!(matches!(
        dispatch(WebSocketCommand::DigitalMode { id: 9, mode: "OpenDrain".to_string() }),
        SessionAction::Ignore
    ));
    assert!(matches!(
        dispatch(WebSocketCommand::Power { action: "boost".to_string(), value: true }),
        SessionAction::SetBoost(true)
    ));
    assert!(matches!(
        dispatch(WebSocketCommand::Power { action: "reboot".to_string(), value: true }),
        SessionAction::Ignore
    ));
    assert!(matches!(dispatch(WebSocketCommand::I2cScan), SessionAction::I2cScan));
    assert!(matches!(
        dispatch(WebSocketCommand::I2cRead { address: 0x6B, register: 8 }),
        SessionAction::I2cRead { address: 0x6B, register: 8 }
    ));
    assert!(matches!(
        dispatch(WebSocketCommand::I2cWrite { address: 0x6B, register: 1, value: 0x1B }),
        SessionAction::I2cWrite { address: 0x6B, register: 1, value: 0x1B }
    ));
    match dispatch(WebSocketCommand::UartSend { bytes: vec![1, 2, 3] }) {
        SessionAction::UartSend(b) => assert_eq!(b, vec![1, 2, 3]),
        _ => panic!("expected a UART send"),
    }
}

#[test]
fn close_codes() {
    assert_eq!(frame_outcome(InboundFrame::Text), FrameOutcome::HandleText);
    assert_eq!(frame_outcome(InboundFrame::Binary), FrameOutcome::Close(Some(1003)));
    assert_eq!(frame_outcome(InboundFrame::Close), FrameOutcome::Close(None));
    assert_eq!(frame_outcome(InboundFrame::Ping), FrameOutcome::SendPong);
    assert_eq!(frame_outcome(InboundFrame::Pong), FrameOutcome::Continue);
    assert_eq!(frame_outcome(InboundFrame::Error(ReadErrorKind::Io)), FrameOutcome::Fail);
    assert_eq!(frame_outcome(InboundFrame::Error(ReadErrorKind::ReadFrameError)), FrameOutcome::Close(Some(1002)));
    assert_eq!(
        frame_outcome(InboundFrame::Error(ReadErrorKind::MessageStartsWithContinuation)),
        FrameOutcome::Close(Some(1002))
    );
    assert_eq!(frame_outcome(InboundFrame::Error(ReadErrorKind::UnexpectedMessageStart)), FrameOutcome::Close(Some(1002)));
    assert_eq!(frame_outcome(InboundFrame::Error(ReadErrorKind::ReservedOpcode)), FrameOutcome::Close(Some(1003)));
    assert_eq!(frame_outcome(InboundFrame::Error(ReadErrorKind::TextIsNotUtf8)), FrameOutcome::Close(Some(1007)));
}

#[test]
fn power_stats_frame() {
    let c = PowerController::new(PowerControllerConfig::default());
    let status = SystemStatusRegister {
        vbus_status: VbusStatus::AdapterPort,
        charge_status: ChargeStatus::PreCharge,
        dpm_active: true,
        power_good: true,
        thermal_regulation_active: false,
        vsys_regulation_active: true,
    };
    let faults = NewFaultRegister {
        watchdog_fault: true,
        otg_fault: false,
        charge_fault_status: ChargeFaultStatus::ChargeTimerExpired,
        battery_fault: false,
        ntc_fault_status: NtcFaultStatus::ColdAndHot,
    };
    let stats = c.read_stats(status, faults, 0xBE);
    let r = format_power_stats_response(&stats);
    assert_eq!(r.vbus_status, "Adapter Port");
    assert_eq!(r.charge_status, "Pre-Charge");
    assert_eq!(r.charge_fault_status, "Charge Timer Expired");
    assert_eq!(r.ntc_fault_status, "Cold and Hot");
    assert!(r.ntc_cold_fault && r.ntc_hot_fault);
    assert!(r.dpm_active && r.power_good && !r.thermal_regulation_active && r.vsys_regulation_active);
    assert!(r.watchdog_fault && !r.otg_fault && !r.battery_fault);
    assert!(!r.boost_converter_enabled);
    assert!(r.vbus_present && !r.vbus_flg && !r.dc_jack_present);
    assert!(r.chr_en && r.chr_otg && !r.chr_psel && r.vbus_enable);
}

#[test]
fn i2c_scan_lists_acknowledging_devices() {
    let addrs = scan_addresses();
    assert_eq!(addrs.len(), I2C_SCAN_COUNT);
    assert_eq!(addrs[0], 0x03);
    assert_eq!(addrs[I2C_SCAN_COUNT - 1], 0x77);
    let acks: Vec<bool> = addrs.iter().map(|a| *a == CHARGER_ADDRESS || *a == expander_address()).collect();
    let r = i2c_scan(&acks);
    assert_eq!(r.devices, vec![0x25, 0x6B]);
    assert_eq!(i2c_scan(&vec![false; I2C_SCAN_COUNT]).devices, Vec::<u8>::new());
    assert_eq!(i2c_scan(&vec![true; 3]).devices, vec![3, 4, 5]);
}

#[test]
fn i2c_read_and_write_frames() {
    assert_eq!(i2c_read_request(0x08), vec![0x08]);
    let ok = i2c_read(0x6B, 0x08, Some(0x64));
    assert!(ok.success);
    assert_eq!((ok.address, ok.register, ok.value), (0x6B, 0x08, 0x64));
    let failed = i2c_read(0x50, 0x00, None);
    assert!(!failed.success);
    assert_eq!(failed.value, 0);
    assert_eq!(i2c_write_request(0x01, 0x1B), vec![0x01, 0x1B]);
    let w = i2c_write(0x6B, 0x01, false);
    assert!(!w.success);
    assert_eq!((w.address, w.register), (0x6B, 0x01));
}

#[test]
fn uart_loopback() {
    let mut uart = UartHandle::new();
    assert!(uart.send(&[65, 66, 67]).is_ok());
    let sent = uart.next_transmit().unwrap();
    assert_eq!(sent, vec![65, 66, 67]);
    assert_eq!(uart.next_transmit(), None);
    // TX tied to RX: the bytes come back, possibly split over reads
    let mut buffer = [0u8; MAX_UART_BATCH];
    buffer[..2].copy_from_slice(&sent[..2]);
    let first = UartReceiveData::from_read(&buffer, 2).unwrap();
    buffer[0] = sent[2];
    let second = UartReceiveData::from_read(&buffer, 1).unwrap();
    let mut received = first.bytes.clone();
    received.extend_from_slice(&second.bytes);
    assert_eq!(received, vec![65, 66, 67]);
    assert!(UartReceiveData::from_read(&buffer, 0).is_none());
}

#[test]
fn uart_transmit_queue_is_bounded() {
    let mut uart = UartHandle::new();
    for i in 0..4u8 {
        assert!(uart.send(&[i]).is_ok());
    }
    assert_eq!(uart.send(&[9, 9]), Err(vec![9, 9]));
    assert_eq!(uart.next_transmit(), Some(vec![0]));
}

fn readings(byte: u8) -> ChargerReadings {
    ChargerReadings {
        charger_status: SystemStatusRegister {
            vbus_status: VbusStatus::UsbHost,
            charge_status: ChargeStatus::FastCharging,
            dpm_active: false,
            power_good: true,
            thermal_regulation_active: false,
            vsys_regulation_active: false,
        },
        charger_faults: NewFaultRegister {
            watchdog_fault: false,
            otg_fault: false,
            charge_fault_status: ChargeFaultStatus::Normal,
            battery_fault: false,
            ntc_fault_status: NtcFaultStatus::Normal,
        },
        expander_byte: byte,
    }
}

/// Runs one command through the task until it waits again; returns the
/// snapshot published at the head of the next iteration.
fn run_command(t: &mut PowerTask, req: PowerRequest, byte: &mut u8) -> mainboard::power::PowerControllerStats {
    let mut step = t.step(PowerEvent::Request(req));
    loop {
        match step.action {
            PowerAction::ReadStats => {
                step = t.step(PowerEvent::StatsRead(Ok(readings(*byte))));
                if let Some(s) = step.publish {
                    return s;
                }
            }
            PowerAction::ApplyMode(c) => {
                *byte = c.expander.into_byte();
                step = t.step(PowerEvent::ModeApplied(Ok(())));
            }
            PowerAction::Respond(_) => step = t.step(PowerEvent::ResponseSent),
            PowerAction::ResetWatchdog => step = t.step(PowerEvent::WatchdogReset(Ok(()))),
            _ => panic!("unexpected action"),
        }
    }
}

#[test]
fn shutdown_sequence() {
    let plan = shutdown_plan();
    assert_eq!(plan.len(), 13);
    assert_eq!(plan[0], ShutdownStep::SetBoost(false));
    assert_eq!(plan[1], ShutdownStep::SetPinMode(DigitalPinID::D0, PinMode::OpenDrain));
    assert_eq!(plan[2], ShutdownStep::SetPin(DigitalPinID::D0, true));
    assert_eq!(plan[10], ShutdownStep::SetPin(DigitalPinID::D4, true));
    assert_eq!(plan[11], ShutdownStep::SetPowerMode(PowerControllerMode::Charging));
    assert_eq!(plan[12], ShutdownStep::DeepSleep);

    // a board in OTG with the boost converter on and pins driven high
    let (mut t, _) = PowerTask::new(PowerControllerConfig::default());
    t.step(PowerEvent::SetupDone(Ok(())));
    let mut byte: u8 = 0xFF;
    t.step(PowerEvent::StatsRead(Ok(readings(byte))));
    byte = 0xDF;
    t.step(PowerEvent::ModeApplied(Ok(())));
    run_command(&mut t, PowerRequest::EnableBoostConverter(true), &mut byte);
    let mut pins = DigitalIoHandle::new();
    for n in 0..5u8 {
        let id = DigitalPinID::from_number(n).unwrap();
        pins.set_mode(id, PinMode::PushPull);
        pins.observe(id, true);
    }

    let mut last = None;
    for step in plan {
        match step {
            ShutdownStep::SetBoost(x) => last = Some(run_command(&mut t, PowerRequest::EnableBoostConverter(x), &mut byte)),
            ShutdownStep::SetPinMode(id, m) => {
                pins.set_mode(id, m);
                pins.observe(id, true);
            }
            ShutdownStep::SetPin(id, v) => {
                pins.set(id, v);
                // floating with the external pull-up absent on D3
                pins.observe(id, id != DigitalPinID::D3);
            }
            ShutdownStep::SetPowerMode(m) => last = Some(run_command(&mut t, PowerRequest::SetMode(m), &mut byte)),
            ShutdownStep::DeepSleep => break,
        }
    }
    let last = last.unwrap();
    assert!(!last.boost_enabled);
    assert!(last.expander_status.chr_en() && last.expander_status.vbus_enable());
    assert_eq!(t.controller().get_mode(), PowerControllerMode::Charging);
    for n in 0..5u8 {
        let (mode, state) = pins.get(DigitalPinID::from_number(n).unwrap()).unwrap();
        assert_eq!(mode, PinMode::OpenDrain);
        assert!(state == PinState::InHigh || state == PinState::InLow);
    }
}

#[test]
fn scan_fits_watchdog_window() {
    // 117 empty writes of 10 ms on top of the sleep of the shortest window
    let worst_ms = sleep_secs(WatchdogTimer::Seconds40) * 1000 + I2C_SCAN_COUNT as u64 * 10;
    assert_eq!(worst_ms, 21_170);
    assert!(worst_ms <= 40_000);
    assert!(sleep_secs(WatchdogTimer::Seconds80) * 1000 + I2C_SCAN_COUNT as u64 * 10 <= 80_000);
    assert!(sleep_secs(WatchdogTimer::Seconds160) * 1000 + I2C_SCAN_COUNT as u64 * 10 <= 160_000);
}
