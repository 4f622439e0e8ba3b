use mainboard::digital_io::{pin_state, DigitalIoHandle, DigitalPinID, PinAgent, PinCommand, PinMode, PinState};
use mainboard::server::{dispatch, pin_state_response, SessionAction, WebSocketCommand};

#[test]
fn pin_state_open_drain_rows() {
    assert_eq!(pin_state(true, true, PinMode::OpenDrain), PinState::InHigh);
    assert_eq!(pin_state(false, true, PinMode::OpenDrain), PinState::InLow);
    assert_eq!(pin_state(false, false, PinMode::OpenDrain), PinState::DrivingLow);
    assert_eq!(pin_state(true, false, PinMode::OpenDrain), PinState::Inconsistent);
}

#[test]
fn pin_state_push_pull_rows() {
    assert_eq!(pin_state(true, true, PinMode::PushPull), PinState::DrivingHigh);
    assert_eq!(pin_state(false, false, PinMode::PushPull), PinState::DrivingLow);
    assert_eq!(pin_state(false, true, PinMode::PushPull), PinState::Inconsistent);
    assert_eq!(pin_state(true, false, PinMode::PushPull), PinState::Inconsistent);
}

#[test]
fn mode_and_state_labels() {
    assert_eq!(PinMode::OpenDrain.to_str(), "OpenDrain");
    assert_eq!(PinMode::PushPull.to_str(), "PushPull");
    assert_eq!(PinState::InLow.to_str(), "In Low");
    assert_eq!(PinState::InHigh.to_str(), "In High");
    assert_eq!(PinState::DrivingLow.to_str(), "Driving Low");
    assert_eq!(PinState::DrivingHigh.to_str(), "Driving High");
    assert_eq!(PinState::Inconsistent.to_str(), "Inconsistent (short circuit!)");
}

#[test]
fn pin_numbers() {
    assert_eq!(DigitalPinID::from_number(0), Some(DigitalPinID::D0));
    assert_eq!(DigitalPinID::from_number(4), Some(DigitalPinID::D4));
    assert_eq!(DigitalPinID::from_number(5), None);
    assert_eq!(DigitalPinID::from_number(255), None);
    assert_eq!(DigitalPinID::D3.number(), 3);
    assert_eq!(DigitalPinID::D2.index(), 2);
}

#[test]
fn initial_configuration_floats_every_pin() {
    let h = DigitalIoHandle::new();
    for n in 0..5u8 {
        let id = DigitalPinID::from_number(n).unwrap();
        assert_eq!(h.drive(id), (PinMode::OpenDrain, true));
        assert_eq!(h.get(id), None);
    }
}

#[test]
fn agent_applies_commands() {
    let mut a = PinAgent::new(PinMode::OpenDrain, true);
    a.apply(PinCommand::SetState(false));
    assert_eq!(a.observe(false), (PinMode::OpenDrain, PinState::DrivingLow));
    a.apply(PinCommand::SetMode(PinMode::PushPull));
    assert!(!a.is_set_high);
    assert_eq!(a.observe(false), (PinMode::PushPull, PinState::DrivingLow));
    a.apply(PinCommand::SetState(true));
    assert_eq!(a.observe(true), (PinMode::PushPull, PinState::DrivingHigh));
    assert_eq!(a.published, Some((PinMode::PushPull, PinState::DrivingHigh)));
}

#[test]
fn set_then_publish_is_deterministic() {
    let mut h = DigitalIoHandle::new();
    assert_eq!(h.set_mode(DigitalPinID::D1, PinMode::PushPull), (PinMode::PushPull, true));
    assert_eq!(h.set(DigitalPinID::D1, false), (PinMode::PushPull, false));
    // the line reads high although it is driven low: a short
    assert_eq!(h.observe(DigitalPinID::D1, true), (PinMode::PushPull, PinState::Inconsistent));
    assert_eq!(h.get(DigitalPinID::D1), Some((PinMode::PushPull, PinState::Inconsistent)));
    assert_eq!(h.observe(DigitalPinID::D1, false), (PinMode::PushPull, PinState::DrivingLow));
    assert_eq!(h.get(DigitalPinID::D0), None);
}

#[test]
fn floating_pin_reads_external_level() {
    let mut h = DigitalIoHandle::new();
    assert_eq!(h.observe(DigitalPinID::D4, true), (PinMode::OpenDrain, PinState::InHigh));
    // an edge: something outside pulls the line low
    assert_eq!(h.observe(DigitalPinID::D4, false), (PinMode::OpenDrain, PinState::InLow));
}

#[test]
fn digital_command_drives_pin_low() {
    let mut h = DigitalIoHandle::new();
    h.observe(DigitalPinID::D2, true);
    let cmd = WebSocketCommand::Digital { id: 2, value: 0 };
    let (id, v) = match dispatch(cmd) {
        SessionAction::SetPin(id, v) => (id, v),
        _ => panic!("expected a pin command"),
    };
    assert_eq!(id, DigitalPinID::D2);
    assert!(!v);
    h.set(id, v);
    let record = h.observe(id, false);
    let frame = pin_state_response(id, record);
    assert_eq!(frame.pin_number, 2);
    assert_eq!(frame.mode, "OpenDrain");
    assert_eq!(frame.state, "Driving Low");
}
