//! WebSocket session logic: what each inbound command asks for, how read
//! errors close the session, and the frames sent to clients.
use vstd::prelude::*;
use crate::adc::{AdcBufferData, AdcState};
use crate::charger::{ChargeFaultStatus, ChargeStatus, NtcFaultStatus, VbusStatus};
use crate::digital_io::{pin_index, pin_mode_name, pin_state_name, DigitalPinID, PinMode, PinState};
use crate::power::PowerControllerStats;

verus! {

/// An inbound command, as decoded from its JSON text.
#[derive(Clone, Debug)]
pub enum WebSocketCommand {
    Digital { id: u8, value: u8 },
    DigitalMode { id: u8, mode: String },
    Power { action: String, value: bool },
    I2cScan,
    I2cRead { address: u8, register: u8 },
    I2cWrite { address: u8, register: u8, value: u8 },
    UartSend { bytes: Vec<u8> },
}

/// What the session does for a command.
#[derive(Clone, Debug)]
pub enum SessionAction {
    /// Set the level of a pin.
    SetPin(DigitalPinID, bool),
    /// Set the drive mode of a pin.
    SetPinMode(DigitalPinID, PinMode),
    /// Drive the boost converter's enable line.
    SetBoost(bool),
    /// Scan the bus and reply with the addresses that answered.
    I2cScan,
    /// Read one register and reply with its value.
    I2cRead { address: u8, register: u8 },
    /// Write one register and reply with the outcome.
    I2cWrite { address: u8, register: u8, value: u8 },
    /// Queue bytes for the UART.
    UartSend(Vec<u8>),
    /// Nothing: the pin, the mode or the action is unknown.
    Ignore,
}

pub open spec fn mode_named(s: Seq<char>) -> Option<PinMode> {
    if s == "OpenDrain"@ {
        Some(PinMode::OpenDrain)
    } else if s == "PushPull"@ {
        Some(PinMode::PushPull)
    } else {
        None
    }
}

/// The pin mode a client names: "OpenDrain" or "PushPull".
pub fn parse_pin_mode(s: &String) -> (r: Option<PinMode>)
    ensures
        r == mode_named(s@),
{
    let open_drain = "OpenDrain".to_owned();
    let push_pull = "PushPull".to_owned();
    proof {
        reveal_strlit("OpenDrain");
        reveal_strlit("PushPull");
    }
    if *s == open_drain {
        Some(PinMode::OpenDrain)
    } else if *s == push_pull {
        Some(PinMode::PushPull)
    } else {
        None
    }
}

pub open spec fn pin_numbered(n: u8) -> Option<DigitalPinID> {
    if n < 5 {
        Some(
            if n == 0 {
                DigitalPinID::D0
            } else if n == 1 {
                DigitalPinID::D1
            } else if n == 2 {
                DigitalPinID::D2
            } else if n == 3 {
                DigitalPinID::D3
            } else {
                DigitalPinID::D4
            },
        )
    } else {
        None
    }
}

pub proof fn lemma_pin_numbered(n: u8, r: Option<DigitalPinID>)
    requires
        n < 5 <==> r is Some,
        r matches Some(id) ==> pin_index(id) == n as int,
    ensures
        r == pin_numbered(n),
{
}

/// The action for an inbound command.
pub fn dispatch(cmd: WebSocketCommand) -> (r: SessionAction)
    ensures
        match cmd {
            WebSocketCommand::Digital { id, value } => match pin_numbered(id) {
                Some(p) => r == SessionAction::SetPin(p, value != 0),
                None => r is Ignore,
            },
            WebSocketCommand::DigitalMode { id, mode } => match (pin_numbered(id), mode_named(mode@)) {
                (Some(p), Some(m)) => r == SessionAction::SetPinMode(p, m),
                _ => r is Ignore,
            },
            WebSocketCommand::Power { action, value } => if action@ == "boost"@ {
                r == SessionAction::SetBoost(value)
            } else {
                r is Ignore
            },
            WebSocketCommand::I2cScan => r is I2cScan,
            WebSocketCommand::I2cRead { address, register } => r == SessionAction::I2cRead { address, register },
            WebSocketCommand::I2cWrite { address, register, value } => r == SessionAction::I2cWrite {
                address,
                register,
                value,
            },
            WebSocketCommand::UartSend { bytes } => r matches SessionAction::UartSend(b) && b@ == bytes@,
        },
{
    match cmd {
        WebSocketCommand::Digital { id, value } => {
            let p = DigitalPinID::from_number(id);
            proof {
                lemma_pin_numbered(id, p);
            }
            match p {
                Some(p) => SessionAction::SetPin(p, value != 0),
                None => SessionAction::Ignore,
            }
        },
        WebSocketCommand::DigitalMode { id, mode } => {
            let p = DigitalPinID::from_number(id);
            proof {
                lemma_pin_numbered(id, p);
            }
            match (p, parse_pin_mode(&mode)) {
                (Some(p), Some(m)) => SessionAction::SetPinMode(p, m),
                _ => SessionAction::Ignore,
            }
        },
        WebSocketCommand::Power { action, value } => {
            let boost = "boost".to_owned();
            proof {
                reveal_strlit("boost");
            }
            if action == boost {
                SessionAction::SetBoost(value)
            } else {
                SessionAction::Ignore
            }
        },
        WebSocketCommand::I2cScan => SessionAction::I2cScan,
        WebSocketCommand::I2cRead { address, register } => SessionAction::I2cRead { address, register },
        WebSocketCommand::I2cWrite { address, register, value } => SessionAction::I2cWrite { address, register, value },
        WebSocketCommand::UartSend { bytes } => SessionAction::UartSend(bytes),
    }
}

/// Close code for a protocol error.
pub const CLOSE_PROTOCOL_ERROR: u16 = 1002;

/// Close code for data that is not supported (binary frames, reserved opcodes).
pub const CLOSE_UNSUPPORTED: u16 = 1003;

/// Close code for text that is not UTF-8.
pub const CLOSE_INVALID_PAYLOAD: u16 = 1007;

/// Close code for a failure inside the session.
pub const CLOSE_INTERNAL_ERROR: u16 = 1011;

/// How reading the next message failed.
#[derive(Clone, Copy, Debug, PartialEq, Eq, Structural)]
pub enum ReadErrorKind {
    /// The connection itself failed.
    Io,
    ReadFrameError,
    MessageStartsWithContinuation,
    UnexpectedMessageStart,
    ReservedOpcode,
    TextIsNotUtf8,
}

/// Kind of inbound message, or the failure to read one.
#[derive(Clone, Copy, Debug, PartialEq, Eq, Structural)]
pub enum InboundFrame {
    Text,
    Binary,
    Close,
    Ping,
    Pong,
    Error(ReadErrorKind),
}

/// What the session does with an inbound message.
#[derive(Clone, Copy, Debug, PartialEq, Eq, Structural)]
pub enum FrameOutcome {
    /// Decode the text as a command; undecodable text is ignored.
    HandleText,
    /// Answer a ping with a pong carrying its payload.
    SendPong,
    /// Nothing to do.
    Continue,
    /// Close the session, with a code or without one.
    Close(Option<u16>),
    /// The connection failed: end the session with the error.
    Fail,
}

pub open spec fn spec_frame_outcome(f: InboundFrame) -> FrameOutcome {
    match f {
        InboundFrame::Text => FrameOutcome::HandleText,
        InboundFrame::Binary => FrameOutcome::Close(Some(CLOSE_UNSUPPORTED)),
        InboundFrame::Close => FrameOutcome::Close(None),
        InboundFrame::Ping => FrameOutcome::SendPong,
        InboundFrame::Pong => FrameOutcome::Continue,
        InboundFrame::Error(ReadErrorKind::Io) => FrameOutcome::Fail,
        InboundFrame::Error(ReadErrorKind::ReservedOpcode) => FrameOutcome::Close(Some(CLOSE_UNSUPPORTED)),
        InboundFrame::Error(ReadErrorKind::TextIsNotUtf8) => FrameOutcome::Close(Some(CLOSE_INVALID_PAYLOAD)),
        InboundFrame::Error(_) => FrameOutcome::Close(Some(CLOSE_PROTOCOL_ERROR)),
    }
}

/// What the session does with an inbound message.
pub fn frame_outcome(f: InboundFrame) -> (r: FrameOutcome)
    ensures
        r == spec_frame_outcome(f),
{
    match f {
        InboundFrame::Text => FrameOutcome::HandleText,
        InboundFrame::Binary => FrameOutcome::Close(Some(CLOSE_UNSUPPORTED)),
        InboundFrame::Close => FrameOutcome::Close(None),
        InboundFrame::Ping => FrameOutcome::SendPong,
        InboundFrame::Pong => FrameOutcome::Continue,
        InboundFrame::Error(kind) => match kind {
            ReadErrorKind::Io => FrameOutcome::Fail,
            ReadErrorKind::ReadFrameError
            | ReadErrorKind::MessageStartsWithContinuation
            | ReadErrorKind::UnexpectedMessageStart => FrameOutcome::Close(Some(CLOSE_PROTOCOL_ERROR)),
            ReadErrorKind::ReservedOpcode => FrameOutcome::Close(Some(CLOSE_UNSUPPORTED)),
            ReadErrorKind::TextIsNotUtf8 => FrameOutcome::Close(Some(CLOSE_INVALID_PAYLOAD)),
        },
    }
}

/// A `pin_state` frame.
#[derive(Clone, Copy, Debug)]
pub struct PinStatesResponse {
    pub pin_number: u8,
    pub mode: &'static str,
    pub state: &'static str,
}

/// The `pin_state` frame for a pin's record.
pub fn pin_state_response(id: DigitalPinID, record: (PinMode, PinState)) -> (r: PinStatesResponse)
    ensures
        r.pin_number as int == pin_index(id),
        r.mode@ == pin_mode_name(record.0),
        r.state@ == pin_state_name(record.1),
{
    PinStatesResponse { pin_number: id.number(), mode: record.0.to_str(), state: record.1.to_str() }
}

/// An `adc_voltage` frame.
#[derive(Clone, Copy, Debug, PartialEq, Eq, Structural)]
pub struct AdcVoltageResponse {
    pub battery_voltage: u16,
    pub boost_voltage: u16,
    pub a0: u16,
    pub a1: u16,
    pub a2: u16,
    pub a3: u16,
    pub a4: u16,
}

impl AdcVoltageResponse {
    /// The frame for the latest scalar.
    pub fn from_state(s: &AdcState) -> (r: AdcVoltageResponse)
        ensures
            r == (AdcVoltageResponse {
                battery_voltage: s.battery_voltage,
                boost_voltage: s.boost_voltage,
                a0: s.a0,
                a1: s.a1,
                a2: s.a2,
                a3: s.a3,
                a4: s.a4,
            }),
    {
        AdcVoltageResponse {
            battery_voltage: s.battery_voltage,
            boost_voltage: s.boost_voltage,
            a0: s.a0,
            a1: s.a1,
            a2: s.a2,
            a3: s.a3,
            a4: s.a4,
        }
    }
}

/// An `adc_buffer` frame.
#[derive(Clone, Debug)]
pub struct AdcBufferResponse {
    pub sequence: u32,
    pub battery_voltage: Vec<u16>,
    pub boost_voltage: Vec<u16>,
    pub a0: Vec<u16>,
    pub a1: Vec<u16>,
    pub a2: Vec<u16>,
    pub a3: Vec<u16>,
    pub a4: Vec<u16>,
}

impl AdcBufferResponse {
    /// The frame for a published buffer.
    pub fn from_buffer(b: AdcBufferData) -> (r: AdcBufferResponse)
        ensures
            r.sequence == b.sequence,
            r.battery_voltage@ == b.battery_voltage@,
            r.boost_voltage@ == b.boost_voltage@,
            r.a0@ == b.a0@,
            r.a1@ == b.a1@,
            r.a2@ == b.a2@,
            r.a3@ == b.a3@,
            r.a4@ == b.a4@,
    {
        AdcBufferResponse {
            sequence: b.sequence,
            battery_voltage: b.battery_voltage,
            boost_voltage: b.boost_voltage,
            a0: b.a0,
            a1: b.a1,
            a2: b.a2,
            a3: b.a3,
            a4: b.a4,
        }
    }
}

pub open spec fn vbus_status_name(v: VbusStatus) -> Seq<char> {
    match v {
        VbusStatus::Unknown => "Unknown"@,
        VbusStatus::UsbHost => "USB Host"@,
        VbusStatus::AdapterPort => "Adapter Port"@,
        VbusStatus::Otg => "OTG"@,
    }
}

pub open spec fn charge_status_name(c: ChargeStatus) -> Seq<char> {
    match c {
        ChargeStatus::NotCharging => "Not Charging"@,
        ChargeStatus::PreCharge => "Pre-Charge"@,
        ChargeStatus::FastCharging => "Fast Charging"@,
        ChargeStatus::ChargeDone => "Charge Done"@,
    }
}

pub open spec fn charge_fault_name(c: ChargeFaultStatus) -> Seq<char> {
    match c {
        ChargeFaultStatus::Normal => "Normal"@,
        ChargeFaultStatus::InputFault => "Input Fault"@,
        ChargeFaultStatus::ThermalShutdown => "Thermal Shutdown"@,
        ChargeFaultStatus::ChargeTimerExpired => "Charge Timer Expired"@,
    }
}

pub open spec fn ntc_fault_name(n: NtcFaultStatus) -> Seq<char> {
    match n {
        NtcFaultStatus::Normal => "Normal"@,
        NtcFaultStatus::Cold => "Cold"@,
        NtcFaultStatus::Hot => "Hot"@,
        NtcFaultStatus::ColdAndHot => "Cold and Hot"@,
    }
}

pub fn vbus_status_label(v: VbusStatus) -> (r: &'static str)
    ensures
        r@ == vbus_status_name(v),
{
    match v {
        VbusStatus::Unknown => "Unknown",
        VbusStatus::UsbHost => "USB Host",
        VbusStatus::AdapterPort => "Adapter Port",
        VbusStatus::Otg => "OTG",
    }
}

pub fn charge_status_label(c: ChargeStatus) -> (r: &'static str)
    ensures
        r@ == charge_status_name(c),
{
    match c {
        ChargeStatus::NotCharging => "Not Charging",
        ChargeStatus::PreCharge => "Pre-Charge",
        ChargeStatus::FastCharging => "Fast Charging",
        ChargeStatus::ChargeDone => "Charge Done",
    }
}

pub fn charge_fault_label(c: ChargeFaultStatus) -> (r: &'static str)
    ensures
        r@ == charge_fault_name(c),
{
    match c {
        ChargeFaultStatus::Normal => "Normal",
        ChargeFaultStatus::InputFault => "Input Fault",
        ChargeFaultStatus::ThermalShutdown => "Thermal Shutdown",
        ChargeFaultStatus::ChargeTimerExpired => "Charge Timer Expired",
    }
}

pub fn ntc_fault_label(n: NtcFaultStatus) -> (r: &'static str)
    ensures
        r@ == ntc_fault_name(n),
{
    match n {
        NtcFaultStatus::Normal => "Normal",
        NtcFaultStatus::Cold => "Cold",
        NtcFaultStatus::Hot => "Hot",
        NtcFaultStatus::ColdAndHot => "Cold and Hot",
    }
}

/// A `power_stats` frame: the snapshot with its register fields decoded.
#[derive(Clone, Copy, Debug)]
pub struct PowerStatsResponse {
    pub vbus_status: &'static str,
    pub charge_status: &'static str,
    pub dpm_active: bool,
    pub power_good: bool,
    pub thermal_regulation_active: bool,
    pub vsys_regulation_active: bool,
    pub watchdog_fault: bool,
    pub otg_fault: bool,
    pub charge_fault_status: &'static str,
    pub battery_fault: bool,
    pub ntc_fault_status: &'static str,
    pub ntc_cold_fault: bool,
    pub ntc_hot_fault: bool,
    pub boost_converter_enabled: bool,
    pub vbus_present: bool,
    pub vbus_flg: bool,
    pub dc_jack_present: bool,
    pub chr_en: bool,
    pub chr_otg: bool,
    pub chr_psel: bool,
    pub vbus_enable: bool,
}

/// The `power_stats` frame for a snapshot.
pub fn format_power_stats_response(stats: &PowerControllerStats) -> (r: PowerStatsResponse)
    ensures
        r.vbus_status@ == vbus_status_name(stats.charger_status.vbus_status),
        r.charge_status@ == charge_status_name(stats.charger_status.charge_status),
        r.dpm_active == stats.charger_status.dpm_active,
        r.power_good == stats.charger_status.power_good,
        r.thermal_regulation_active == stats.charger_status.thermal_regulation_active,
        r.vsys_regulation_active == stats.charger_status.vsys_regulation_active,
        r.watchdog_fault == stats.charger_faults.watchdog_fault,
        r.otg_fault == stats.charger_faults.otg_fault,
        r.charge_fault_status@ == charge_fault_name(stats.charger_faults.charge_fault_status),
        r.battery_fault == stats.charger_faults.battery_fault,
        r.ntc_fault_status@ == ntc_fault_name(stats.charger_faults.ntc_fault_status),
        r.ntc_cold_fault == (stats.charger_faults.ntc_fault_status == NtcFaultStatus::Cold
            || stats.charger_faults.ntc_fault_status == NtcFaultStatus::ColdAndHot),
        r.ntc_hot_fault == (stats.charger_faults.ntc_fault_status == NtcFaultStatus::Hot
            || stats.charger_faults.ntc_fault_status == NtcFaultStatus::ColdAndHot),
        r.boost_converter_enabled == stats.boost_enabled,
        r.vbus_present == stats.expander_status.spec_vbus_present(),
        r.vbus_flg == stats.expander_status.spec_vbus_flg(),
        r.dc_jack_present == stats.expander_status.spec_dc_jack_present(),
        r.chr_en == stats.expander_status.spec_chr_en(),
        r.chr_otg == stats.expander_status.spec_chr_otg(),
        r.chr_psel == stats.expander_status.spec_chr_psel(),
        r.vbus_enable == stats.expander_status.spec_vbus_enable(),
{
    let status = &stats.charger_status;
    let faults = &stats.charger_faults;
    let expander = &stats.expander_status;
    PowerStatsResponse {
        vbus_status: vbus_status_label(status.vbus_status),
        charge_status: charge_status_label(status.charge_status),
        dpm_active: status.dpm_active,
        power_good: status.power_good,
        thermal_regulation_active: status.thermal_regulation_active,
        vsys_regulation_active: status.vsys_regulation_active,
        watchdog_fault: faults.watchdog_fault,
        otg_fault: faults.otg_fault,
        charge_fault_status: charge_fault_label(faults.charge_fault_status),
        battery_fault: faults.battery_fault,
        ntc_fault_status: ntc_fault_label(faults.ntc_fault_status),
        ntc_cold_fault: faults.is_ntc_cold_fault(),
        ntc_hot_fault: faults.is_ntc_hot_fault(),
        boost_converter_enabled: stats.boost_enabled,
        vbus_present: expander.vbus_present(),
        vbus_flg: expander.vbus_flg(),
        dc_jack_present: expander.dc_jack_present(),
        chr_en: expander.chr_en(),
        chr_otg: expander.chr_otg(),
        chr_psel: expander.chr_psel(),
        vbus_enable: expander.vbus_enable(),
    }
}

} // verus!
