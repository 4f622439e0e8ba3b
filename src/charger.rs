//! The charger's settings and register views, in the terms the controller
//! reads and writes them.
use vstd::prelude::*;

verus! {

/// Period of the charger's I²C watchdog.
#[derive(Clone, Copy, Debug, PartialEq, Eq, Structural)]
pub enum WatchdogTimer {
    Disabled,
    Seconds40,
    Seconds80,
    Seconds160,
}

/// Window of the watchdog in seconds; 0 when it is disabled.
pub open spec fn watchdog_window_secs(w: WatchdogTimer) -> int {
    match w {
        WatchdogTimer::Disabled => 0,
        WatchdogTimer::Seconds40 => 40,
        WatchdogTimer::Seconds80 => 80,
        WatchdogTimer::Seconds160 => 160,
    }
}

/// Safety timer of fast charging.
#[derive(Clone, Copy, Debug, PartialEq, Eq, Structural)]
pub enum ChargeTimer {
    Hours5,
    Hours8,
    Hours12,
    Hours20,
}

/// Battery voltage drop below the charge limit that starts recharging.
#[derive(Clone, Copy, Debug, PartialEq, Eq, Structural)]
pub enum BatteryRechargeThreshold {
    Millivolts100,
    Millivolts300,
}

/// Battery voltage below which pre-charge is used.
#[derive(Clone, Copy, Debug, PartialEq, Eq, Structural)]
pub enum BatteryLowVoltageThreshold {
    Millivolts2800,
    Millivolts3000,
}

/// Limit on the current drawn from the input.
#[derive(Clone, Copy, Debug, PartialEq, Eq, Structural)]
pub enum InputCurrentLimit {
    Milliamps100,
    Milliamps150,
    Milliamps500,
    Milliamps900,
    Milliamps1000,
    Milliamps1500,
    Milliamps2000,
    Milliamps3000,
}

/// Limit on the current of the boost (OTG) output.
#[derive(Clone, Copy, Debug, PartialEq, Eq, Structural)]
pub enum BoostCurrentLimit {
    Milliamps1000,
    Milliamps1500,
}

/// Temperature above which boost mode stops.
#[derive(Clone, Copy, Debug, PartialEq, Eq, Structural)]
pub enum BoostHotThreshold {
    Celsius55,
    Celsius60,
    Celsius65,
    Disabled,
}

/// Junction temperature at which the charge current is reduced.
#[derive(Clone, Copy, Debug, PartialEq, Eq, Structural)]
pub enum ThermalRegulationThreshold {
    Celsius60,
    Celsius80,
    Celsius100,
    Celsius120,
}

/// Kind of input source seen on VBUS.
#[derive(Clone, Copy, Debug, PartialEq, Eq, Structural)]
pub enum VbusStatus {
    Unknown,
    UsbHost,
    AdapterPort,
    Otg,
}

/// Phase of charging.
#[derive(Clone, Copy, Debug, PartialEq, Eq, Structural)]
pub enum ChargeStatus {
    NotCharging,
    PreCharge,
    FastCharging,
    ChargeDone,
}

/// Kind of charge fault.
#[derive(Clone, Copy, Debug, PartialEq, Eq, Structural)]
pub enum ChargeFaultStatus {
    Normal,
    InputFault,
    ThermalShutdown,
    ChargeTimerExpired,
}

/// Kind of battery thermistor fault.
#[derive(Clone, Copy, Debug, PartialEq, Eq, Structural)]
pub enum NtcFaultStatus {
    Normal,
    Cold,
    Hot,
    ColdAndHot,
}

/// The charger's system status register.
#[derive(Clone, Copy, Debug, PartialEq, Eq, Structural)]
pub struct SystemStatusRegister {
    pub vbus_status: VbusStatus,
    pub charge_status: ChargeStatus,
    pub dpm_active: bool,
    pub power_good: bool,
    pub thermal_regulation_active: bool,
    pub vsys_regulation_active: bool,
}

/// The charger's fault register.
#[derive(Clone, Copy, Debug, PartialEq, Eq, Structural)]
pub struct NewFaultRegister {
    pub watchdog_fault: bool,
    pub otg_fault: bool,
    pub charge_fault_status: ChargeFaultStatus,
    pub battery_fault: bool,
    pub ntc_fault_status: NtcFaultStatus,
}

impl NewFaultRegister {
    pub fn is_ntc_cold_fault(&self) -> (r: bool)
        ensures
            r == (self.ntc_fault_status == NtcFaultStatus::Cold || self.ntc_fault_status
                == NtcFaultStatus::ColdAndHot),
    {
        match self.ntc_fault_status {
            NtcFaultStatus::Cold | NtcFaultStatus::ColdAndHot => true,
            _ => false,
        }
    }

    pub fn is_ntc_hot_fault(&self) -> (r: bool)
        ensures
            r == (self.ntc_fault_status == NtcFaultStatus::Hot || self.ntc_fault_status
                == NtcFaultStatus::ColdAndHot),
    {
        match self.ntc_fault_status {
            NtcFaultStatus::Hot | NtcFaultStatus::ColdAndHot => true,
            _ => false,
        }
    }
}

/// The charging and OTG enable bits of the power-on configuration register.
#[derive(Clone, Copy, Debug, PartialEq, Eq, Structural)]
pub struct PowerOnConfiguration {
    pub charging_enabled: bool,
    pub otg_enabled: bool,
}

/// Everything written to the charger's configuration registers in one
/// transaction at setup.
#[derive(Clone, Copy, Debug, PartialEq, Eq, Structural)]
pub struct ChargerSetup {
    pub hiz_enabled: bool,
    pub input_voltage_dpm_mv: u32,
    pub input_current_limit: InputCurrentLimit,
    pub reset_i2c_watchdog: bool,
    pub system_min_voltage_mv: u32,
    pub boost_current_limit: BoostCurrentLimit,
    pub charge_current_limit_ma: u32,
    pub boost_low_temp_m20: bool,
    pub precharge_current_ma: u32,
    pub termination_current_ma: u32,
    pub charge_voltage_limit_mv: u32,
    pub battery_low_voltage: BatteryLowVoltageThreshold,
    pub battery_recharge_threshold: BatteryRechargeThreshold,
    pub termination_enabled: bool,
    pub watchdog_timer: WatchdogTimer,
    pub charge_timer: Option<ChargeTimer>,
    pub boost_voltage_mv: u32,
    pub boost_hot_threshold: BoostHotThreshold,
    pub thermal_regulation_threshold: ThermalRegulationThreshold,
    pub dpdm_detection_enabled: bool,
    pub timer_2x_enabled: bool,
    pub batfet_enabled: bool,
    pub interrupt_mask: u8,
}

/// What is written to the charger to enter shipping mode, after it has been
/// switched to charging.
#[derive(Clone, Copy, Debug, PartialEq, Eq, Structural)]
pub struct ShippingSetup {
    pub watchdog_timer: WatchdogTimer,
    pub batfet_enabled: bool,
}

/// Two-bit fault interrupt mask: bit 1 for charge faults, bit 0 for battery
/// faults.
pub open spec fn spec_interrupt_mask(charge_fault_int: bool, battery_fault_int: bool) -> u8 {
    ((if charge_fault_int { 2int } else { 0 }) + (if battery_fault_int { 1int } else { 0 })) as u8
}

pub fn interrupt_mask(charge_fault_int: bool, battery_fault_int: bool) -> (r: u8)
    ensures
        r == spec_interrupt_mask(charge_fault_int, battery_fault_int),
{
    match (charge_fault_int, battery_fault_int) {
        (false, false) => 0u8,
        (false, true) => 1u8,
        (true, false) => 2u8,
        (true, true) => 3u8,
    }
}

} // verus!
