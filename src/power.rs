//! The power controller: its configuration, its modes and the mode table,
//! the published snapshot, and the decisions it takes on commands and on
//! interrupts.
use vstd::prelude::*;
use crate::charger::{
    interrupt_mask, spec_interrupt_mask, BatteryLowVoltageThreshold, BatteryRechargeThreshold,
    BoostCurrentLimit, BoostHotThreshold, ChargeTimer, ChargerSetup, InputCurrentLimit,
    NewFaultRegister, PowerOnConfiguration, ShippingSetup, SystemStatusRegister,
    ThermalRegulationThreshold, WatchdogTimer,
};
use crate::expander::{
    bit_of, lemma_with_bit, with_bit, ExpanderStatus, CHR_EN_BIT, VBUS_ENABLE_BIT,
};

verus! {

/// Static configuration of the power controller.
#[derive(Clone, Copy, Debug, PartialEq, Eq, Structural)]
pub struct PowerControllerConfig {
    pub precharge_current: u32,
    pub charging_current: u32,
    pub termination_current: u32,
    pub charging_voltage: u32,
    pub charge_timer: Option<ChargeTimer>,
    pub battary_recharge_threshold: BatteryRechargeThreshold,
    pub battery_low_voltage: BatteryLowVoltageThreshold,
    pub input_current: InputCurrentLimit,
    pub input_voltage: u32,
    pub sys_min_voltage: u32,
    pub boost_voltage: u32,
    pub boost_current_limit: BoostCurrentLimit,
    pub boost_hot_threshold: BoostHotThreshold,
    pub boost_cold_threshold_m20: bool,
    pub i2c_watchdog_timer: WatchdogTimer,
    pub thermal_regulation_threshold: ThermalRegulationThreshold,
    pub enable_charge_fault_int: bool,
    pub enable_battery_fault_int: bool,
}

pub open spec fn default_power_config() -> PowerControllerConfig {
    PowerControllerConfig {
        precharge_current: 512,
        charging_current: 1024,
        termination_current: 100,
        charging_voltage: 4100,
        charge_timer: Some(ChargeTimer::Hours8),
        battary_recharge_threshold: BatteryRechargeThreshold::Millivolts100,
        battery_low_voltage: BatteryLowVoltageThreshold::Millivolts3000,
        input_current: InputCurrentLimit::Milliamps1000,
        input_voltage: 4360,
        sys_min_voltage: 3700,
        boost_voltage: 4998,
        boost_current_limit: BoostCurrentLimit::Milliamps1000,
        boost_hot_threshold: BoostHotThreshold::Celsius65,
        boost_cold_threshold_m20: true,
        i2c_watchdog_timer: WatchdogTimer::Seconds160,
        thermal_regulation_threshold: ThermalRegulationThreshold::Celsius80,
        enable_charge_fault_int: true,
        enable_battery_fault_int: true,
    }
}

impl Default for PowerControllerConfig {
    fn default() -> (r: Self)
        ensures
            r == default_power_config(),
    {
        PowerControllerConfig {
            precharge_current: 512,
            charging_current: 1024,
            termination_current: 100,
            charging_voltage: 4100,
            charge_timer: Some(ChargeTimer::Hours8),
            battary_recharge_threshold: BatteryRechargeThreshold::Millivolts100,
            battery_low_voltage: BatteryLowVoltageThreshold::Millivolts3000,
            input_current: InputCurrentLimit::Milliamps1000,
            input_voltage: 4360,
            sys_min_voltage: 3700,
            boost_voltage: 4998,
            boost_current_limit: BoostCurrentLimit::Milliamps1000,
            boost_hot_threshold: BoostHotThreshold::Celsius65,
            boost_cold_threshold_m20: true,
            i2c_watchdog_timer: WatchdogTimer::Seconds160,
            thermal_regulation_threshold: ThermalRegulationThreshold::Celsius80,
            enable_charge_fault_int: true,
            enable_battery_fault_int: true,
        }
    }
}

/// The charger settings that a configuration programs at setup.
pub open spec fn spec_charger_setup(c: PowerControllerConfig) -> ChargerSetup {
    ChargerSetup {
        hiz_enabled: false,
        input_voltage_dpm_mv: c.input_voltage,
        input_current_limit: c.input_current,
        reset_i2c_watchdog: true,
        system_min_voltage_mv: c.sys_min_voltage,
        boost_current_limit: c.boost_current_limit,
        charge_current_limit_ma: c.charging_current,
        boost_low_temp_m20: c.boost_cold_threshold_m20,
        precharge_current_ma: c.precharge_current,
        termination_current_ma: c.termination_current,
        charge_voltage_limit_mv: c.charging_voltage,
        battery_low_voltage: c.battery_low_voltage,
        battery_recharge_threshold: c.battary_recharge_threshold,
        termination_enabled: true,
        watchdog_timer: c.i2c_watchdog_timer,
        charge_timer: c.charge_timer,
        boost_voltage_mv: c.boost_voltage,
        boost_hot_threshold: c.boost_hot_threshold,
        thermal_regulation_threshold: c.thermal_regulation_threshold,
        dpdm_detection_enabled: true,
        timer_2x_enabled: false,
        batfet_enabled: true,
        interrupt_mask: spec_interrupt_mask(c.enable_charge_fault_int, c.enable_battery_fault_int),
    }
}

/// Operating mode of the charger path.
#[derive(Clone, Copy, Debug, PartialEq, Eq, Structural)]
pub enum PowerControllerMode {
    Passive,
    Charging,
    Otg,
}

/// `chr_en` of the mode table.
pub open spec fn mode_chr_en(m: PowerControllerMode) -> bool {
    m == PowerControllerMode::Charging
}

/// `vbus_enable` of the mode table.
pub open spec fn mode_vbus_enable(m: PowerControllerMode) -> bool {
    m != PowerControllerMode::Otg
}

/// Charger bits of the mode table.
pub open spec fn mode_charger(m: PowerControllerMode) -> PowerOnConfiguration {
    PowerOnConfiguration {
        charging_enabled: m == PowerControllerMode::Charging,
        otg_enabled: m == PowerControllerMode::Otg,
    }
}

/// The expander byte for mode `m`: `chr_en` and `vbus_enable` from the table,
/// every other bit as in `current`.
pub open spec fn mode_expander(m: PowerControllerMode, current: ExpanderStatus) -> ExpanderStatus {
    ExpanderStatus {
        reg: with_bit(with_bit(current.reg, CHR_EN_BIT, !mode_chr_en(m)), VBUS_ENABLE_BIT, mode_vbus_enable(m)),
    }
}

/// Mode a fresh controller enters: charging with VBUS, OTG without.
pub open spec fn spec_initial_mode(vbus_present: bool) -> PowerControllerMode {
    if vbus_present {
        PowerControllerMode::Charging
    } else {
        PowerControllerMode::Otg
    }
}

/// Mode switch that an interrupt calls for, if any.
pub open spec fn spec_interrupt_target(mode: PowerControllerMode, vbus_present: bool) -> Option<PowerControllerMode> {
    if mode == PowerControllerMode::Otg {
        if vbus_present { Some(PowerControllerMode::Charging) } else { None }
    } else {
        if !vbus_present { Some(PowerControllerMode::Otg) } else { None }
    }
}

/// Seconds between watchdog resets when no request arrives: at most half of
/// the watchdog window.
pub open spec fn spec_sleep_secs(w: WatchdogTimer) -> u64 {
    match w {
        WatchdogTimer::Disabled | WatchdogTimer::Seconds40 => 20,
        WatchdogTimer::Seconds80 => 40,
        WatchdogTimer::Seconds160 => 80,
    }
}

pub fn initial_mode(vbus_present: bool) -> (r: PowerControllerMode)
    ensures
        r == spec_initial_mode(vbus_present),
{
    if vbus_present {
        PowerControllerMode::Charging
    } else {
        PowerControllerMode::Otg
    }
}

pub fn interrupt_target(mode: PowerControllerMode, vbus_present: bool) -> (r: Option<PowerControllerMode>)
    ensures
        r == spec_interrupt_target(mode, vbus_present),
{
    match mode {
        PowerControllerMode::Otg => if vbus_present {
            Some(PowerControllerMode::Charging)
        } else {
            None
        },
        _ => if !vbus_present {
            Some(PowerControllerMode::Otg)
        } else {
            None
        },
    }
}

pub fn sleep_secs(w: WatchdogTimer) -> (r: u64)
    ensures
        r == spec_sleep_secs(w),
{
    match w {
        WatchdogTimer::Disabled | WatchdogTimer::Seconds40 => 20,
        WatchdogTimer::Seconds80 => 40,
        WatchdogTimer::Seconds160 => 80,
    }
}

/// Snapshot published by the power controller.
#[derive(Clone, Copy, Debug, PartialEq, Eq, Structural)]
pub struct PowerControllerStats {
    pub charger_status: SystemStatusRegister,
    pub charger_faults: NewFaultRegister,
    pub boost_enabled: bool,
    pub expander_status: ExpanderStatus,
}

/// The writes that put the hardware in a mode: first the expander byte, then
/// the charger's power-on configuration bits.
#[derive(Clone, Copy, Debug, PartialEq, Eq, Structural)]
pub struct ModeChange {
    pub mode: PowerControllerMode,
    pub expander: ExpanderStatus,
    pub charger: PowerOnConfiguration,
}

/// Kind of failure of a power controller operation.
#[derive(Clone, Copy, Debug, PartialEq, Eq, Structural)]
pub enum PowerControllerError {
    /// The charger transaction failed on the bus.
    I2cBusError,
    /// The expander transaction failed.
    I2CExpanderError,
}

impl PowerControllerError {
    /// Description of the failure.
    pub fn message(&self) -> (r: &'static str)
        ensures
            r@ == power_error_message(*self),
    {
        match self {
            PowerControllerError::I2cBusError => "Power Controller error due to I2C bus malfunction",
            PowerControllerError::I2CExpanderError => "Power Controller error due to I2C expander error",
        }
    }
}

pub open spec fn power_error_message(e: PowerControllerError) -> Seq<char> {
    match e {
        PowerControllerError::I2cBusError => "Power Controller error due to I2C bus malfunction"@,
        PowerControllerError::I2CExpanderError => "Power Controller error due to I2C expander error"@,
    }
}

/// Commands accepted by the power controller.
#[derive(Clone, Copy, Debug, PartialEq, Eq, Structural)]
pub enum PowerRequest {
    EnableBoostConverter(bool),
    CheckInterrupt,
    SetMode(PowerControllerMode),
}

/// Reply to a power controller command.
pub type PowerResponse = Result<(), PowerControllerError>;

/// State that the power controller owns: its configuration, the mode last
/// applied in full and the level last commanded on the boost-enable line.
pub struct PowerController {
    config: PowerControllerConfig,
    mode: PowerControllerMode,
    boost_enabled: bool,
}

impl PowerController {
    pub closed spec fn spec_config(&self) -> PowerControllerConfig {
        self.config
    }

    pub closed spec fn spec_mode(&self) -> PowerControllerMode {
        self.mode
    }

    pub closed spec fn spec_boost_enabled(&self) -> bool {
        self.boost_enabled
    }

    /// A controller in Passive mode with the boost converter off (the line
    /// starts low).
    pub fn new(config: PowerControllerConfig) -> (r: PowerController)
        ensures
            r.spec_config() == config,
            r.spec_mode() == PowerControllerMode::Passive,
            !r.spec_boost_enabled(),
    {
        PowerController { config, mode: PowerControllerMode::Passive, boost_enabled: false }
    }

    pub fn config(&self) -> (r: &PowerControllerConfig)
        ensures
            *r == self.spec_config(),
    {
        &self.config
    }

    /// The byte written to the expander at setup.
    pub fn setup_expander(&self) -> (r: ExpanderStatus)
        ensures
            r == ExpanderStatus::initial_spec(),
    {
        ExpanderStatus::initial()
    }

    /// The charger settings written at setup, computed from the configuration.
    pub fn write_charger_config(&self) -> (r: ChargerSetup)
        ensures
            r == spec_charger_setup(self.spec_config()),
    {
        let c = &self.config;
        ChargerSetup {
            hiz_enabled: false,
            input_voltage_dpm_mv: c.input_voltage,
            input_current_limit: c.input_current,
            reset_i2c_watchdog: true,
            system_min_voltage_mv: c.sys_min_voltage,
            boost_current_limit: c.boost_current_limit,
            charge_current_limit_ma: c.charging_current,
            boost_low_temp_m20: c.boost_cold_threshold_m20,
            precharge_current_ma: c.precharge_current,
            termination_current_ma: c.termination_current,
            charge_voltage_limit_mv: c.charging_voltage,
            battery_low_voltage: c.battery_low_voltage,
            battery_recharge_threshold: c.battary_recharge_threshold,
            termination_enabled: true,
            watchdog_timer: c.i2c_watchdog_timer,
            charge_timer: c.charge_timer,
            boost_voltage_mv: c.boost_voltage,
            boost_hot_threshold: c.boost_hot_threshold,
            thermal_regulation_threshold: c.thermal_regulation_threshold,
            dpdm_detection_enabled: true,
            timer_2x_enabled: false,
            batfet_enabled: true,
            interrupt_mask: interrupt_mask(c.enable_charge_fault_int, c.enable_battery_fault_int),
        }
    }

    /// Replaces the configuration and returns the charger settings to write.
    pub fn reconfigure(&mut self, config: PowerControllerConfig) -> (r: ChargerSetup)
        ensures
            final(self).spec_config() == config,
            final(self).spec_mode() == old(self).spec_mode(),
            final(self).spec_boost_enabled() == old(self).spec_boost_enabled(),
            r == spec_charger_setup(config),
    {
        self.config = config;
        self.write_charger_config()
    }

    /// The writes that apply `mode`, given the last read snapshot (whose
    /// expander byte carries the outputs to keep).
    pub fn switch_mode(&self, mode: PowerControllerMode, stats: &PowerControllerStats) -> (r: ModeChange)
        ensures
            r.mode == mode,
            r.expander == mode_expander(mode, stats.expander_status),
            r.charger == mode_charger(mode),
    {
        let mut status = stats.expander_status;
        let chr_en = match mode {
            PowerControllerMode::Charging => true,
            _ => false,
        };
        let vbus_enable = match mode {
            PowerControllerMode::Otg => false,
            _ => true,
        };
        status.set_chr_en(chr_en);
        status.set_vbus_enable(vbus_enable);
        let charger = PowerOnConfiguration {
            charging_enabled: chr_en,
            otg_enabled: !vbus_enable,
        };
        ModeChange { mode, expander: status, charger }
    }

    /// Records that both writes of a mode change succeeded.
    pub fn mode_applied(&mut self, change: &ModeChange)
        ensures
            final(self).spec_mode() == change.mode,
            final(self).spec_config() == old(self).spec_config(),
            final(self).spec_boost_enabled() == old(self).spec_boost_enabled(),
    {
        self.mode = change.mode;
    }

    /// The snapshot for what was read from the charger and the expander.
    pub fn read_stats(
        &self,
        charger_status: SystemStatusRegister,
        charger_faults: NewFaultRegister,
        expander_byte: u8,
    ) -> (r: PowerControllerStats)
        ensures
            r.charger_status == charger_status,
            r.charger_faults == charger_faults,
            r.boost_enabled == self.spec_boost_enabled(),
            r.expander_status.reg == expander_byte,
    {
        PowerControllerStats {
            charger_status,
            charger_faults,
            boost_enabled: self.boost_enabled,
            expander_status: ExpanderStatus::from_byte(expander_byte),
        }
    }

    pub fn get_mode(&self) -> (r: PowerControllerMode)
        ensures
            r == self.spec_mode(),
    {
        self.mode
    }

    /// Commands the boost-enable line high.
    pub fn enable_boost_converter(&mut self)
        ensures
            final(self).spec_boost_enabled(),
            final(self).spec_mode() == old(self).spec_mode(),
            final(self).spec_config() == old(self).spec_config(),
    {
        self.boost_enabled = true;
    }

    /// Commands the boost-enable line low.
    pub fn disable_boost_converter(&mut self)
        ensures
            !final(self).spec_boost_enabled(),
            final(self).spec_mode() == old(self).spec_mode(),
            final(self).spec_config() == old(self).spec_config(),
    {
        self.boost_enabled = false;
    }

    /// The level last commanded on the boost-enable line.
    pub fn is_boost_converter_enabled(&self) -> (r: bool)
        ensures
            r == self.spec_boost_enabled(),
    {
        self.boost_enabled
    }

    /// The mode switch that an interrupt calls for, given a fresh snapshot.
    pub fn handle_interrupt(&self, stats: &PowerControllerStats) -> (r: Option<ModeChange>)
        ensures
            match spec_interrupt_target(self.spec_mode(), stats.expander_status.spec_vbus_present()) {
                None => r is None,
                Some(m) => r == Some(
                    ModeChange { mode: m, expander: mode_expander(m, stats.expander_status), charger: mode_charger(m) },
                ),
            },
    {
        match interrupt_target(self.mode, stats.expander_status.vbus_present()) {
            None => None,
            Some(m) => Some(self.switch_mode(m, stats)),
        }
    }

    /// Shipping mode: the switch to charging, then the charger settings that
    /// disable the watchdog and the battery FET.
    pub fn enter_shipping_mode(&self, stats: &PowerControllerStats) -> (r: (ModeChange, ShippingSetup))
        ensures
            r.0.mode == PowerControllerMode::Charging,
            r.0.expander == mode_expander(PowerControllerMode::Charging, stats.expander_status),
            r.0.charger == mode_charger(PowerControllerMode::Charging),
            r.1 == (ShippingSetup { watchdog_timer: WatchdogTimer::Disabled, batfet_enabled: false }),
    {
        let change = self.switch_mode(PowerControllerMode::Charging, stats);
        (change, ShippingSetup { watchdog_timer: WatchdogTimer::Disabled, batfet_enabled: false })
    }
}

/// The expander byte of a mode change carries the table's `chr_en` and
/// `vbus_enable` for the mode, and every other bit of the current byte.
pub proof fn lemma_mode_expander(m: PowerControllerMode, current: ExpanderStatus)
    ensures
        mode_expander(m, current).spec_chr_en() == mode_chr_en(m),
        mode_expander(m, current).spec_vbus_enable() == mode_vbus_enable(m),
        forall|j: u8|
            j < 8 && j != CHR_EN_BIT && j != VBUS_ENABLE_BIT ==> bit_of(#[trigger] mode_expander(m, current).reg, j)
                == bit_of(current.reg, j),
{
    let b1 = with_bit(current.reg, CHR_EN_BIT, !mode_chr_en(m));
    lemma_with_bit(current.reg, CHR_EN_BIT, !mode_chr_en(m));
    lemma_with_bit(b1, VBUS_ENABLE_BIT, mode_vbus_enable(m));
    assert(bit_of(with_bit(b1, VBUS_ENABLE_BIT, mode_vbus_enable(m)), CHR_EN_BIT) == bit_of(b1, CHR_EN_BIT));
}

} // verus!
