//! The power controller task as a state machine. The task that owns the
//! charger, the expander and the boost-enable line performs each action and
//! hands back what came of it as the next event.
use vstd::prelude::*;
use crate::channel::{
    new_power_requests, new_power_responses, queued_power_requests, queued_power_responses, receive_power_request,
    receive_power_response, send_power_request, send_power_response, Fifo,
};
use crate::charger::{ChargerSetup, NewFaultRegister, SystemStatusRegister, WatchdogTimer, watchdog_window_secs};
use crate::expander::{bit_of, ExpanderStatus, CHR_EN_BIT, VBUS_ENABLE_BIT};
use crate::power::{
    initial_mode, lemma_mode_expander, mode_charger, mode_chr_en, mode_expander, mode_vbus_enable,
    sleep_secs, spec_charger_setup, spec_initial_mode, spec_interrupt_target, spec_sleep_secs,
    ModeChange, PowerController, PowerControllerConfig, PowerControllerError, PowerControllerMode,
    PowerControllerStats, PowerRequest, PowerResponse,
};

verus! {

/// Back-off after a failed read or a failed initial mode switch.
pub const BACKOFF_MILLIS: u64 = 50;

/// Registers read at the head of each iteration and for commands.
#[derive(Clone, Copy, Debug, PartialEq, Eq, Structural)]
pub struct ChargerReadings {
    pub charger_status: SystemStatusRegister,
    pub charger_faults: NewFaultRegister,
    pub expander_byte: u8,
}

/// What the task is waiting for.
#[derive(Clone, Copy, Debug, PartialEq, Eq, Structural)]
pub enum PowerPhase {
    /// Setup writes (expander byte, charger configuration) are under way.
    SettingUp,
    /// The head-of-loop read is under way.
    ReadingStats,
    /// Waiting out the back-off.
    BackingOff,
    /// The initial mode is being applied.
    ApplyingInitialMode(ModeChange),
    /// Waiting for a request or for the timeout.
    Waiting,
    /// A command's read is under way.
    CommandReadingStats(PowerRequest),
    /// A command's mode change is being applied.
    CommandApplyingMode(ModeChange),
    /// The response is being sent.
    Responding,
    /// The watchdog reset write is under way.
    ResettingWatchdog,
    /// Setup failed; the task has ended.
    Stopped,
}

/// What came of the last action.
#[derive(Clone, Copy, Debug)]
pub enum PowerEvent {
    SetupDone(Result<(), PowerControllerError>),
    StatsRead(Result<ChargerReadings, PowerControllerError>),
    ModeApplied(Result<(), PowerControllerError>),
    BackoffElapsed,
    TimedOut,
    Request(PowerRequest),
    ResponseSent,
    WatchdogReset(Result<(), PowerControllerError>),
}

/// The next thing the task must do.
#[derive(Clone, Copy, Debug)]
pub enum PowerAction {
    /// Write the expander byte, then the charger settings.
    Setup { expander: ExpanderStatus, charger: ChargerSetup },
    /// Read the charger status and fault registers and the expander inputs.
    ReadStats,
    /// Sleep for the given milliseconds.
    Sleep { millis: u64 },
    /// Write the expander byte, then the charger's power-on bits.
    ApplyMode(ModeChange),
    /// Wait for a request, at most the given seconds.
    WaitForRequest { timeout_secs: u64 },
    /// Send the response to the pending request.
    Respond(PowerResponse),
    /// Write the charger's watchdog reset.
    ResetWatchdog,
    /// End the task.
    Exit,
    /// The event did not belong to the current phase; nothing to do.
    Ignore,
}

/// One step's output: a snapshot to publish, a level to drive on the
/// boost-enable line, and the next action, in that order.
#[derive(Clone, Copy, Debug)]
pub struct PowerStep {
    pub publish: Option<PowerControllerStats>,
    pub set_boost: Option<bool>,
    pub action: PowerAction,
}

/// The power controller task.
pub struct PowerTask {
    controller: PowerController,
    phase: PowerPhase,
    initial_mode_set: bool,
}

pub open spec fn just(action: PowerAction) -> PowerStep {
    PowerStep { publish: None, set_boost: None, action }
}

/// One step of the task: `before` takes `event`, becomes `after` and
/// returns `r`.
pub open spec fn step_spec(before: PowerTask, event: PowerEvent, after: PowerTask, r: PowerStep) -> bool {
    &&& after.spec_controller().spec_config() == before.spec_controller().spec_config()
    // the mode changes only when a mode change was applied in full
    &&& after.spec_controller().spec_mode() != before.spec_controller().spec_mode() ==> {
        &&& event matches PowerEvent::ModeApplied(Ok(_))
        &&& match before.spec_phase() {
            PowerPhase::ApplyingInitialMode(c) => after.spec_controller().spec_mode() == c.mode,
            PowerPhase::CommandApplyingMode(c) => after.spec_controller().spec_mode() == c.mode,
            _ => false,
        }
    }
    // the boost line changes only on a boost command, to its level
    &&& r.set_boost is Some <==> (before.spec_phase() == PowerPhase::Waiting
        && event matches PowerEvent::Request(PowerRequest::EnableBoostConverter(_)))
    &&& r.set_boost matches Some(x) ==> after.spec_controller().spec_boost_enabled() == x
        && event == PowerEvent::Request(PowerRequest::EnableBoostConverter(x))
    &&& r.set_boost is None ==> after.spec_controller().spec_boost_enabled()
        == before.spec_controller().spec_boost_enabled()
    // a snapshot is published only at the head of the loop, from what was read
    &&& r.publish is Some <==> (before.spec_phase() == PowerPhase::ReadingStats
        && event matches PowerEvent::StatsRead(Ok(_)))
    &&& r.publish matches Some(s) ==> event matches PowerEvent::StatsRead(Ok(rd)) && s == snapshot_of(before, rd)
    // the only timed waits are the watchdog sleep and the back-off
    &&& r.action matches PowerAction::WaitForRequest { timeout_secs } ==> timeout_secs == spec_sleep_secs(before.watchdog())
    &&& r.action matches PowerAction::Sleep { millis } ==> millis == BACKOFF_MILLIS
    &&& match (before.spec_phase(), event) {
        (PowerPhase::SettingUp, PowerEvent::SetupDone(Ok(()))) => {
            &&& r == just(PowerAction::ReadStats)
            &&& after.spec_phase() == PowerPhase::ReadingStats
        },
        (PowerPhase::SettingUp, PowerEvent::SetupDone(Err(_))) => {
            &&& r == just(PowerAction::Exit)
            &&& after.spec_phase() == PowerPhase::Stopped
        },
        (PowerPhase::ReadingStats, PowerEvent::StatsRead(Ok(rd))) => {
            let stats = snapshot_of(before, rd);
            if before.spec_initial_mode_set() {
                &&& r.action == PowerAction::WaitForRequest { timeout_secs: spec_sleep_secs(before.watchdog()) }
                &&& after.spec_phase() == PowerPhase::Waiting
            } else {
                let m = spec_initial_mode(stats.expander_status.spec_vbus_present());
                &&& r.action == PowerAction::ApplyMode(mode_change_for(m, stats))
                &&& after.spec_phase() == PowerPhase::ApplyingInitialMode(mode_change_for(m, stats))
            }
        },
        (PowerPhase::ReadingStats, PowerEvent::StatsRead(Err(_))) => {
            &&& r == just(PowerAction::Sleep { millis: BACKOFF_MILLIS })
            &&& after.spec_phase() == PowerPhase::BackingOff
        },
        (PowerPhase::BackingOff, PowerEvent::BackoffElapsed) => {
            &&& r == just(PowerAction::ReadStats)
            &&& after.spec_phase() == PowerPhase::ReadingStats
        },
        (PowerPhase::ApplyingInitialMode(c), PowerEvent::ModeApplied(Ok(()))) => {
            &&& r == just(PowerAction::WaitForRequest { timeout_secs: spec_sleep_secs(before.watchdog()) })
            &&& after.spec_phase() == PowerPhase::Waiting
            &&& after.spec_initial_mode_set()
            &&& after.spec_controller().spec_mode() == c.mode
        },
        (PowerPhase::ApplyingInitialMode(c), PowerEvent::ModeApplied(Err(_))) => {
            &&& r == just(PowerAction::Sleep { millis: BACKOFF_MILLIS })
            &&& after.spec_phase() == PowerPhase::BackingOff
        },
        (PowerPhase::Waiting, PowerEvent::TimedOut) => {
            &&& r == just(PowerAction::ResetWatchdog)
            &&& after.spec_phase() == PowerPhase::ResettingWatchdog
        },
        (PowerPhase::Waiting, PowerEvent::Request(PowerRequest::EnableBoostConverter(x))) => {
            &&& r == (PowerStep { publish: None, set_boost: Some(x), action: PowerAction::Respond(Ok(())) })
            &&& after.spec_phase() == PowerPhase::Responding
        },
        (PowerPhase::Waiting, PowerEvent::Request(req)) => {
            &&& r == just(PowerAction::ReadStats)
            &&& after.spec_phase() == PowerPhase::CommandReadingStats(req)
        },
        (PowerPhase::CommandReadingStats(req), PowerEvent::StatsRead(Ok(rd))) => {
            let stats = snapshot_of(before, rd);
            let target = match req {
                PowerRequest::SetMode(m) => Some(m),
                _ => spec_interrupt_target(before.spec_controller().spec_mode(), stats.expander_status.spec_vbus_present()),
            };
            match target {
                Some(m) => {
                    &&& r == just(PowerAction::ApplyMode(mode_change_for(m, stats)))
                    &&& after.spec_phase() == PowerPhase::CommandApplyingMode(mode_change_for(m, stats))
                },
                None => {
                    &&& r == just(PowerAction::Respond(Ok(())))
                    &&& after.spec_phase() == PowerPhase::Responding
                },
            }
        },
        (PowerPhase::CommandReadingStats(_), PowerEvent::StatsRead(Err(e))) => {
            &&& r == just(PowerAction::Respond(Err(e)))
            &&& after.spec_phase() == PowerPhase::Responding
        },
        (PowerPhase::CommandApplyingMode(c), PowerEvent::ModeApplied(res)) => {
            &&& r == just(PowerAction::Respond(res))
            &&& after.spec_phase() == PowerPhase::Responding
            &&& res is Ok ==> after.spec_controller().spec_mode() == c.mode
        },
        (PowerPhase::Responding, PowerEvent::ResponseSent) => {
            &&& r == just(PowerAction::ResetWatchdog)
            &&& after.spec_phase() == PowerPhase::ResettingWatchdog
        },
        (PowerPhase::ResettingWatchdog, PowerEvent::WatchdogReset(_)) => {
            &&& r == just(PowerAction::ReadStats)
            &&& after.spec_phase() == PowerPhase::ReadingStats
        },
        _ => {
            &&& r == just(PowerAction::Ignore)
            &&& after.spec_phase() == before.spec_phase()
            &&& after.spec_controller() == before.spec_controller()
        },
    }
    &&& after.spec_initial_mode_set() == (before.spec_initial_mode_set() || (before.spec_phase() is ApplyingInitialMode
        && event matches PowerEvent::ModeApplied(Ok(_))))
}

/// A mode change that carries the table's outputs and charger bits for its
/// mode.
pub open spec fn follows_table(c: ModeChange) -> bool {
    &&& c.charger == mode_charger(c.mode)
    &&& c.expander.spec_chr_en() == mode_chr_en(c.mode)
    &&& c.expander.spec_vbus_enable() == mode_vbus_enable(c.mode)
}

impl PowerTask {
    /// Every mode change under way follows the mode table.
    pub open spec fn wf(&self) -> bool {
        match self.spec_phase() {
            PowerPhase::ApplyingInitialMode(c) => follows_table(c),
            PowerPhase::CommandApplyingMode(c) => follows_table(c),
            _ => true,
        }
    }
}

pub proof fn lemma_mode_change_for(m: PowerControllerMode, stats: PowerControllerStats)
    ensures
        follows_table(mode_change_for(m, stats)),
        mode_change_for(m, stats).mode == m,
{
    lemma_mode_expander(m, stats.expander_status);
}

/// A step keeps the task well formed.
pub proof fn lemma_step_wf(before: PowerTask, event: PowerEvent, after: PowerTask, r: PowerStep)
    requires
        before.wf(),
        step_spec(before, event, after, r),
    ensures
        after.wf(),
{
    match (before.spec_phase(), event) {
        (PowerPhase::ReadingStats, PowerEvent::StatsRead(Ok(rd))) => {
            let stats = snapshot_of(before, rd);
            lemma_mode_change_for(spec_initial_mode(stats.expander_status.spec_vbus_present()), stats);
        },
        (PowerPhase::CommandReadingStats(req), PowerEvent::StatsRead(Ok(rd))) => {
            let stats = snapshot_of(before, rd);
            match req {
                PowerRequest::SetMode(m) => lemma_mode_change_for(m, stats),
                _ => match spec_interrupt_target(before.spec_controller().spec_mode(), stats.expander_status.spec_vbus_present()) {
                    Some(m) => lemma_mode_change_for(m, stats),
                    None => {},
                },
            }
        },
        _ => {},
    }
}

/// The snapshot that `t` builds from what was read.
pub open spec fn snapshot_of(t: PowerTask, rd: ChargerReadings) -> PowerControllerStats {
    PowerControllerStats {
        charger_status: rd.charger_status,
        charger_faults: rd.charger_faults,
        boost_enabled: t.spec_controller().spec_boost_enabled(),
        expander_status: ExpanderStatus { reg: rd.expander_byte },
    }
}

/// The writes that apply `m` over the snapshot `stats`.
pub open spec fn mode_change_for(m: PowerControllerMode, stats: PowerControllerStats) -> ModeChange {
    ModeChange { mode: m, expander: mode_expander(m, stats.expander_status), charger: mode_charger(m) }
}

impl PowerTask {
    pub closed spec fn spec_controller(&self) -> PowerController {
        self.controller
    }

    pub closed spec fn spec_phase(&self) -> PowerPhase {
        self.phase
    }

    pub closed spec fn spec_initial_mode_set(&self) -> bool {
        self.initial_mode_set
    }

    pub open spec fn watchdog(&self) -> WatchdogTimer {
        self.spec_controller().spec_config().i2c_watchdog_timer
    }

    /// The task and its first action, the setup writes.
    pub fn new(config: PowerControllerConfig) -> (r: (PowerTask, PowerStep))
        ensures
            r.0.spec_phase() == PowerPhase::SettingUp,
            r.0.wf(),
            !r.0.spec_initial_mode_set(),
            r.0.spec_controller().spec_config() == config,
            r.0.spec_controller().spec_mode() == PowerControllerMode::Passive,
            !r.0.spec_controller().spec_boost_enabled(),
            r.1 == just(PowerAction::Setup { expander: ExpanderStatus::initial_spec(), charger: spec_charger_setup(config) }),
    {
        let controller = PowerController::new(config);
        let expander = controller.setup_expander();
        let charger = controller.write_charger_config();
        (
            PowerTask { controller, phase: PowerPhase::SettingUp, initial_mode_set: false },
            PowerStep { publish: None, set_boost: None, action: PowerAction::Setup { expander, charger } },
        )
    }

    pub fn phase(&self) -> (r: PowerPhase)
        ensures
            r == self.spec_phase(),
    {
        self.phase
    }

    pub fn controller(&self) -> (r: &PowerController)
        ensures
            *r == self.spec_controller(),
    {
        &self.controller
    }

    fn wait_step(&self) -> (r: PowerStep)
        ensures
            r == just(PowerAction::WaitForRequest { timeout_secs: spec_sleep_secs(self.watchdog()) }),
    {
        let timeout_secs = sleep_secs(self.controller.config().i2c_watchdog_timer);
        PowerStep { publish: None, set_boost: None, action: PowerAction::WaitForRequest { timeout_secs } }
    }

    /// Takes the event that ends the current action and returns the next step.
    pub fn step(&mut self, event: PowerEvent) -> (r: PowerStep)
        ensures
            step_spec(*old(self), event, *final(self), r),
            old(self).wf() ==> final(self).wf(),
    {
        let none = PowerStep { publish: None, set_boost: None, action: PowerAction::Ignore };
        let r = match (self.phase, event) {
            (PowerPhase::SettingUp, PowerEvent::SetupDone(Ok(()))) => {
                self.phase = PowerPhase::ReadingStats;
                PowerStep { action: PowerAction::ReadStats, ..none }
            },
            (PowerPhase::SettingUp, PowerEvent::SetupDone(Err(_))) => {
                self.phase = PowerPhase::Stopped;
                PowerStep { action: PowerAction::Exit, ..none }
            },
            (PowerPhase::ReadingStats, PowerEvent::StatsRead(Ok(rd))) => {
                let stats = self.controller.read_stats(rd.charger_status, rd.charger_faults, rd.expander_byte);
                if self.initial_mode_set {
                    self.phase = PowerPhase::Waiting;
                    PowerStep { publish: Some(stats), ..self.wait_step() }
                } else {
                    let m = initial_mode(stats.expander_status.vbus_present());
                    let c = self.controller.switch_mode(m, &stats);
                    self.phase = PowerPhase::ApplyingInitialMode(c);
                    PowerStep { publish: Some(stats), set_boost: None, action: PowerAction::ApplyMode(c) }
                }
            },
            (PowerPhase::ReadingStats, PowerEvent::StatsRead(Err(_))) => {
                self.phase = PowerPhase::BackingOff;
                PowerStep { action: PowerAction::Sleep { millis: BACKOFF_MILLIS }, ..none }
            },
            (PowerPhase::BackingOff, PowerEvent::BackoffElapsed) => {
                self.phase = PowerPhase::ReadingStats;
                PowerStep { action: PowerAction::ReadStats, ..none }
            },
            (PowerPhase::ApplyingInitialMode(c), PowerEvent::ModeApplied(Ok(()))) => {
                self.controller.mode_applied(&c);
                self.initial_mode_set = true;
                self.phase = PowerPhase::Waiting;
                self.wait_step()
            },
            (PowerPhase::ApplyingInitialMode(_), PowerEvent::ModeApplied(Err(_))) => {
                self.phase = PowerPhase::BackingOff;
                PowerStep { action: PowerAction::Sleep { millis: BACKOFF_MILLIS }, ..none }
            },
            (PowerPhase::Waiting, PowerEvent::TimedOut) => {
                self.phase = PowerPhase::ResettingWatchdog;
                PowerStep { action: PowerAction::ResetWatchdog, ..none }
            },
            (PowerPhase::Waiting, PowerEvent::Request(PowerRequest::EnableBoostConverter(x))) => {
                if x {
                    self.controller.enable_boost_converter();
                } else {
                    self.controller.disable_boost_converter();
                }
                self.phase = PowerPhase::Responding;
                PowerStep { publish: None, set_boost: Some(x), action: PowerAction::Respond(Ok(())) }
            },
            (PowerPhase::Waiting, PowerEvent::Request(req)) => {
                self.phase = PowerPhase::CommandReadingStats(req);
                PowerStep { action: PowerAction::ReadStats, ..none }
            },
            (PowerPhase::CommandReadingStats(req), PowerEvent::StatsRead(Ok(rd))) => {
                let stats = self.controller.read_stats(rd.charger_status, rd.charger_faults, rd.expander_byte);
                let change = match req {
                    PowerRequest::SetMode(m) => Some(self.controller.switch_mode(m, &stats)),
                    _ => self.controller.handle_interrupt(&stats),
                };
                match change {
                    Some(c) => {
                        self.phase = PowerPhase::CommandApplyingMode(c);
                        PowerStep { action: PowerAction::ApplyMode(c), ..none }
                    },
                    None => {
                        self.phase = PowerPhase::Responding;
                        PowerStep { action: PowerAction::Respond(Ok(())), ..none }
                    },
                }
            },
            (PowerPhase::CommandReadingStats(_), PowerEvent::StatsRead(Err(e))) => {
                self.phase = PowerPhase::Responding;
                PowerStep { action: PowerAction::Respond(Err(e)), ..none }
            },
            (PowerPhase::CommandApplyingMode(c), PowerEvent::ModeApplied(res)) => {
                match res {
                    Ok(()) => self.controller.mode_applied(&c),
                    Err(_) => {},
                }
                self.phase = PowerPhase::Responding;
                PowerStep { action: PowerAction::Respond(res), ..none }
            },
            (PowerPhase::Responding, PowerEvent::ResponseSent) => {
                self.phase = PowerPhase::ResettingWatchdog;
                PowerStep { action: PowerAction::ResetWatchdog, ..none }
            },
            (PowerPhase::ResettingWatchdog, PowerEvent::WatchdogReset(_)) => {
                self.phase = PowerPhase::ReadingStats;
                PowerStep { action: PowerAction::ReadStats, ..none }
            },
            _ => none,
        };
        proof {
            if old(self).wf() {
                lemma_step_wf(*old(self), event, *self, r);
            }
        }
        r
    }
}

/// The timer sleep between watchdog resets is at most half the window.
pub proof fn lemma_sleep_within_half_window(w: WatchdogTimer)
    requires
        w != WatchdogTimer::Disabled,
    ensures
        2 * spec_sleep_secs(w) <= watchdog_window_secs(w),
{
}

/// Watchdog deadline: in steady state the task reaches a timed wait only from
/// the head-of-loop read, for the watchdog sleep, which is at most half the
/// window; handling a request involves no timed wait; the end of the wait or
/// of the request leads straight to the watchdog reset.
pub proof fn law_watchdog_deadline(before: PowerTask, event: PowerEvent, after: PowerTask, r: PowerStep)
    requires
        step_spec(before, event, after, r),
        before.spec_initial_mode_set(),
    ensures
        r.action is WaitForRequest ==> {
            &&& before.spec_phase() == PowerPhase::ReadingStats || before.spec_phase() is ApplyingInitialMode
            &&& r.action == PowerAction::WaitForRequest { timeout_secs: spec_sleep_secs(before.watchdog()) }
            &&& before.watchdog() != WatchdogTimer::Disabled ==> 2 * spec_sleep_secs(before.watchdog())
                <= watchdog_window_secs(before.watchdog())
        },
        r.action is Sleep ==> (before.spec_phase() == PowerPhase::ReadingStats && event matches PowerEvent::StatsRead(Err(_)))
            || (before.spec_phase() is ApplyingInitialMode && event matches PowerEvent::ModeApplied(Err(_))),
        (before.spec_phase() == PowerPhase::Waiting && event is TimedOut) || (before.spec_phase() == PowerPhase::Responding
            && event is ResponseSent) ==> r.action is ResetWatchdog,
        before.spec_phase() == PowerPhase::ResettingWatchdog && event is WatchdogReset ==> r.action is ReadStats,
{
    if before.watchdog() != WatchdogTimer::Disabled {
        lemma_sleep_within_half_window(before.watchdog());
    }
}

/// Mode-transition atomicity: once `SetMode(m)` is answered with success, the
/// next snapshot published (the next head-of-loop read) shows the outputs of
/// the mode table for `m`, provided the expander reads back the output bits
/// that were written; the charger was written the table's bits for `m`.
pub proof fn law_mode_transition(
    t0: PowerTask,
    t1: PowerTask,
    r1: PowerStep,
    t2: PowerTask,
    r2: PowerStep,
    reset: Result<(), PowerControllerError>,
    t3: PowerTask,
    r3: PowerStep,
    rd: ChargerReadings,
    t4: PowerTask,
    r4: PowerStep,
    m: PowerControllerMode,
)
    requires
        t0.spec_phase() matches PowerPhase::CommandApplyingMode(c) && c.mode == m,
        step_spec(t0, PowerEvent::ModeApplied(Ok(())), t1, r1),
        step_spec(t1, PowerEvent::ResponseSent, t2, r2),
        step_spec(t2, PowerEvent::WatchdogReset(reset), t3, r3),
        step_spec(t3, PowerEvent::StatsRead(Ok(rd)), t4, r4),
        t0.spec_phase() matches PowerPhase::CommandApplyingMode(c) && {
            &&& bit_of(rd.expander_byte, CHR_EN_BIT) == bit_of(c.expander.reg, CHR_EN_BIT)
            &&& bit_of(rd.expander_byte, VBUS_ENABLE_BIT) == bit_of(c.expander.reg, VBUS_ENABLE_BIT)
        },
        t0.wf(),
    ensures
        r1.action == PowerAction::Respond(Ok(())),
        r1.publish is None && r2.publish is None && r3.publish is None,
        !(r2.action is ApplyMode) && !(r3.action is ApplyMode),
        t4.spec_controller().spec_mode() == m,
        r4.publish matches Some(s) && {
            &&& s.expander_status.spec_chr_en() == mode_chr_en(m)
            &&& s.expander_status.spec_vbus_enable() == mode_vbus_enable(m)
        },
        t0.spec_phase() matches PowerPhase::CommandApplyingMode(c) && c.charger == mode_charger(m),
{
    assert(t2.spec_controller().spec_mode() == m);
    assert(t3.spec_controller().spec_mode() == m);
}

/// Whether `tasks`, `events` and `steps` form a run of the task.
pub open spec fn is_run(tasks: Seq<PowerTask>, events: Seq<PowerEvent>, steps: Seq<PowerStep>) -> bool {
    &&& tasks.len() == events.len() + 1
    &&& steps.len() == events.len()
    &&& forall|i: int| 0 <= i < events.len() ==> #[trigger] step_spec(tasks[i], events[i], tasks[i + 1], steps[i])
}

/// A phase between the watchdog sleep and the next watchdog reset.
pub open spec fn after_wait_phase(p: PowerPhase) -> bool {
    p == PowerPhase::Waiting || p is CommandReadingStats || p is CommandApplyingMode || p == PowerPhase::Responding
}

/// Some step before step `k` waited for a request.
pub open spec fn waited_before(steps: Seq<PowerStep>, k: int) -> bool {
    exists|j: int| 0 <= j < k && (#[trigger] steps[j]).action is WaitForRequest
}

/// The conditions of a cycle between two watchdog resets: it starts with the
/// first reset done, in steady state, the head-of-loop read does not fail,
/// and no reset comes before its last step.
pub open spec fn watchdog_cycle(tasks: Seq<PowerTask>, events: Seq<PowerEvent>, steps: Seq<PowerStep>) -> bool {
    &&& is_run(tasks, events, steps)
    &&& events.len() >= 1
    &&& tasks[0].spec_phase() == PowerPhase::ResettingWatchdog
    &&& tasks[0].spec_initial_mode_set()
    &&& events[0] is WatchdogReset
    &&& forall|i: int| 0 < i < events.len() - 1 ==> !((#[trigger] steps[i]).action is ResetWatchdog)
    &&& forall|i: int|
        0 <= i < events.len() && tasks[i].spec_phase() == PowerPhase::ReadingStats ==> !(#[trigger] events[i] matches PowerEvent::StatsRead(
            Err(_),
        ))
}

proof fn lemma_watchdog_cycle_prefix(tasks: Seq<PowerTask>, events: Seq<PowerEvent>, steps: Seq<PowerStep>, k: int)
    requires
        watchdog_cycle(tasks, events, steps),
        1 <= k <= events.len(),
    ensures
        tasks[k].spec_initial_mode_set(),
        tasks[k].watchdog() == tasks[0].watchdog(),
        !waited_before(steps, k) ==> tasks[k].spec_phase() == PowerPhase::ReadingStats,
        waited_before(steps, k) ==> after_wait_phase(tasks[k].spec_phase()) || (tasks[k].spec_phase()
            == PowerPhase::ResettingWatchdog && steps[k - 1].action is ResetWatchdog && k == events.len()),
        forall|i: int| 0 <= i < k ==> !((#[trigger] steps[i]).action is Sleep),
        forall|i: int, j: int|
            0 <= i < k && 0 <= j < k && (#[trigger] steps[i]).action is WaitForRequest && (#[trigger] steps[j]).action is WaitForRequest
                ==> i == j,
    decreases k,
{
    let z: int = 0;
    assert(step_spec(tasks[z], events[z], tasks[z + 1], steps[z]));
    if k == 1 {
        assert(!waited_before(steps, 1));
    } else {
        let p = k - 1;
        lemma_watchdog_cycle_prefix(tasks, events, steps, p);
        assert(step_spec(tasks[p], events[p], tasks[p + 1], steps[p]));
        if waited_before(steps, p) {
            assert(after_wait_phase(tasks[p].spec_phase()));
            assert(!(steps[p].action is WaitForRequest));
            assert(waited_before(steps, k)) by {
                let j = choose|j: int| 0 <= j < p && (#[trigger] steps[j]).action is WaitForRequest;
                assert(0 <= j < k && steps[j].action is WaitForRequest);
            }
        } else {
            assert(tasks[p].spec_phase() == PowerPhase::ReadingStats);
            if steps[p].action is WaitForRequest {
                assert(waited_before(steps, k));
            } else {
                assert forall|j: int| 0 <= j < k implies !((#[trigger] steps[j]).action is WaitForRequest) by {
                    if j < p {
                        assert(!waited_before(steps, p));
                    }
                }
            }
        }
    }
}

/// Watchdog deadline over a whole cycle: between two watchdog resets, while
/// the head-of-loop read succeeds, the task waits on a timer exactly once, for
/// the watchdog sleep, which is at most half the window; it never backs off.
pub proof fn law_watchdog_cycle(tasks: Seq<PowerTask>, events: Seq<PowerEvent>, steps: Seq<PowerStep>)
    requires
        watchdog_cycle(tasks, events, steps),
        steps.last().action is ResetWatchdog,
    ensures
        forall|i: int| 0 <= i < steps.len() ==> !((#[trigger] steps[i]).action is Sleep),
        exists|i: int|
            0 <= i < steps.len() && (#[trigger] steps[i]).action == (PowerAction::WaitForRequest {
                timeout_secs: spec_sleep_secs(tasks[0].watchdog()),
            }),
        forall|i: int, j: int|
            0 <= i < steps.len() && 0 <= j < steps.len() && (#[trigger] steps[i]).action is WaitForRequest && (#[trigger] steps[j]).action is WaitForRequest
                ==> i == j,
        tasks[0].watchdog() != WatchdogTimer::Disabled ==> 2 * spec_sleep_secs(tasks[0].watchdog())
            <= watchdog_window_secs(tasks[0].watchdog()),
{
    let n = events.len() as int;
    lemma_watchdog_cycle_prefix(tasks, events, steps, n);
    let l = n - 1;
    assert(step_spec(tasks[l], events[l], tasks[l + 1], steps[l]));
    assert(waited_before(steps, n));
    let j = choose|j: int| 0 <= j < n && (#[trigger] steps[j]).action is WaitForRequest;
    assert(step_spec(tasks[j], events[j], tasks[j + 1], steps[j]));
    if j > 0 {
        lemma_watchdog_cycle_prefix(tasks, events, steps, j);
    }
    assert(tasks[j].watchdog() == tasks[0].watchdog());
    if tasks[0].watchdog() != WatchdogTimer::Disabled {
        lemma_sleep_within_half_window(tasks[0].watchdog());
    }
}

/// Idempotent boost command: in a run where every boost command asks for
/// level `x` and at least one is handled, the boost-enable line is driven
/// only to `x` and ends at `x`, whatever it was before.
pub proof fn law_boost_idempotent(tasks: Seq<PowerTask>, events: Seq<PowerEvent>, steps: Seq<PowerStep>, x: bool)
    requires
        is_run(tasks, events, steps),
        forall|i: int| 0 <= i < events.len() ==> (#[trigger] events[i] matches PowerEvent::Request(
            PowerRequest::EnableBoostConverter(y),
        ) ==> y == x),
        exists|i: int| 0 <= i < steps.len() && (#[trigger] steps[i]).set_boost is Some,
    ensures
        forall|i: int| 0 <= i < steps.len() ==> (#[trigger] steps[i]).set_boost is None || steps[i].set_boost == Some(x),
        tasks.last().spec_controller().spec_boost_enabled() == x,
    decreases events.len(),
{
    let n = events.len() as int;
    let i0 = choose|i: int| 0 <= i < steps.len() && (#[trigger] steps[i]).set_boost is Some;
    assert forall|i: int| 0 <= i < steps.len() implies (#[trigger] steps[i]).set_boost is None || steps[i].set_boost
        == Some(x) by {
        assert(step_spec(tasks[i], events[i], tasks[i + 1], steps[i]));
    }
    let k = n - 1;
    assert(step_spec(tasks[k], events[k], tasks[k + 1], steps[k]));
    if steps[k].set_boost is None {
        let t2 = tasks.drop_last();
        let e2 = events.drop_last();
        let s2 = steps.drop_last();
        assert(s2[i0].set_boost is Some);
        assert forall|j: int| 0 <= j < e2.len() implies #[trigger] step_spec(t2[j], e2[j], t2[j + 1], s2[j]) by {
            assert(step_spec(tasks[j], events[j], tasks[j + 1], steps[j]));
        }
        assert forall|j: int| 0 <= j < e2.len() implies (#[trigger] e2[j] matches PowerEvent::Request(
            PowerRequest::EnableBoostConverter(y),
        ) ==> y == x) by {
            assert(e2[j] == events[j]);
        }
        law_boost_idempotent(t2, e2, s2, x);
        assert(t2.last() == tasks[k]);
    }
}

/// Capacity of each FIFO of the power controller's mailbox.
pub const POWER_MAILBOX_CAPACITY: usize = 16;

/// The power controller's mailbox, a request FIFO and a response FIFO, and
/// its latest published snapshot: what other tasks hold to command the
/// controller and to read its state. The histories record what went in and
/// came out of each FIFO.
pub struct PowerHandle {
    requests: Fifo<PowerRequest, POWER_MAILBOX_CAPACITY>,
    responses: Fifo<PowerResponse, POWER_MAILBOX_CAPACITY>,
    sent: Ghost<Seq<PowerRequest>>,
    received: Ghost<Seq<PowerRequest>>,
    answered: Ghost<Seq<PowerResponse>>,
    delivered: Ghost<Seq<PowerResponse>>,
    latest: Option<PowerControllerStats>,
}

impl PowerHandle {
    /// Requests queued, oldest first.
    pub closed spec fn pending_requests(&self) -> Seq<PowerRequest> {
        queued_power_requests(self.requests)
    }

    /// Responses queued, oldest first.
    pub closed spec fn pending_responses(&self) -> Seq<PowerResponse> {
        queued_power_responses(self.responses)
    }

    /// Requests sent, in order.
    pub closed spec fn sent(&self) -> Seq<PowerRequest> {
        self.sent@
    }

    /// Requests the controller received, in order.
    pub closed spec fn received(&self) -> Seq<PowerRequest> {
        self.received@
    }

    /// Responses the controller sent, in order.
    pub closed spec fn answered(&self) -> Seq<PowerResponse> {
        self.answered@
    }

    /// Responses the askers received, in order.
    pub closed spec fn delivered(&self) -> Seq<PowerResponse> {
        self.delivered@
    }

    pub closed spec fn latest(&self) -> Option<PowerControllerStats> {
        self.latest
    }

    pub open spec fn wf(&self) -> bool {
        &&& self.sent() == self.received() + self.pending_requests()
        &&& self.answered() == self.delivered() + self.pending_responses()
    }

    /// An empty mailbox, nothing published yet.
    pub fn new() -> (r: PowerHandle)
        ensures
            r.wf(),
            r.latest() is None,
            r.sent().len() == 0,
            r.received().len() == 0,
            r.answered().len() == 0,
            r.delivered().len() == 0,
            r.pending_requests().len() == 0,
            r.pending_responses().len() == 0,
    {
        let r = PowerHandle {
            requests: new_power_requests(),
            responses: new_power_responses(),
            sent: Ghost(Seq::empty()),
            received: Ghost(Seq::empty()),
            answered: Ghost(Seq::empty()),
            delivered: Ghost(Seq::empty()),
            latest: None,
        };
        assert(r.sent() =~= r.received() + r.pending_requests());
        assert(r.answered() =~= r.delivered() + r.pending_responses());
        r
    }

    /// Sends a request; its response comes back through `recv_response`. When
    /// the mailbox is full the request comes back.
    pub fn transact(&mut self, req: PowerRequest) -> (r: Result<(), PowerRequest>)
        requires
            old(self).wf(),
        ensures
            final(self).wf(),
            final(self).latest() == old(self).latest(),
            final(self).received() == old(self).received(),
            final(self).answered() == old(self).answered(),
            final(self).delivered() == old(self).delivered(),
            final(self).pending_responses() == old(self).pending_responses(),
            old(self).pending_requests().len() < POWER_MAILBOX_CAPACITY ==> {
                &&& r is Ok
                &&& final(self).sent() == old(self).sent().push(req)
                &&& final(self).pending_requests() == old(self).pending_requests().push(req)
            },
            old(self).pending_requests().len() >= POWER_MAILBOX_CAPACITY ==> {
                &&& r == Err::<(), PowerRequest>(req)
                &&& final(self).sent() == old(self).sent()
                &&& final(self).pending_requests() == old(self).pending_requests()
            },
    {
        let ghost q = queued_power_requests(self.requests);
        let r = send_power_request(&mut self.requests, req);
        if r.is_ok() {
            self.sent = Ghost(self.sent@.push(req));
            assert(self.sent@ =~= self.received@ + queued_power_requests(self.requests));
        }
        r
    }

    /// Asks for the boost converter's enable line to be driven to `enable`.
    pub fn set_boost_converter(&mut self, enable: bool) -> (r: Result<(), PowerRequest>)
        requires
            old(self).wf(),
        ensures
            final(self).wf(),
            old(self).pending_requests().len() < POWER_MAILBOX_CAPACITY ==> r is Ok && final(self).sent()
                == old(self).sent().push(PowerRequest::EnableBoostConverter(enable)),
            old(self).pending_requests().len() >= POWER_MAILBOX_CAPACITY ==> r is Err && final(self).sent()
                == old(self).sent(),
    {
        self.transact(PowerRequest::EnableBoostConverter(enable))
    }

    /// Asks for a mode switch.
    pub fn set_mode(&mut self, mode: PowerControllerMode) -> (r: Result<(), PowerRequest>)
        requires
            old(self).wf(),
        ensures
            final(self).wf(),
            old(self).pending_requests().len() < POWER_MAILBOX_CAPACITY ==> r is Ok && final(self).sent()
                == old(self).sent().push(PowerRequest::SetMode(mode)),
            old(self).pending_requests().len() >= POWER_MAILBOX_CAPACITY ==> r is Err && final(self).sent()
                == old(self).sent(),
    {
        self.transact(PowerRequest::SetMode(mode))
    }

    /// Asks for the automatic mode to be re-evaluated after an interrupt.
    pub fn check_interrupt(&mut self) -> (r: Result<(), PowerRequest>)
        requires
            old(self).wf(),
        ensures
            final(self).wf(),
            old(self).pending_requests().len() < POWER_MAILBOX_CAPACITY ==> r is Ok && final(self).sent()
                == old(self).sent().push(PowerRequest::CheckInterrupt),
            old(self).pending_requests().len() >= POWER_MAILBOX_CAPACITY ==> r is Err && final(self).sent()
                == old(self).sent(),
    {
        self.transact(PowerRequest::CheckInterrupt)
    }

    /// The oldest response not yet taken, if any.
    pub fn recv_response(&mut self) -> (r: Option<PowerResponse>)
        requires
            old(self).wf(),
        ensures
            final(self).wf(),
            final(self).latest() == old(self).latest(),
            final(self).sent() == old(self).sent(),
            final(self).received() == old(self).received(),
            final(self).answered() == old(self).answered(),
            old(self).pending_responses().len() == 0 ==> r is None && final(self).delivered() == old(
                self,
            ).delivered(),
            old(self).pending_responses().len() > 0 ==> {
                &&& r == Some(old(self).pending_responses()[0])
                &&& final(self).delivered() == old(self).delivered().push(old(self).pending_responses()[0])
            },
    {
        let ghost q = queued_power_responses(self.responses);
        let r = receive_power_response(&mut self.responses);
        if r.is_some() {
            self.delivered = Ghost(self.delivered@.push(q[0]));
            assert(self.answered@ =~= self.delivered@ + queued_power_responses(self.responses));
        }
        r
    }

    /// The controller's side: the oldest request not yet taken, if any.
    pub fn recv_request(&mut self) -> (r: Option<PowerRequest>)
        requires
            old(self).wf(),
        ensures
            final(self).wf(),
            final(self).latest() == old(self).latest(),
            final(self).sent() == old(self).sent(),
            final(self).answered() == old(self).answered(),
            final(self).delivered() == old(self).delivered(),
            old(self).pending_requests().len() == 0 ==> r is None && final(self).received() == old(
                self,
            ).received(),
            old(self).pending_requests().len() > 0 ==> {
                &&& r == Some(old(self).pending_requests()[0])
                &&& final(self).received() == old(self).received().push(old(self).pending_requests()[0])
            },
    {
        let ghost q = queued_power_requests(self.requests);
        let r = receive_power_request(&mut self.requests);
        if r.is_some() {
            self.received = Ghost(self.received@.push(q[0]));
            assert(self.sent@ =~= self.received@ + queued_power_requests(self.requests));
        }
        r
    }

    /// The controller's side: sends the response to the request it took
    /// last. When the mailbox is full the response comes back.
    pub fn send_response(&mut self, resp: PowerResponse) -> (r: Result<(), PowerResponse>)
        requires
            old(self).wf(),
        ensures
            final(self).wf(),
            final(self).latest() == old(self).latest(),
            final(self).sent() == old(self).sent(),
            final(self).received() == old(self).received(),
            final(self).delivered() == old(self).delivered(),
            old(self).pending_responses().len() < POWER_MAILBOX_CAPACITY ==> r is Ok && final(self).answered()
                == old(self).answered().push(resp),
            old(self).pending_responses().len() >= POWER_MAILBOX_CAPACITY ==> r == Err::<(), PowerResponse>(resp)
                && final(self).answered() == old(self).answered(),
    {
        let r = send_power_response(&mut self.responses, resp);
        if r.is_ok() {
            self.answered = Ghost(self.answered@.push(resp));
            assert(self.answered@ =~= self.delivered@ + queued_power_responses(self.responses));
        }
        r
    }

    /// The controller's side: publishes a snapshot, replacing the previous one.
    pub fn publish(&mut self, stats: PowerControllerStats)
        requires
            old(self).wf(),
        ensures
            final(self).wf(),
            final(self).sent() == old(self).sent(),
            final(self).received() == old(self).received(),
            final(self).answered() == old(self).answered(),
            final(self).delivered() == old(self).delivered(),
            final(self).latest() == Some(stats),
    {
        self.latest = Some(stats);
    }

    /// The latest published snapshot, if any.
    pub fn state(&self) -> (r: Option<PowerControllerStats>)
        ensures
            r == self.latest(),
    {
        self.latest
    }
}

/// Mailbox correctness: the n-th request the controller receives is the n-th
/// request sent, and the n-th response an asker receives is the n-th response
/// the controller sent; nothing is received that was not sent, and each is
/// received once.
pub proof fn law_mailbox_pairing(h: PowerHandle)
    requires
        h.wf(),
    ensures
        h.received().len() <= h.sent().len(),
        h.delivered().len() <= h.answered().len(),
        forall|n: int| 0 <= n < h.received().len() ==> #[trigger] h.received()[n] == h.sent()[n],
        forall|n: int| 0 <= n < h.delivered().len() ==> #[trigger] h.delivered()[n] == h.answered()[n],
{
    assert forall|n: int| 0 <= n < h.received().len() implies #[trigger] h.received()[n] == h.sent()[n] by {
        assert(h.sent() == h.received() + h.pending_requests());
    }
    assert forall|n: int| 0 <= n < h.delivered().len() implies #[trigger] h.delivered()[n] == h.answered()[n] by {
        assert(h.answered() == h.delivered() + h.pending_responses());
    }
}

} // verus!
