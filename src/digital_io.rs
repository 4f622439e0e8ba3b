//! Digital I/O pin agents: each pin has one owner that applies commands and
//! publishes a `(mode, state)` record derived from the electrical readback.
use vstd::prelude::*;

verus! {

/// Output drive mode of a digital pin.
#[derive(Clone, Copy, Debug, PartialEq, Eq, Structural)]
pub enum PinMode {
    /// Pulls low or floats; a floating pin reads the external level.
    OpenDrain,
    /// Drives high or low.
    PushPull,
}

impl PinMode {
    /// Name of the mode as sent to clients.
    pub fn to_str(&self) -> (r: &'static str)
        ensures
            r@ == pin_mode_name(*self),
    {
        match self {
            PinMode::OpenDrain => "OpenDrain",
            PinMode::PushPull => "PushPull",
        }
    }
}

pub open spec fn pin_mode_name(m: PinMode) -> Seq<char> {
    match m {
        PinMode::OpenDrain => "OpenDrain"@,
        PinMode::PushPull => "PushPull"@,
    }
}

/// Observed state of a digital pin.
#[derive(Clone, Copy, Debug, PartialEq, Eq, Structural)]
pub enum PinState {
    /// Floating, the line reads low.
    InLow,
    /// Floating, the line reads high.
    InHigh,
    /// The pin pulls or drives the line low.
    DrivingLow,
    /// The pin drives the line high.
    DrivingHigh,
    /// Readback disagrees with what is driven (for instance a short).
    Inconsistent,
}

impl PinState {
    /// Label of the state as sent to clients.
    pub fn to_str(&self) -> (r: &'static str)
        ensures
            r@ == pin_state_name(*self),
    {
        match self {
            PinState::InLow => "In Low",
            PinState::InHigh => "In High",
            PinState::DrivingLow => "Driving Low",
            PinState::DrivingHigh => "Driving High",
            PinState::Inconsistent => "Inconsistent (short circuit!)",
        }
    }
}

pub open spec fn pin_state_name(s: PinState) -> Seq<char> {
    match s {
        PinState::InLow => "In Low"@,
        PinState::InHigh => "In High"@,
        PinState::DrivingLow => "Driving Low"@,
        PinState::DrivingHigh => "Driving High"@,
        PinState::Inconsistent => "Inconsistent (short circuit!)"@,
    }
}

/// State of a pin from its mode, the electrical readback `is_high` and the
/// level it was last set to, `is_set_high`.
pub open spec fn derived_state(mode: PinMode, is_high: bool, is_set_high: bool) -> PinState {
    match mode {
        PinMode::OpenDrain => if is_set_high {
            if is_high { PinState::InHigh } else { PinState::InLow }
        } else {
            if is_high { PinState::Inconsistent } else { PinState::DrivingLow }
        },
        PinMode::PushPull => if is_high && is_set_high {
            PinState::DrivingHigh
        } else if !is_high && !is_set_high {
            PinState::DrivingLow
        } else {
            PinState::Inconsistent
        },
    }
}

/// Computes the state of a pin from its readback, its set level and its mode.
pub fn pin_state(is_high: bool, is_set_high: bool, mode: PinMode) -> (r: PinState)
    ensures
        r == derived_state(mode, is_high, is_set_high),
{
    match (is_high, is_set_high, mode) {
        (true, true, PinMode::OpenDrain) => PinState::InHigh,
        (false, true, PinMode::OpenDrain) => PinState::InLow,
        (false, false, PinMode::OpenDrain) => PinState::DrivingLow,
        (true, false, PinMode::OpenDrain) => PinState::Inconsistent,
        (true, true, PinMode::PushPull) => PinState::DrivingHigh,
        (false, false, PinMode::PushPull) => PinState::DrivingLow,
        (false, true, PinMode::PushPull) => PinState::Inconsistent,
        (true, false, PinMode::PushPull) => PinState::Inconsistent,
    }
}

/// One of the five general-purpose digital pins.
#[derive(Clone, Copy, Debug, PartialEq, Eq, Structural)]
pub enum DigitalPinID {
    D0,
    D1,
    D2,
    D3,
    D4,
}

/// Number of digital pins.
pub const PIN_COUNT: usize = 5;

pub open spec fn pin_index(id: DigitalPinID) -> int {
    match id {
        DigitalPinID::D0 => 0,
        DigitalPinID::D1 => 1,
        DigitalPinID::D2 => 2,
        DigitalPinID::D3 => 3,
        DigitalPinID::D4 => 4,
    }
}

impl DigitalPinID {
    /// Position of the pin, 0 for D0 up to 4 for D4.
    pub fn index(&self) -> (r: usize)
        ensures
            r as int == pin_index(*self),
            r < PIN_COUNT,
    {
        match self {
            DigitalPinID::D0 => 0,
            DigitalPinID::D1 => 1,
            DigitalPinID::D2 => 2,
            DigitalPinID::D3 => 3,
            DigitalPinID::D4 => 4,
        }
    }

    /// The pin with the given number, if there is one.
    pub fn from_number(n: u8) -> (r: Option<DigitalPinID>)
        ensures
            n < 5 <==> r is Some,
            r matches Some(id) ==> pin_index(id) == n as int,
    {
        match n {
            0 => Some(DigitalPinID::D0),
            1 => Some(DigitalPinID::D1),
            2 => Some(DigitalPinID::D2),
            3 => Some(DigitalPinID::D3),
            4 => Some(DigitalPinID::D4),
            _ => None,
        }
    }

    /// Pin number as sent to clients.
    pub fn number(&self) -> (r: u8)
        ensures
            r as int == pin_index(*self),
    {
        self.index() as u8
    }
}

/// A command addressed to one pin.
#[derive(Clone, Copy, Debug, PartialEq, Eq, Structural)]
pub enum PinCommand {
    /// Set the level: with OpenDrain `false` pulls low and `true` floats;
    /// with PushPull `false` drives low and `true` drives high.
    SetState(bool),
    /// Change the drive mode; the level is kept.
    SetMode(PinMode),
}

/// What one pin's owner knows: its mode, the level it last set, and the record
/// it last published (none before its first publication).
#[derive(Clone, Copy, Debug)]
pub struct PinAgent {
    pub mode: PinMode,
    pub is_set_high: bool,
    pub published: Option<(PinMode, PinState)>,
}

pub open spec fn applied(a: PinAgent, cmd: PinCommand) -> PinAgent {
    match cmd {
        PinCommand::SetState(v) => PinAgent { is_set_high: v, ..a },
        PinCommand::SetMode(m) => PinAgent { mode: m, ..a },
    }
}

pub open spec fn observed(a: PinAgent, is_high: bool) -> PinAgent {
    PinAgent { published: Some((a.mode, derived_state(a.mode, is_high, a.is_set_high))), ..a }
}

impl PinAgent {
    /// The initial configuration of every pin: OpenDrain, set high (floating).
    pub open spec fn new_spec() -> PinAgent {
        PinAgent { mode: PinMode::OpenDrain, is_set_high: true, published: None }
    }

    /// An agent in its initial configuration, before its first publication.
    pub fn new(mode: PinMode, is_set_high: bool) -> (r: PinAgent)
        ensures
            r == (PinAgent { mode, is_set_high, published: None }),
    {
        PinAgent { mode, is_set_high, published: None }
    }

    /// Applies a command to the agent's mode or level.
    pub fn apply(&mut self, cmd: PinCommand)
        ensures
            *final(self) == applied(*old(self), cmd),
    {
        match cmd {
            PinCommand::SetState(v) => self.is_set_high = v,
            PinCommand::SetMode(m) => self.mode = m,
        }
    }

    /// Publishes the record for the readback `is_high` and returns it.
    pub fn observe(&mut self, is_high: bool) -> (r: (PinMode, PinState))
        ensures
            *final(self) == observed(*old(self), is_high),
            final(self).published == Some(r),
    {
        let r = (self.mode, pin_state(is_high, self.is_set_high, self.mode));
        self.published = Some(r);
        r
    }
}

/// The five pin agents, indexed by pin.
pub struct DigitalIoHandle {
    agents: Vec<PinAgent>,
}

impl View for DigitalIoHandle {
    type V = Seq<PinAgent>;

    closed spec fn view(&self) -> Seq<PinAgent> {
        self.agents@
    }
}

impl DigitalIoHandle {
    pub open spec fn wf(&self) -> bool {
        self@.len() == PIN_COUNT
    }

    pub open spec fn agent(&self, id: DigitalPinID) -> PinAgent {
        self@[pin_index(id)]
    }

    /// All pins in OpenDrain mode and set high (floating), nothing published.
    pub fn new() -> (r: DigitalIoHandle)
        ensures
            r.wf(),
            forall|i: int| 0 <= i < PIN_COUNT ==> #[trigger] r@[i] == PinAgent::new_spec(),
    {
        let mut agents: Vec<PinAgent> = Vec::new();
        let mut i: usize = 0;
        while i < PIN_COUNT
            invariant
                i <= PIN_COUNT,
                agents@.len() == i,
                forall|j: int| 0 <= j < i ==> #[trigger] agents@[j] == PinAgent::new_spec(),
            decreases PIN_COUNT - i,
        {
            agents.push(PinAgent::new(PinMode::OpenDrain, true));
            i = i + 1;
        }
        DigitalIoHandle { agents }
    }

    /// Mode and level that the pin must be configured with.
    pub fn drive(&self, id: DigitalPinID) -> (r: (PinMode, bool))
        requires
            self.wf(),
        ensures
            r == (self.agent(id).mode, self.agent(id).is_set_high),
    {
        let a = self.agents[id.index()];
        (a.mode, a.is_set_high)
    }

    /// Applies a command to one pin and returns the mode and level that the
    /// pin must now be configured with.
    pub fn apply(&mut self, id: DigitalPinID, cmd: PinCommand) -> (r: (PinMode, bool))
        requires
            old(self).wf(),
        ensures
            final(self).wf(),
            final(self)@ == old(self)@.update(pin_index(id), applied(old(self).agent(id), cmd)),
            r == (final(self).agent(id).mode, final(self).agent(id).is_set_high),
    {
        let i = id.index();
        let mut a = self.agents[i];
        a.apply(cmd);
        self.agents.set(i, a);
        (a.mode, a.is_set_high)
    }

    /// Sets the level of one pin (see `PinCommand::SetState`).
    pub fn set(&mut self, id: DigitalPinID, state: bool) -> (r: (PinMode, bool))
        requires
            old(self).wf(),
        ensures
            final(self).wf(),
            final(self)@ == old(self)@.update(
                pin_index(id),
                applied(old(self).agent(id), PinCommand::SetState(state)),
            ),
            r == (old(self).agent(id).mode, state),
    {
        self.apply(id, PinCommand::SetState(state))
    }

    /// Sets the drive mode of one pin, keeping its level.
    pub fn set_mode(&mut self, id: DigitalPinID, mode: PinMode) -> (r: (PinMode, bool))
        requires
            old(self).wf(),
        ensures
            final(self).wf(),
            final(self)@ == old(self)@.update(
                pin_index(id),
                applied(old(self).agent(id), PinCommand::SetMode(mode)),
            ),
            r == (mode, old(self).agent(id).is_set_high),
    {
        self.apply(id, PinCommand::SetMode(mode))
    }

    /// Publishes a new record for one pin from its readback `is_high`.
    pub fn observe(&mut self, id: DigitalPinID, is_high: bool) -> (r: (PinMode, PinState))
        requires
            old(self).wf(),
        ensures
            final(self).wf(),
            final(self)@ == old(self)@.update(pin_index(id), observed(old(self).agent(id), is_high)),
            r == (
                old(self).agent(id).mode,
                derived_state(old(self).agent(id).mode, is_high, old(self).agent(id).is_set_high),
            ),
    {
        let i = id.index();
        let mut a = self.agents[i];
        let r = a.observe(is_high);
        self.agents.set(i, a);
        r
    }

    /// The record last published for a pin, if any.
    pub fn get(&self, id: DigitalPinID) -> (r: Option<(PinMode, PinState)>)
        requires
            self.wf(),
        ensures
            r == self.agent(id).published,
    {
        self.agents[id.index()].published
    }
}

/// After `set(id, v)` and the publication that follows it, the pin's record
/// is its mode with the state derived from that mode, `v` and the readback.
pub proof fn law_pin_determinism(
    h0: DigitalIoHandle,
    h1: DigitalIoHandle,
    h2: DigitalIoHandle,
    id: DigitalPinID,
    v: bool,
    is_high: bool,
)
    requires
        h0.wf(),
        h1@ == h0@.update(pin_index(id), applied(h0.agent(id), PinCommand::SetState(v))),
        h2@ == h1@.update(pin_index(id), observed(h1.agent(id), is_high)),
    ensures
        h2.agent(id).published == Some((h0.agent(id).mode, derived_state(h0.agent(id).mode, is_high, v))),
        forall|other: DigitalPinID| other != id ==> #[trigger] h2.agent(other) == h0.agent(other),
{
    assert forall|other: DigitalPinID| other != id implies #[trigger] h2.agent(other) == h0.agent(other) by {
        assert(pin_index(other) != pin_index(id));
    }
}

} // verus!
