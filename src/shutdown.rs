//! The shutdown sequence. Its order matters: the pins are floated before the
//! charger is switched to charging, so that no peripheral is back-driven
//! through the logic rails.
use vstd::prelude::*;
use crate::digital_io::{DigitalPinID, PinMode};
use crate::power::PowerControllerMode;

verus! {

/// One step of the shutdown sequence.
#[derive(Clone, Copy, Debug, PartialEq, Eq, Structural)]
pub enum ShutdownStep {
    /// Drive the boost converter's enable line.
    SetBoost(bool),
    /// Set a pin's drive mode.
    SetPinMode(DigitalPinID, PinMode),
    /// Set a pin's level.
    SetPin(DigitalPinID, bool),
    /// Switch the power controller's mode.
    SetPowerMode(PowerControllerMode),
    /// Enter deep sleep with no wake source.
    DeepSleep,
}

pub open spec fn float_pin(id: DigitalPinID) -> Seq<ShutdownStep> {
    seq![ShutdownStep::SetPinMode(id, PinMode::OpenDrain), ShutdownStep::SetPin(id, true)]
}

/// Boost off; each pin, D0 to D4, to OpenDrain and floated; charging; deep
/// sleep.
pub open spec fn spec_shutdown_plan() -> Seq<ShutdownStep> {
    seq![ShutdownStep::SetBoost(false)] + float_pin(DigitalPinID::D0) + float_pin(DigitalPinID::D1) + float_pin(
        DigitalPinID::D2,
    ) + float_pin(DigitalPinID::D3) + float_pin(DigitalPinID::D4) + seq![
        ShutdownStep::SetPowerMode(PowerControllerMode::Charging),
        ShutdownStep::DeepSleep,
    ]
}

/// The steps of the shutdown sequence, in order.
pub fn shutdown_plan() -> (r: Vec<ShutdownStep>)
    ensures
        r@ == spec_shutdown_plan(),
{
    let mut r: Vec<ShutdownStep> = Vec::new();
    r.push(ShutdownStep::SetBoost(false));
    let pins = [DigitalPinID::D0, DigitalPinID::D1, DigitalPinID::D2, DigitalPinID::D3, DigitalPinID::D4];
    let mut i: usize = 0;
    while i < 5
        invariant
            0 <= i <= 5,
            pins@ == seq![DigitalPinID::D0, DigitalPinID::D1, DigitalPinID::D2, DigitalPinID::D3, DigitalPinID::D4],
            r@ == seq![ShutdownStep::SetBoost(false)] + pins_floated(pins@.subrange(0, i as int)),
        decreases 5 - i,
    {
        let id = pins[i];
        r.push(ShutdownStep::SetPinMode(id, PinMode::OpenDrain));
        r.push(ShutdownStep::SetPin(id, true));
        proof {
            let s = pins@.subrange(0, i as int + 1);
            assert(s.drop_last() =~= pins@.subrange(0, i as int));
            assert(r@ =~= seq![ShutdownStep::SetBoost(false)] + pins_floated(s));
        }
        i = i + 1;
    }
    r.push(ShutdownStep::SetPowerMode(PowerControllerMode::Charging));
    r.push(ShutdownStep::DeepSleep);
    proof {
        assert(pins@.subrange(0, 5) =~= pins@);
        let p = pins@;
        assert(p.subrange(0, 4) =~= p.drop_last());
        assert(pins_floated(p) =~= float_pin(DigitalPinID::D0) + float_pin(DigitalPinID::D1) + float_pin(
            DigitalPinID::D2,
        ) + float_pin(DigitalPinID::D3) + float_pin(DigitalPinID::D4)) by {
            reveal_with_fuel(pins_floated, 6);
            assert(p.drop_last().drop_last() =~= seq![DigitalPinID::D0, DigitalPinID::D1, DigitalPinID::D2]);
            assert(p.drop_last() =~= seq![DigitalPinID::D0, DigitalPinID::D1, DigitalPinID::D2, DigitalPinID::D3]);
            assert(p.drop_last().drop_last().drop_last() =~= seq![DigitalPinID::D0, DigitalPinID::D1]);
            assert(p.drop_last().drop_last().drop_last().drop_last() =~= seq![DigitalPinID::D0]);
            assert(seq![DigitalPinID::D0].drop_last() =~= Seq::<DigitalPinID>::empty());
        }
        assert(r@ =~= spec_shutdown_plan());
    }
    r
}

/// The float steps of each pin of `pins`, in order.
pub open spec fn pins_floated(pins: Seq<DigitalPinID>) -> Seq<ShutdownStep>
    decreases pins.len(),
{
    if pins.len() == 0 {
        Seq::empty()
    } else {
        pins_floated(pins.drop_last()) + float_pin(pins.last())
    }
}

} // verus!
