//! State machine deciding when to display the temperature and when to
//! conserve power.
//!
//! Temperatures are fixed-point integers in hundredths of a degree
//! Fahrenheit (`55.27` degrees is written `5527`).

use vstd::prelude::*;

verus! {

/// Threshold at which we start displaying the temperature, in hundredths of
/// a degree Fahrenheit.
pub const TEMP_ON_THRESHOLD: i32 = 10000;

/// Threshold at which we turn the display back off as the oven cools off, in
/// hundredths of a degree Fahrenheit.
pub const TEMP_OFF_THRESHOLD: i32 = 30000;

/// Hysteresis around both thresholds to avoid thrash, in hundredths of a
/// degree Fahrenheit.
pub const TEMP_HYSTERESIS: i32 = 1000;

#[derive(Copy, Clone, PartialEq, Eq, Structural, Debug)]
pub enum OvenTempState {
    /// The oven is determined to be off and not running.
    Off,
    /// The oven is heating up and we should start displaying the temperature.
    HeatingUp,
    /// The oven is sufficiently hot to start potentially detecting a cool-down.
    AtTemp,
    /// The oven is cooling off and we should stop displaying the temperature.
    CoolingDown,
}

/// Keeps track of the oven phase across temperature samples.
pub struct OvenTemp {
    /// The current phase of the oven.
    pub state: OvenTempState,
}

/// The transition table: the phase change (if any) that a single temperature
/// sample causes from the given phase.  At most one row applies per call.
///
/// Policy for the cooling phases, chosen once and kept throughout: a cooling
/// oven may step directly back to `AtTemp` when the reading climbs above the
/// off threshold again, without passing through `HeatingUp`.
pub open spec fn spec_transition(state: OvenTempState, temp: int) -> Option<OvenTempState> {
    match state {
        OvenTempState::Off => if temp >= TEMP_ON_THRESHOLD + TEMP_HYSTERESIS {
            Some(OvenTempState::HeatingUp)
        } else {
            None
        },
        OvenTempState::HeatingUp => if temp >= TEMP_OFF_THRESHOLD + TEMP_HYSTERESIS {
            Some(OvenTempState::AtTemp)
        } else if temp < TEMP_ON_THRESHOLD - TEMP_HYSTERESIS {
            Some(OvenTempState::Off)
        } else {
            None
        },
        OvenTempState::AtTemp => if temp <= TEMP_OFF_THRESHOLD - TEMP_HYSTERESIS {
            Some(OvenTempState::CoolingDown)
        } else {
            None
        },
        OvenTempState::CoolingDown => if temp <= TEMP_ON_THRESHOLD - TEMP_HYSTERESIS {
            Some(OvenTempState::Off)
        } else if temp >= TEMP_OFF_THRESHOLD + TEMP_HYSTERESIS {
            Some(OvenTempState::AtTemp)
        } else {
            None
        },
    }
}

/// The phase after one sample: the transition's target if a row of the table
/// applies, the unchanged phase otherwise.
pub open spec fn spec_next_state(state: OvenTempState, temp: int) -> OvenTempState {
    match spec_transition(state, temp) {
        Some(next) => next,
        None => state,
    }
}

impl OvenTemp {
    /// Creates a tracker in phase `AtTemp`: on power-up the oven may already
    /// be hot, and a true `Off` determination is reached only after cooling
    /// below threshold.
    #[must_use]
    pub fn new() -> (r: Self)
        ensures
            r.state == OvenTempState::AtTemp,
    {
        Self { state: OvenTempState::AtTemp }
    }

    /// Checks for a phase transition given a new temperature reading, in
    /// hundredths of a degree Fahrenheit.  Exactly the transition of the
    /// table is returned (or `None`), and the stored phase moves to its
    /// target; on `None` the phase is unchanged.
    pub fn check_transition(&mut self, temp: i32) -> (r: Option<OvenTempState>)
        ensures
            r == spec_transition(old(self).state, temp as int),
            final(self).state == spec_next_state(old(self).state, temp as int),
    {
        let new_state_opt = match self.state {
            OvenTempState::Off => {
                if temp >= TEMP_ON_THRESHOLD + TEMP_HYSTERESIS {
                    Some(OvenTempState::HeatingUp)
                } else {
                    None
                }
            }
            OvenTempState::HeatingUp => {
                if temp >= TEMP_OFF_THRESHOLD + TEMP_HYSTERESIS {
                    Some(OvenTempState::AtTemp)
                } else if temp < TEMP_ON_THRESHOLD - TEMP_HYSTERESIS {
                    Some(OvenTempState::Off)
                } else {
                    None
                }
            }
            OvenTempState::AtTemp => {
                if temp <= TEMP_OFF_THRESHOLD - TEMP_HYSTERESIS {
                    Some(OvenTempState::CoolingDown)
                } else {
                    None
                }
            }
            OvenTempState::CoolingDown => {
                if temp <= TEMP_ON_THRESHOLD - TEMP_HYSTERESIS {
                    Some(OvenTempState::Off)
                } else if temp >= TEMP_OFF_THRESHOLD + TEMP_HYSTERESIS {
                    Some(OvenTempState::AtTemp)
                } else {
                    None
                }
            }
        };

        if let Some(new_state) = new_state_opt {
            self.state = new_state;
        }

        new_state_opt
    }
}

/// Law: a sample that matches no row of the transition table leaves the phase
/// unchanged, and feeding the same sample again still matches no row — the
/// no-transition case is an idempotent no-op, never a hidden second step.
pub proof fn lemma_no_transition_is_noop(state: OvenTempState, temp: int)
    ensures
        spec_transition(state, temp) is None ==> spec_next_state(state, temp) == state,
        spec_transition(state, temp) is None ==> spec_transition(
            spec_next_state(state, temp),
            temp,
        ) is None,
{
}

} // verus!
