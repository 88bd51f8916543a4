//! The finite state machine of the stages of flight.

use vstd::prelude::*;

verus! {

/// Stages of flight.
#[derive(Clone, Copy, Debug, PartialEq, Eq, PartialOrd, Ord, Structural)]
pub enum FlightStage {
    /// Waiting on the pad.
    Idle,
    /// While the motor is burning.
    Boost { start_time_ms: u64 },
    /// After burnout, however too fast for deployment.
    InactiveCoast,
    /// After burnout, and while we are slow enough to deploy.
    ActiveCoast,
    /// After apogee.
    Recovery,
}

/// The comparisons of the rocket's measured motion against the thresholds of
/// the stage transitions (upward acceleration in m/s^2, counted without
/// gravity, and upward velocity in m/s).
#[derive(Clone, Copy, Debug, PartialEq, Eq, Structural)]
pub struct StageSignals {
    /// The upward acceleration exceeds 10 m/s^2.
    pub launch_acceleration: bool,
    /// The upward velocity exceeds 5 m/s.
    pub launch_velocity: bool,
    /// The upward acceleration is below -12 m/s^2 (gravity and some drag).
    pub burnout: bool,
    /// The upward velocity is below the deployment maximum of 200 m/s.
    pub below_active_velocity: bool,
    /// The upward velocity is negative.
    pub descending: bool,
}

impl FlightStage {
    /// Position of the stage in the order of flight.
    pub open spec fn rank(self) -> nat {
        match self {
            FlightStage::Idle => 0,
            FlightStage::Boost { .. } => 1,
            FlightStage::InactiveCoast => 2,
            FlightStage::ActiveCoast => 3,
            FlightStage::Recovery => 4,
        }
    }

    /// The stage the rocket moves to from this one, if any: launch needs both
    /// launch signals, burnout ends the boost, slowing below the deployment
    /// maximum starts the active coast, and descending marks apogee.
    pub open spec fn spec_transition(self, time_ms: u64, s: StageSignals) -> Option<FlightStage> {
        match self {
            FlightStage::Idle => if s.launch_acceleration && s.launch_velocity {
                Some(FlightStage::Boost { start_time_ms: time_ms })
            } else {
                None
            },
            FlightStage::Boost { .. } => if s.burnout {
                Some(FlightStage::InactiveCoast)
            } else {
                None
            },
            FlightStage::InactiveCoast => if s.below_active_velocity {
                Some(FlightStage::ActiveCoast)
            } else {
                None
            },
            FlightStage::ActiveCoast => if s.descending {
                Some(FlightStage::Recovery)
            } else {
                None
            },
            FlightStage::Recovery => None,
        }
    }

    /// Checks if the rocket should transition out of this stage of flight,
    /// given how its motion compares against the transition thresholds.
    pub fn transition(&self, time_ms: u64, signals: StageSignals) -> (r: Option<FlightStage>)
        ensures
            r == self.spec_transition(time_ms, signals),
    {
        match self {
            FlightStage::Idle => {
                if signals.launch_acceleration && signals.launch_velocity {
                    return Some(FlightStage::Boost { start_time_ms: time_ms });
                }
            },
            FlightStage::Boost { .. } => {
                if signals.burnout {
                    return Some(FlightStage::InactiveCoast);
                }
            },
            FlightStage::InactiveCoast => {
                if signals.below_active_velocity {
                    return Some(FlightStage::ActiveCoast);
                }
            },
            FlightStage::ActiveCoast => {
                if signals.descending {
                    return Some(FlightStage::Recovery);
                }
            },
            _ => {},
        }
        None
    }
}

/// Stages only ever advance, one at a time and in the order of flight: a
/// transition leads to the next stage, recovery is final, and the boost stage
/// records the time of launch.
pub proof fn lemma_stages_advance_in_order(stage: FlightStage, time_ms: u64, signals: StageSignals)
    ensures
        stage.spec_transition(time_ms, signals) matches Some(next) ==> next.rank() == stage.rank() + 1,
        stage is Recovery ==> stage.spec_transition(time_ms, signals) is None,
        stage.spec_transition(time_ms, signals) matches Some(FlightStage::Boost { start_time_ms }) ==> start_time_ms == time_ms,
{
}

/// Each stage reacts to its own signal and to nothing else: the pad is left
/// once both launch signals hold, the boost ends at burnout, the inactive
/// coast ends once the rocket is slow enough to deploy, and the active coast
/// ends at apogee, when the rocket descends. Whatever the other signals say,
/// a stage whose own signal does not hold stays as it is.
pub proof fn lemma_each_stage_reacts_to_its_own_signal(stage: FlightStage, time_ms: u64, s: StageSignals)
    ensures
        stage is Idle ==> (stage.spec_transition(time_ms, s) is Some <==> s.launch_acceleration
            && s.launch_velocity),
        stage is Boost ==> (stage.spec_transition(time_ms, s) is Some <==> s.burnout),
        stage is InactiveCoast ==> (stage.spec_transition(time_ms, s) is Some
            <==> s.below_active_velocity),
        stage is ActiveCoast ==> (stage.spec_transition(time_ms, s) is Some <==> s.descending),
        stage is ActiveCoast ==> (s.descending ==> stage.spec_transition(time_ms, s) == Some(
            FlightStage::Recovery,
        )),
        stage is ActiveCoast ==> (!s.descending ==> stage.spec_transition(time_ms, s) is None),
{
}

/// Two sets of signals that agree on a stage's own signal move it alike; in
/// particular, while the rocket climbs, the active coast goes on however slow
/// it gets.
pub proof fn lemma_only_the_own_signal_matters(stage: FlightStage, time_ms: u64, a: StageSignals, b: StageSignals)
    requires
        stage is Idle ==> (a.launch_acceleration && a.launch_velocity) == (b.launch_acceleration
            && b.launch_velocity),
        stage is Boost ==> a.burnout == b.burnout,
        stage is InactiveCoast ==> a.below_active_velocity == b.below_active_velocity,
        stage is ActiveCoast ==> a.descending == b.descending,
    ensures
        stage.spec_transition(time_ms, a) == stage.spec_transition(time_ms, b),
{
}

/// Without any signal, the rocket stays in its stage.
pub proof fn lemma_no_signal_no_transition(stage: FlightStage, time_ms: u64)
    ensures
        stage.spec_transition(
            time_ms,
            StageSignals {
                launch_acceleration: false,
                launch_velocity: false,
                burnout: false,
                below_active_velocity: false,
                descending: false,
            },
        ) is None,
{
}

} // verus!
