//! Alarm logic: two flags, smoke and air, each raised at once by a breach and
//! cleared only after a run of fresh evaluations without one, and the latch
//! that drives buzzer and sprinkler while either flag is up.

use crate::reading::SensorReading;
use vstd::prelude::*;

verus! {

/// Gas resistance below this many ohm counts as bad air.
pub const GAS_RESISTANCE_FLOOR_OHM: u32 = 50_000;

/// Temperature above this many hundredths of a degree Celsius counts as a breach.
pub const TEMPERATURE_CEILING_CENTI: i32 = 6_000;

/// Number of consecutive fresh evaluations without a breach that a raised
/// flag outlasts; it clears on the next one.
pub const CLEAR_DEBOUNCE: u16 = 5;

/// What the alert logic reports after an evaluation.
#[derive(Clone, Copy, Debug, PartialEq, Eq, Structural)]
pub struct AlarmState {
    /// The smoke flag is up.
    pub smoke_detected: bool,
    /// The air flag is up: gas resistance under the floor or temperature over the ceiling.
    pub gas_threshold_breached: bool,
    /// Either flag is up.
    pub latched: bool,
}

/// Levels for the two actuator lines.
#[derive(Clone, Copy, Debug, PartialEq, Eq, Structural)]
pub struct ActuatorOutputs {
    /// The buzzer sounds.
    pub buzzer: bool,
    /// The sprinkler valve is open.
    pub sprinkler: bool,
}

/// One flag: whether it is up, and for how many fresh evaluations in a row
/// nothing has breached since.
#[derive(Clone, Copy, Debug, PartialEq, Eq, Structural)]
pub struct Flag {
    /// The flag is up.
    pub active: bool,
    /// Fresh evaluations without a breach since the flag last rose or was held.
    pub quiet: u16,
}

/// What one evaluation cycle has to go on.
#[derive(Clone, Copy, Debug, PartialEq, Eq, Structural)]
pub enum Observation {
    /// A reading taken in this cycle, and the smoke detector's level.
    Fresh { reading: SensorReading, smoke_pin: bool },
    /// No reading in this cycle; only the smoke detector's level is known.
    Stale { smoke_pin: bool },
}

/// The reading breaches a threshold: gas resistance under the floor, or
/// temperature over the ceiling.
pub open spec fn air_breach(reading: SensorReading) -> bool {
    reading.gas_resistance_ohm < GAS_RESISTANCE_FLOOR_OHM || reading.temperature_centi
        > TEMPERATURE_CEILING_CENTI
}

impl AlarmState {
    /// The latch is the disjunction of the two flags.
    pub open spec fn consistent(self) -> bool {
        self.latched == (self.smoke_detected || self.gas_threshold_breached)
    }
}

impl ActuatorOutputs {
    /// Both lines at the given level.
    pub open spec fn both(on: bool) -> ActuatorOutputs {
        ActuatorOutputs { buzzer: on, sprinkler: on }
    }

    /// Buzzer silent and sprinkler shut.
    pub fn off() -> (out: ActuatorOutputs)
        ensures
            out == ActuatorOutputs::both(false),
    {
        ActuatorOutputs { buzzer: false, sprinkler: false }
    }
}

impl Flag {
    /// A flag that is down.
    pub open spec fn idle() -> Flag {
        Flag { active: false, quiet: 0 }
    }

    /// A flag that has just risen.
    pub open spec fn raised() -> Flag {
        Flag { active: true, quiet: 0 }
    }

    /// The flag after a fresh evaluation. A breach raises it. Without one, a
    /// raised flag stays up for `CLEAR_DEBOUNCE` evaluations and drops on the
    /// one after.
    pub open spec fn observed(self, breach: bool) -> Flag {
        if breach {
            Flag::raised()
        } else if self.active && self.quiet < CLEAR_DEBOUNCE {
            Flag { active: true, quiet: (self.quiet + 1) as u16 }
        } else {
            Flag::idle()
        }
    }

    /// The flag after a cycle without a fresh reading. It can rise but not
    /// drop, and a raised flag starts its quiet run over.
    pub open spec fn held(self, breach: bool) -> Flag {
        if breach || self.active {
            Flag::raised()
        } else {
            self
        }
    }

    /// Advances the flag by one fresh evaluation.
    pub fn observe(self, breach: bool) -> (next: Flag)
        ensures
            next == self.observed(breach),
    {
        if breach {
            Flag { active: true, quiet: 0 }
        } else if self.active && self.quiet < CLEAR_DEBOUNCE {
            Flag { active: true, quiet: self.quiet + 1 }
        } else {
            Flag { active: false, quiet: 0 }
        }
    }

    /// Advances the flag by one cycle without a fresh reading.
    pub fn hold(self, breach: bool) -> (next: Flag)
        ensures
            next == self.held(breach),
    {
        if breach || self.active {
            Flag { active: true, quiet: 0 }
        } else {
            self
        }
    }
}

impl Observation {
    /// The observation shows a breach of either kind.
    pub open spec fn breaches(self) -> bool {
        match self {
            Observation::Fresh { reading, smoke_pin } => smoke_pin || air_breach(reading),
            Observation::Stale { smoke_pin } => smoke_pin,
        }
    }

    /// The observation carries a reading taken in its own cycle.
    pub open spec fn is_fresh(self) -> bool {
        self is Fresh
    }
}

/// The alert logic's state: the two flags.
pub struct AlertModel {
    pub smoke: Flag,
    pub air: Flag,
}

impl AlertModel {
    /// Both flags down.
    pub open spec fn initial() -> AlertModel {
        AlertModel { smoke: Flag::idle(), air: Flag::idle() }
    }

    /// The alarm state that this state reports.
    pub open spec fn alarm(self) -> AlarmState {
        AlarmState {
            smoke_detected: self.smoke.active,
            gas_threshold_breached: self.air.active,
            latched: self.smoke.active || self.air.active,
        }
    }

    /// The actuator levels that this state asks for: both on while latched.
    /// Nothing limits how long that is: the sprinkler runs for as long as the
    /// alarm stays latched.
    pub open spec fn outputs(self) -> ActuatorOutputs {
        ActuatorOutputs::both(self.alarm().latched)
    }

    /// The state after one evaluation cycle.
    pub open spec fn step(self, o: Observation) -> AlertModel {
        match o {
            Observation::Fresh { reading, smoke_pin } => AlertModel {
                smoke: self.smoke.observed(smoke_pin),
                air: self.air.observed(air_breach(reading)),
            },
            Observation::Stale { smoke_pin } => AlertModel {
                smoke: self.smoke.held(smoke_pin),
                air: self.air.held(false),
            },
        }
    }

    /// The state after a sequence of evaluation cycles, first to last.
    pub open spec fn run(self, obs: Seq<Observation>) -> AlertModel
        decreases obs.len(),
    {
        if obs.len() == 0 {
            self
        } else {
            self.run(obs.drop_last()).step(obs.last())
        }
    }
}

/// Evaluates readings and the smoke detector against the thresholds and keeps
/// the two flags.
pub struct AlertController {
    smoke: Flag,
    air: Flag,
}

impl View for AlertController {
    type V = AlertModel;

    closed spec fn view(&self) -> AlertModel {
        AlertModel { smoke: self.smoke, air: self.air }
    }
}

impl AlertController {
    /// A controller with both flags down.
    pub fn new() -> (c: AlertController)
        ensures
            c@ == AlertModel::initial(),
    {
        AlertController {
            smoke: Flag { active: false, quiet: 0 },
            air: Flag { active: false, quiet: 0 },
        }
    }

    /// The alarm state as of the last evaluation.
    pub fn state(&self) -> (alarm: AlarmState)
        ensures
            alarm == self@.alarm(),
            alarm.consistent(),
    {
        AlarmState {
            smoke_detected: self.smoke.active,
            gas_threshold_breached: self.air.active,
            latched: self.smoke.active || self.air.active,
        }
    }

    /// The levels to put on the buzzer and sprinkler lines.
    pub fn outputs(&self) -> (out: ActuatorOutputs)
        ensures
            out == self@.outputs(),
    {
        let on: bool = self.smoke.active || self.air.active;
        ActuatorOutputs { buzzer: on, sprinkler: on }
    }

    /// Evaluates a reading taken in this cycle together with the smoke
    /// detector's level.
    pub fn evaluate(&mut self, reading: &SensorReading, smoke_pin: bool) -> (alarm: AlarmState)
        ensures
            final(self)@ == old(self)@.step((Observation::Fresh { reading: *reading, smoke_pin })),
            alarm == final(self)@.alarm(),
            alarm.consistent(),
            final(self)@.outputs() == ActuatorOutputs::both(alarm.latched),
            smoke_pin || air_breach(*reading) ==> alarm.latched,
    {
        let breach: bool = reading.gas_resistance_ohm < GAS_RESISTANCE_FLOOR_OHM
            || reading.temperature_centi > TEMPERATURE_CEILING_CENTI;
        self.smoke = self.smoke.observe(smoke_pin);
        self.air = self.air.observe(breach);
        self.state()
    }

    /// Evaluates a cycle in which no reading could be taken. The smoke
    /// detector can still raise the alarm; nothing clears.
    pub fn evaluate_stale(&mut self, smoke_pin: bool) -> (alarm: AlarmState)
        ensures
            final(self)@ == old(self)@.step((Observation::Stale { smoke_pin })),
            alarm == final(self)@.alarm(),
            alarm.consistent(),
            final(self)@.outputs() == ActuatorOutputs::both(alarm.latched),
            smoke_pin || old(self)@.alarm().latched ==> alarm.latched,
    {
        self.smoke = self.smoke.hold(smoke_pin);
        self.air = self.air.hold(false);
        self.state()
    }
}

/// While no observation shows a breach, an alarm that is not latched stays
/// so after every cycle, and buzzer and sprinkler stay off.
pub proof fn lemma_no_breach_never_latches(m: AlertModel, obs: Seq<Observation>)
    requires
        !m.alarm().latched,
        forall|i: int| 0 <= i < obs.len() ==> !(#[trigger] obs[i]).breaches(),
    ensures
        forall|k: int|
            0 <= k <= obs.len() ==> {
                &&& !(#[trigger] m.run(obs.take(k))).alarm().latched
                &&& m.run(obs.take(k)).outputs() == ActuatorOutputs::both(false)
            },
{
    assert forall|k: int| 0 <= k <= obs.len() implies {
        &&& !(#[trigger] m.run(obs.take(k))).alarm().latched
        &&& m.run(obs.take(k)).outputs() == ActuatorOutputs::both(false)
    } by {
        let prefix = obs.take(k);
        lemma_no_breach_run(m, prefix);
    }
}

/// A run of cycles without a breach leaves an unlatched alarm unlatched.
proof fn lemma_no_breach_run(m: AlertModel, obs: Seq<Observation>)
    requires
        !m.alarm().latched,
        forall|i: int| 0 <= i < obs.len() ==> !(#[trigger] obs[i]).breaches(),
    ensures
        !m.run(obs).alarm().latched,
    decreases obs.len(),
{
    if obs.len() > 0 {
        let shorter = obs.drop_last();
        lemma_no_breach_run(m, shorter);
    }
}

/// A breach latches the alarm in the same cycle, and the alarm then stays
/// latched through the next `CLEAR_DEBOUNCE` cycles whatever they observe.
pub proof fn lemma_breach_latches_and_holds(m: AlertModel, breach: Observation, rest: Seq<Observation>)
    requires
        breach.breaches(),
        rest.len() <= CLEAR_DEBOUNCE,
    ensures
        m.step(breach).alarm().latched,
        m.step(breach).run(rest).alarm().latched,
        m.step(breach).run(rest).outputs() == ActuatorOutputs::both(true),
{
    lemma_quiet_run_bounded(m.step(breach), rest);
}

/// The flag counts no more quiet cycles than have passed.
proof fn lemma_quiet_run_bounded(m: AlertModel, rest: Seq<Observation>)
    requires
        rest.len() <= CLEAR_DEBOUNCE,
        (m.smoke.active && m.smoke.quiet == 0) || (m.air.active && m.air.quiet == 0),
    ensures
        (m.run(rest).smoke.active && m.run(rest).smoke.quiet <= rest.len()) || (m.run(rest).air.active
            && m.run(rest).air.quiet <= rest.len()),
    decreases rest.len(),
{
    if rest.len() > 0 {
        lemma_quiet_run_bounded(m, rest.drop_last());
    }
}

/// After more than `CLEAR_DEBOUNCE` fresh cycles in a row without a breach
/// the alarm is no longer latched, from whatever state.
pub proof fn lemma_quiet_run_clears(m: AlertModel, obs: Seq<Observation>)
    requires
        obs.len() > CLEAR_DEBOUNCE,
        forall|i: int| 0 <= i < obs.len() ==> (#[trigger] obs[i]).is_fresh() && !obs[i].breaches(),
    ensures
        !m.run(obs).alarm().latched,
        m.run(obs).outputs() == ActuatorOutputs::both(false),
{
    lemma_quiet_run_progress(m, obs);
}

/// After `n` fresh cycles without a breach, a flag still up has counted at
/// least `n` of them.
proof fn lemma_quiet_run_progress(m: AlertModel, obs: Seq<Observation>)
    requires
        forall|i: int| 0 <= i < obs.len() ==> (#[trigger] obs[i]).is_fresh() && !obs[i].breaches(),
    ensures
        m.run(obs).smoke.active ==> m.run(obs).smoke.quiet >= obs.len() && obs.len() <= CLEAR_DEBOUNCE,
        m.run(obs).air.active ==> m.run(obs).air.quiet >= obs.len() && obs.len() <= CLEAR_DEBOUNCE,
    decreases obs.len(),
{
    if obs.len() > 0 {
        let shorter = obs.drop_last();
        lemma_quiet_run_progress(m, shorter);
    }
}

} // verus!
