//! The control loop's decisions. The firmware calls `tick` every ten
//! milliseconds with the button levels, takes a measurement when told to, and
//! hands its result to `complete_sample`; what comes back says what to put on
//! the display and on the actuator lines.

use crate::alert::{
    air_breach, ActuatorOutputs, AlarmState, AlertController, AlertModel, Observation,
    CLEAR_DEBOUNCE,
};
use crate::display::{DisplayContent, DisplayRows};
use crate::input::{ButtonEvent, ButtonLevels, InputManager, InputModel};
use crate::reading::{SensorError, SensorReading};
use crate::screen::{Screen, ScreenModel, ScreenStateMachine};
use vstd::prelude::*;

verus! {

/// A measurement is due once in this many ticks, the first on the first tick.
pub const SAMPLE_PERIOD_TICKS: u16 = 100;

/// After this many measurements in a row without a reading the display
/// carries the stale-data notice.
pub const STALE_AFTER_MISSES: u8 = 3;

/// What one tick asks of the firmware.
#[derive(Clone, Copy, Debug, PartialEq, Eq)]
pub struct TickOutcome {
    /// The press reported on this tick, already applied to the screen selection.
    pub event: Option<ButtonEvent>,
    /// A measurement is due: take one and call `complete_sample`.
    pub sample_due: bool,
    /// New rows for the display, where the press changed the screen.
    pub display: Option<DisplayContent>,
}

/// What one measurement cycle asks of the firmware.
#[derive(Clone, Copy, Debug, PartialEq, Eq)]
pub struct CycleOutcome {
    /// The alarm state after this cycle.
    pub alarm: AlarmState,
    /// Levels for the buzzer and sprinkler lines.
    pub actuators: ActuatorOutputs,
    /// Rows for the display.
    pub display: DisplayContent,
    /// The loop has halted: nothing will change any more.
    pub halted: bool,
}

/// A tick's outcome with the display rows as sequences.
pub struct TickReport {
    pub event: Option<ButtonEvent>,
    pub sample_due: bool,
    pub display: Option<DisplayRows>,
}

/// A cycle's outcome with the display rows as sequences.
pub struct CycleReport {
    pub alarm: AlarmState,
    pub actuators: ActuatorOutputs,
    pub display: DisplayRows,
    pub halted: bool,
}

impl View for TickOutcome {
    type V = TickReport;

    open spec fn view(&self) -> TickReport {
        TickReport {
            event: self.event,
            sample_due: self.sample_due,
            display: match self.display {
                Some(content) => Some(content@),
                None => None,
            },
        }
    }
}

impl View for CycleOutcome {
    type V = CycleReport;

    open spec fn view(&self) -> CycleReport {
        CycleReport {
            alarm: self.alarm,
            actuators: self.actuators,
            display: self.display@,
            halted: self.halted,
        }
    }
}

/// The reading that a measurement's result contributes: the reading itself
/// where the measurement succeeded and every value is plausible.
pub open spec fn accepted(result: Result<SensorReading, SensorError>) -> Option<SensorReading> {
    match result {
        Ok(reading) => if reading.plausible() {
            Some(reading)
        } else {
            None
        },
        Err(_) => None,
    }
}

/// The control loop's state.
pub struct ControlModel {
    /// Ticks since power-on, wrapping.
    pub now: u32,
    /// Ticks since the last tick on which a measurement was due.
    pub phase: u16,
    pub inputs: InputModel,
    pub alerts: AlertModel,
    pub screens: ScreenModel,
    /// The last reading that was accepted.
    pub last_reading: Option<SensorReading>,
    /// Measurements in a row that gave no reading, up to 255.
    pub misses: u8,
    /// The sensor could not be initialised; the loop is in its safe state.
    pub halted: bool,
}

impl ControlModel {
    /// The state at power-on: the first tick takes the first measurement.
    pub open spec fn initial() -> ControlModel {
        ControlModel {
            now: 0,
            phase: (SAMPLE_PERIOD_TICKS - 1) as u16,
            inputs: InputModel::initial(),
            alerts: AlertModel::initial(),
            screens: ScreenModel::initial(),
            last_reading: None,
            misses: 0,
            halted: false,
        }
    }

    /// The reading on display is older than `STALE_AFTER_MISSES` measurements.
    pub open spec fn stale(self) -> bool {
        self.misses >= STALE_AFTER_MISSES
    }

    /// What the display shows in this state.
    pub open spec fn display(self) -> DisplayRows {
        if self.halted {
            DisplayRows::init_failure()
        } else {
            match self.last_reading {
                None => DisplayRows::awaiting(self.screens.active(), self.alerts.alarm()),
                Some(reading) => {
                    let rows = self.screens.render(reading, self.alerts.alarm());
                    if self.stale() && self.screens.active() != Screen::Warning {
                        rows.stale()
                    } else {
                        rows
                    }
                },
            }
        }
    }

    /// The actuator levels in this state: off once halted, else as the alarm
    /// asks.
    pub open spec fn actuators(self) -> ActuatorOutputs {
        if self.halted {
            ActuatorOutputs::both(false)
        } else {
            self.alerts.outputs()
        }
    }

    /// What a measurement cycle that ends in this state reports.
    pub open spec fn report(self) -> CycleReport {
        CycleReport {
            alarm: self.alerts.alarm(),
            actuators: self.actuators(),
            display: self.display(),
            halted: self.halted,
        }
    }

    /// The tick count after `now`.
    pub open spec fn next_tick(now: u32) -> u32 {
        if now == u32::MAX {
            0
        } else {
            (now + 1) as u32
        }
    }

    /// One tick: the buttons are polled, a press is applied to the screen
    /// selection, and every `SAMPLE_PERIOD_TICKS` ticks a measurement is due.
    /// A halted loop does nothing.
    pub open spec fn tick(self, levels: ButtonLevels) -> (ControlModel, TickReport) {
        if self.halted {
            (self, TickReport { event: None, sample_due: false, display: None })
        } else {
            let now = ControlModel::next_tick(self.now);
            let polled = self.inputs.poll(now, levels);
            let screens = match polled.1 {
                Some(event) => self.screens.navigate(event),
                None => self.screens,
            };
            let phase = if self.phase + 1 >= SAMPLE_PERIOD_TICKS {
                0u16
            } else {
                (self.phase + 1) as u16
            };
            let next = ControlModel { now, phase, inputs: polled.0, screens, ..self };
            (
                next,
                TickReport {
                    event: polled.1,
                    sample_due: phase == 0,
                    display: if screens.active() != self.screens.active() {
                        Some(next.display())
                    } else {
                        None
                    },
                },
            )
        }
    }

    /// The state after a measurement that gave an accepted reading: the
    /// reading replaces the one kept, and drives the alarm together with the
    /// smoke detector.
    pub open spec fn with_reading(self, reading: SensorReading, smoke_pin: bool) -> ControlModel {
        let alerts = self.alerts.step(Observation::Fresh { reading, smoke_pin });
        ControlModel {
            alerts,
            screens: self.screens.update(alerts.alarm()),
            last_reading: Some(reading),
            misses: 0,
            ..self
        }
    }

    /// The state after a measurement that gave no reading: the reading kept
    /// stays, the miss is counted, and the alarm can rise from the smoke
    /// detector but cannot clear.
    pub open spec fn without_reading(self, smoke_pin: bool) -> ControlModel {
        let alerts = self.alerts.step(Observation::Stale { smoke_pin });
        ControlModel {
            alerts,
            screens: self.screens.update(alerts.alarm()),
            misses: if self.misses == u8::MAX {
                u8::MAX
            } else {
                (self.misses + 1) as u8
            },
            ..self
        }
    }

    /// The state after a measurement cycle. A sensor that does not answer
    /// halts the loop; a halted loop stays as it is.
    pub open spec fn complete_sample(
        self,
        result: Result<SensorReading, SensorError>,
        smoke_pin: bool,
    ) -> ControlModel {
        if self.halted {
            self
        } else if result == Err::<SensorReading, SensorError>(SensorError::InitFailure) {
            ControlModel { halted: true, ..self }
        } else {
            match accepted(result) {
                Some(reading) => self.with_reading(reading, smoke_pin),
                None => self.without_reading(smoke_pin),
            }
        }
    }
}

/// One thing that happens to the loop.
pub enum ControlEvent {
    /// A tick, with the button levels read on it.
    Tick { levels: ButtonLevels },
    /// The end of a measurement, with its result and the smoke detector's level.
    Sample { result: Result<SensorReading, SensorError>, smoke_pin: bool },
}

impl ControlEvent {
    /// The event is the end of a measurement.
    pub open spec fn is_sample(self) -> bool {
        self is Sample
    }

    /// The event shows a breach: smoke, or an accepted reading under the gas
    /// floor or over the temperature ceiling.
    pub open spec fn breaches(self) -> bool {
        match self {
            ControlEvent::Tick { .. } => false,
            ControlEvent::Sample { result, smoke_pin } => smoke_pin || match accepted(result) {
                Some(reading) => air_breach(reading),
                None => false,
            },
        }
    }

    /// The event reports a sensor that does not answer.
    pub open spec fn halts(self) -> bool {
        match self {
            ControlEvent::Tick { .. } => false,
            ControlEvent::Sample { result, .. } => result == Err::<SensorReading, SensorError>(
                SensorError::InitFailure,
            ),
        }
    }
}

/// The number of measurements that end in a sequence of events.
pub open spec fn count_samples(events: Seq<ControlEvent>) -> nat
    decreases events.len(),
{
    if events.len() == 0 {
        0
    } else {
        count_samples(events.drop_last()) + if events.last().is_sample() {
            1nat
        } else {
            0nat
        }
    }
}

impl ControlModel {
    /// What holds of every state the loop can reach: the sample phase is
    /// within the period, the warning screen is forced exactly while the
    /// alarm is latched, a data screen is selected under it, and the reading
    /// kept is a plausible one.
    pub open spec fn valid(self) -> bool {
        &&& self.phase < SAMPLE_PERIOD_TICKS
        &&& self.inputs.valid()
        &&& self.screens.valid()
        &&& self.screens.forced == self.alerts.alarm().latched
        &&& self.last_reading matches Some(reading) ==> reading.plausible()
    }

    /// The state after one event.
    pub open spec fn step(self, event: ControlEvent) -> ControlModel {
        match event {
            ControlEvent::Tick { levels } => self.tick(levels).0,
            ControlEvent::Sample { result, smoke_pin } => self.complete_sample(result, smoke_pin),
        }
    }

    /// The state after a sequence of events, first to last.
    pub open spec fn run(self, events: Seq<ControlEvent>) -> ControlModel
        decreases events.len(),
    {
        if events.len() == 0 {
            self
        } else {
            self.run(events.drop_last()).step(events.last())
        }
    }
}

/// Ties the components together: owns the input manager, the alert
/// controller and the screen state machine, and passes every value between
/// them.
pub struct ControlLoop {
    now: u32,
    phase: u16,
    inputs: InputManager,
    alerts: AlertController,
    screens: ScreenStateMachine,
    last_reading: Option<SensorReading>,
    misses: u8,
    halted: bool,
}

impl View for ControlLoop {
    type V = ControlModel;

    closed spec fn view(&self) -> ControlModel {
        ControlModel {
            now: self.now,
            phase: self.phase,
            inputs: self.inputs@,
            alerts: self.alerts@,
            screens: self.screens@,
            last_reading: self.last_reading,
            misses: self.misses,
            halted: self.halted,
        }
    }
}

impl ControlLoop {
    /// The loop at power-on.
    pub fn new() -> (control: ControlLoop)
        ensures
            control@ == ControlModel::initial(),
            control@.valid(),
    {
        ControlLoop {
            now: 0,
            phase: SAMPLE_PERIOD_TICKS - 1,
            inputs: InputManager::new(),
            alerts: AlertController::new(),
            screens: ScreenStateMachine::new(),
            last_reading: None,
            misses: 0,
            halted: false,
        }
    }

    /// Ticks since power-on, wrapping.
    pub fn now(&self) -> (tick: u32)
        ensures
            tick == self@.now,
    {
        self.now
    }

    /// Whether the loop has halted.
    pub fn is_halted(&self) -> (halted: bool)
        ensures
            halted == self@.halted,
    {
        self.halted
    }

    /// The rows for the display in the present state.
    pub fn display(&self) -> (content: DisplayContent)
        ensures
            content@ == self@.display(),
            content@.printable(),
    {
        if self.halted {
            return DisplayContent::init_failure();
        }
        let alarm: AlarmState = self.alerts.state();
        match &self.last_reading {
            None => DisplayContent::awaiting(self.screens.active(), &alarm),
            Some(reading) => {
                let content: DisplayContent = self.screens.render(reading, &alarm);
                if self.misses >= STALE_AFTER_MISSES && self.screens.active() != Screen::Warning {
                    content.mark_stale()
                } else {
                    content
                }
            },
        }
    }

    /// The levels for the buzzer and sprinkler lines in the present state.
    pub fn actuators(&self) -> (out: ActuatorOutputs)
        ensures
            out == self@.actuators(),
            out.buzzer == out.sprinkler,
            out.buzzer == (!self@.halted && self@.alerts.alarm().latched),
    {
        if self.halted {
            ActuatorOutputs::off()
        } else {
            self.alerts.outputs()
        }
    }

    /// What a measurement cycle that ends in the present state reports.
    fn report(&self) -> (outcome: CycleOutcome)
        ensures
            outcome@ == self@.report(),
            outcome.display@.printable(),
    {
        CycleOutcome {
            alarm: self.alerts.state(),
            actuators: self.actuators(),
            display: self.display(),
            halted: self.halted,
        }
    }

    /// Advances the loop by one tick with the button levels read on it.
    pub fn tick(&mut self, levels: ButtonLevels) -> (outcome: TickOutcome)
        ensures
            final(self)@ == old(self)@.tick(levels).0,
            outcome@ == old(self)@.tick(levels).1,
            outcome.display matches Some(content) ==> content@.printable(),
            old(self)@.valid() ==> final(self)@.valid(),
    {
        if self.halted {
            return TickOutcome { event: None, sample_due: false, display: None };
        }
        let now: u32 = if self.now == u32::MAX {
            0
        } else {
            self.now + 1
        };
        self.now = now;
        let before: Screen = self.screens.active();
        let event: Option<ButtonEvent> = self.inputs.poll(now, levels);
        match event {
            Some(press) => {
                self.screens.navigate(press);
            },
            None => {},
        }
        self.phase = if self.phase >= SAMPLE_PERIOD_TICKS - 1 {
            0
        } else {
            self.phase + 1
        };
        let display: Option<DisplayContent> = if self.screens.active() != before {
            Some(self.display())
        } else {
            None
        };
        TickOutcome { event, sample_due: self.phase == 0, display }
    }

    /// Takes the result of the measurement that a tick asked for, together
    /// with the smoke detector's level, and says what to drive and show.
    pub fn complete_sample(
        &mut self,
        result: Result<SensorReading, SensorError>,
        smoke_pin: bool,
    ) -> (outcome: CycleOutcome)
        ensures
            final(self)@ == old(self)@.complete_sample(result, smoke_pin),
            outcome@ == final(self)@.report(),
            outcome.display@.printable(),
            outcome.actuators.buzzer == outcome.actuators.sprinkler,
            outcome.actuators.buzzer == (!outcome.halted && outcome.alarm.latched),
            old(self)@.valid() ==> final(self)@.valid(),
    {
        if self.halted {
            return self.report();
        }
        let reading: Option<SensorReading> = match result {
            Ok(reading) => {
                if reading.is_plausible() {
                    Some(reading)
                } else {
                    None
                }
            },
            Err(SensorError::InitFailure) => {
                self.halted = true;
                return self.report();
            },
            Err(_) => None,
        };
        let alarm: AlarmState = match reading {
            Some(fresh) => {
                self.last_reading = Some(fresh);
                self.misses = 0;
                self.alerts.evaluate(&fresh, smoke_pin)
            },
            None => {
                if self.misses < u8::MAX {
                    self.misses = self.misses + 1;
                }
                self.alerts.evaluate_stale(smoke_pin)
            },
        };
        self.screens.update(&alarm);
        self.report()
    }

    /// Halts the loop because the sensor could not be initialised at start-up.
    pub fn init_failed(&mut self) -> (outcome: CycleOutcome)
        ensures
            final(self)@ == (ControlModel { halted: true, ..old(self)@ }),
            outcome@ == final(self)@.report(),
            outcome.halted,
            outcome.actuators == ActuatorOutputs::both(false),
            outcome.display@ == DisplayRows::init_failure(),
    {
        self.halted = true;
        self.report()
    }
}

/// A halted loop is in its safe state and stays there: buzzer and sprinkler
/// off, the initialisation-failure message on display, whatever ticks and
/// measurement results follow.
pub proof fn lemma_halt_is_safe_and_final(
    m: ControlModel,
    levels: ButtonLevels,
    result: Result<SensorReading, SensorError>,
    smoke_pin: bool,
)
    requires
        m.halted,
    ensures
        m.actuators() == ActuatorOutputs::both(false),
        m.display() == DisplayRows::init_failure(),
        m.tick(levels).0 == m,
        !m.tick(levels).1.sample_due,
        m.complete_sample(result, smoke_pin) == m,
{
}

/// A sensor that does not answer halts the loop at once, with buzzer and
/// sprinkler off.
pub proof fn lemma_init_failure_halts(m: ControlModel, smoke_pin: bool)
    ensures
        m.complete_sample(Err(SensorError::InitFailure), smoke_pin).halted,
        m.complete_sample(Err(SensorError::InitFailure), smoke_pin).actuators()
            == ActuatorOutputs::both(false),
{
}

/// A measurement that gives no reading never clears a latched alarm and
/// never replaces the reading kept: not a timeout, not an implausible
/// sample, whatever the smoke detector reads.
pub proof fn lemma_missed_sample_keeps_alarm(
    m: ControlModel,
    result: Result<SensorReading, SensorError>,
    smoke_pin: bool,
)
    requires
        !m.halted,
        m.alerts.alarm().latched,
        accepted(result) is None,
        result != Err::<SensorReading, SensorError>(SensorError::InitFailure),
    ensures
        m.complete_sample(result, smoke_pin).alerts.alarm().latched,
        m.complete_sample(result, smoke_pin).actuators() == ActuatorOutputs::both(true),
        m.complete_sample(result, smoke_pin).screens.active() == Screen::Warning,
        m.complete_sample(result, smoke_pin).last_reading == m.last_reading,
{
}

/// Buttons move the screen selection only: a tick changes neither the alarm
/// nor the actuator levels nor the reading kept.
pub proof fn lemma_tick_leaves_alarm(m: ControlModel, levels: ButtonLevels)
    ensures
        m.tick(levels).0.alerts == m.alerts,
        m.tick(levels).0.actuators() == m.actuators(),
        m.tick(levels).0.last_reading == m.last_reading,
        m.tick(levels).0.halted == m.halted,
{
}

/// A measurement is due on one tick in every `SAMPLE_PERIOD_TICKS`: the tick
/// after one on which it was due asks for none, nor do those that follow
/// until the period is over.
pub proof fn lemma_sample_period(m: ControlModel, levels: ButtonLevels)
    requires
        !m.halted,
        m.phase < SAMPLE_PERIOD_TICKS,
    ensures
        m.tick(levels).1.sample_due <==> m.phase == SAMPLE_PERIOD_TICKS - 1,
        m.tick(levels).0.phase < SAMPLE_PERIOD_TICKS,
        m.tick(levels).0.phase == (m.phase + 1) % (SAMPLE_PERIOD_TICKS as int),
{
}


/// The loop starts in a valid state and every event leaves it in one.
pub proof fn lemma_loop_stays_valid(m: ControlModel, event: ControlEvent)
    requires
        m.valid(),
    ensures
        ControlModel::initial().valid(),
        m.step(event).valid(),
{
}

/// In a valid state that is not halted, a latched alarm has buzzer and
/// sprinkler on and the warning screen on display, and no button press
/// changes the screen.
pub proof fn lemma_alarm_sounds_and_shows(m: ControlModel, levels: ButtonLevels)
    requires
        m.valid(),
        !m.halted,
        m.alerts.alarm().latched,
    ensures
        m.actuators() == ActuatorOutputs::both(true),
        m.screens.active() == Screen::Warning,
        m.display() == DisplayRows::warning(m.alerts.alarm()),
        m.tick(levels).0.screens == m.screens,
        m.tick(levels).1.display is None,
{
}

/// As long as no measurement shows a breach, an alarm that is not latched
/// stays so through every tick and every measurement, with buzzer and
/// sprinkler off and a data screen on display.
pub proof fn lemma_quiet_loop_stays_off(m: ControlModel, events: Seq<ControlEvent>)
    requires
        m.valid(),
        !m.alerts.alarm().latched,
        forall|i: int| 0 <= i < events.len() ==> !(#[trigger] events[i]).breaches(),
    ensures
        forall|k: int|
            0 <= k <= events.len() ==> {
                &&& !(#[trigger] m.run(events.take(k))).alerts.alarm().latched
                &&& m.run(events.take(k)).actuators() == ActuatorOutputs::both(false)
                &&& m.run(events.take(k)).screens.active() != Screen::Warning
            },
{
    assert forall|k: int| 0 <= k <= events.len() implies {
        &&& !(#[trigger] m.run(events.take(k))).alerts.alarm().latched
        &&& m.run(events.take(k)).actuators() == ActuatorOutputs::both(false)
        &&& m.run(events.take(k)).screens.active() != Screen::Warning
    } by {
        let prefix = events.take(k);
        lemma_quiet_run(m, prefix);
    }
}

/// A run of events without a breach keeps a valid, unlatched state valid and
/// unlatched.
proof fn lemma_quiet_run(m: ControlModel, events: Seq<ControlEvent>)
    requires
        m.valid(),
        !m.alerts.alarm().latched,
        forall|i: int| 0 <= i < events.len() ==> !(#[trigger] events[i]).breaches(),
    ensures
        m.run(events).valid(),
        !m.run(events).alerts.alarm().latched,
    decreases events.len(),
{
    if events.len() > 0 {
        let before = events.drop_last();
        lemma_quiet_run(m, before);
    }
}

/// A measurement that shows a breach latches the alarm at once, and the
/// alarm stays latched, buzzer and sprinkler on and the warning screen on
/// display, through any number of ticks and the next `CLEAR_DEBOUNCE`
/// measurements, whatever they find, unless the sensor stops answering.
pub proof fn lemma_loop_alarm_holds(m: ControlModel, breach: ControlEvent, events: Seq<ControlEvent>)
    requires
        m.valid(),
        !m.halted,
        breach.breaches(),
        !breach.halts(),
        forall|i: int| 0 <= i < events.len() ==> !(#[trigger] events[i]).halts(),
        count_samples(events) <= CLEAR_DEBOUNCE,
    ensures
        m.step(breach).alerts.alarm().latched,
        m.step(breach).run(events).alerts.alarm().latched,
        m.step(breach).run(events).actuators() == ActuatorOutputs::both(true),
        m.step(breach).run(events).screens.active() == Screen::Warning,
{
    lemma_alarm_run(m.step(breach), events);
}

/// How far the clear debounce has come after a run of events.
proof fn lemma_alarm_run(m: ControlModel, events: Seq<ControlEvent>)
    requires
        m.valid(),
        !m.halted,
        (m.alerts.smoke.active && m.alerts.smoke.quiet == 0) || (m.alerts.air.active
            && m.alerts.air.quiet == 0),
        forall|i: int| 0 <= i < events.len() ==> !(#[trigger] events[i]).halts(),
        count_samples(events) <= CLEAR_DEBOUNCE,
    ensures
        m.run(events).valid(),
        !m.run(events).halted,
        (m.run(events).alerts.smoke.active && m.run(events).alerts.smoke.quiet <= count_samples(
            events,
        )) || (m.run(events).alerts.air.active && m.run(events).alerts.air.quiet <= count_samples(
            events,
        )),
    decreases events.len(),
{
    if events.len() > 0 {
        let before = events.drop_last();
        lemma_alarm_run(m, before);
    }
}

} // verus!
