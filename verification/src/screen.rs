//! Which screen the display shows: four data screens that Up and Down cycle
//! through, and the warning screen that an alarm forces and that gives way to
//! the screen selected before once the alarm lifts.

use crate::alert::AlarmState;
use crate::display::{DisplayContent, DisplayRows};
use crate::input::ButtonEvent;
use crate::reading::SensorReading;
use vstd::prelude::*;

verus! {

/// What the display can show.
#[derive(Clone, Copy, Debug, PartialEq, Eq, Structural)]
pub enum Screen {
    Temperature,
    Humidity,
    Pressure,
    Date,
    /// Shown while an alarm is latched; buttons cannot reach or leave it.
    Warning,
}

impl Screen {
    /// One of the four screens that show a reading.
    pub open spec fn is_data(self) -> bool {
        self != Screen::Warning
    }

    /// The data screen after this one, the first after the last.
    pub open spec fn next(self) -> Screen {
        match self {
            Screen::Temperature => Screen::Humidity,
            Screen::Humidity => Screen::Pressure,
            Screen::Pressure => Screen::Date,
            Screen::Date => Screen::Temperature,
            Screen::Warning => Screen::Warning,
        }
    }

    /// The data screen before this one, the last before the first.
    pub open spec fn previous(self) -> Screen {
        match self {
            Screen::Temperature => Screen::Date,
            Screen::Humidity => Screen::Temperature,
            Screen::Pressure => Screen::Humidity,
            Screen::Date => Screen::Pressure,
            Screen::Warning => Screen::Warning,
        }
    }

    /// Steps forward through the data screens.
    pub fn forward(self) -> (s: Screen)
        ensures
            s == self.next(),
    {
        match self {
            Screen::Temperature => Screen::Humidity,
            Screen::Humidity => Screen::Pressure,
            Screen::Pressure => Screen::Date,
            Screen::Date => Screen::Temperature,
            Screen::Warning => Screen::Warning,
        }
    }

    /// Steps backward through the data screens.
    pub fn backward(self) -> (s: Screen)
        ensures
            s == self.previous(),
    {
        match self {
            Screen::Temperature => Screen::Date,
            Screen::Humidity => Screen::Temperature,
            Screen::Pressure => Screen::Humidity,
            Screen::Date => Screen::Pressure,
            Screen::Warning => Screen::Warning,
        }
    }
}

/// The screen selection's state: the data screen selected by the buttons,
/// and whether the warning screen is forced over it.
pub struct ScreenModel {
    /// The data screen shown when no alarm is latched, and returned to when
    /// one lifts.
    pub selected: Screen,
    /// The warning screen is forced.
    pub forced: bool,
}

impl ScreenModel {
    /// The selected screen is a data screen.
    pub open spec fn valid(self) -> bool {
        self.selected.is_data()
    }

    /// Temperature selected, nothing forced.
    pub open spec fn initial() -> ScreenModel {
        ScreenModel { selected: Screen::Temperature, forced: false }
    }

    /// The screen on display.
    pub open spec fn active(self) -> Screen {
        if self.forced {
            Screen::Warning
        } else {
            self.selected
        }
    }

    /// The state after a button press. Up steps forward and Down backward
    /// through the data screens; while the warning screen is forced no press
    /// does anything. Select has no meaning yet on any screen: the arm that
    /// leaves the state as it is, is the place to give it one.
    pub open spec fn navigate(self, event: ButtonEvent) -> ScreenModel {
        if self.forced {
            self
        } else {
            match event {
                ButtonEvent::Up => ScreenModel { selected: self.selected.next(), forced: false },
                ButtonEvent::Down => ScreenModel {
                    selected: self.selected.previous(),
                    forced: false,
                },
                ButtonEvent::Select => self,
            }
        }
    }

    /// The state after a sequence of presses, first to last.
    pub open spec fn navigate_all(self, events: Seq<ButtonEvent>) -> ScreenModel
        decreases events.len(),
    {
        if events.len() == 0 {
            self
        } else {
            self.navigate_all(events.drop_last()).navigate(events.last())
        }
    }

    /// The state after an evaluation reported `alarm`: the warning screen is
    /// forced exactly while the alarm is latched, and the selection is kept.
    pub open spec fn update(self, alarm: AlarmState) -> ScreenModel {
        ScreenModel { selected: self.selected, forced: alarm.latched }
    }

    /// What the display shows in this state.
    pub open spec fn render(self, reading: SensorReading, alarm: AlarmState) -> DisplayRows {
        DisplayRows::screen(self.active(), reading, alarm)
    }
}

/// Holds the screen selection, follows button presses and alarms, and lays
/// out the active screen.
pub struct ScreenStateMachine {
    selected: Screen,
    forced: bool,
}

impl View for ScreenStateMachine {
    type V = ScreenModel;

    closed spec fn view(&self) -> ScreenModel {
        ScreenModel { selected: self.selected, forced: self.forced }
    }
}

impl ScreenStateMachine {
    #[verifier::type_invariant]
    spec fn selects_data_screen(self) -> bool {
        self.selected != Screen::Warning
    }

    /// A machine showing the temperature screen.
    pub fn new() -> (m: ScreenStateMachine)
        ensures
            m@ == ScreenModel::initial(),
            m@.valid(),
    {
        ScreenStateMachine { selected: Screen::Temperature, forced: false }
    }

    /// The screen on display.
    pub fn active(&self) -> (s: Screen)
        ensures
            s == self@.active(),
            self@.valid(),
    {
        proof {
            use_type_invariant(self);
        }
        if self.forced {
            Screen::Warning
        } else {
            self.selected
        }
    }

    /// Applies a button press.
    pub fn navigate(&mut self, event: ButtonEvent)
        ensures
            final(self)@ == old(self)@.navigate(event),
            final(self)@.valid(),
    {
        proof {
            use_type_invariant(&*self);
        }
        if !self.forced {
            match event {
                ButtonEvent::Up => {
                    self.selected = self.selected.forward();
                },
                ButtonEvent::Down => {
                    self.selected = self.selected.backward();
                },
                ButtonEvent::Select => {},
            }
        }
    }

    /// Follows the alarm: forces the warning screen while it is latched and
    /// goes back to the selected screen when it no longer is.
    pub fn update(&mut self, alarm: &AlarmState)
        ensures
            final(self)@ == old(self)@.update(*alarm),
            final(self)@.valid(),
    {
        proof {
            use_type_invariant(&*self);
        }
        self.forced = alarm.latched;
    }

    /// Lays out the active screen: a data screen shows its reading with one
    /// decimal place and its unit, the warning screen a fixed message and
    /// what raised the alarm.
    pub fn render(&self, reading: &SensorReading, alarm: &AlarmState) -> (content: DisplayContent)
        ensures
            content@ == self@.render(*reading, *alarm),
            content@.printable(),
    {
        DisplayContent::screen(self.active(), reading, alarm)
    }
}

/// Navigation is cyclic over the four data screens: four presses of Down, or
/// of Up, lead back to where they started and fewer do not, and Up and Down
/// undo each other.
pub proof fn lemma_navigation_cycles(m: ScreenModel)
    requires
        m.valid(),
        !m.forced,
    ensures
        m.navigate(ButtonEvent::Down).navigate(ButtonEvent::Down).navigate(
            ButtonEvent::Down,
        ).navigate(ButtonEvent::Down) == m,
        m.navigate(ButtonEvent::Up).navigate(ButtonEvent::Up).navigate(ButtonEvent::Up).navigate(
            ButtonEvent::Up,
        ) == m,
        m.navigate(ButtonEvent::Down) != m,
        m.navigate(ButtonEvent::Down).navigate(ButtonEvent::Down) != m,
        m.navigate(ButtonEvent::Down).navigate(ButtonEvent::Down).navigate(ButtonEvent::Down) != m,
        m.navigate(ButtonEvent::Up).navigate(ButtonEvent::Down) == m,
        m.navigate(ButtonEvent::Down).navigate(ButtonEvent::Up) == m,
        m.navigate(ButtonEvent::Down).valid(),
        m.navigate(ButtonEvent::Up).valid(),
{
}

/// While the warning screen is forced, no button press changes anything: the
/// warning screen stays on display and the selection under it is kept.
pub proof fn lemma_forced_ignores_buttons(m: ScreenModel, events: Seq<ButtonEvent>)
    requires
        m.forced,
    ensures
        m.navigate_all(events) == m,
        m.navigate_all(events).active() == Screen::Warning,
    decreases events.len(),
{
    if events.len() > 0 {
        lemma_forced_ignores_buttons(m, events.drop_last());
    }
}

/// Select has no effect on any screen.
pub proof fn lemma_select_does_nothing(m: ScreenModel)
    ensures
        m.navigate(ButtonEvent::Select) == m,
{
}

/// An alarm forces the warning screen whatever was selected, and when it
/// lifts the display is back on the screen that was active before, whatever
/// buttons were pressed in between.
pub proof fn lemma_alarm_returns_to_selection(
    m: ScreenModel,
    raised: AlarmState,
    events: Seq<ButtonEvent>,
    lifted: AlarmState,
)
    requires
        !m.forced,
        raised.latched,
        !lifted.latched,
    ensures
        m.update(raised).active() == Screen::Warning,
        m.update(raised).navigate_all(events).active() == Screen::Warning,
        m.update(raised).navigate_all(events).update(lifted) == m,
        m.update(raised).navigate_all(events).update(lifted).active() == m.active(),
{
    lemma_forced_ignores_buttons(m.update(raised), events);
}

} // verus!
