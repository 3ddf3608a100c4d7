//! Three push buttons, debounced: a press counts once the line has read
//! pressed on three ticks in a row, and counts once however long it is held.

use vstd::prelude::*;

verus! {

/// Number of consecutive ticks a line must read the other level before the
/// debounced level follows it.
pub const DEBOUNCE_TICKS: u8 = 3;

/// A confirmed press of one of the three buttons.
#[derive(Clone, Copy, Debug, PartialEq, Eq, Structural)]
pub enum ButtonEvent {
    Up,
    Down,
    Select,
}

/// The three button lines as read on one tick; `true` is pressed.
#[derive(Clone, Copy, Debug, PartialEq, Eq, Structural)]
pub struct ButtonLevels {
    pub up: bool,
    pub down: bool,
    pub select: bool,
}

/// One line's debouncer: the level it has settled on, and for how many ticks
/// in a row the line has read the other level.
#[derive(Clone, Copy, Debug, PartialEq, Eq, Structural)]
pub struct Debouncer {
    /// The settled level is pressed.
    pub pressed: bool,
    /// Consecutive ticks on which the line read the opposite of `pressed`.
    pub run: u8,
}

impl ButtonLevels {
    /// The level of the line that belongs to `button`.
    pub open spec fn of(self, button: ButtonEvent) -> bool {
        match button {
            ButtonEvent::Up => self.up,
            ButtonEvent::Down => self.down,
            ButtonEvent::Select => self.select,
        }
    }

    /// Only `button` pressed.
    pub open spec fn only(button: ButtonEvent) -> ButtonLevels {
        ButtonLevels {
            up: button == ButtonEvent::Up,
            down: button == ButtonEvent::Down,
            select: button == ButtonEvent::Select,
        }
    }
}

impl Debouncer {
    /// Settled on released.
    pub open spec fn idle() -> Debouncer {
        Debouncer { pressed: false, run: 0 }
    }

    /// The run is shorter than the debounce window.
    pub open spec fn valid(self) -> bool {
        self.run < DEBOUNCE_TICKS
    }

    /// This sample completes a run of `DEBOUNCE_TICKS` readings of `level`
    /// against the settled one.
    pub open spec fn flips(self, level: bool) -> bool {
        level != self.pressed && self.run + 1 >= DEBOUNCE_TICKS
    }

    /// This sample confirms a press: the settled level goes from released to
    /// pressed.
    pub open spec fn confirms(self, level: bool) -> bool {
        level && self.flips(level)
    }

    /// The debouncer after one more sample. A reading of the settled level
    /// ends any run against it, so a bounce shorter than the window leaves
    /// no trace.
    pub open spec fn sampled(self, level: bool) -> Debouncer {
        if level == self.pressed {
            Debouncer { pressed: self.pressed, run: 0 }
        } else if self.run + 1 >= DEBOUNCE_TICKS {
            Debouncer { pressed: level, run: 0 }
        } else {
            Debouncer { pressed: self.pressed, run: (self.run + 1) as u8 }
        }
    }

    /// Takes one sample; the flag says whether it confirmed a press.
    pub fn sample(self, level: bool) -> (r: (Debouncer, bool))
        ensures
            r.0 == self.sampled(level),
            r.1 == self.confirms(level),
    {
        if level == self.pressed {
            (Debouncer { pressed: self.pressed, run: 0 }, false)
        } else if self.run >= DEBOUNCE_TICKS - 1 {
            (Debouncer { pressed: level, run: 0 }, level)
        } else {
            (Debouncer { pressed: self.pressed, run: self.run + 1 }, false)
        }
    }
}

/// One poll: the tick it is made on and the levels read.
pub struct Poll {
    pub tick: u32,
    pub levels: ButtonLevels,
}

/// The input manager's state.
pub struct InputModel {
    pub up: Debouncer,
    pub down: Debouncer,
    pub select: Debouncer,
    /// A press of Up is confirmed and not yet reported.
    pub pending_up: bool,
    /// A press of Down is confirmed and not yet reported.
    pub pending_down: bool,
    /// A press of Select is confirmed and not yet reported.
    pub pending_select: bool,
    /// The tick of the last poll that sampled the lines.
    pub last_tick: Option<u32>,
}

impl InputModel {
    /// All lines settled on released, nothing pending, no poll made yet.
    pub open spec fn initial() -> InputModel {
        InputModel {
            up: Debouncer::idle(),
            down: Debouncer::idle(),
            select: Debouncer::idle(),
            pending_up: false,
            pending_down: false,
            pending_select: false,
            last_tick: None,
        }
    }

    /// The debouncer of the line that belongs to `button`.
    pub open spec fn line(self, button: ButtonEvent) -> Debouncer {
        match button {
            ButtonEvent::Up => self.up,
            ButtonEvent::Down => self.down,
            ButtonEvent::Select => self.select,
        }
    }

    /// A press of `button` is confirmed and not yet reported.
    pub open spec fn pending(self, button: ButtonEvent) -> bool {
        match button {
            ButtonEvent::Up => self.pending_up,
            ButtonEvent::Down => self.pending_down,
            ButtonEvent::Select => self.pending_select,
        }
    }

    /// No confirmed press waits to be reported.
    pub open spec fn nothing_pending(self) -> bool {
        !self.pending_up && !self.pending_down && !self.pending_select
    }

    /// Every run is shorter than the debounce window.
    pub open spec fn valid(self) -> bool {
        self.up.valid() && self.down.valid() && self.select.valid()
    }

    /// The state after sampling all three lines on tick `tick`: each
    /// debouncer advances, and each press confirmed now becomes pending.
    pub open spec fn sampled(self, tick: u32, levels: ButtonLevels) -> InputModel {
        InputModel {
            up: self.up.sampled(levels.up),
            down: self.down.sampled(levels.down),
            select: self.select.sampled(levels.select),
            pending_up: self.pending_up || self.up.confirms(levels.up),
            pending_down: self.pending_down || self.down.confirms(levels.down),
            pending_select: self.pending_select || self.select.confirms(levels.select),
            last_tick: Some(tick),
        }
    }

    /// Reports at most one pending press, Up before Down before Select, and
    /// marks it as reported.
    pub open spec fn delivered(self) -> (InputModel, Option<ButtonEvent>) {
        if self.pending_up {
            (InputModel { pending_up: false, ..self }, Some(ButtonEvent::Up))
        } else if self.pending_down {
            (InputModel { pending_down: false, ..self }, Some(ButtonEvent::Down))
        } else if self.pending_select {
            (InputModel { pending_select: false, ..self }, Some(ButtonEvent::Select))
        } else {
            (self, None)
        }
    }

    /// One poll. The lines are sampled once per tick: a second poll on the
    /// tick of the one before changes nothing and reports nothing.
    pub open spec fn poll(self, tick: u32, levels: ButtonLevels) -> (InputModel, Option<ButtonEvent>) {
        if self.last_tick == Some(tick) {
            (self, None)
        } else {
            self.sampled(tick, levels).delivered()
        }
    }

    /// The state after a sequence of polls, first to last.
    pub open spec fn after(self, polls: Seq<Poll>) -> InputModel
        decreases polls.len(),
    {
        if polls.len() == 0 {
            self
        } else {
            self.after(polls.drop_last()).poll(polls.last().tick, polls.last().levels).0
        }
    }

    /// What each poll of a sequence reports, first to last.
    pub open spec fn events(self, polls: Seq<Poll>) -> Seq<Option<ButtonEvent>>
        decreases polls.len(),
    {
        if polls.len() == 0 {
            Seq::empty()
        } else {
            self.events(polls.drop_last()).push(
                self.after(polls.drop_last()).poll(polls.last().tick, polls.last().levels).1,
            )
        }
    }
}

/// The number of presses among what a sequence of polls reported.
pub open spec fn count_presses(events: Seq<Option<ButtonEvent>>) -> nat
    decreases events.len(),
{
    if events.len() == 0 {
        0
    } else {
        count_presses(events.drop_last()) + if events.last() is Some {
            1nat
        } else {
            0nat
        }
    }
}

/// No poll of the sequence is made on the tick of the one before it, nor the
/// first on the tick `m` was last polled on.
pub open spec fn ticks_advance(m: InputModel, polls: Seq<Poll>) -> bool {
    &&& polls.len() > 0 ==> m.last_tick != Some(polls[0].tick)
    &&& forall|i: int| 0 < i < polls.len() ==> (#[trigger] polls[i]).tick != polls[i - 1].tick
}

/// Reads three button lines tick by tick and reports each confirmed press once.
pub struct InputManager {
    up: Debouncer,
    down: Debouncer,
    select: Debouncer,
    pending_up: bool,
    pending_down: bool,
    pending_select: bool,
    last_tick: Option<u32>,
}

impl View for InputManager {
    type V = InputModel;

    closed spec fn view(&self) -> InputModel {
        InputModel {
            up: self.up,
            down: self.down,
            select: self.select,
            pending_up: self.pending_up,
            pending_down: self.pending_down,
            pending_select: self.pending_select,
            last_tick: self.last_tick,
        }
    }
}

impl InputManager {
    /// A manager with all lines settled on released.
    pub fn new() -> (m: InputManager)
        ensures
            m@ == InputModel::initial(),
    {
        InputManager {
            up: Debouncer { pressed: false, run: 0 },
            down: Debouncer { pressed: false, run: 0 },
            select: Debouncer { pressed: false, run: 0 },
            pending_up: false,
            pending_down: false,
            pending_select: false,
            last_tick: None,
        }
    }

    /// Takes the levels read on tick `now_tick` and reports a confirmed
    /// press, if one is due.
    pub fn poll(&mut self, now_tick: u32, levels: ButtonLevels) -> (event: Option<ButtonEvent>)
        ensures
            final(self)@ == old(self)@.poll(now_tick, levels).0,
            event == old(self)@.poll(now_tick, levels).1,
    {
        match self.last_tick {
            Some(t) => {
                if t == now_tick {
                    return None;
                }
            },
            None => {},
        }
        let (up, up_hit) = self.up.sample(levels.up);
        let (down, down_hit) = self.down.sample(levels.down);
        let (select, select_hit) = self.select.sample(levels.select);
        self.up = up;
        self.down = down;
        self.select = select;
        self.pending_up = self.pending_up || up_hit;
        self.pending_down = self.pending_down || down_hit;
        self.pending_select = self.pending_select || select_hit;
        self.last_tick = Some(now_tick);
        if self.pending_up {
            self.pending_up = false;
            Some(ButtonEvent::Up)
        } else if self.pending_down {
            self.pending_down = false;
            Some(ButtonEvent::Down)
        } else if self.pending_select {
            self.pending_select = false;
            Some(ButtonEvent::Select)
        } else {
            None
        }
    }
}

/// Polling keeps every run shorter than the debounce window.
pub proof fn lemma_poll_keeps_valid(m: InputModel, tick: u32, levels: ButtonLevels)
    requires
        m.valid(),
    ensures
        m.poll(tick, levels).0.valid(),
{
}

/// A poll reports a press only of a button whose press is pending or
/// confirmed by this very sample, and reports none on a repeated tick.
pub proof fn lemma_press_has_a_cause(m: InputModel, tick: u32, levels: ButtonLevels)
    ensures
        m.poll(tick, levels).1 matches Some(button) ==> {
            ||| (button == ButtonEvent::Up && (m.pending_up || m.up.confirms(levels.up)))
            ||| (button == ButtonEvent::Down && (m.pending_down || m.down.confirms(levels.down)))
            ||| (button == ButtonEvent::Select && (m.pending_select || m.select.confirms(
                levels.select,
            )))
        },
        m.last_tick == Some(tick) ==> m.poll(tick, levels) == (m, None::<ButtonEvent>),
{
}

/// A button held down yields exactly one press. From a state in which the
/// button's line is settled on released and nothing is pending, polls on
/// advancing ticks that all read this button pressed and the others released
/// report one press, this button's, once there are `DEBOUNCE_TICKS` of them;
/// the button stays settled on pressed from then on.
pub proof fn lemma_held_button_one_press(m: InputModel, button: ButtonEvent, polls: Seq<Poll>)
    requires
        m.valid(),
        m.nothing_pending(),
        !m.line(button).pressed,
        ticks_advance(m, polls),
        forall|i: int| 0 <= i < polls.len() ==> (#[trigger] polls[i]).levels == ButtonLevels::only(button),
        polls.len() >= DEBOUNCE_TICKS,
    ensures
        count_presses(m.events(polls)) == 1,
        forall|i: int|
            0 <= i < polls.len() ==> (#[trigger] m.events(polls)[i]) is Some ==> m.events(polls)[i]
                == Some(button),
        m.after(polls).line(button).pressed,
        m.after(polls).nothing_pending(),
{
    lemma_held_button_progress(m, button, polls);
}

/// How far a held button has come after any number of polls.
proof fn lemma_held_button_progress(m: InputModel, button: ButtonEvent, polls: Seq<Poll>)
    requires
        m.valid(),
        m.nothing_pending(),
        !m.line(button).pressed,
        ticks_advance(m, polls),
        forall|i: int| 0 <= i < polls.len() ==> (#[trigger] polls[i]).levels == ButtonLevels::only(button),
    ensures
        m.events(polls).len() == polls.len(),
        m.after(polls).valid(),
        m.after(polls).nothing_pending(),
        polls.len() > 0 ==> m.after(polls).last_tick == Some(polls.last().tick),
        forall|i: int|
            0 <= i < polls.len() ==> (#[trigger] m.events(polls)[i]) is Some ==> m.events(polls)[i]
                == Some(button),
        m.line(button).run + polls.len() < DEBOUNCE_TICKS ==> {
            &&& !m.after(polls).line(button).pressed
            &&& m.after(polls).line(button).run == m.line(button).run + polls.len()
            &&& count_presses(m.events(polls)) == 0
        },
        m.line(button).run + polls.len() >= DEBOUNCE_TICKS ==> {
            &&& m.after(polls).line(button).pressed
            &&& m.after(polls).line(button).run == 0
            &&& count_presses(m.events(polls)) == 1
        },
    decreases polls.len(),
{
    if polls.len() > 0 {
        let before = polls.drop_last();
        lemma_held_button_progress(m, button, before);
        assert(m.events(polls).drop_last() =~= m.events(before));
    }
}

/// A held button does not repeat. Once its line is settled on pressed and
/// its press is reported, no poll reports it again for as long as the line
/// reads pressed, whatever the other two lines do.
pub proof fn lemma_held_button_does_not_repeat(m: InputModel, button: ButtonEvent, polls: Seq<Poll>)
    requires
        m.line(button).pressed,
        !m.pending(button),
        forall|i: int| 0 <= i < polls.len() ==> (#[trigger] polls[i]).levels.of(button),
    ensures
        m.events(polls).len() == polls.len(),
        forall|i: int| 0 <= i < polls.len() ==> (#[trigger] m.events(polls)[i]) != Some(button),
        m.after(polls).line(button).pressed,
        !m.after(polls).pending(button),
    decreases polls.len(),
{
    if polls.len() > 0 {
        let before = polls.drop_last();
        lemma_held_button_does_not_repeat(m, button, before);
    }
}

} // verus!
