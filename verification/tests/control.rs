use envmon::alert::{ActuatorOutputs, AlarmState, CLEAR_DEBOUNCE};
use envmon::control::{ControlLoop, CycleOutcome, SAMPLE_PERIOD_TICKS, STALE_AFTER_MISSES};
use envmon::display::DisplayContent;
use envmon::input::{ButtonEvent, ButtonLevels};
use envmon::reading::{SensorError, SensorReading};
use envmon::sensor::{PollResult, SampleStep, SensorReader};

const RELEASED: ButtonLevels = ButtonLevels { up: false, down: false, select: false };
const UP: ButtonLevels = ButtonLevels { up: true, down: false, select: false };
const DOWN: ButtonLevels = ButtonLevels { up: false, down: true, select: false };
const ON: ActuatorOutputs = ActuatorOutputs { buzzer: true, sprinkler: true };
const OFF: ActuatorOutputs = ActuatorOutputs { buzzer: false, sprinkler: false };
const CLEAR: AlarmState =
    AlarmState { smoke_detected: false, gas_threshold_breached: false, latched: false };

fn rows(content: &DisplayContent) -> (String, String) {
    (
        String::from_utf8(content.top.to_vec()).unwrap(),
        String::from_utf8(content.bottom.to_vec()).unwrap(),
    )
}

fn shows(content: &DisplayContent, top: &str, bottom: &str) -> bool {
    rows(content) == (format!("{:<16}", top), format!("{:<16}", bottom))
}

fn reading_at(control: &ControlLoop, temperature_centi: i32, gas_resistance_ohm: u32) -> SensorReading {
    SensorReading {
        temperature_centi,
        humidity_milli: 45_000,
        pressure_pa: 101_325,
        gas_resistance_ohm,
        timestamp_tick: control.now(),
    }
}

/// Ticks with no button pressed until a measurement is due.
fn wait_for_sample(control: &mut ControlLoop) -> u32 {
    let mut ticks = 0;
    loop {
        ticks += 1;
        if control.tick(RELEASED).sample_due {
            return ticks;
        }
        assert!(ticks < 1000);
    }
}

/// One measurement cycle with a safe reading of 22.0 degrees and 500 kilo-ohm.
fn safe_cycle(control: &mut ControlLoop, smoke_pin: bool) -> CycleOutcome {
    wait_for_sample(control);
    let reading = reading_at(control, 2200, 500_000);
    control.complete_sample(Ok(reading), smoke_pin)
}

/// One measurement cycle that ends with the given error.
fn failed_cycle(control: &mut ControlLoop, error: SensorError, smoke_pin: bool) -> CycleOutcome {
    wait_for_sample(control);
    control.complete_sample(Err(error), smoke_pin)
}

/// Holds the given levels for four ticks, then releases for four.
fn press(control: &mut ControlLoop, levels: ButtonLevels) -> (Vec<ButtonEvent>, Option<DisplayContent>) {
    let mut events = Vec::new();
    let mut display = None;
    for l in [levels, levels, levels, levels, RELEASED, RELEASED, RELEASED, RELEASED] {
        let outcome = control.tick(l);
        if let Some(e) = outcome.event {
            events.push(e);
        }
        if outcome.display.is_some() {
            display = outcome.display;
        }
    }
    (events, display)
}

#[test]
fn periods_have_the_documented_values() {
    assert_eq!(SAMPLE_PERIOD_TICKS, 100);
    assert_eq!(STALE_AFTER_MISSES, 3);
}

#[test]
fn a_new_loop_is_idle_and_safe() {
    let control = ControlLoop::new();
    assert_eq!(control.now(), 0);
    assert!(!control.is_halted());
    assert_eq!(control.actuators(), OFF);
    assert!(shows(&control.display(), "Temperature", "no data"));
}

#[test]
fn first_measurement_is_due_on_the_first_tick() {
    let mut control = ControlLoop::new();
    let outcome = control.tick(RELEASED);
    assert!(outcome.sample_due);
    assert_eq!(outcome.event, None);
    assert_eq!(outcome.display, None);
    assert_eq!(control.now(), 1);
}

#[test]
fn a_measurement_is_due_every_hundredth_tick() {
    let mut control = ControlLoop::new();
    let mut due = Vec::new();
    for _ in 0..350 {
        if control.tick(RELEASED).sample_due {
            due.push(control.now());
        }
    }
    assert_eq!(due, vec![1, 101, 201, 301]);
}

#[test]
fn end_to_end_smoke_alarm() {
    let mut control = ControlLoop::new();

    // A safe reading: the temperature screen shows it, the actuators are off.
    let outcome = safe_cycle(&mut control, false);
    assert!(shows(&outcome.display, "Temperature", "22.0 C"));
    assert_eq!(outcome.actuators, OFF);
    assert_eq!(outcome.alarm, CLEAR);
    assert!(!outcome.halted);

    // Smoke for five evaluations in a row: warning forced, buzzer and sprinkler on.
    for _ in 0..5 {
        let outcome = safe_cycle(&mut control, true);
        assert!(shows(&outcome.display, "!! WARNING !!", "SMOKE"));
        assert_eq!(outcome.actuators, ON);
        assert!(outcome.alarm.latched && outcome.alarm.smoke_detected);
        assert_eq!(control.actuators(), ON);
    }

    // No smoke any more: the alarm holds through the clear debounce.
    for _ in 0..CLEAR_DEBOUNCE {
        let outcome = safe_cycle(&mut control, false);
        assert!(shows(&outcome.display, "!! WARNING !!", "SMOKE"));
        assert_eq!(outcome.actuators, ON);
    }

    // Longer than the clear debounce: back on the temperature screen, actuators off.
    let outcome = safe_cycle(&mut control, false);
    assert!(shows(&outcome.display, "Temperature", "22.0 C"));
    assert_eq!(outcome.actuators, OFF);
    assert_eq!(outcome.alarm, CLEAR);
    assert_eq!(control.actuators(), OFF);
}

#[test]
fn three_timeouts_show_the_stale_notice_over_the_last_reading() {
    let mut control = ControlLoop::new();
    let outcome = safe_cycle(&mut control, false);
    assert!(shows(&outcome.display, "Temperature", "22.0 C"));

    let outcome = failed_cycle(&mut control, SensorError::Timeout, false);
    assert!(shows(&outcome.display, "Temperature", "22.0 C"));
    let outcome = failed_cycle(&mut control, SensorError::Timeout, false);
    assert!(shows(&outcome.display, "Temperature", "22.0 C"));
    let outcome = failed_cycle(&mut control, SensorError::Timeout, false);
    assert!(shows(&outcome.display, "stale data", "22.0 C"));
    assert!(!outcome.halted);
    assert_eq!(outcome.actuators, OFF);

    // The notice stays while the sensor stays silent, and goes with the next reading.
    let outcome = failed_cycle(&mut control, SensorError::Timeout, false);
    assert!(shows(&outcome.display, "stale data", "22.0 C"));
    wait_for_sample(&mut control);
    let warmer = reading_at(&control, 2350, 500_000);
    let outcome = control.complete_sample(Ok(warmer), false);
    assert!(shows(&outcome.display, "Temperature", "23.5 C"));
}

#[test]
fn alarm_does_not_clear_while_the_data_is_stale() {
    let mut control = ControlLoop::new();
    // The last reading looks safe; the alarm comes from the smoke detector.
    let outcome = safe_cycle(&mut control, true);
    assert!(outcome.alarm.latched);

    for _ in 0..3 {
        let outcome = failed_cycle(&mut control, SensorError::Timeout, false);
        assert!(outcome.alarm.latched);
        assert_eq!(outcome.actuators, ON);
        assert!(shows(&outcome.display, "!! WARNING !!", "SMOKE"));
    }
    // Far longer than the clear debounce, and still latched.
    for _ in 0..20 {
        let outcome = failed_cycle(&mut control, SensorError::Timeout, false);
        assert!(outcome.alarm.latched);
        assert_eq!(outcome.actuators, ON);
    }
    // Only fresh readings without a breach clear it, and only after the debounce.
    for _ in 0..CLEAR_DEBOUNCE {
        assert!(safe_cycle(&mut control, false).alarm.latched);
    }
    let outcome = safe_cycle(&mut control, false);
    assert_eq!(outcome.alarm, CLEAR);
    assert_eq!(outcome.actuators, OFF);
    assert!(shows(&outcome.display, "Temperature", "22.0 C"));
}

#[test]
fn stale_notice_shows_on_every_data_screen() {
    let mut control = ControlLoop::new();
    safe_cycle(&mut control, false);
    for _ in 0..3 {
        failed_cycle(&mut control, SensorError::Timeout, false);
    }
    let (events, display) = press(&mut control, UP);
    assert_eq!(events, vec![ButtonEvent::Up]);
    assert!(shows(&display.unwrap(), "stale data", "45.0 %"));
}

#[test]
fn invalid_reading_is_discarded() {
    let mut control = ControlLoop::new();
    safe_cycle(&mut control, false);
    let outcome = failed_cycle(&mut control, SensorError::InvalidReading, false);
    assert!(shows(&outcome.display, "Temperature", "22.0 C"));
    assert_eq!(outcome.alarm, CLEAR);
    assert_eq!(outcome.actuators, OFF);
}

#[test]
fn implausible_reading_does_not_drive_the_alarm() {
    let mut control = ControlLoop::new();
    safe_cycle(&mut control, false);
    wait_for_sample(&mut control);
    // Hot enough to breach the ceiling, but hotter than the sensor can measure.
    let absurd = reading_at(&control, 30_000, 500_000);
    let outcome = control.complete_sample(Ok(absurd), false);
    assert_eq!(outcome.alarm, CLEAR);
    assert_eq!(outcome.actuators, OFF);
    assert!(shows(&outcome.display, "Temperature", "22.0 C"));
}

#[test]
fn implausible_reading_does_not_clear_the_alarm() {
    let mut control = ControlLoop::new();
    wait_for_sample(&mut control);
    let bad_air = reading_at(&control, 2200, 1_000);
    assert!(control.complete_sample(Ok(bad_air), false).alarm.latched);
    for _ in 0..20 {
        wait_for_sample(&mut control);
        let absurd = SensorReading { humidity_milli: 200_000, ..reading_at(&control, 2200, 500_000) };
        let outcome = control.complete_sample(Ok(absurd), false);
        assert!(outcome.alarm.latched);
        assert_eq!(outcome.actuators, ON);
    }
}

#[test]
fn bad_air_latches_and_names_its_cause() {
    let mut control = ControlLoop::new();
    wait_for_sample(&mut control);
    let hot = reading_at(&control, 6_100, 500_000);
    let outcome = control.complete_sample(Ok(hot), false);
    assert_eq!(
        outcome.alarm,
        AlarmState { smoke_detected: false, gas_threshold_breached: true, latched: true }
    );
    assert_eq!(outcome.actuators, ON);
    assert!(shows(&outcome.display, "!! WARNING !!", "GAS/HEAT"));
    let outcome = safe_cycle(&mut control, true);
    assert!(shows(&outcome.display, "!! WARNING !!", "SMOKE + GAS/HEAT"));
}

#[test]
fn smoke_before_the_first_reading_raises_the_alarm() {
    let mut control = ControlLoop::new();
    let outcome = failed_cycle(&mut control, SensorError::Timeout, true);
    assert!(outcome.alarm.latched);
    assert_eq!(outcome.actuators, ON);
    assert!(shows(&outcome.display, "!! WARNING !!", "SMOKE"));
}

#[test]
fn no_reading_yet_shows_no_data() {
    let mut control = ControlLoop::new();
    let outcome = failed_cycle(&mut control, SensorError::Timeout, false);
    assert!(shows(&outcome.display, "Temperature", "no data"));
    let (_, display) = press(&mut control, DOWN);
    assert!(shows(&display.unwrap(), "Date", "no data"));
}

#[test]
fn buttons_change_the_screen_between_measurements() {
    let mut control = ControlLoop::new();
    safe_cycle(&mut control, false);
    let (events, display) = press(&mut control, UP);
    assert_eq!(events, vec![ButtonEvent::Up]);
    assert!(shows(&display.unwrap(), "Humidity", "45.0 %"));
    let (events, display) = press(&mut control, UP);
    assert_eq!(events, vec![ButtonEvent::Up]);
    assert!(shows(&display.unwrap(), "Pressure", "1013.3 hPa"));
    let (_, display) = press(&mut control, UP);
    assert!(shows(&display.unwrap(), "Date", "0.0 s"));
    let (_, display) = press(&mut control, UP);
    assert!(shows(&display.unwrap(), "Temperature", "22.0 C"));
    assert!(shows(&control.display(), "Temperature", "22.0 C"));
}

#[test]
fn buttons_are_ignored_during_an_alarm_and_the_screen_comes_back() {
    let mut control = ControlLoop::new();
    safe_cycle(&mut control, false);
    press(&mut control, DOWN);
    assert!(shows(&control.display(), "Date", "0.0 s"));
    safe_cycle(&mut control, true);
    let (events, display) = press(&mut control, UP);
    assert_eq!(events, vec![ButtonEvent::Up]);
    assert_eq!(display, None);
    assert!(shows(&control.display(), "!! WARNING !!", "SMOKE"));
    for _ in 0..CLEAR_DEBOUNCE {
        safe_cycle(&mut control, false);
    }
    let outcome = safe_cycle(&mut control, false);
    assert_eq!(outcome.alarm, CLEAR);
    assert_eq!(rows(&outcome.display).0, format!("{:<16}", "Date"));
}

#[test]
fn select_is_reported_and_changes_nothing() {
    let mut control = ControlLoop::new();
    safe_cycle(&mut control, false);
    let select = ButtonLevels { up: false, down: false, select: true };
    let (events, display) = press(&mut control, select);
    assert_eq!(events, vec![ButtonEvent::Select]);
    assert_eq!(display, None);
    assert!(shows(&control.display(), "Temperature", "22.0 C"));
}

#[test]
fn init_failure_halts_in_the_safe_state() {
    let mut control = ControlLoop::new();
    let outcome = control.init_failed();
    assert!(outcome.halted);
    assert!(control.is_halted());
    assert_eq!(outcome.actuators, OFF);
    assert!(shows(&outcome.display, "SENSOR INIT FAIL", "SYSTEM HALTED"));
}

#[test]
fn a_halted_loop_stays_halted() {
    let mut control = ControlLoop::new();
    control.init_failed();
    for _ in 0..300 {
        let outcome = control.tick(UP);
        assert!(!outcome.sample_due);
        assert_eq!(outcome.event, None);
        assert_eq!(outcome.display, None);
    }
    assert_eq!(control.now(), 0);
    let reading = reading_at(&control, 2200, 500_000);
    let outcome = control.complete_sample(Ok(reading), true);
    assert!(outcome.halted);
    assert_eq!(outcome.actuators, OFF);
    assert!(shows(&outcome.display, "SENSOR INIT FAIL", "SYSTEM HALTED"));
}

#[test]
fn a_silent_sensor_halts_even_during_an_alarm() {
    let mut control = ControlLoop::new();
    assert_eq!(safe_cycle(&mut control, true).actuators, ON);
    let outcome = failed_cycle(&mut control, SensorError::InitFailure, true);
    assert!(outcome.halted);
    assert_eq!(outcome.actuators, OFF);
    assert_eq!(control.actuators(), OFF);
    assert!(shows(&control.display(), "SENSOR INIT FAIL", "SYSTEM HALTED"));
}

#[test]
fn reader_and_loop_work_together() {
    let mut control = ControlLoop::new();
    let mut reader = SensorReader::new();
    safe_cycle(&mut control, false);
    // Three measurements in which the sensor never has data.
    for _ in 0..3 {
        wait_for_sample(&mut control);
        let result = loop {
            match reader.on_poll(PollResult::NotReady, control.now()) {
                SampleStep::PollAgain => {}
                SampleStep::Done(result) => break result,
            }
        };
        assert_eq!(result, Err(SensorError::Timeout));
        control.complete_sample(result, false);
    }
    assert!(shows(&control.display(), "stale data", "22.0 C"));
}

#[test]
fn ticks_are_counted() {
    let mut control = ControlLoop::new();
    let mut due = 0u64;
    for _ in 0..1000 {
        if control.tick(RELEASED).sample_due {
            due += 1;
        }
    }
    assert_eq!(control.now(), 1000);
    assert_eq!(due, 10);
}
