use envmon::alert::{
    ActuatorOutputs, AlarmState, AlertController, Flag, CLEAR_DEBOUNCE, GAS_RESISTANCE_FLOOR_OHM,
    TEMPERATURE_CEILING_CENTI,
};
use envmon::reading::SensorReading;

const ON: ActuatorOutputs = ActuatorOutputs { buzzer: true, sprinkler: true };
const OFF: ActuatorOutputs = ActuatorOutputs { buzzer: false, sprinkler: false };
const CLEAR: AlarmState =
    AlarmState { smoke_detected: false, gas_threshold_breached: false, latched: false };

fn reading(temperature_centi: i32, gas_resistance_ohm: u32) -> SensorReading {
    SensorReading {
        temperature_centi,
        humidity_milli: 45_000,
        pressure_pa: 101_325,
        gas_resistance_ohm,
        timestamp_tick: 0,
    }
}

fn safe() -> SensorReading {
    reading(2200, 500_000)
}

#[test]
fn constants_have_the_documented_values() {
    assert_eq!(GAS_RESISTANCE_FLOOR_OHM, 50_000);
    assert_eq!(TEMPERATURE_CEILING_CENTI, 6_000);
    assert_eq!(CLEAR_DEBOUNCE, 5);
}

#[test]
fn a_new_controller_is_clear() {
    let alerts = AlertController::new();
    assert_eq!(alerts.state(), CLEAR);
    assert_eq!(alerts.outputs(), OFF);
    assert_eq!(ActuatorOutputs::off(), OFF);
}

#[test]
fn safe_readings_never_latch() {
    let mut alerts = AlertController::new();
    for i in 0..1000 {
        let r = reading(2000 + (i % 500), 60_000 + i as u32 * 17);
        assert_eq!(alerts.evaluate(&r, false), CLEAR);
        assert_eq!(alerts.outputs(), OFF);
    }
}

#[test]
fn readings_on_the_thresholds_do_not_breach() {
    let mut alerts = AlertController::new();
    assert_eq!(alerts.evaluate(&reading(6_000, 50_000), false), CLEAR);
    assert_eq!(alerts.outputs(), OFF);
}

#[test]
fn gas_under_the_floor_latches() {
    let mut alerts = AlertController::new();
    let alarm = alerts.evaluate(&reading(2200, 49_999), false);
    assert_eq!(
        alarm,
        AlarmState { smoke_detected: false, gas_threshold_breached: true, latched: true }
    );
    assert_eq!(alerts.outputs(), ON);
}

#[test]
fn temperature_over_the_ceiling_latches() {
    let mut alerts = AlertController::new();
    let alarm = alerts.evaluate(&reading(6_001, 500_000), false);
    assert_eq!(
        alarm,
        AlarmState { smoke_detected: false, gas_threshold_breached: true, latched: true }
    );
    assert_eq!(alerts.outputs(), ON);
}

#[test]
fn smoke_latches_in_the_same_evaluation() {
    let mut alerts = AlertController::new();
    let alarm = alerts.evaluate(&safe(), true);
    assert_eq!(
        alarm,
        AlarmState { smoke_detected: true, gas_threshold_breached: false, latched: true }
    );
    assert_eq!(alerts.state(), alarm);
    assert_eq!(alerts.outputs(), ON);
}

#[test]
fn both_causes_are_reported_together() {
    let mut alerts = AlertController::new();
    let alarm = alerts.evaluate(&reading(7_000, 10_000), true);
    assert_eq!(
        alarm,
        AlarmState { smoke_detected: true, gas_threshold_breached: true, latched: true }
    );
}

#[test]
fn latch_outlasts_the_clear_debounce_after_a_single_breach() {
    let mut alerts = AlertController::new();
    assert!(alerts.evaluate(&safe(), true).latched);
    for _ in 0..CLEAR_DEBOUNCE {
        assert!(alerts.evaluate(&safe(), false).latched);
        assert_eq!(alerts.outputs(), ON);
    }
    assert_eq!(alerts.evaluate(&safe(), false), CLEAR);
    assert_eq!(alerts.outputs(), OFF);
}

#[test]
fn a_new_breach_restarts_the_clear_debounce() {
    let mut alerts = AlertController::new();
    alerts.evaluate(&reading(2200, 1), false);
    for _ in 0..CLEAR_DEBOUNCE {
        assert!(alerts.evaluate(&safe(), false).latched);
    }
    assert!(alerts.evaluate(&reading(2200, 1), false).latched);
    for _ in 0..CLEAR_DEBOUNCE {
        assert!(alerts.evaluate(&safe(), false).latched);
    }
    assert!(!alerts.evaluate(&safe(), false).latched);
}

#[test]
fn each_flag_clears_on_its_own_and_the_latch_with_the_last() {
    let mut alerts = AlertController::new();
    alerts.evaluate(&reading(2200, 1), true);
    // Smoke goes on for two more evaluations, the air is good again at once.
    alerts.evaluate(&safe(), true);
    alerts.evaluate(&safe(), true);
    for _ in 0..3 {
        let alarm = alerts.evaluate(&safe(), false);
        assert!(alarm.smoke_detected && alarm.gas_threshold_breached && alarm.latched);
    }
    // The air flag has now seen five quiet evaluations and drops on the sixth.
    let alarm = alerts.evaluate(&safe(), false);
    assert_eq!(
        alarm,
        AlarmState { smoke_detected: true, gas_threshold_breached: false, latched: true }
    );
    let alarm = alerts.evaluate(&safe(), false);
    assert!(alarm.latched);
    let alarm = alerts.evaluate(&safe(), false);
    assert_eq!(alarm, CLEAR);
}

#[test]
fn stale_cycles_never_clear_an_alarm() {
    let mut alerts = AlertController::new();
    alerts.evaluate(&reading(2200, 1), false);
    for _ in 0..100 {
        let alarm = alerts.evaluate_stale(false);
        assert!(alarm.latched && alarm.gas_threshold_breached);
        assert_eq!(alerts.outputs(), ON);
    }
}

#[test]
fn a_stale_cycle_restarts_the_clear_debounce() {
    let mut alerts = AlertController::new();
    alerts.evaluate(&safe(), true);
    for _ in 0..CLEAR_DEBOUNCE {
        alerts.evaluate(&safe(), false);
    }
    assert!(alerts.evaluate_stale(false).latched);
    for _ in 0..CLEAR_DEBOUNCE {
        assert!(alerts.evaluate(&safe(), false).latched);
    }
    assert!(!alerts.evaluate(&safe(), false).latched);
}

#[test]
fn smoke_raises_the_alarm_in_a_stale_cycle() {
    let mut alerts = AlertController::new();
    assert_eq!(alerts.evaluate_stale(false), CLEAR);
    let alarm = alerts.evaluate_stale(true);
    assert_eq!(
        alarm,
        AlarmState { smoke_detected: true, gas_threshold_breached: false, latched: true }
    );
    assert_eq!(alerts.outputs(), ON);
}

#[test]
fn flag_counts_quiet_evaluations_up_to_the_debounce() {
    let mut flag = Flag { active: false, quiet: 0 }.observe(true);
    assert_eq!(flag, Flag { active: true, quiet: 0 });
    for n in 1..=CLEAR_DEBOUNCE {
        flag = flag.observe(false);
        assert_eq!(flag, Flag { active: true, quiet: n });
    }
    assert_eq!(flag.observe(false), Flag { active: false, quiet: 0 });
    assert_eq!(flag.observe(true), Flag { active: true, quiet: 0 });
}

#[test]
fn flag_held_keeps_its_state_but_loses_its_count() {
    let idle = Flag { active: false, quiet: 0 };
    assert_eq!(idle.hold(false), idle);
    assert_eq!(idle.hold(true), Flag { active: true, quiet: 0 });
    let counting = Flag { active: true, quiet: 4 };
    assert_eq!(counting.hold(false), Flag { active: true, quiet: 0 });
}
