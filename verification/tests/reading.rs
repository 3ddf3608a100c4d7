use envmon::reading::{
    get_gas_resistance, get_humidity, get_pressure, get_temperature, validate, RawSample,
    SensorError, SensorReading,
};

fn room_air() -> RawSample {
    RawSample {
        temperature_centi: 2200,
        humidity_milli: 45_000,
        pressure_pa: 101_325,
        gas_resistance_ohm: 500_000,
    }
}

#[test]
fn plausible_sample_becomes_a_stamped_reading() {
    let reading = validate(&room_air(), 77).unwrap();
    assert_eq!(
        reading,
        SensorReading {
            temperature_centi: 2200,
            humidity_milli: 45_000,
            pressure_pa: 101_325,
            gas_resistance_ohm: 500_000,
            timestamp_tick: 77,
        }
    );
    assert!(reading.is_plausible());
}

#[test]
fn temperature_limits_are_inclusive() {
    let mut raw = room_air();
    raw.temperature_centi = -4000;
    assert_eq!(get_temperature(&raw), Ok(-4000));
    raw.temperature_centi = 8500;
    assert_eq!(get_temperature(&raw), Ok(8500));
    raw.temperature_centi = -4001;
    assert_eq!(get_temperature(&raw), Err(SensorError::InvalidReading));
    raw.temperature_centi = 8501;
    assert_eq!(get_temperature(&raw), Err(SensorError::InvalidReading));
}

#[test]
fn humidity_above_full_saturation_is_rejected() {
    let mut raw = room_air();
    raw.humidity_milli = 0;
    assert_eq!(get_humidity(&raw), Ok(0));
    raw.humidity_milli = 100_000;
    assert_eq!(get_humidity(&raw), Ok(100_000));
    raw.humidity_milli = 100_001;
    assert_eq!(get_humidity(&raw), Err(SensorError::InvalidReading));
}

#[test]
fn pressure_limits_are_inclusive() {
    let mut raw = room_air();
    raw.pressure_pa = 30_000;
    assert_eq!(get_pressure(&raw), Ok(30_000));
    raw.pressure_pa = 110_000;
    assert_eq!(get_pressure(&raw), Ok(110_000));
    raw.pressure_pa = 29_999;
    assert_eq!(get_pressure(&raw), Err(SensorError::InvalidReading));
    raw.pressure_pa = 110_001;
    assert_eq!(get_pressure(&raw), Err(SensorError::InvalidReading));
}

#[test]
fn zero_gas_resistance_is_rejected() {
    let mut raw = room_air();
    raw.gas_resistance_ohm = 1;
    assert_eq!(get_gas_resistance(&raw), Ok(1));
    raw.gas_resistance_ohm = 0;
    assert_eq!(get_gas_resistance(&raw), Err(SensorError::InvalidReading));
}

#[test]
fn one_implausible_value_rejects_the_whole_sample() {
    let mut raw = room_air();
    raw.humidity_milli = 120_000;
    assert_eq!(validate(&raw, 1), Err(SensorError::InvalidReading));
    let mut raw = room_air();
    raw.temperature_centi = 20_000;
    assert_eq!(validate(&raw, 1), Err(SensorError::InvalidReading));
    let mut raw = room_air();
    raw.pressure_pa = 0;
    assert_eq!(validate(&raw, 1), Err(SensorError::InvalidReading));
    let mut raw = room_air();
    raw.gas_resistance_ohm = 0;
    assert_eq!(validate(&raw, 1), Err(SensorError::InvalidReading));
}

#[test]
fn is_plausible_agrees_with_validate() {
    let good = SensorReading {
        temperature_centi: 8500,
        humidity_milli: 100_000,
        pressure_pa: 110_000,
        gas_resistance_ohm: 1,
        timestamp_tick: 0,
    };
    assert!(good.is_plausible());
    let bad = SensorReading { humidity_milli: 100_001, ..good };
    assert!(!bad.is_plausible());
    let bad = SensorReading { temperature_centi: -4001, ..good };
    assert!(!bad.is_plausible());
    let bad = SensorReading { pressure_pa: 29_999, ..good };
    assert!(!bad.is_plausible());
    let bad = SensorReading { gas_resistance_ohm: 0, ..good };
    assert!(!bad.is_plausible());
}
