//! The sensor's side of a measurement: the fixed settings it runs with, and
//! the bounded wait for its data.

use crate::reading::{validate, RawSample, SensorError, SensorReading};
use vstd::prelude::*;

verus! {

/// Oversampling of the humidity measurement.
pub const HUMIDITY_OVERSAMPLING: u8 = 2;

/// Oversampling of the pressure measurement.
pub const PRESSURE_OVERSAMPLING: u8 = 4;

/// Oversampling of the temperature measurement.
pub const TEMPERATURE_OVERSAMPLING: u8 = 8;

/// Size of the sensor's low-pass filter on temperature.
pub const FILTER_SIZE: u8 = 3;

/// Temperature of the gas sensor's heater plate, in degrees Celsius.
pub const HEATER_CELSIUS: u16 = 320;

/// How long the heater plate is held at temperature, in milliseconds.
pub const HEATER_MS: u16 = 150;

/// Ambient temperature assumed for the heater calculation, in degrees Celsius.
pub const AMBIENT_CELSIUS: i8 = 25;

/// A measurement that has given no data after this many polls has timed out.
pub const MAX_POLLS: u8 = 10;

/// The settings in the form the sensor driver takes them: oversampling and
/// filter by their register codes.
#[derive(Clone, Copy, Debug, PartialEq, Eq, Structural)]
pub struct SensorConfig {
    pub humidity_code: u8,
    pub pressure_code: u8,
    pub temperature_code: u8,
    pub filter_code: u8,
    pub heater_ms: u16,
    pub heater_celsius: u16,
    pub ambient_celsius: i8,
    pub run_gas: bool,
}

/// The register code of an oversampling factor: 1, 2, 4, 8 and 16 have the
/// codes 1 to 5, and 0, no measurement, has code 0.
pub open spec fn oversampling_code_of(factor: u8) -> Option<u8> {
    if factor == 0 {
        Some(0u8)
    } else if factor == 1 {
        Some(1u8)
    } else if factor == 2 {
        Some(2u8)
    } else if factor == 4 {
        Some(3u8)
    } else if factor == 8 {
        Some(4u8)
    } else if factor == 16 {
        Some(5u8)
    } else {
        None
    }
}

/// The register code of a filter size: the sizes 0, 1, 3, 7, 15, 31, 63 and
/// 127 have the codes 0 to 7.
pub open spec fn filter_code_of(size: u8) -> Option<u8> {
    if size == 0 {
        Some(0u8)
    } else if size == 1 {
        Some(1u8)
    } else if size == 3 {
        Some(2u8)
    } else if size == 7 {
        Some(3u8)
    } else if size == 15 {
        Some(4u8)
    } else if size == 31 {
        Some(5u8)
    } else if size == 63 {
        Some(6u8)
    } else if size == 127 {
        Some(7u8)
    } else {
        None
    }
}

impl SensorConfig {
    /// Every code is one the sensor has.
    pub open spec fn valid(self) -> bool {
        &&& self.humidity_code <= 5
        &&& self.pressure_code <= 5
        &&& self.temperature_code <= 5
        &&& self.filter_code <= 7
    }

    /// The fixed settings: humidity twofold, pressure fourfold and
    /// temperature eightfold oversampled, filter size 3, and the gas heater
    /// at 320 degrees for 150 ms.
    pub open spec fn standard() -> SensorConfig {
        SensorConfig {
            humidity_code: 2,
            pressure_code: 3,
            temperature_code: 4,
            filter_code: 2,
            heater_ms: HEATER_MS,
            heater_celsius: HEATER_CELSIUS,
            ambient_celsius: AMBIENT_CELSIUS,
            run_gas: true,
        }
    }
}

/// The register code of an oversampling factor, if the sensor has it.
pub fn oversampling_code(factor: u8) -> (code: Option<u8>)
    ensures
        code == oversampling_code_of(factor),
        code matches Some(c) ==> c <= 5,
{
    if factor == 0 {
        Some(0)
    } else if factor == 1 {
        Some(1)
    } else if factor == 2 {
        Some(2)
    } else if factor == 4 {
        Some(3)
    } else if factor == 8 {
        Some(4)
    } else if factor == 16 {
        Some(5)
    } else {
        None
    }
}

/// The register code of a filter size, if the sensor has it.
pub fn filter_code(size: u8) -> (code: Option<u8>)
    ensures
        code == filter_code_of(size),
        code matches Some(c) ==> c <= 7,
{
    if size == 0 {
        Some(0)
    } else if size == 1 {
        Some(1)
    } else if size == 3 {
        Some(2)
    } else if size == 7 {
        Some(3)
    } else if size == 15 {
        Some(4)
    } else if size == 31 {
        Some(5)
    } else if size == 63 {
        Some(6)
    } else if size == 127 {
        Some(7)
    } else {
        None
    }
}

/// The fixed settings.
pub fn standard_config() -> (config: SensorConfig)
    ensures
        config == SensorConfig::standard(),
        config.valid(),
        Some(config.humidity_code) == oversampling_code_of(HUMIDITY_OVERSAMPLING),
        Some(config.pressure_code) == oversampling_code_of(PRESSURE_OVERSAMPLING),
        Some(config.temperature_code) == oversampling_code_of(TEMPERATURE_OVERSAMPLING),
        Some(config.filter_code) == filter_code_of(FILTER_SIZE),
{
    let humidity_code: u8 = oversampling_code(HUMIDITY_OVERSAMPLING).unwrap();
    let pressure_code: u8 = oversampling_code(PRESSURE_OVERSAMPLING).unwrap();
    let temperature_code: u8 = oversampling_code(TEMPERATURE_OVERSAMPLING).unwrap();
    let filter_code: u8 = filter_code(FILTER_SIZE).unwrap();
    SensorConfig {
        humidity_code,
        pressure_code,
        temperature_code,
        filter_code,
        heater_ms: HEATER_MS,
        heater_celsius: HEATER_CELSIUS,
        ambient_celsius: AMBIENT_CELSIUS,
        run_gas: true,
    }
}

/// The driver's record of the settings to apply.
#[verifier::external_type_specification]
#[verifier::external_body]
pub struct ExSensorSettings(bme680::SensorSettings);

/// The driver's flags that say which of the settings to write to the sensor.
#[verifier::external_type_specification]
#[verifier::external_body]
pub struct ExDesiredSensorSettings(bme680::DesiredSensorSettings);

/// What the driver's settings builder builds from the given codes, heater
/// profile and gas switch.
pub uninterp spec fn built_settings(
    humidity_code: u8,
    pressure_code: u8,
    temperature_code: u8,
    filter_code: u8,
    heater_ms: u16,
    heater_celsius: u16,
    ambient_celsius: i8,
    run_gas: bool,
) -> (bme680::SensorSettings, bme680::DesiredSensorSettings);

/// Calls `bme680::SettingsBuilder`: `new`, one `with_..` method for each
/// setting, then `build`. The codes go through the driver's
/// `OversamplingSetting::from_u8` and `IIRFilterSize::from_u8`, which panic
/// on a code above 5 and above 7; `requires` keeps those out. The builder
/// only stores what it is given, so its result depends on the arguments
/// alone; the contract names that result and claims nothing else of it.
#[verifier::external_body]
fn build_settings(config: &SensorConfig) -> (settings: (
    bme680::SensorSettings,
    bme680::DesiredSensorSettings,
))
    requires
        config.valid(),
    ensures
        settings == built_settings(
            config.humidity_code,
            config.pressure_code,
            config.temperature_code,
            config.filter_code,
            config.heater_ms,
            config.heater_celsius,
            config.ambient_celsius,
            config.run_gas,
        ),
{
    bme680::SettingsBuilder::new()
        .with_humidity_oversampling(bme680::OversamplingSetting::from_u8(config.humidity_code))
        .with_pressure_oversampling(bme680::OversamplingSetting::from_u8(config.pressure_code))
        .with_temperature_oversampling(bme680::OversamplingSetting::from_u8(config.temperature_code))
        .with_temperature_filter(bme680::IIRFilterSize::from_u8(config.filter_code))
        .with_gas_measurement(
            core::time::Duration::from_millis(config.heater_ms as u64),
            config.heater_celsius,
            config.ambient_celsius,
        )
        .with_run_gas(config.run_gas)
        .build()
}

/// The settings to hand to the sensor driver at start-up: what its builder
/// makes of the fixed settings.
pub fn driver_settings() -> (settings: (bme680::SensorSettings, bme680::DesiredSensorSettings))
    ensures
        settings == built_settings(2, 3, 4, 2, HEATER_MS, HEATER_CELSIUS, AMBIENT_CELSIUS, true),
{
    let config: SensorConfig = standard_config();
    build_settings(&config)
}

/// What one poll of the sensor found.
#[derive(Clone, Copy, Debug, PartialEq, Eq, Structural)]
pub enum PollResult {
    /// The measurement is still running.
    NotReady,
    /// The measurement is complete, and here is what it gave.
    Ready(RawSample),
    /// The device did not answer on the bus.
    BusFault,
}

/// What to do after a poll.
#[derive(Clone, Copy, Debug, PartialEq, Eq)]
pub enum SampleStep {
    /// Wait and poll once more.
    PollAgain,
    /// The measurement is over, with a reading or with the reason for none.
    Done(Result<SensorReading, SensorError>),
}

/// The step that follows a poll when `polls` polls of this measurement have
/// found nothing so far, and the count of such polls after it.
pub open spec fn poll_step(polls: u8, poll: PollResult, now_tick: u32) -> (u8, SampleStep) {
    match poll {
        PollResult::BusFault => (0u8, SampleStep::Done(Err(SensorError::InitFailure))),
        PollResult::Ready(raw) => (0u8, SampleStep::Done(raw.checked(now_tick))),
        PollResult::NotReady => if polls + 1 >= MAX_POLLS {
            (0u8, SampleStep::Done(Err(SensorError::Timeout)))
        } else {
            ((polls + 1) as u8, SampleStep::PollAgain)
        },
    }
}

/// Whether the measurement is over after a sequence of polls, starting with
/// `polls` fruitless ones behind it.
pub open spec fn finishes(polls: u8, results: Seq<PollResult>, now_tick: u32) -> bool
    decreases results.len(),
{
    if results.len() == 0 {
        false
    } else {
        let first = poll_step(polls, results[0], now_tick);
        first.1 is Done || finishes(first.0, results.drop_first(), now_tick)
    }
}

/// Follows one measurement from its first poll to its result.
pub struct SensorReader {
    polls: u8,
}

impl View for SensorReader {
    type V = u8;

    closed spec fn view(&self) -> u8 {
        self.polls
    }
}

impl SensorReader {
    /// A reader with no measurement under way.
    pub fn new() -> (reader: SensorReader)
        ensures
            reader@ == 0,
    {
        SensorReader { polls: 0 }
    }

    /// Takes what a poll of the sensor found on tick `now_tick` and says
    /// whether to poll again. Data is checked and stamped; a bus fault ends
    /// the measurement with `InitFailure`; the `MAX_POLLS`-th poll in a row
    /// without data ends it with `Timeout`. After `Done` the reader is ready
    /// for the next measurement.
    pub fn on_poll(&mut self, poll: PollResult, now_tick: u32) -> (step: SampleStep)
        ensures
            final(self)@ == poll_step(old(self)@, poll, now_tick).0,
            step == poll_step(old(self)@, poll, now_tick).1,
            step matches SampleStep::Done(Ok(reading)) ==> reading.plausible(),
    {
        match poll {
            PollResult::BusFault => {
                self.polls = 0;
                SampleStep::Done(Err(SensorError::InitFailure))
            },
            PollResult::Ready(raw) => {
                self.polls = 0;
                SampleStep::Done(validate(&raw, now_tick))
            },
            PollResult::NotReady => {
                if self.polls >= MAX_POLLS - 1 {
                    self.polls = 0;
                    SampleStep::Done(Err(SensorError::Timeout))
                } else {
                    self.polls = self.polls + 1;
                    SampleStep::PollAgain
                }
            },
        }
    }
}

/// A measurement is over within `MAX_POLLS` polls, whatever they find.
pub proof fn lemma_measurement_is_bounded(polls: u8, results: Seq<PollResult>, now_tick: u32)
    requires
        polls < MAX_POLLS,
        polls + results.len() >= MAX_POLLS,
    ensures
        finishes(polls, results, now_tick),
    decreases results.len(),
{
    let first = poll_step(polls, results[0], now_tick);
    if !(first.1 is Done) {
        lemma_measurement_is_bounded(first.0, results.drop_first(), now_tick);
    }
}

} // verus!
