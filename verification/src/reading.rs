//! Sensor readings as integers in the sensor's own resolution, and the
//! plausibility limits a sample has to meet before anything else sees it.

use vstd::prelude::*;

verus! {

/// Lowest temperature the sensor can report, in hundredths of a degree Celsius.
pub const TEMPERATURE_MIN_CENTI: i32 = -4000;

/// Highest temperature the sensor can report, in hundredths of a degree Celsius.
pub const TEMPERATURE_MAX_CENTI: i32 = 8500;

/// Full saturation, in thousandths of a percent of relative humidity.
pub const HUMIDITY_MAX_MILLI: u32 = 100_000;

/// Lowest pressure the sensor can report, in pascal.
pub const PRESSURE_MIN_PA: u32 = 30_000;

/// Highest pressure the sensor can report, in pascal.
pub const PRESSURE_MAX_PA: u32 = 110_000;

/// Why no reading came out of a measurement.
#[derive(Clone, Copy, Debug, PartialEq, Eq, Structural)]
pub enum SensorError {
    /// The device did not answer on the bus.
    InitFailure,
    /// The measurement did not complete within the poll bound.
    Timeout,
    /// A value lies outside what is physically plausible.
    InvalidReading,
}

/// What the driver hands over after a measurement, not yet checked.
#[derive(Clone, Copy, Debug, PartialEq, Eq, Structural)]
pub struct RawSample {
    /// Temperature in hundredths of a degree Celsius.
    pub temperature_centi: i32,
    /// Relative humidity in thousandths of a percent.
    pub humidity_milli: u32,
    /// Barometric pressure in pascal.
    pub pressure_pa: u32,
    /// Gas sensor resistance in ohm.
    pub gas_resistance_ohm: u32,
}

/// One checked measurement, stamped with the tick on which it was taken.
#[derive(Clone, Copy, Debug, PartialEq, Eq, Structural)]
pub struct SensorReading {
    /// Temperature in hundredths of a degree Celsius.
    pub temperature_centi: i32,
    /// Relative humidity in thousandths of a percent.
    pub humidity_milli: u32,
    /// Barometric pressure in pascal.
    pub pressure_pa: u32,
    /// Gas sensor resistance in ohm.
    pub gas_resistance_ohm: u32,
    /// The control loop's tick count when the sample was taken.
    pub timestamp_tick: u32,
}

/// The temperature is one the sensor can measure.
pub open spec fn temperature_plausible(centi: i32) -> bool {
    TEMPERATURE_MIN_CENTI <= centi <= TEMPERATURE_MAX_CENTI
}

/// The relative humidity lies between 0 % and 100 %.
pub open spec fn humidity_plausible(milli: u32) -> bool {
    milli <= HUMIDITY_MAX_MILLI
}

/// The pressure is one the sensor can measure.
pub open spec fn pressure_plausible(pa: u32) -> bool {
    PRESSURE_MIN_PA <= pa <= PRESSURE_MAX_PA
}

/// The gas resistance is positive.
pub open spec fn gas_plausible(ohm: u32) -> bool {
    ohm >= 1
}

impl RawSample {
    /// All four values are plausible.
    pub open spec fn plausible(self) -> bool {
        &&& temperature_plausible(self.temperature_centi)
        &&& humidity_plausible(self.humidity_milli)
        &&& pressure_plausible(self.pressure_pa)
        &&& gas_plausible(self.gas_resistance_ohm)
    }

    /// The reading this sample becomes when taken on tick `now_tick`.
    pub open spec fn stamped(self, now_tick: u32) -> SensorReading {
        SensorReading {
            temperature_centi: self.temperature_centi,
            humidity_milli: self.humidity_milli,
            pressure_pa: self.pressure_pa,
            gas_resistance_ohm: self.gas_resistance_ohm,
            timestamp_tick: now_tick,
        }
    }

    /// What checking this sample on tick `now_tick` gives.
    pub open spec fn checked(self, now_tick: u32) -> Result<SensorReading, SensorError> {
        if self.plausible() {
            Ok(self.stamped(now_tick))
        } else {
            Err(SensorError::InvalidReading)
        }
    }
}

impl SensorReading {
    /// The values without the time stamp.
    pub open spec fn sample(self) -> RawSample {
        RawSample {
            temperature_centi: self.temperature_centi,
            humidity_milli: self.humidity_milli,
            pressure_pa: self.pressure_pa,
            gas_resistance_ohm: self.gas_resistance_ohm,
        }
    }

    /// All four values are plausible.
    pub open spec fn plausible(self) -> bool {
        self.sample().plausible()
    }

    /// Whether all four values are plausible.
    pub fn is_plausible(&self) -> (ok: bool)
        ensures
            ok == self.plausible(),
    {
        TEMPERATURE_MIN_CENTI <= self.temperature_centi
            && self.temperature_centi <= TEMPERATURE_MAX_CENTI
            && self.humidity_milli <= HUMIDITY_MAX_MILLI
            && PRESSURE_MIN_PA <= self.pressure_pa
            && self.pressure_pa <= PRESSURE_MAX_PA
            && self.gas_resistance_ohm >= 1
    }
}

/// The temperature of a sample in hundredths of a degree Celsius, or
/// `InvalidReading` where the sensor cannot have measured it.
pub fn get_temperature(raw: &RawSample) -> (r: Result<i32, SensorError>)
    ensures
        temperature_plausible(raw.temperature_centi) ==> r == Ok::<i32, SensorError>(
            raw.temperature_centi,
        ),
        !temperature_plausible(raw.temperature_centi) ==> r == Err::<i32, SensorError>(
            SensorError::InvalidReading,
        ),
{
    if TEMPERATURE_MIN_CENTI <= raw.temperature_centi && raw.temperature_centi
        <= TEMPERATURE_MAX_CENTI {
        Ok(raw.temperature_centi)
    } else {
        Err(SensorError::InvalidReading)
    }
}

/// The relative humidity of a sample in thousandths of a percent, or
/// `InvalidReading` where it exceeds 100 %.
pub fn get_humidity(raw: &RawSample) -> (r: Result<u32, SensorError>)
    ensures
        humidity_plausible(raw.humidity_milli) ==> r == Ok::<u32, SensorError>(raw.humidity_milli),
        !humidity_plausible(raw.humidity_milli) ==> r == Err::<u32, SensorError>(
            SensorError::InvalidReading,
        ),
{
    if raw.humidity_milli <= HUMIDITY_MAX_MILLI {
        Ok(raw.humidity_milli)
    } else {
        Err(SensorError::InvalidReading)
    }
}

/// The pressure of a sample in pascal, or `InvalidReading` where the sensor
/// cannot have measured it.
pub fn get_pressure(raw: &RawSample) -> (r: Result<u32, SensorError>)
    ensures
        pressure_plausible(raw.pressure_pa) ==> r == Ok::<u32, SensorError>(raw.pressure_pa),
        !pressure_plausible(raw.pressure_pa) ==> r == Err::<u32, SensorError>(
            SensorError::InvalidReading,
        ),
{
    if PRESSURE_MIN_PA <= raw.pressure_pa && raw.pressure_pa <= PRESSURE_MAX_PA {
        Ok(raw.pressure_pa)
    } else {
        Err(SensorError::InvalidReading)
    }
}

/// The gas resistance of a sample in ohm, or `InvalidReading` where it is zero.
pub fn get_gas_resistance(raw: &RawSample) -> (r: Result<u32, SensorError>)
    ensures
        gas_plausible(raw.gas_resistance_ohm) ==> r == Ok::<u32, SensorError>(
            raw.gas_resistance_ohm,
        ),
        !gas_plausible(raw.gas_resistance_ohm) ==> r == Err::<u32, SensorError>(
            SensorError::InvalidReading,
        ),
{
    if raw.gas_resistance_ohm >= 1 {
        Ok(raw.gas_resistance_ohm)
    } else {
        Err(SensorError::InvalidReading)
    }
}

/// Checks a sample and stamps it with the tick on which it was taken. A
/// sample with any implausible value is rejected whole.
pub fn validate(raw: &RawSample, now_tick: u32) -> (r: Result<SensorReading, SensorError>)
    ensures
        r == raw.checked(now_tick),
        r matches Ok(reading) ==> reading.plausible(),
{
    let temperature_centi: i32 = match get_temperature(raw) {
        Ok(v) => v,
        Err(e) => {
            return Err(e);
        },
    };
    let humidity_milli: u32 = match get_humidity(raw) {
        Ok(v) => v,
        Err(e) => {
            return Err(e);
        },
    };
    let pressure_pa: u32 = match get_pressure(raw) {
        Ok(v) => v,
        Err(e) => {
            return Err(e);
        },
    };
    let gas_resistance_ohm: u32 = match get_gas_resistance(raw) {
        Ok(v) => v,
        Err(e) => {
            return Err(e);
        },
    };
    Ok(
        SensorReading {
            temperature_centi,
            humidity_milli,
            pressure_pa,
            gas_resistance_ohm,
            timestamp_tick: now_tick,
        },
    )
}

} // verus!
