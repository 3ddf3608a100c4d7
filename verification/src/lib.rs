//! Control logic of a standalone environmental monitor: it validates climate
//! and gas readings, debounces three buttons, latches smoke and air-quality
//! alarms, selects what a two-row character display shows, and decides, tick
//! by tick, what the firmware around it has to do next.
//!
//! Nothing here touches hardware. The firmware reads pins and the sensor,
//! hands plain values in, and carries out what comes back.

pub mod text;
pub mod reading;
pub mod alert;
pub mod input;
pub mod display;
pub mod screen;
pub mod control;
pub mod sensor;
