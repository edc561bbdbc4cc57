//! Sampling engine of a terminal monitor for an accelerator's active-time
//! counter.
//!
//! The hardware exposes a cumulative count of the milliseconds the device has
//! been active.  Once per tick the monitor reads that counter, turns the
//! change since the previous tick into a utilization percentage, keeps the
//! last minute of percentages, and describes the chart to draw.
//!
//! Everything here computes on plain values.  Listing devices, reading the
//! counter file, drawing and waiting for keys are left to the program that
//! embeds the engine:
//!
//! * [`device`] picks the accelerator from a list of devices and names its
//!   counter file;
//! * [`counter`] turns the text of that file into a counter value;
//! * [`rate`] turns two successive values into a percentage;
//! * [`history`] keeps the last sixty percentages;
//! * [`input`] tells a quit signal from any other key press;
//! * [`driver`] ties these together, one tick at a time.

pub mod counter;
pub mod device;
pub mod driver;
pub mod history;
pub mod input;
pub mod rate;
pub mod text;
