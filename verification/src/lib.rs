//! Conversion of parsed ISO 8601 values into validated calendar values.
//!
//! A parsed date, time, date-time or duration is turned into the value that
//! the `chrono` crate would hold for it, or rejected when `chrono` has no such
//! value. Every conversion is a pure function; its contract states, over the
//! proleptic Gregorian calendar defined in [`calendar`], exactly which inputs
//! are accepted and which value comes out.

mod bridge;
pub mod calendar;
pub mod convert;
pub mod iso;
pub mod laws;
pub mod naive;

pub use crate::iso::{ConversionError, Date, DateTime, Duration, Time};
pub use crate::naive::{
    FixedOffset, FixedOffsetDateTime, NaiveDate, NaiveDateTime, NaiveTime, TimeDelta, Weekday,
};
