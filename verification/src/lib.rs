//! Turns the calendar-bearing entries of a parsed outline document — headings
//! with deadline or scheduled timestamps and closed time-log intervals — into
//! a flat sequence of calendar events, applying a relative day-window filter.

pub mod fullcalendar;
pub mod numfmt;
pub mod org;
pub mod parse;
pub mod timestamp;
