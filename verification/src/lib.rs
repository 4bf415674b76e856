//! Attendance ledger for a dog daycare: recurring schedules, their
//! materialisation into per-day attendance, and the rules of the document
//! that holds dogs, schedules, ledger and settings.

pub mod age;
pub mod attendance;
pub mod backup;
pub mod clearing;
pub mod date;
pub mod dogs;
pub mod error;
pub mod ids;
pub mod json;
pub mod laws;
pub mod ledger;
pub mod mail;
pub mod migrate;
pub mod model;
pub mod records;
pub mod recurrence;
pub mod schedule;
pub mod sql;
pub mod store;
pub mod strmap;
pub mod text;
