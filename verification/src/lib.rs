//! The decisions of a small proxy in front of a solar monitoring service.
//!
//! The proxy answers each request with the energy series of the day. It
//! keeps the series it fetched last and serves it for five minutes before
//! it asks the monitoring service again; it rewrites the timestamps of what
//! it fetched into ISO-8601 form; and once a day, in the hour of noon, it
//! looks at the midday sample and raises an alert if the panels delivered
//! nothing.
//!
//! Nothing in this crate performs a network call, reads a clock or takes a
//! lock. Each function takes the instant and the state it decides on, and
//! returns the new state together with what is to be done: the request to
//! perform, the alert to send, the series to serve. The program around the
//! crate performs those and reports back how they ended.
//!
//! - [`time`]: instants, the hour of the day and the civil date.
//! - [`series`]: the energy series and the normalization of its timestamps.
//! - [`config`]: the settings that must be present at startup.
//! - [`upstream`]: the request to the monitoring service and how calls fail.
//! - [`cache`]: when to serve the cached series and when to fetch.
//! - [`gate`]: the daily check and its two states.
//! - [`alert`]: the alert that the daily check raises.
//! - [`text`]: reading strings character by character.

pub mod alert;
pub mod cache;
pub mod config;
pub mod gate;
pub mod series;
pub mod text;
pub mod time;
pub mod upstream;
