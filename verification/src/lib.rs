//! Recording and querying the positions that phones publish on an MQTT broker.
//!
//! - `datetime`: dates and times, and their number of seconds since the epoch;
//! - `locations`: which stored positions a query for a time span returns;
//! - `session`: the recorder's session with the broker, as a state machine;
//! - `config`: the recorder's settings.
pub mod config;
pub mod datetime;
pub mod locations;
pub mod session;
