//! Sample-and-serve core of an exporter for a BME280 environmental sensor.
//!
//! The crate holds the decisions of the exporter as verified code: what a
//! reading is, how a measurement cycle proceeds and when it gives up, how a
//! reading updates the gauges, what the scrape endpoint answers. Everything
//! that touches the bus, the clock or the network is left to the caller, which
//! performs the actions this crate asks for and reports back what happened.
//!
//! - [`channel`], [`sample`], [`reading`]: what the sensor measures.
//! - [`config`]: the sampling configuration and the defaults of the daemon.
//! - [`error`]: the kinds of failure.
//! - [`session`]: the measurement cycle; [`cycle`]: what holds of every cycle.
//! - [`registry`]: the gauges; [`exposition`]: the text they are rendered to;
//!   [`lines`] and [`rendering`]: what holds of every rendered text.
//! - [`handler`]: the answer to a scrape.

pub mod channel;
pub mod sample;
pub mod reading;
pub mod config;
pub mod error;
pub mod session;
pub mod cycle;
pub mod exposition;
pub mod lines;
pub mod registry;
pub mod rendering;
pub mod handler;
