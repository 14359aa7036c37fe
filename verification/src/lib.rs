//! Bounded-time discovery of service instances advertised on the local network.
//!
//! A scan browses for one service type until a fixed time budget is used up.
//! It takes the resolutions that the discovery daemon reports, keeps the
//! first resolution of each instance, and hands the records out in the order
//! in which the instances were resolved.
//!
//! The library decides and keeps the books; it opens no socket and reads no
//! clock. A driver outside it creates the daemon, subscribes, polls and
//! releases the daemon as the session of [`session`] asks, and reports what
//! came of it.
//!
//! - [`session`]: the scan as a state machine, from the creation of the
//!   daemon to the report.
//! - [`roster`]: the list of records and the rule that admits an instance once.
//! - [`record`], [`attributes`]: the record of an instance and its metadata.
//! - [`event`]: the kinds of event that a daemon reports.
//! - [`mdns`]: events of the `mdns_sd` daemon as events of this library.
//! - [`error`]: the failures of a scan and the text that shows them.
//! - [`laws`]: what is proved of every scan.

pub mod attributes;
pub mod error;
pub mod event;
pub mod laws;
pub mod mdns;
pub mod record;
pub mod roster;
pub mod session;
