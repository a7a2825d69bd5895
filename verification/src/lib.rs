//! Availability detection for first-dose vaccination appointments.
//!
//! The crate holds the rules that decide which appointment motives and
//! agendas of a booking center are worth querying, the construction of the
//! slot-search request, the interpretation of its answer and the sum of the
//! open slots over a whole run.

pub mod text;
pub mod model;
pub mod filter;
pub mod params;
pub mod instant;
pub mod response;
pub mod tally;
pub mod config;
pub mod run;
