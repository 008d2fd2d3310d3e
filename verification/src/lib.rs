//! Token lifecycle and heart-rate retrieval for a fitness provider's web API.
//!
//! The crate holds the decisions of three small tools and of one scheduled
//! job: which request comes next, what is stored under which key, how a
//! provider response becomes a list of readings, and which calendar day is
//! asked for. Reading the environment, the network and the object store is
//! left to the caller, who hands over plain values and performs the steps
//! that the crate names.

pub mod calendar;
pub mod clock;
pub mod config;
pub mod error;
pub mod grant;
pub mod heart;
pub mod job;
pub mod json;
pub mod secret;
pub mod store;
pub mod text;
pub mod token;

pub use crate::heart::{ActivitiesIntraday, HeartReading, HeartResponse};
