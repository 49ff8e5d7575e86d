//! Availability of rental units, read from their calendar pages and folded
//! into a per-day occupancy table.

pub mod date;
pub mod navigate;
pub mod calendar;
pub mod links;
pub mod occupancy;
