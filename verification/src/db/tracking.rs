//! Time trackings: the table, its join table to activities, and the layer that
//! presents both as one record.

pub mod laws;
pub mod middlelayer;
pub mod tracking;
pub mod tracking_to_activity;

pub use middlelayer::{CreateTracking, Tracking, UpdateTracking};
