//! Analysis of taxi trip records: classifies trips by pickup zone, dropoff
//! zone and pickup weekday, measures trip durations from textual timestamps,
//! and aggregates qualifying durations into 24 bounded per-hour histograms.

pub mod classify;
pub mod datetime;
pub mod histogram;
pub mod pipeline;
