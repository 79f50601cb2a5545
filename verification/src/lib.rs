//! Heart-rate status line for a wearable ring.
//!
//! The crate turns the newest heart-rate sample of a ring into one line of
//! text: the pulse, and how many minutes ago it was measured. A value that
//! crosses its alert threshold is set between markers.
//!
//! * [`decimal`] writes unsigned integers as decimal numerals.
//! * [`display`] renders the status line.
//! * [`instant`] holds points on the UTC time line and the calendar
//!   operations on them.
//! * [`query`] builds the request for the samples of the last day.
//! * [`reading`] picks the newest sample and measures its age.

pub mod decimal;
pub mod display;
pub mod instant;
pub mod query;
pub mod reading;

pub use decimal::{decimal_string, push_decimal};
pub use display::{
    alert_wrap, get_display, get_display_with, AlertThresholds, HeartData, BPM_ALERT_THRESHOLD,
    MINUTES_THRESHOLD,
};
pub use instant::UtcInstant;
pub use query::{heart_rate_url, request_url, window_start};
pub use reading::{heart_data, latest_heartbeat, minutes_ago, OuraHeartbeat, ReadingError};
