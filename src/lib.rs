//! Reachability and latency checks of a single HTTP endpoint.
//!
//! The library validates the target address, keeps the clock of the request
//! and classifies what came back into a [`Metrics`] record. Performing the
//! request itself is left to the caller, which hands the library an
//! [`Outcome`].
pub mod address;
pub mod check;
mod clock;
pub mod laws;
pub mod metrics;
pub mod status;

pub use address::screen_url;
pub use check::{begin_check, PendingCheck};
pub use metrics::{invalid_url_metrics, outcome_metrics, Metrics, Outcome};
pub use status::{http_error_message, status_is_success};
