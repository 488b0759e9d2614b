//! Client side of the appliance's HTTPS API: which request to send and what a
//! reply means.

pub mod file_station;
pub mod progress_reporter;
pub mod query;
pub mod responses;

pub use file_station::SynologyFileStation;
pub use progress_reporter::ProgressReporter;
pub use responses::{SynologyErrorStatus, SynologyStatusCode};
