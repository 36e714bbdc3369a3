//! cpu1sec: a once-per-second CPU tick sampler for a pull-based collector.
//!
//! The library holds the verified core: counter snapshots and their
//! clamped deltas, the textual data-line encoding, the drift-corrected
//! sampling cadence, the single-sampler exclusivity rule, and the
//! append/claim protocol of the cache that hands records from the
//! long-running sampler to a short-lived reader.

pub mod cadence;
pub mod exclusivity;
pub mod flow;
pub mod graphconf;
pub mod render;
pub mod sampler;
pub mod snapshot;
pub mod store;
