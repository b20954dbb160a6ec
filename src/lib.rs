//! Per-path state of a QUIC-style connection: a smoothed round-trip-time
//! estimator and a probe-based path MTU discovery state machine, held
//! together with a congestion controller in one record per remote address.
//!
//! Durations are counted in nanoseconds (`u128`), bounded by the largest
//! duration that `std::time::Duration` can hold.
pub mod addr;
pub mod mtud;
pub mod path;
pub mod rtt;

pub use addr::{header_size, RemoteAddr};
pub use mtud::{MtuDiscovery, MtuModel, Phase, BASE_PLPMTU, MAX_PLPMTU, MAX_PROBES};
pub use path::PathData;
pub use rtt::{smooth, RttEstimator, RttModel, MAX_DURATION, TIMER_GRANULARITY};
