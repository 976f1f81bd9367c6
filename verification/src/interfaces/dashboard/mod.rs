//! The read-only operations dashboard: its events, their projections, the
//! bounded buffer of recent events, and its base URL.
pub mod event;
pub mod http;
pub mod projection;
pub mod recorder;
