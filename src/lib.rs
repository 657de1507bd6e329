//! Decides whether a machine's internet egress has fallen back to an unwanted
//! network path, and which corrective action follows.
//!
//! The library holds the decision logic: the reachability prober's plan and
//! verdicts, the HTTP retry policy of the identity providers, the provider
//! chain, and the per-cycle decision engine. Sockets, HTTP clients, sleeps and
//! system actions stay with the caller, which feeds their results back in.

pub mod text;
pub mod ip_api;
pub mod providers;
pub mod networking;
pub mod config;
pub mod actions;
pub mod check;
pub mod logging;
pub mod metrics;

pub use actions::{parse_action, Action};
pub use config::Config;
pub use networking::NetworkingError;
