//! Verified core of a client for the Rust+ companion protocol: the requests
//! and their cost, rate limiting, matching responses to requests, the
//! connection address, the proxy-version cache, and the map and camera
//! monitors that turn periodic snapshots into events.

pub mod client;
pub mod clock;
pub mod error;
pub mod events;
pub mod monitors;
pub mod proxy;
pub mod ratelimit;
pub mod target;
pub mod tracker;
