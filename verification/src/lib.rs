//! Verified core of the STEIN local protocol transport and second-mind policy.
//!
//! The library holds the decisions that CORE makes about frames, protocol
//! versions, admission, handshakes, client-side snapshot caching, goals,
//! permissions, the focus-session lifecycle, capture authority and the
//! proactive-intervention policy. Transport, storage and adapter I/O live
//! outside it: a caller reads the records, asks the library what to do, and
//! carries the answer out.

pub mod codec;
pub mod protocol;
pub mod errors;
pub mod admission;
pub mod config;
pub mod text;
pub mod identity;
pub mod server;
pub mod model;
pub mod gates;
pub mod preferences;
pub mod goals;
pub mod client;
pub mod validation;
pub mod delivery;
pub mod sessions;
pub mod view_publication;
pub mod evidence;
pub mod emergency;
pub mod runtime;
pub mod views;
pub mod snapshot;
pub mod events;
pub mod apply;
pub mod focus;
pub mod permissions;
pub mod feedback;
pub mod capture;
pub mod resources;
pub mod policy;
pub mod dedup;
