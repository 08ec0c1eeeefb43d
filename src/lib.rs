//! A point-in-time inventory of a host's TCP and UDP endpoints, each joined with its owning
//! process and given a heuristic risk classification.
pub mod text;
pub mod model;
pub mod windows;
pub mod snapshot;
pub mod source;
pub mod platform;
pub mod export;
