//! Verified core of a toolchain version manager.
//!
//! The library is the decision engine: it maps platforms to asset names,
//! derives every URL and filesystem path the manager touches, decides when a
//! cached bundle can be reused, plans installs and activations, resolves
//! symbolic version requests, parses the runtime-version manifest, and
//! classifies which installed toolchain is active.  All network and
//! filesystem effects are performed by a thin unverified shell that feeds
//! observations in and carries the planned actions out.

pub mod active;
pub mod bootstrap;
pub mod cache;
pub mod errors;
pub mod installer;
pub mod lister;
pub mod manifest;
pub mod paths;
pub mod store;
pub mod release;
pub mod resolver;
pub mod platform;
pub mod text;
pub mod urls;
