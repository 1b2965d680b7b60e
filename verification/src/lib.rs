//! An in-memory routing table from network hosts to the deployments that serve them.

pub mod ident;
pub mod laws;
pub mod router;

pub use ident::{DeploymentId, Host};
pub use router::Router;
