//! The Kubernetes objects that the operator keeps, as far as it reads or writes them.
//!
//! What the operator does not look at travels along in the `rest` of each object.

pub mod config;
pub mod keycloak;
pub mod meta;
pub mod network;
pub mod object;
pub mod pod;
pub mod storage;
pub mod workload;
