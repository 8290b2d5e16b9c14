//! The rules of an operator that keeps hawkBit instances on a Kubernetes cluster.
//!
//! [`controller`] says what is kept for an instance, and in which order it is reconciled; [`laws`] says
//! what holds of that as a whole.

pub mod content;
pub mod controller;
pub mod crd;
pub mod entries;
pub mod error;
pub mod install;
pub mod laws;
pub mod objects;
pub mod order;
pub mod outside;
pub mod ownership;
pub mod text;
pub mod text_map;
