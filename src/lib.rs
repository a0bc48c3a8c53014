//! Composition substrate for a nodes-registry module: a write-once service
//! cell, a contract-keyed client hub, and the lifecycle and capability hooks
//! through which a host brings the module up.

pub mod cell;
pub mod hub;
pub mod service;
pub mod client;
pub mod capability;
pub mod module;
