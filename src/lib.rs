//! Provisioning of a transient fleet of spot instances: the registry of machine
//! groups, the decisions of each phase of a run (rule set and key pair,
//! capacity requests, polling, bootstrap, teardown), and the connect policy of
//! the remote sessions. The calls to the cloud provider and to the machines
//! are made by the caller, which reports their outcome back to the engine.

pub mod bootstrap;
pub mod config;
pub mod engine;
pub mod fleet;
pub mod names;
pub mod owners;
pub mod registry;
pub mod requests;
pub mod session;
