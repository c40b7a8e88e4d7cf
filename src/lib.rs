//! Control plane of an in-process test cluster: endpoint derivation, the
//! node/store registry, the retry and poll decisions, the transactional
//! request builders and the drain planner.
pub mod config;
pub mod endpoint;
pub mod region;
pub mod registry;
pub mod retry;
pub mod txn;
