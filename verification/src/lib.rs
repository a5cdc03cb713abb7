//! Node-fleet management core: bounded identity allocation, template-driven
//! port and directory resolution, an id-sorted node registry, a two-phase
//! deletion-confirmation ledger, and the provisioning decision logic.

pub mod bee;
pub mod bee_fn;
pub mod docker;
pub mod errors;
pub mod guard;
pub mod lifecycle;
pub mod models;
pub mod network_fn;
pub mod registry;
pub mod storage_fn;
pub mod strutil;
pub mod templates;
