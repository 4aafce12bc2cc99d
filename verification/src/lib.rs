//! Monitor core for a single target camera device: identifying the device
//! among registry objects, tracking its identity across its lifetime,
//! mapping its state to an indicator level, and managing per-object
//! listener resources.

pub mod laws;
pub mod lifecycle;
pub mod props;
pub mod tracker;
pub mod reconcile;
