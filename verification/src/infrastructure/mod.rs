//! Concrete backends: what the host reports and where records are kept.

pub mod discovery;
pub mod memory;
pub mod network_repositories;
pub mod repositories;
