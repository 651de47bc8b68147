//! Entities, rules and services of the domain.

pub mod entities;
pub mod guarantees;
pub mod identity;
pub mod network_entities;
pub mod network_repositories;
pub mod network_services;
pub mod repositories;
pub mod services;
pub mod store;
pub mod timestamp;
