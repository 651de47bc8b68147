//! Host-side network configuration: WiFi and static-IP profiles, interface
//! discovery and WiFi-scan sanitization, with machine-checked contracts.
//!
//! `domain` holds the entities, what a store has to do, the services and
//! what holds of their operations taken together. `infrastructure` holds the
//! stores in memory and the discovery of the host's interfaces.
//! `application` holds the transfer values and the use cases that a
//! presentation layer runs. State lives in memory only, and nothing here
//! changes the host's network settings.

pub mod application;
pub mod domain;
pub mod infrastructure;
pub mod keyed;
pub mod text;
