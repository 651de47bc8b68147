//! What the presentation layer sees: transfer values and use cases.

pub mod dto;
pub mod network_dto;
pub mod network_use_cases;
pub mod use_cases;
