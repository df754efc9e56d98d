//! Transport and application layer units.
pub mod data;
pub mod interfaces;
