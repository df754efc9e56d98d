//! Caches built from the telegrams seen on the bus.
pub mod group_address_cache;
