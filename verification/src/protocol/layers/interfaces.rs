//! Protocol control information of the transport and application layers.
pub mod apci;
pub mod tpci;
