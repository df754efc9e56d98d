//! Protocol data units of the network, transport and application layers.
pub mod apdu;
pub mod tpdu;
pub mod npdu;
