//! Helpers shared by the protocol layers.
pub mod bits;
pub mod bytes;
pub mod knx_helper;
pub mod text;
pub mod table;
pub mod ip;
pub mod logger;
pub mod fsm;
