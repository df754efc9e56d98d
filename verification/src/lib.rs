//! KNX protocol library: frame layouts (cEMI, EMI, KNXnet/IP), address
//! handling, datapoint coding and the connection state machines.
pub mod protocol;
pub mod errors;
pub mod utils;
pub mod connection;
pub mod config;
pub mod api;
