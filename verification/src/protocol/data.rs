//! Datapoint type coding: decoding octets into values and encoding values
//! into octets.
pub mod knx_data_decode;
pub mod knx_data_encode;
