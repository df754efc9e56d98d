//! Frame layouts of the KNX protocol: control fields, cEMI and EMI
//! messages, KNXnet/IP structures and the transport/application layers.
pub mod control_field;
pub mod control_field_extended;
pub mod system_status;
pub mod layers;
pub mod device_descriptor_type;
pub mod knxnetip_enum;
pub mod knxnetip_header;
pub mod knxnetip_structures;
pub mod knx_add_info_types;
pub mod message_code_field;
pub mod cemi;
pub mod emi;
pub mod cemi_adapter;
pub mod data;
pub mod cache;
