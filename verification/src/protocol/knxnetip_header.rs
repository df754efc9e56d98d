//! The six-octet KNXnet/IP frame header: header size, protocol version,
//! service type and total frame length.
use crate::errors::KnxError;
use crate::protocol::knxnetip_enum::{knx_net_ip_service_type_code, KnxNetIpServiceType};
use crate::utils::bytes::be16;
use vstd::prelude::*;

verus! {

/// A KNXnet/IP header.
#[derive(Debug, Clone, Copy, PartialEq, Eq, Structural)]
pub struct KnxNetIpHeader {
    pub service_type: KnxNetIpServiceType,
    pub total_length: u16,
}

/// The six octets of a header.
pub open spec fn header_bytes(h: KnxNetIpHeader) -> Seq<u8> {
    let t = knx_net_ip_service_type_code(h.service_type);
    seq![0x06u8, 0x10u8, (t / 256) as u8, (t % 256) as u8, (h.total_length / 256) as u8, (h.total_length % 256) as u8]
}

/// Whether some service type has code `v`.
pub open spec fn known_service_type(v: int) -> bool {
    exists|e: KnxNetIpServiceType| knx_net_ip_service_type_code(e) == v
}

/// The header at the start of `b`: at least six octets, header size 6,
/// version 0x10 and a known service type.
pub open spec fn parse_header_spec(b: Seq<u8>) -> Option<KnxNetIpHeader> {
    if b.len() >= 6 && b[0] == 0x06 && b[1] == 0x10 && known_service_type(be16(b[2], b[3])) {
        Some(
            KnxNetIpHeader {
                service_type: choose|e: KnxNetIpServiceType|
                    knx_net_ip_service_type_code(e) == be16(b[2], b[3]),
                total_length: be16(b[4], b[5]) as u16,
            },
        )
    } else {
        None
    }
}

impl KnxNetIpHeader {
    /// Header size of version 1.0.
    pub const HEADER_SIZE_10: u8 = 0x06;
    /// Protocol version 1.0.
    pub const KNXNETIP_VERSION_10: u8 = 0x10;

    /// A header for a frame of `total_length` octets.
    pub fn new(service_type: KnxNetIpServiceType, total_length: u16) -> (h: Self)
        ensures
            h.service_type == service_type,
            h.total_length == total_length,
    {
        KnxNetIpHeader { service_type, total_length }
    }

    /// The six octets of the header.
    pub fn to_buffer(&self) -> (b: Vec<u8>)
        ensures
            b@ == header_bytes(*self),
    {
        let t = self.service_type.code();
        vec![
            Self::HEADER_SIZE_10,
            Self::KNXNETIP_VERSION_10,
            (t / 256) as u8,
            (t % 256) as u8,
            (self.total_length / 256) as u8,
            (self.total_length % 256) as u8,
        ]
    }

    /// The header at the start of `buffer`.
    pub fn from_buffer(buffer: &[u8]) -> (r: Result<Self, KnxError>)
        ensures
            match parse_header_spec(buffer@) {
                Some(h) => r == Ok::<Self, KnxError>(h),
                None => r == Err::<Self, KnxError>(KnxError::InvalidParametersForDpt),
            },
    {
        if buffer.len() < 6 {
            return Err(KnxError::InvalidParametersForDpt);
        }
        if buffer[0] != Self::HEADER_SIZE_10 {
            return Err(KnxError::InvalidParametersForDpt);
        }
        if buffer[1] != Self::KNXNETIP_VERSION_10 {
            return Err(KnxError::InvalidParametersForDpt);
        }
        let v: u16 = buffer[2] as u16 * 256 + buffer[3] as u16;
        match KnxNetIpServiceType::from_u16(v) {
            Some(t) => {
                proof {
                    let c = choose|e: KnxNetIpServiceType|
                        knx_net_ip_service_type_code(e) == be16(buffer@[2], buffer@[3]);
                    crate::protocol::knxnetip_enum::lemma_knx_net_ip_service_type_code_injective(
                        t,
                        c,
                    );
                }
                let len: u16 = buffer[4] as u16 * 256 + buffer[5] as u16;
                Ok(KnxNetIpHeader { service_type: t, total_length: len })
            },
            None => Err(KnxError::InvalidParametersForDpt),
        }
    }
}

/// A header written to octets is read back unchanged.
pub proof fn lemma_header_round_trip(h: KnxNetIpHeader)
    ensures
        parse_header_spec(header_bytes(h)) == Some(h),
{
    let b = header_bytes(h);
    let t = knx_net_ip_service_type_code(h.service_type);
    assert(be16(b[2], b[3]) == t);
    assert(known_service_type(be16(b[2], b[3])));
    let c = choose|e: KnxNetIpServiceType| knx_net_ip_service_type_code(e) == be16(b[2], b[3]);
    crate::protocol::knxnetip_enum::lemma_knx_net_ip_service_type_code_injective(h.service_type, c);
}

} // verus!
