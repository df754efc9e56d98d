//! KNXnet/IP structures: host address (HPAI), connection request and
//! response data (CRI, CRD), routing flow control, tunnelling slot status,
//! description blocks (DIB) and search request parameters (SRP).
//!
//! IPv4 addresses are held as their four octets, most significant first.
use crate::errors::KnxError;
use crate::protocol::device_descriptor_type::DeviceDescriptorType0;
use crate::protocol::knxnetip_enum::{
    connection_type_code, connection_type_of, description_type_code, description_type_of,
    host_protocol_code_code, host_protocol_of, knx_medium_code, knx_medium_of,
    lemma_connection_type_of, lemma_description_type_of, lemma_host_protocol_of,
    lemma_knx_medium_of, ConnectionType, DescriptionType, HostProtocolCode, KnxMedium,
};
use crate::utils::bytes::be16;
use vstd::prelude::*;
use vstd::utf8::{decode_utf8, encode_utf8, valid_utf8};

verus! {

/// High and low octet of a 16-bit value.
pub open spec fn u16_bytes(v: u16) -> Seq<u8> {
    seq![(v / 256) as u8, (v % 256) as u8]
}

/// Appends `v`, high octet first.
pub fn push_u16(buf: &mut Vec<u8>, v: u16)
    ensures
        final(buf)@ == old(buf)@ + u16_bytes(v),
{
    buf.push((v / 256) as u8);
    buf.push((v % 256) as u8);
    assert(final(buf)@ =~= old(buf)@ + u16_bytes(v));
}

/// Appends every octet of `data`.
pub fn push_all(buf: &mut Vec<u8>, data: &[u8])
    ensures
        final(buf)@ == old(buf)@ + data@,
{
    let mut i: usize = 0;
    while i < data.len()
        invariant
            i <= data@.len(),
            buf@ == old(buf)@ + data@.subrange(0, i as int),
        decreases data.len() - i,
    {
        buf.push(data[i]);
        assert(data@.subrange(0, i as int + 1) =~= data@.subrange(0, i as int).push(data@[i as int]));
        i = i + 1;
    }
    assert(data@.subrange(0, data@.len() as int) =~= data@);
}

/// The octets `from..to` of `b` as a new vector.
pub fn copy_range(b: &[u8], from: usize, to: usize) -> (v: Vec<u8>)
    requires
        from <= to <= b@.len(),
    ensures
        v@ == b@.subrange(from as int, to as int),
{
    let mut v: Vec<u8> = Vec::new();
    let mut i: usize = from;
    while i < to
        invariant
            from <= i <= to <= b@.len(),
            v@ == b@.subrange(from as int, i as int),
        decreases to - i,
    {
        v.push(b[i]);
        assert(b@.subrange(from as int, i as int + 1) =~= b@.subrange(from as int, i as int).push(
            b@[i as int],
        ));
        i = i + 1;
    }
    v
}

/// Reads a 16-bit value, high octet first, at `i`.
pub fn get_u16(b: &[u8], i: usize) -> (v: u16)
    requires
        i + 2 <= b@.len(),
    ensures
        v == be16(b@[i as int], b@[i + 1]),
{
    b[i] as u16 * 256 + b[i + 1] as u16
}

// ------------------------------------------------------------------
// HPAI
// ------------------------------------------------------------------

/// Host protocol address information: protocol, IPv4 address and port.
#[derive(Debug, Clone, PartialEq, Eq)]
pub struct Hpai {
    pub host_protocol: HostProtocolCode,
    pub ip_address: [u8; 4],
    pub port: u16,
}

/// The eight octets of an HPAI.
pub open spec fn hpai_bytes(h: Hpai) -> Seq<u8> {
    seq![8u8, host_protocol_code_code(h.host_protocol)] + h.ip_address@ + u16_bytes(h.port)
}

impl Hpai {
    /// An HPAI from its parts.
    pub fn new(host_protocol: HostProtocolCode, ip_address: [u8; 4], port: u16) -> (h: Self)
        ensures
            h.host_protocol == host_protocol,
            h.ip_address == ip_address,
            h.port == port,
    {
        Hpai { host_protocol, ip_address, port }
    }

    /// The UDP address 0.0.0.0, port 0 (route back to the sender).
    pub fn null_hpai() -> (h: Self)
        ensures
            h.host_protocol == HostProtocolCode::Ipv4Udp,
            h.ip_address@ == seq![0u8, 0u8, 0u8, 0u8],
            h.port == 0,
    {
        let h = Hpai { host_protocol: HostProtocolCode::Ipv4Udp, ip_address: [0u8, 0u8, 0u8, 0u8], port: 0 };
        assert(h.ip_address@ =~= seq![0u8, 0u8, 0u8, 0u8]);
        h
    }

    /// The eight octets of the structure.
    pub fn to_buffer(&self) -> (b: Vec<u8>)
        ensures
            b@ == hpai_bytes(*self),
    {
        let mut b: Vec<u8> = Vec::new();
        b.push(8);
        b.push(self.host_protocol.code());
        push_all(&mut b, self.ip_address.as_slice());
        push_u16(&mut b, self.port);
        assert(b@ =~= hpai_bytes(*self));
        b
    }

    /// The HPAI at the start of `buffer`: at least eight octets with a
    /// known host protocol.
    pub fn from_buffer(buffer: &[u8]) -> (r: Result<Self, KnxError>)
        ensures
            (buffer@.len() >= 8 && host_protocol_of(buffer@[1]) is Some) ==> (r matches Ok(h)
                && Some(h.host_protocol) == host_protocol_of(buffer@[1]) && h.ip_address@
                == buffer@.subrange(2, 6) && h.port == be16(buffer@[6], buffer@[7])),
            !(buffer@.len() >= 8 && host_protocol_of(buffer@[1]) is Some) ==> r == Err::<
                Self,
                KnxError,
            >(KnxError::InvalidParametersForDpt),
    {
        if buffer.len() < 8 {
            return Err(KnxError::InvalidParametersForDpt);
        }
        match HostProtocolCode::from_u8(buffer[1]) {
            Some(p) => {
                proof {
                    lemma_host_protocol_of(p);
                }
                let ip = [buffer[2], buffer[3], buffer[4], buffer[5]];
                assert(ip@ =~= buffer@.subrange(2, 6));
                Ok(Hpai { host_protocol: p, ip_address: ip, port: get_u16(buffer, 6) })
            },
            None => Err(KnxError::InvalidParametersForDpt),
        }
    }
}

// ------------------------------------------------------------------
// CRI
// ------------------------------------------------------------------

/// Connection request information.
#[derive(Debug, Clone, PartialEq, Eq, Structural)]
pub struct Cri {
    pub connection_type: ConnectionType,
    pub knx_layer: u8,
    pub individual_address: Option<u16>,
}

/// The octets of a CRI: four, or six with an individual address.
pub open spec fn cri_bytes(c: Cri) -> Seq<u8> {
    match c.individual_address {
        Some(a) => seq![6u8, connection_type_code(c.connection_type), c.knx_layer, 0u8] + u16_bytes(a),
        None => seq![4u8, connection_type_code(c.connection_type), c.knx_layer, 0u8],
    }
}

/// The CRI at the start of `b`. A length octet of 2 stands for a
/// link-layer tunnel; otherwise four octets are needed, and the individual
/// address is read when the length octet is 6 and six octets are there.
pub open spec fn parse_cri(b: Seq<u8>) -> Option<Cri> {
    if b.len() < 2 || connection_type_of(b[1]) is None {
        None
    } else if b[0] == 2 {
        Some(Cri { connection_type: connection_type_of(b[1])->0, knx_layer: 0x02, individual_address: None })
    } else if b.len() < 4 {
        None
    } else {
        Some(
            Cri {
                connection_type: connection_type_of(b[1])->0,
                knx_layer: b[2],
                individual_address: if b[0] == 6 && b.len() >= 6 {
                    Some(be16(b[4], b[5]) as u16)
                } else {
                    None
                },
            },
        )
    }
}

impl Cri {
    /// A CRI from its parts.
    pub fn new(connection_type: ConnectionType, knx_layer: u8, individual_address: Option<u16>) -> (c: Self)
        ensures
            c == (Cri { connection_type, knx_layer, individual_address }),
    {
        Cri { connection_type, knx_layer, individual_address }
    }

    /// The octets of the structure.
    pub fn to_buffer(&self) -> (b: Vec<u8>)
        ensures
            b@ == cri_bytes(*self),
    {
        let mut b: Vec<u8> = Vec::new();
        let len: u8 = if self.individual_address.is_some() {
            6
        } else {
            4
        };
        b.push(len);
        b.push(self.connection_type.code());
        b.push(self.knx_layer);
        b.push(0);
        if let Some(a) = self.individual_address {
            push_u16(&mut b, a);
        }
        assert(b@ =~= cri_bytes(*self));
        b
    }

    /// The CRI at the start of `buffer`.
    pub fn from_buffer(buffer: &[u8]) -> (r: Result<Self, KnxError>)
        ensures
            match parse_cri(buffer@) {
                Some(c) => r == Ok::<Self, KnxError>(c),
                None => r == Err::<Self, KnxError>(KnxError::InvalidParametersForDpt),
            },
    {
        if buffer.len() < 2 {
            return Err(KnxError::InvalidParametersForDpt);
        }
        let ct = match ConnectionType::from_u8(buffer[1]) {
            Some(t) => t,
            None => {
                return Err(KnxError::InvalidParametersForDpt);
            },
        };
        proof {
            lemma_connection_type_of(ct);
        }
        if buffer[0] == 2 {
            return Ok(Cri { connection_type: ct, knx_layer: 0x02, individual_address: None });
        }
        if buffer.len() < 4 {
            return Err(KnxError::InvalidParametersForDpt);
        }
        let knx_layer = buffer[2];
        let individual_address = if buffer[0] == 6 && buffer.len() >= 6 {
            Some(get_u16(buffer, 4))
        } else {
            None
        };
        Ok(Cri { connection_type: ct, knx_layer, individual_address })
    }
}

/// A CRI written to octets is read back unchanged, except that a
/// four-octet CRI never carries an individual address.
pub proof fn lemma_cri_round_trip(c: Cri)
    ensures
        parse_cri(cri_bytes(c)) == Some(c),
{
    lemma_connection_type_of(c.connection_type);
    let b = cri_bytes(c);
    match c.individual_address {
        Some(a) => {
            assert(be16(b[4], b[5]) == a);
        },
        None => {},
    }
}

// ------------------------------------------------------------------
// CRD
// ------------------------------------------------------------------

/// Connection response data.
#[derive(Debug, Clone, PartialEq, Eq, Structural)]
pub struct Crd {
    pub connection_type: ConnectionType,
    pub knx_address: u16,
}

/// The four octets of a CRD.
pub open spec fn crd_bytes(c: Crd) -> Seq<u8> {
    seq![4u8, connection_type_code(c.connection_type)] + u16_bytes(c.knx_address)
}

/// The CRD at the start of `b`; a length octet of 2 carries no address.
pub open spec fn parse_crd(b: Seq<u8>) -> Option<Crd> {
    if b.len() < 2 || connection_type_of(b[1]) is None {
        None
    } else if b[0] == 2 {
        Some(Crd { connection_type: connection_type_of(b[1])->0, knx_address: 0 })
    } else if b.len() < 4 {
        None
    } else {
        Some(Crd { connection_type: connection_type_of(b[1])->0, knx_address: be16(b[2], b[3]) as u16 })
    }
}

impl Crd {
    /// A CRD from its parts.
    pub fn new(connection_type: ConnectionType, knx_address: u16) -> (c: Self)
        ensures
            c == (Crd { connection_type, knx_address }),
    {
        Crd { connection_type, knx_address }
    }

    /// The four octets of the structure.
    pub fn to_buffer(&self) -> (b: Vec<u8>)
        ensures
            b@ == crd_bytes(*self),
    {
        let mut b: Vec<u8> = Vec::new();
        b.push(4);
        b.push(self.connection_type.code());
        push_u16(&mut b, self.knx_address);
        assert(b@ =~= crd_bytes(*self));
        b
    }

    /// The CRD at the start of `buffer`.
    pub fn from_buffer(buffer: &[u8]) -> (r: Result<Self, KnxError>)
        ensures
            match parse_crd(buffer@) {
                Some(c) => r == Ok::<Self, KnxError>(c),
                None => r == Err::<Self, KnxError>(KnxError::InvalidParametersForDpt),
            },
    {
        if buffer.len() < 2 {
            return Err(KnxError::InvalidParametersForDpt);
        }
        let ct = match ConnectionType::from_u8(buffer[1]) {
            Some(t) => t,
            None => {
                return Err(KnxError::InvalidParametersForDpt);
            },
        };
        proof {
            lemma_connection_type_of(ct);
        }
        if buffer[0] == 2 {
            return Ok(Crd { connection_type: ct, knx_address: 0 });
        }
        if buffer.len() < 4 {
            return Err(KnxError::InvalidParametersForDpt);
        }
        Ok(Crd { connection_type: ct, knx_address: get_u16(buffer, 2) })
    }
}

/// A CRD written to octets is read back unchanged.
pub proof fn lemma_crd_round_trip(c: Crd)
    ensures
        parse_crd(crd_bytes(c)) == Some(c),
{
    lemma_connection_type_of(c.connection_type);
    let b = crd_bytes(c);
    assert(be16(b[2], b[3]) == c.knx_address);
}

// ------------------------------------------------------------------
// Routing flow control
// ------------------------------------------------------------------

/// Body of a ROUTING_BUSY frame.
#[derive(Debug, Clone, PartialEq, Eq, Structural)]
pub struct RoutingBusy {
    pub device_state: u8,
    pub wait_time: u16,
    pub routing_busy_control: u16,
}

/// The six octets of a ROUTING_BUSY body (its length octet says 4).
pub open spec fn routing_busy_bytes(r: RoutingBusy) -> Seq<u8> {
    seq![4u8, r.device_state] + u16_bytes(r.wait_time) + u16_bytes(r.routing_busy_control)
}

impl RoutingBusy {
    /// A ROUTING_BUSY body from its parts.
    pub fn new(device_state: u8, wait_time: u16, routing_busy_control: u16) -> (r: Self)
        ensures
            r == (RoutingBusy { device_state, wait_time, routing_busy_control }),
    {
        RoutingBusy { device_state, wait_time, routing_busy_control }
    }

    /// The six octets of the body.
    pub fn to_buffer(&self) -> (b: Vec<u8>)
        ensures
            b@ == routing_busy_bytes(*self),
    {
        let mut b: Vec<u8> = Vec::new();
        b.push(4);
        b.push(self.device_state);
        push_u16(&mut b, self.wait_time);
        push_u16(&mut b, self.routing_busy_control);
        assert(b@ =~= routing_busy_bytes(*self));
        b
    }

    /// The body at the start of `buffer` (six octets needed).
    pub fn from_buffer(buffer: &[u8]) -> (r: Result<Self, KnxError>)
        ensures
            buffer@.len() < 6 ==> r == Err::<Self, KnxError>(KnxError::InvalidParametersForDpt),
            buffer@.len() >= 6 ==> r == Ok::<Self, KnxError>(
                RoutingBusy {
                    device_state: buffer@[1],
                    wait_time: be16(buffer@[2], buffer@[3]) as u16,
                    routing_busy_control: be16(buffer@[4], buffer@[5]) as u16,
                },
            ),
    {
        if buffer.len() < 6 {
            return Err(KnxError::InvalidParametersForDpt);
        }
        Ok(
            RoutingBusy {
                device_state: buffer[1],
                wait_time: get_u16(buffer, 2),
                routing_busy_control: get_u16(buffer, 4),
            },
        )
    }
}

/// Body of a ROUTING_LOST_MESSAGE frame.
#[derive(Debug, Clone, PartialEq, Eq, Structural)]
pub struct RoutingLostMessage {
    pub device_state: u8,
    pub lost_messages: u16,
}

/// The four octets of a ROUTING_LOST_MESSAGE body.
pub open spec fn routing_lost_bytes(r: RoutingLostMessage) -> Seq<u8> {
    seq![4u8, r.device_state] + u16_bytes(r.lost_messages)
}

impl RoutingLostMessage {
    /// A ROUTING_LOST_MESSAGE body from its parts.
    pub fn new(device_state: u8, lost_messages: u16) -> (r: Self)
        ensures
            r == (RoutingLostMessage { device_state, lost_messages }),
    {
        RoutingLostMessage { device_state, lost_messages }
    }

    /// The four octets of the body.
    pub fn to_buffer(&self) -> (b: Vec<u8>)
        ensures
            b@ == routing_lost_bytes(*self),
    {
        let mut b: Vec<u8> = Vec::new();
        b.push(4);
        b.push(self.device_state);
        push_u16(&mut b, self.lost_messages);
        assert(b@ =~= routing_lost_bytes(*self));
        b
    }

    /// The body at the start of `buffer` (four octets needed).
    pub fn from_buffer(buffer: &[u8]) -> (r: Result<Self, KnxError>)
        ensures
            buffer@.len() < 4 ==> r == Err::<Self, KnxError>(KnxError::InvalidParametersForDpt),
            buffer@.len() >= 4 ==> r == Ok::<Self, KnxError>(
                RoutingLostMessage {
                    device_state: buffer@[1],
                    lost_messages: be16(buffer@[2], buffer@[3]) as u16,
                },
            ),
    {
        if buffer.len() < 4 {
            return Err(KnxError::InvalidParametersForDpt);
        }
        Ok(RoutingLostMessage { device_state: buffer[1], lost_messages: get_u16(buffer, 2) })
    }
}

/// The routing flow-control bodies are read back unchanged from the
/// octets they are written to.
pub proof fn lemma_routing_round_trip(b: RoutingBusy, l: RoutingLostMessage)
    ensures
        ({
            let o = routing_busy_bytes(b);
            RoutingBusy {
                device_state: o[1],
                wait_time: be16(o[2], o[3]) as u16,
                routing_busy_control: be16(o[4], o[5]) as u16,
            } == b
        }),
        ({
            let o = routing_lost_bytes(l);
            RoutingLostMessage { device_state: o[1], lost_messages: be16(o[2], o[3]) as u16 } == l
        }),
{
}

// ------------------------------------------------------------------
// Tunnelling slot status
// ------------------------------------------------------------------

/// Status word of a tunnelling slot: bit 2 usable, bit 1 authorised,
/// bit 0 free.
#[derive(Debug, Clone, Copy, PartialEq, Eq)]
pub struct StatusTunnelingSlot {
    value: u16,
}

impl StatusTunnelingSlot {
    /// The status word.
    pub closed spec fn spec_value(&self) -> u16 {
        self.value
    }

    /// A status holding `value`.
    pub fn new(value: u16) -> (s: Self)
        ensures
            s.spec_value() == value,
    {
        StatusTunnelingSlot { value }
    }

    /// The status of a slot with no flag set in the low three bits.
    pub fn default() -> (s: Self)
        ensures
            s.spec_value() == 0xFFF8,
    {
        StatusTunnelingSlot { value: 0xFFF8 }
    }

    /// The status word.
    pub fn get_value(&self) -> (v: u16)
        ensures
            v == self.spec_value(),
    {
        self.value
    }

    /// Bit 2: the slot is usable.
    pub fn get_usable(&self) -> (r: bool)
        ensures
            r == ((self.spec_value() / 4) % 2 == 1),
    {
        (self.value / 4) % 2 == 1
    }

    /// Writes bit 2.
    pub fn set_usable(&mut self, usable: bool)
        ensures
            final(self).spec_value() == old(self).spec_value() - ((old(self).spec_value() / 4) % 2)
                * 4 + (if usable {
                4int
            } else {
                0int
            }),
    {
        let bit = (self.value / 4) % 2;
        self.value = self.value - bit * 4 + if usable {
            4
        } else {
            0
        };
    }

    /// Bit 1: the slot is authorised.
    pub fn get_authorised(&self) -> (r: bool)
        ensures
            r == ((self.spec_value() / 2) % 2 == 1),
    {
        (self.value / 2) % 2 == 1
    }

    /// Writes bit 1.
    pub fn set_authorised(&mut self, auth: bool)
        ensures
            final(self).spec_value() == old(self).spec_value() - ((old(self).spec_value() / 2) % 2)
                * 2 + (if auth {
                2int
            } else {
                0int
            }),
    {
        let bit = (self.value / 2) % 2;
        self.value = self.value - bit * 2 + if auth {
            2
        } else {
            0
        };
    }

    /// Bit 0: the slot is free.
    pub fn get_free(&self) -> (r: bool)
        ensures
            r == (self.spec_value() % 2 == 1),
    {
        self.value % 2 == 1
    }

    /// Writes bit 0.
    pub fn set_free(&mut self, free: bool)
        ensures
            final(self).spec_value() == old(self).spec_value() - old(self).spec_value() % 2 + (if free {
                1int
            } else {
                0int
            }),
    {
        let bit = self.value % 2;
        self.value = self.value - bit + if free {
            1
        } else {
            0
        };
    }
}

/// A flag written into a slot status is read back, and the other flags
/// are kept.
pub proof fn lemma_slot_flags(v: u16, b: bool)
    ensures
        ({
            let w = v - ((v / 4) % 2) * 4 + (if b { 4int } else { 0int });
            ((w / 4) % 2 == 1) == b && (w / 2) % 2 == (v / 2) % 2 && w % 2 == v % 2
        }),
        ({
            let w = v - ((v / 2) % 2) * 2 + (if b { 2int } else { 0int });
            ((w / 2) % 2 == 1) == b && (w / 4) % 2 == (v / 4) % 2 && w % 2 == v % 2
        }),
        ({
            let w = v - v % 2 + (if b { 1int } else { 0int });
            (w % 2 == 1) == b && (w / 4) % 2 == (v / 4) % 2 && (w / 2) % 2 == (v / 2) % 2
        }),
{
}

// ------------------------------------------------------------------
// Description information blocks
// ------------------------------------------------------------------

/// Device information block.
#[derive(Debug, Clone, PartialEq, Eq)]
pub struct DeviceInformationDib {
    pub knx_medium: KnxMedium,
    pub device_status: u8,
    pub individual_address: u16,
    pub project_installation_id: u16,
    pub serial_number: [u8; 6],
    pub routing_multicast_address: [u8; 4],
    pub mac_address: [u8; 6],
    pub friendly_name: String,
}

/// IP configuration block.
#[derive(Debug, Clone, PartialEq, Eq)]
pub struct IpConfigDib {
    pub ip_address: [u8; 4],
    pub subnet_mask: [u8; 4],
    pub default_gateway: [u8; 4],
    pub ip_capabilities: u8,
    pub ip_assignment_method: u8,
}

/// Current IP configuration block.
#[derive(Debug, Clone, PartialEq, Eq)]
pub struct IpCurrentConfigDib {
    pub ip_address: [u8; 4],
    pub subnet_mask: [u8; 4],
    pub default_gateway: [u8; 4],
    pub dhcp_server: [u8; 4],
    pub ip_assignment_method: u8,
}

/// One tunnelling slot: its individual address and status.
#[derive(Debug, Clone, PartialEq, Eq)]
pub struct TunnelSlot {
    pub address: u16,
    pub status: StatusTunnelingSlot,
}

/// Tunnelling information block.
#[derive(Debug, Clone, PartialEq, Eq)]
pub struct TunnellingInfoDib {
    pub apdu_length: u16,
    pub slots: Vec<TunnelSlot>,
}

/// Extended device information block.
#[derive(Debug, Clone, PartialEq, Eq)]
pub struct ExtendedDeviceInformationDib {
    pub medium_status: bool,
    pub maximal_local_apdu_length: u16,
    pub device_descriptor_type0: DeviceDescriptorType0,
}

/// A supported service family and its version.
#[derive(Debug, Clone, PartialEq, Eq)]
pub struct SupportedService {
    pub family: u8,
    pub version: u8,
}

/// Supported service families block.
#[derive(Debug, Clone, PartialEq, Eq)]
pub struct SupportedServicesDib {
    pub services: Vec<SupportedService>,
}

/// KNX addresses block.
#[derive(Debug, Clone, PartialEq, Eq)]
pub struct KnxAddressesDib {
    pub knx_individual_address: u16,
    pub additional_individual_addresses: Vec<u16>,
}

/// Manufacturer data block.
#[derive(Debug, Clone, PartialEq, Eq)]
pub struct MfrDataDib {
    pub manufacturer_id: u16,
    pub data: Vec<u8>,
}

/// A block of a type this library does not read, kept as raw octets.
#[derive(Debug, Clone, PartialEq, Eq)]
pub struct UnknownDib {
    pub type_code: u8,
    pub raw_data: Vec<u8>,
}

/// A description information block.
#[derive(Debug, Clone, PartialEq, Eq)]
pub enum Dib {
    DeviceInfo(DeviceInformationDib),
    IpConfig(IpConfigDib),
    IpCurrentConfig(IpCurrentConfigDib),
    TunnellingInfo(TunnellingInfoDib),
    ExtendedDeviceInfo(ExtendedDeviceInformationDib),
    SupportedServices(SupportedServicesDib),
    KnxAddresses(KnxAddressesDib),
    MfrData(MfrDataDib),
    Unknown(UnknownDib),
}

/// The text that `String::from_utf8_lossy` makes of some octets.
pub uninterp spec fn utf8_lossy_chars(b: Seq<u8>) -> Seq<char>;

/// `String::from_utf8_lossy`, made owned: the octets decoded as UTF-8,
/// each invalid sequence replaced by U+FFFD. Its documentation states
/// that valid UTF-8 is decoded unchanged.
#[verifier::external_body]
pub(crate) fn utf8_lossy(b: &[u8]) -> (s: String)
    ensures
        s@ == utf8_lossy_chars(b@),
        valid_utf8(b@) ==> s@ == decode_utf8(b@),
{
    String::from_utf8_lossy(b).into_owned()
}

/// The octets of `s` before its first zero octet.
pub open spec fn until_nul(s: Seq<u8>) -> Seq<u8>
    decreases s.len(),
{
    if s.len() == 0 {
        s
    } else if s[0] == 0 {
        Seq::empty()
    } else {
        seq![s[0]] + until_nul(s.drop_first())
    }
}

/// The 30-octet name field: the first 30 octets of the name, padded with zeros.
pub open spec fn name_field(e: Seq<u8>) -> Seq<u8> {
    if e.len() >= 30 {
        e.subrange(0, 30)
    } else {
        e + Seq::new((30 - e.len()) as nat, |i: int| 0u8)
    }
}

/// Octets of the tunnelling slots: address and status of each.
pub open spec fn slots_bytes(s: Seq<TunnelSlot>) -> Seq<u8>
    decreases s.len(),
{
    if s.len() == 0 {
        Seq::empty()
    } else {
        slots_bytes(s.drop_last()) + u16_bytes(s.last().address) + u16_bytes(
            s.last().status.spec_value(),
        )
    }
}

/// Octets of the service families: family and version of each.
pub open spec fn services_bytes(s: Seq<SupportedService>) -> Seq<u8>
    decreases s.len(),
{
    if s.len() == 0 {
        Seq::empty()
    } else {
        services_bytes(s.drop_last()) + seq![s.last().family, s.last().version]
    }
}

/// Octets of a list of addresses, high octet first.
pub open spec fn addresses_bytes(s: Seq<u16>) -> Seq<u8>
    decreases s.len(),
{
    if s.len() == 0 {
        Seq::empty()
    } else {
        addresses_bytes(s.drop_last()) + u16_bytes(s.last())
    }
}

/// The octets of a block.
pub open spec fn dib_bytes(d: Dib) -> Seq<u8> {
    match d {
        Dib::DeviceInfo(x) => seq![54u8, 0x01u8, knx_medium_code(x.knx_medium), x.device_status]
            + u16_bytes(x.individual_address) + u16_bytes(x.project_installation_id)
            + x.serial_number@ + x.routing_multicast_address@ + x.mac_address@ + name_field(
            encode_utf8(x.friendly_name@),
        ),
        Dib::IpConfig(x) => seq![16u8, 0x03u8] + x.ip_address@ + x.subnet_mask@
            + x.default_gateway@ + seq![x.ip_capabilities, x.ip_assignment_method],
        Dib::IpCurrentConfig(x) => seq![20u8, 0x04u8] + x.ip_address@ + x.subnet_mask@
            + x.default_gateway@ + x.dhcp_server@ + seq![x.ip_assignment_method, 0u8],
        Dib::TunnellingInfo(x) => seq![((4 + 4 * x.slots@.len()) % 256) as u8, 0x07u8]
            + u16_bytes(x.apdu_length) + slots_bytes(x.slots@),
        Dib::ExtendedDeviceInfo(x) => seq![8u8, 0x08u8, if x.medium_status {
            1u8
        } else {
            0u8
        }, 0u8] + u16_bytes(x.maximal_local_apdu_length) + u16_bytes(
            x.device_descriptor_type0.spec_value(),
        ),
        Dib::SupportedServices(x) => seq![((2 + 2 * x.services@.len()) % 256) as u8, 0x02u8]
            + services_bytes(x.services@),
        Dib::KnxAddresses(x) => seq![
            ((4 + 2 * x.additional_individual_addresses@.len()) % 256) as u8,
            0x05u8,
        ] + u16_bytes(x.knx_individual_address) + addresses_bytes(
            x.additional_individual_addresses@,
        ),
        Dib::MfrData(x) => seq![((4 + x.data@.len()) % 256) as u8, 0xFEu8] + u16_bytes(
            x.manufacturer_id,
        ) + x.data@,
        Dib::Unknown(x) => x.raw_data@,
    }
}

/// Whether a block's lists are short enough for its length arithmetic.
pub open spec fn dib_sizes_fit(d: Dib) -> bool {
    match d {
        Dib::TunnellingInfo(x) => 4 + 4 * x.slots@.len() <= usize::MAX,
        Dib::SupportedServices(x) => 2 + 2 * x.services@.len() <= usize::MAX,
        Dib::KnxAddresses(x) => 4 + 2 * x.additional_individual_addresses@.len() <= usize::MAX,
        Dib::MfrData(x) => 4 + x.data@.len() <= usize::MAX,
        _ => true,
    }
}

/// The payload of the block at the start of `b`, as its length octet gives it.
pub open spec fn dib_payload(b: Seq<u8>) -> Seq<u8> {
    b.subrange(0, b[0] as int)
}

/// Whether `b` starts with a block that `Dib::from_buffer` reads.
pub open spec fn dib_parse_ok(b: Seq<u8>) -> bool {
    b.len() >= 2 && b.len() >= b[0] && {
        let p = dib_payload(b);
        match description_type_of(b[1]) {
            Some(DescriptionType::DeviceInfo) => p.len() >= 24 && knx_medium_of(p[2]) is Some,
            Some(DescriptionType::IpConfig) => p.len() >= 16,
            Some(DescriptionType::IpCurConfig) => p.len() >= 20,
            Some(DescriptionType::TunnellingInfo) => p.len() >= 4,
            Some(DescriptionType::DeviceInfoExtended) => p.len() >= 8,
            Some(DescriptionType::SuppSvcFamilies) => true,
            Some(DescriptionType::KnxAddresses) => p.len() >= 4,
            Some(DescriptionType::MfrData) => p.len() >= 4,
            None => true,
        }
    }
}

/// Whether `d` is the block read from `b` (for `b` with `dib_parse_ok`).
pub open spec fn dib_parsed(b: Seq<u8>, d: Dib) -> bool {
    let p = dib_payload(b);
    match description_type_of(b[1]) {
        Some(DescriptionType::DeviceInfo) => d matches Dib::DeviceInfo(x) && Some(x.knx_medium)
            == knx_medium_of(p[2]) && x.device_status == p[3] && x.individual_address == be16(
            p[4],
            p[5],
        ) && x.project_installation_id == be16(p[6], p[7]) && x.serial_number@ == p.subrange(8, 14)
            && x.routing_multicast_address@ == p.subrange(14, 18) && x.mac_address@ == p.subrange(
            18,
            24,
        ) && x.friendly_name@ == utf8_lossy_chars(until_nul(p.subrange(24, p.len() as int))),
        Some(DescriptionType::IpConfig) => d matches Dib::IpConfig(x) && x.ip_address@
            == p.subrange(2, 6) && x.subnet_mask@ == p.subrange(6, 10) && x.default_gateway@
            == p.subrange(10, 14) && x.ip_capabilities == p[14] && x.ip_assignment_method == p[15],
        Some(DescriptionType::IpCurConfig) => d matches Dib::IpCurrentConfig(x) && x.ip_address@
            == p.subrange(2, 6) && x.subnet_mask@ == p.subrange(6, 10) && x.default_gateway@
            == p.subrange(10, 14) && x.dhcp_server@ == p.subrange(14, 18) && x.ip_assignment_method
            == p[18],
        Some(DescriptionType::TunnellingInfo) => d matches Dib::TunnellingInfo(x) && x.apdu_length
            == be16(p[2], p[3]) && x.slots@.len() == (p.len() - 4) / 4 && forall|k: int|
            0 <= k < x.slots@.len() ==> (#[trigger] x.slots@[k]).address == be16(
                p[4 + 4 * k],
                p[5 + 4 * k],
            ) && x.slots@[k].status.spec_value() == be16(p[6 + 4 * k], p[7 + 4 * k]),
        Some(DescriptionType::DeviceInfoExtended) => d matches Dib::ExtendedDeviceInfo(x)
            && x.medium_status == (p[2] != 0) && x.maximal_local_apdu_length == be16(p[4], p[5])
            && x.device_descriptor_type0.spec_value() == be16(p[6], p[7]),
        Some(DescriptionType::SuppSvcFamilies) => d matches Dib::SupportedServices(x)
            && x.services@.len() == (if p.len() >= 2 {
            (p.len() - 2) / 2
        } else {
            0
        }) && forall|k: int|
            0 <= k < x.services@.len() ==> (#[trigger] x.services@[k]).family == p[2 + 2 * k]
                && x.services@[k].version == p[3 + 2 * k],
        Some(DescriptionType::KnxAddresses) => d matches Dib::KnxAddresses(x)
            && x.knx_individual_address == be16(p[2], p[3])
            && x.additional_individual_addresses@.len() == (p.len() - 4) / 2 && forall|k: int|
            0 <= k < x.additional_individual_addresses@.len()
                ==> #[trigger] x.additional_individual_addresses@[k] == be16(
                p[4 + 2 * k],
                p[5 + 2 * k],
            ),
        Some(DescriptionType::MfrData) => d matches Dib::MfrData(x) && x.manufacturer_id == be16(
            p[2],
            p[3],
        ) && x.data@ == p.subrange(4, p.len() as int),
        None => d matches Dib::Unknown(x) && x.type_code == b[1] && x.raw_data@ == p,
    }
}

/// Whether block `b`, read from the octets of block `a`, carries the same
/// values: same kind, the same fields, lists compared element by element;
/// a device name is read back as `String::from_utf8_lossy` gives its
/// UTF-8 octets.
pub open spec fn same_dib(a: Dib, b: Dib) -> bool {
    match (a, b) {
        (Dib::DeviceInfo(x), Dib::DeviceInfo(y)) => x.knx_medium == y.knx_medium && x.device_status == y.device_status
            && x.individual_address == y.individual_address && x.project_installation_id == y.project_installation_id
            && x.serial_number@ == y.serial_number@ && x.routing_multicast_address@ == y.routing_multicast_address@
            && x.mac_address@ == y.mac_address@ && y.friendly_name@ == utf8_lossy_chars(encode_utf8(x.friendly_name@)),
        (Dib::IpConfig(x), Dib::IpConfig(y)) => x.ip_address@ == y.ip_address@ && x.subnet_mask@ == y.subnet_mask@
            && x.default_gateway@ == y.default_gateway@ && x.ip_capabilities == y.ip_capabilities
            && x.ip_assignment_method == y.ip_assignment_method,
        (Dib::IpCurrentConfig(x), Dib::IpCurrentConfig(y)) => x.ip_address@ == y.ip_address@ && x.subnet_mask@
            == y.subnet_mask@ && x.default_gateway@ == y.default_gateway@ && x.dhcp_server@ == y.dhcp_server@
            && x.ip_assignment_method == y.ip_assignment_method,
        (Dib::TunnellingInfo(x), Dib::TunnellingInfo(y)) => x.apdu_length == y.apdu_length && x.slots@.len()
            == y.slots@.len() && forall|k: int| 0 <= k < x.slots@.len() ==> (#[trigger] x.slots@[k]).address
            == y.slots@[k].address && x.slots@[k].status.spec_value() == y.slots@[k].status.spec_value(),
        (Dib::ExtendedDeviceInfo(x), Dib::ExtendedDeviceInfo(y)) => x.medium_status == y.medium_status
            && x.maximal_local_apdu_length == y.maximal_local_apdu_length
            && x.device_descriptor_type0.spec_value() == y.device_descriptor_type0.spec_value(),
        (Dib::SupportedServices(x), Dib::SupportedServices(y)) => x.services@ == y.services@,
        (Dib::KnxAddresses(x), Dib::KnxAddresses(y)) => x.knx_individual_address == y.knx_individual_address
            && x.additional_individual_addresses@ == y.additional_individual_addresses@,
        (Dib::MfrData(x), Dib::MfrData(y)) => x.manufacturer_id == y.manufacturer_id && x.data@ == y.data@,
        _ => false,
    }
}

/// Whether a block is read back as written: any but unknown blocks, with
/// a length that fits its length octet, and for device information a name
/// of at most 30 UTF-8 octets without a zero octet.
pub open spec fn dib_round_trips(d: Dib) -> bool {
    match d {
        Dib::DeviceInfo(x) => encode_utf8(x.friendly_name@).len() <= 30 && forall|i: int|
            0 <= i < encode_utf8(x.friendly_name@).len() ==> #[trigger] encode_utf8(x.friendly_name@)[i] != 0,
        Dib::IpConfig(_) | Dib::IpCurrentConfig(_) | Dib::ExtendedDeviceInfo(_) => true,
        Dib::TunnellingInfo(x) => 4 + 4 * x.slots@.len() <= 255,
        Dib::SupportedServices(x) => 2 + 2 * x.services@.len() <= 255,
        Dib::KnxAddresses(x) => 4 + 2 * x.additional_individual_addresses@.len() <= 255,
        Dib::MfrData(x) => 4 + x.data@.len() <= 255,
        _ => false,
    }
}

proof fn lemma_u16_bytes(v: u16)
    ensures
        be16(u16_bytes(v)[0], u16_bytes(v)[1]) == v,
        u16_bytes(v).len() == 2,
{
}

proof fn lemma_slots_bytes(s: Seq<TunnelSlot>)
    ensures
        slots_bytes(s).len() == 4 * s.len(),
        forall|k: int| 0 <= k < s.len() ==> be16(slots_bytes(s)[4 * k], slots_bytes(s)[4 * k + 1])
            == (#[trigger] s[k]).address && be16(slots_bytes(s)[4 * k + 2], slots_bytes(s)[4 * k + 3])
            == s[k].status.spec_value(),
    decreases s.len(),
{
    if s.len() > 0 {
        lemma_slots_bytes(s.drop_last());
        lemma_u16_bytes(s.last().address);
        lemma_u16_bytes(s.last().status.spec_value());
        let b = slots_bytes(s);
        let p = slots_bytes(s.drop_last());
        assert forall|k: int| 0 <= k < s.len() implies be16(b[4 * k], b[4 * k + 1]) == (#[trigger] s[k]).address
            && be16(b[4 * k + 2], b[4 * k + 3]) == s[k].status.spec_value() by {
            if k < s.len() - 1 {
                assert(s[k] == s.drop_last()[k]);
                assert(b[4 * k] == p[4 * k] && b[4 * k + 1] == p[4 * k + 1] && b[4 * k + 2] == p[4 * k + 2]
                    && b[4 * k + 3] == p[4 * k + 3]);
            }
        }
    }
}

proof fn lemma_services_bytes(s: Seq<SupportedService>)
    ensures
        services_bytes(s).len() == 2 * s.len(),
        forall|k: int| 0 <= k < s.len() ==> services_bytes(s)[2 * k] == (#[trigger] s[k]).family
            && services_bytes(s)[2 * k + 1] == s[k].version,
    decreases s.len(),
{
    if s.len() > 0 {
        lemma_services_bytes(s.drop_last());
        let b = services_bytes(s);
        let p = services_bytes(s.drop_last());
        assert forall|k: int| 0 <= k < s.len() implies b[2 * k] == (#[trigger] s[k]).family && b[2 * k + 1] == s[k].version by {
            if k < s.len() - 1 {
                assert(s[k] == s.drop_last()[k]);
                assert(b[2 * k] == p[2 * k] && b[2 * k + 1] == p[2 * k + 1]);
            }
        }
    }
}

proof fn lemma_addresses_bytes(s: Seq<u16>)
    ensures
        addresses_bytes(s).len() == 2 * s.len(),
        forall|k: int| 0 <= k < s.len() ==> be16(addresses_bytes(s)[2 * k], addresses_bytes(s)[2 * k + 1]) == #[trigger] s[k],
    decreases s.len(),
{
    if s.len() > 0 {
        lemma_addresses_bytes(s.drop_last());
        lemma_u16_bytes(s.last());
        let b = addresses_bytes(s);
        let p = addresses_bytes(s.drop_last());
        assert forall|k: int| 0 <= k < s.len() implies be16(b[2 * k], b[2 * k + 1]) == #[trigger] s[k] by {
            if k < s.len() - 1 {
                assert(s[k] == s.drop_last()[k]);
                assert(b[2 * k] == p[2 * k] && b[2 * k + 1] == p[2 * k + 1]);
            }
        }
    }
}

proof fn lemma_until_nul_padded(e: Seq<u8>, z: Seq<u8>)
    requires
        forall|i: int| 0 <= i < e.len() ==> #[trigger] e[i] != 0,
        z.len() == 0 || z[0] == 0,
    ensures
        until_nul(e + z) == e,
    decreases e.len(),
{
    if e.len() == 0 {
        assert(e + z =~= z);
    } else {
        assert((e + z).drop_first() =~= e.drop_first() + z);
        lemma_until_nul_padded(e.drop_first(), z);
        assert(seq![e[0]] + e.drop_first() =~= e);
    }
}

/// A description block written to octets is read back with the same
/// values (for the blocks of `dib_round_trips`): the octets are readable
/// and every block read from them equals the written one field by field.
pub proof fn lemma_dib_round_trip(d: Dib)
    requires
        dib_round_trips(d),
    ensures
        dib_parse_ok(dib_bytes(d)),
        forall|e: Dib| dib_parsed(dib_bytes(d), e) ==> same_dib(d, e),
{
    let b = dib_bytes(d);
    match d {
        Dib::DeviceInfo(x) => {
            lemma_description_type_of(DescriptionType::DeviceInfo);
            lemma_knx_medium_of(x.knx_medium);
            lemma_u16_bytes(x.individual_address);
            lemma_u16_bytes(x.project_installation_id);
            let enc = encode_utf8(x.friendly_name@);
            let z = Seq::new((30 - enc.len()) as nat, |i: int| 0u8);
            if enc.len() == 30 {
                assert(name_field(enc) =~= enc + Seq::<u8>::empty());
                lemma_until_nul_padded(enc, Seq::<u8>::empty());
            } else {
                assert(name_field(enc) == enc + z);
                lemma_until_nul_padded(enc, z);
            }
            assert(name_field(enc).len() == 30);
            assert(b.len() == 54);
            assert(dib_payload(b) =~= b);
            assert(b.subrange(8, 14) =~= x.serial_number@);
            assert(b.subrange(14, 18) =~= x.routing_multicast_address@);
            assert(b.subrange(18, 24) =~= x.mac_address@);
            assert(b.subrange(24, 54) =~= name_field(enc));
        },
        Dib::IpConfig(x) => {
            lemma_description_type_of(DescriptionType::IpConfig);
            assert(b.len() == 16);
            assert(dib_payload(b) =~= b);
            assert(b.subrange(2, 6) =~= x.ip_address@);
            assert(b.subrange(6, 10) =~= x.subnet_mask@);
            assert(b.subrange(10, 14) =~= x.default_gateway@);
        },
        Dib::IpCurrentConfig(x) => {
            lemma_description_type_of(DescriptionType::IpCurConfig);
            assert(b.len() == 20);
            assert(dib_payload(b) =~= b);
            assert(b.subrange(2, 6) =~= x.ip_address@);
            assert(b.subrange(6, 10) =~= x.subnet_mask@);
            assert(b.subrange(10, 14) =~= x.default_gateway@);
            assert(b.subrange(14, 18) =~= x.dhcp_server@);
        },
        Dib::ExtendedDeviceInfo(x) => {
            lemma_description_type_of(DescriptionType::DeviceInfoExtended);
            lemma_u16_bytes(x.maximal_local_apdu_length);
            lemma_u16_bytes(x.device_descriptor_type0.spec_value());
            assert(b.len() == 8);
            assert(dib_payload(b) =~= b);
        },
        Dib::TunnellingInfo(x) => {
            lemma_description_type_of(DescriptionType::TunnellingInfo);
            lemma_u16_bytes(x.apdu_length);
            lemma_slots_bytes(x.slots@);
            let sb = slots_bytes(x.slots@);
            assert(b.len() == 4 + 4 * x.slots@.len());
            assert(b[0] as int == b.len());
            assert(dib_payload(b) =~= b);
            assert((b.len() - 4) / 4 == x.slots@.len()) by (nonlinear_arith)
                requires b.len() == 4 + 4 * x.slots@.len();
            assert forall|e: Dib| dib_parsed(b, e) implies same_dib(d, e) by {
                assert(b[2] == u16_bytes(x.apdu_length)[0] && b[3] == u16_bytes(x.apdu_length)[1]);
                if let Dib::TunnellingInfo(y) = e {
                    assert forall|k: int| 0 <= k < x.slots@.len() implies (#[trigger] x.slots@[k]).address == y.slots@[k].address
                        && x.slots@[k].status.spec_value() == y.slots@[k].status.spec_value() by {
                        assert(b[4 + 4 * k] == sb[4 * k] && b[5 + 4 * k] == sb[4 * k + 1]
                            && b[6 + 4 * k] == sb[4 * k + 2] && b[7 + 4 * k] == sb[4 * k + 3]);
                        assert(y.slots@[k].address == be16(b[4 + 4 * k], b[5 + 4 * k]));
                    }
                }
            }
        },
        Dib::SupportedServices(x) => {
            lemma_description_type_of(DescriptionType::SuppSvcFamilies);
            lemma_services_bytes(x.services@);
            let sb = services_bytes(x.services@);
            assert(b.len() == 2 + 2 * x.services@.len());
            assert(b[0] as int == b.len());
            assert(dib_payload(b) =~= b);
            assert((b.len() - 2) / 2 == x.services@.len()) by (nonlinear_arith)
                requires b.len() == 2 + 2 * x.services@.len();
            assert forall|e: Dib| dib_parsed(b, e) implies same_dib(d, e) by {
                if let Dib::SupportedServices(y) = e {
                    assert forall|k: int| 0 <= k < x.services@.len() implies #[trigger] x.services@[k] == y.services@[k] by {
                        assert(b[2 + 2 * k] == sb[2 * k] && b[3 + 2 * k] == sb[2 * k + 1]);
                        assert(y.services@[k].family == b[2 + 2 * k]);
                    }
                    assert(x.services@ =~= y.services@);
                }
            }
        },
        Dib::KnxAddresses(x) => {
            lemma_description_type_of(DescriptionType::KnxAddresses);
            lemma_u16_bytes(x.knx_individual_address);
            lemma_addresses_bytes(x.additional_individual_addresses@);
            let ab = addresses_bytes(x.additional_individual_addresses@);
            assert(b.len() == 4 + 2 * x.additional_individual_addresses@.len());
            assert(b[0] as int == b.len());
            assert(dib_payload(b) =~= b);
            assert((b.len() - 4) / 2 == x.additional_individual_addresses@.len()) by (nonlinear_arith)
                requires b.len() == 4 + 2 * x.additional_individual_addresses@.len();
            assert forall|e: Dib| dib_parsed(b, e) implies same_dib(d, e) by {
                assert(b[2] == u16_bytes(x.knx_individual_address)[0] && b[3] == u16_bytes(x.knx_individual_address)[1]);
                if let Dib::KnxAddresses(y) = e {
                    assert forall|k: int| 0 <= k < x.additional_individual_addresses@.len() implies #[trigger] x.additional_individual_addresses@[k]
                        == y.additional_individual_addresses@[k] by {
                        assert(b[4 + 2 * k] == ab[2 * k] && b[5 + 2 * k] == ab[2 * k + 1]);
                        assert(y.additional_individual_addresses@[k] == be16(b[4 + 2 * k], b[5 + 2 * k]));
                    }
                    assert(x.additional_individual_addresses@ =~= y.additional_individual_addresses@);
                }
            }
        },
        Dib::MfrData(x) => {
            lemma_description_type_of(DescriptionType::MfrData);
            lemma_u16_bytes(x.manufacturer_id);
            assert(b.len() == 4 + x.data@.len());
            assert(b[0] as int == b.len());
            assert(dib_payload(b) =~= b);
            assert(b.subrange(4, b.len() as int) =~= x.data@);
        },
        _ => {},
    }
}

/// The description type of a block (an unknown block whose code is no
/// description type reports `DeviceInfo`).
pub open spec fn dib_type(d: Dib) -> DescriptionType {
    match d {
        Dib::DeviceInfo(_) => DescriptionType::DeviceInfo,
        Dib::IpConfig(_) => DescriptionType::IpConfig,
        Dib::IpCurrentConfig(_) => DescriptionType::IpCurConfig,
        Dib::TunnellingInfo(_) => DescriptionType::TunnellingInfo,
        Dib::ExtendedDeviceInfo(_) => DescriptionType::DeviceInfoExtended,
        Dib::SupportedServices(_) => DescriptionType::SuppSvcFamilies,
        Dib::KnxAddresses(_) => DescriptionType::KnxAddresses,
        Dib::MfrData(_) => DescriptionType::MfrData,
        Dib::Unknown(x) => match description_type_of(x.type_code) {
            Some(t) => t,
            None => DescriptionType::DeviceInfo,
        },
    }
}

fn push_zeros(buf: &mut Vec<u8>, n: usize)
    ensures
        final(buf)@ == old(buf)@ + Seq::new(n as nat, |i: int| 0u8),
{
    let mut i: usize = 0;
    while i < n
        invariant
            i <= n,
            buf@ == old(buf)@ + Seq::new(i as nat, |k: int| 0u8),
        decreases n - i,
    {
        buf.push(0);
        assert(Seq::new(i as nat + 1, |k: int| 0u8) =~= Seq::new(i as nat, |k: int| 0u8).push(0u8));
        i = i + 1;
    }
}

pub(crate) fn until_nul_exec(s: &[u8]) -> (r: Vec<u8>)
    ensures
        r@ == until_nul(s@),
{
    let mut i: usize = 0;
    assert(s@.subrange(0, s@.len() as int) =~= s@);
    assert(s@.subrange(0, 0) =~= Seq::<u8>::empty());
    while i < s.len() && s[i] != 0
        invariant
            i <= s@.len(),
            forall|k: int| 0 <= k < i ==> s@[k] != 0,
            until_nul(s@) == s@.subrange(0, i as int) + until_nul(s@.subrange(i as int, s@.len() as int)),
        decreases s.len() - i,
    {
        let ghost rest = s@.subrange(i as int, s@.len() as int);
        assert(rest.drop_first() =~= s@.subrange(i as int + 1, s@.len() as int));
        assert(s@.subrange(0, i as int + 1) =~= s@.subrange(0, i as int) + seq![s@[i as int]]);
        i = i + 1;
    }
    if i < s.len() {
        assert(s@.subrange(i as int, s@.len() as int)[0] == 0);
        assert(until_nul(s@.subrange(i as int, s@.len() as int)) =~= Seq::<u8>::empty());
    } else {
        assert(s@.subrange(i as int, s@.len() as int) =~= Seq::<u8>::empty());
    }
    copy_range(s, 0, i)
}

/// The device information block in the payload `p` (at least 24 octets).
fn device_info_of(p: &[u8], medium: KnxMedium) -> (x: DeviceInformationDib)
    requires
        p@.len() >= 24,
        Some(medium) == knx_medium_of(p@[2]),
    ensures
        Some(x.knx_medium) == knx_medium_of(p@[2]),
        x.device_status == p@[3],
        x.individual_address == be16(p@[4], p@[5]),
        x.project_installation_id == be16(p@[6], p@[7]),
        x.serial_number@ == p@.subrange(8, 14),
        x.routing_multicast_address@ == p@.subrange(14, 18),
        x.mac_address@ == p@.subrange(18, 24),
        x.friendly_name@ == utf8_lossy_chars(until_nul(p@.subrange(24, p@.len() as int))),
{
    let serial = [p[8], p[9], p[10], p[11], p[12], p[13]];
    let rma = [p[14], p[15], p[16], p[17]];
    let mac = [p[18], p[19], p[20], p[21], p[22], p[23]];
    assert(serial@ =~= p@.subrange(8, 14));
    assert(rma@ =~= p@.subrange(14, 18));
    assert(mac@ =~= p@.subrange(18, 24));
    let tail = copy_range(p, 24, p.len());
    let name = until_nul_exec(tail.as_slice());
    DeviceInformationDib {
        knx_medium: medium,
        device_status: p[3],
        individual_address: get_u16(p, 4),
        project_installation_id: get_u16(p, 6),
        serial_number: serial,
        routing_multicast_address: rma,
        mac_address: mac,
        friendly_name: utf8_lossy(name.as_slice()),
    }
}

impl Dib {
    /// The description type of the block.
    pub fn get_type(&self) -> (t: DescriptionType)
        ensures
            t == dib_type(*self),
    {
        match self {
            Dib::DeviceInfo(_) => DescriptionType::DeviceInfo,
            Dib::IpConfig(_) => DescriptionType::IpConfig,
            Dib::IpCurrentConfig(_) => DescriptionType::IpCurConfig,
            Dib::TunnellingInfo(_) => DescriptionType::TunnellingInfo,
            Dib::ExtendedDeviceInfo(_) => DescriptionType::DeviceInfoExtended,
            Dib::SupportedServices(_) => DescriptionType::SuppSvcFamilies,
            Dib::KnxAddresses(_) => DescriptionType::KnxAddresses,
            Dib::MfrData(_) => DescriptionType::MfrData,
            Dib::Unknown(x) => match DescriptionType::from_u8(x.type_code) {
                Some(t) => {
                    proof {
                        lemma_description_type_of(t);
                    }
                    t
                },
                None => DescriptionType::DeviceInfo,
            },
        }
    }

    /// The octets of the block.
    pub fn to_buffer(&self) -> (b: Vec<u8>)
        requires
            dib_sizes_fit(*self),
        ensures
            b@ == dib_bytes(*self),
    {
        let mut b: Vec<u8> = Vec::new();
        match self {
            Dib::DeviceInfo(x) => {
                b.push(54);
                b.push(0x01);
                b.push(x.knx_medium.code());
                b.push(x.device_status);
                push_u16(&mut b, x.individual_address);
                push_u16(&mut b, x.project_installation_id);
                push_all(&mut b, x.serial_number.as_slice());
                push_all(&mut b, x.routing_multicast_address.as_slice());
                push_all(&mut b, x.mac_address.as_slice());
                let name = x.friendly_name.as_str().as_bytes();
                let limit: usize = if name.len() < 30 {
                    name.len()
                } else {
                    30
                };
                let head = copy_range(name, 0, limit);
                push_all(&mut b, head.as_slice());
                push_zeros(&mut b, 30 - limit);
                proof {
                    let e = encode_utf8(x.friendly_name@);
                    if e.len() < 30 {
                        assert(e.subrange(0, e.len() as int) =~= e);
                    }
                }
            },
            Dib::IpConfig(x) => {
                b.push(16);
                b.push(0x03);
                push_all(&mut b, x.ip_address.as_slice());
                push_all(&mut b, x.subnet_mask.as_slice());
                push_all(&mut b, x.default_gateway.as_slice());
                b.push(x.ip_capabilities);
                b.push(x.ip_assignment_method);
            },
            Dib::IpCurrentConfig(x) => {
                b.push(20);
                b.push(0x04);
                push_all(&mut b, x.ip_address.as_slice());
                push_all(&mut b, x.subnet_mask.as_slice());
                push_all(&mut b, x.default_gateway.as_slice());
                push_all(&mut b, x.dhcp_server.as_slice());
                b.push(x.ip_assignment_method);
                b.push(0);
            },
            Dib::TunnellingInfo(x) => {
                let len = 4 + x.slots.len() * 4;
                b.push((len % 256) as u8);
                b.push(0x07);
                push_u16(&mut b, x.apdu_length);
                let ghost start = b@;
                let mut i: usize = 0;
                while i < x.slots.len()
                    invariant
                        i <= x.slots@.len(),
                        b@ == start + slots_bytes(x.slots@.subrange(0, i as int)),
                    decreases x.slots.len() - i,
                {
                    push_u16(&mut b, x.slots[i].address);
                    push_u16(&mut b, x.slots[i].status.get_value());
                    assert(x.slots@.subrange(0, i as int + 1).drop_last() =~= x.slots@.subrange(0, i as int));
                    i = i + 1;
                }
                assert(x.slots@.subrange(0, x.slots@.len() as int) =~= x.slots@);
            },
            Dib::ExtendedDeviceInfo(x) => {
                b.push(8);
                b.push(0x08);
                b.push(
                    if x.medium_status {
                        1
                    } else {
                        0
                    },
                );
                b.push(0);
                push_u16(&mut b, x.maximal_local_apdu_length);
                push_u16(&mut b, x.device_descriptor_type0.value());
            },
            Dib::SupportedServices(x) => {
                let len = 2 + x.services.len() * 2;
                b.push((len % 256) as u8);
                b.push(0x02);
                let ghost start = b@;
                let mut i: usize = 0;
                while i < x.services.len()
                    invariant
                        i <= x.services@.len(),
                        b@ == start + services_bytes(x.services@.subrange(0, i as int)),
                    decreases x.services.len() - i,
                {
                    b.push(x.services[i].family);
                    b.push(x.services[i].version);
                    assert(x.services@.subrange(0, i as int + 1).drop_last() =~= x.services@.subrange(0, i as int));
                    assert(b@ =~= start + services_bytes(x.services@.subrange(0, i as int + 1)));
                    i = i + 1;
                }
                assert(x.services@.subrange(0, x.services@.len() as int) =~= x.services@);
            },
            Dib::KnxAddresses(x) => {
                let len = 4 + x.additional_individual_addresses.len() * 2;
                b.push((len % 256) as u8);
                b.push(0x05);
                push_u16(&mut b, x.knx_individual_address);
                let ghost start = b@;
                let mut i: usize = 0;
                while i < x.additional_individual_addresses.len()
                    invariant
                        i <= x.additional_individual_addresses@.len(),
                        b@ == start + addresses_bytes(x.additional_individual_addresses@.subrange(0, i as int)),
                    decreases x.additional_individual_addresses.len() - i,
                {
                    push_u16(&mut b, x.additional_individual_addresses[i]);
                    assert(x.additional_individual_addresses@.subrange(0, i as int + 1).drop_last()
                        =~= x.additional_individual_addresses@.subrange(0, i as int));
                    i = i + 1;
                }
                assert(x.additional_individual_addresses@.subrange(
                    0,
                    x.additional_individual_addresses@.len() as int,
                ) =~= x.additional_individual_addresses@);
            },
            Dib::MfrData(x) => {
                let len = 4 + x.data.len();
                b.push((len % 256) as u8);
                b.push(0xFE);
                push_u16(&mut b, x.manufacturer_id);
                push_all(&mut b, x.data.as_slice());
            },
            Dib::Unknown(x) => {
                push_all(&mut b, x.raw_data.as_slice());
            },
        }
        assert(b@ =~= dib_bytes(*self));
        b
    }

    /// The block at the start of `buffer`.
    pub fn from_buffer(buffer: &[u8]) -> (r: Result<Self, KnxError>)
        ensures
            dib_parse_ok(buffer@) ==> (r matches Ok(d) && dib_parsed(buffer@, d)),
            !dib_parse_ok(buffer@) ==> r == Err::<Self, KnxError>(KnxError::InvalidParametersForDpt),
    {
        if buffer.len() < 2 {
            return Err(KnxError::InvalidParametersForDpt);
        }
        let len = buffer[0] as usize;
        let type_code = buffer[1];
        if buffer.len() < len {
            return Err(KnxError::InvalidParametersForDpt);
        }
        let pv = copy_range(buffer, 0, len);
        let p = pv.as_slice();
        assert(p@ == dib_payload(buffer@));
        let t = DescriptionType::from_u8(type_code);
        proof {
            if t is Some {
                lemma_description_type_of(t->0);
            } else {
                assert(description_type_of(type_code) is None);
            }
        }
        match t {
            Some(DescriptionType::DeviceInfo) => {
                if p.len() < 24 {
                    return Err(KnxError::InvalidParametersForDpt);
                }
                let medium = match KnxMedium::from_u8(p[2]) {
                    Some(m) => m,
                    None => {
                        assert(!(exists|e: KnxMedium| knx_medium_code(e) == p@[2]));
                        assert(knx_medium_of(p@[2]) is None);
                        return Err(KnxError::InvalidParametersForDpt);
                    },
                };
                proof {
                    lemma_knx_medium_of(medium);
                }
                Ok(Dib::DeviceInfo(device_info_of(p, medium)))
            },
            Some(DescriptionType::IpConfig) => {
                if p.len() < 16 {
                    return Err(KnxError::InvalidParametersForDpt);
                }
                let ip = [p[2], p[3], p[4], p[5]];
                let mask = [p[6], p[7], p[8], p[9]];
                let gw = [p[10], p[11], p[12], p[13]];
                assert(ip@ =~= p@.subrange(2, 6));
                assert(mask@ =~= p@.subrange(6, 10));
                assert(gw@ =~= p@.subrange(10, 14));
                Ok(
                    Dib::IpConfig(
                        IpConfigDib {
                            ip_address: ip,
                            subnet_mask: mask,
                            default_gateway: gw,
                            ip_capabilities: p[14],
                            ip_assignment_method: p[15],
                        },
                    ),
                )
            },
            Some(DescriptionType::IpCurConfig) => {
                if p.len() < 20 {
                    return Err(KnxError::InvalidParametersForDpt);
                }
                let ip = [p[2], p[3], p[4], p[5]];
                let mask = [p[6], p[7], p[8], p[9]];
                let gw = [p[10], p[11], p[12], p[13]];
                let dhcp = [p[14], p[15], p[16], p[17]];
                assert(ip@ =~= p@.subrange(2, 6));
                assert(mask@ =~= p@.subrange(6, 10));
                assert(gw@ =~= p@.subrange(10, 14));
                assert(dhcp@ =~= p@.subrange(14, 18));
                Ok(
                    Dib::IpCurrentConfig(
                        IpCurrentConfigDib {
                            ip_address: ip,
                            subnet_mask: mask,
                            default_gateway: gw,
                            dhcp_server: dhcp,
                            ip_assignment_method: p[18],
                        },
                    ),
                )
            },
            Some(DescriptionType::TunnellingInfo) => {
                if p.len() < 4 {
                    return Err(KnxError::InvalidParametersForDpt);
                }
                let apdu_length = get_u16(p, 2);
                let mut slots: Vec<TunnelSlot> = Vec::new();
                let plen = p.len();
                let n = (plen - 4) / 4;
                let mut k: usize = 0;
                while k < n
                    invariant
                        plen == p@.len(),
                        n == (p@.len() - 4) / 4,
                        p@.len() >= 4,
                        k <= n,
                        slots@.len() == k,
                        forall|j: int|
                            0 <= j < k ==> (#[trigger] slots@[j]).address == be16(
                                p@[4 + 4 * j],
                                p@[5 + 4 * j],
                            ) && slots@[j].status.spec_value() == be16(p@[6 + 4 * j], p@[7 + 4 * j]),
                    decreases n - k,
                {
                    assert(4 + 4 * k + 4 <= p@.len()) by (nonlinear_arith)
                        requires
                            k < n,
                            n == (p@.len() - 4) / 4,
                            p@.len() >= 4,
                    ;
                    let i = 4 + 4 * k;
                    let address = get_u16(p, i);
                    let status = StatusTunnelingSlot::new(get_u16(p, i + 2));
                    slots.push(TunnelSlot { address, status });
                    k = k + 1;
                }
                Ok(Dib::TunnellingInfo(TunnellingInfoDib { apdu_length, slots }))
            },
            Some(DescriptionType::DeviceInfoExtended) => {
                if p.len() < 8 {
                    return Err(KnxError::InvalidParametersForDpt);
                }
                Ok(
                    Dib::ExtendedDeviceInfo(
                        ExtendedDeviceInformationDib {
                            medium_status: p[2] != 0,
                            maximal_local_apdu_length: get_u16(p, 4),
                            device_descriptor_type0: DeviceDescriptorType0::new(get_u16(p, 6)),
                        },
                    ),
                )
            },
            Some(DescriptionType::SuppSvcFamilies) => {
                let mut services: Vec<SupportedService> = Vec::new();
                let plen = p.len();
                let n = if plen >= 2 {
                    (plen - 2) / 2
                } else {
                    0
                };
                let mut k: usize = 0;
                while k < n
                    invariant
                        plen == p@.len(),
                        n == (if p@.len() >= 2 {
                            (p@.len() - 2) / 2
                        } else {
                            0
                        }),
                        k <= n,
                        services@.len() == k,
                        forall|j: int|
                            0 <= j < k ==> (#[trigger] services@[j]).family == p@[2 + 2 * j]
                                && services@[j].version == p@[3 + 2 * j],
                    decreases n - k,
                {
                    assert(2 + 2 * k + 2 <= p@.len()) by (nonlinear_arith)
                        requires
                            k < n,
                            n == (p@.len() - 2) / 2,
                            p@.len() >= 2,
                    ;
                    let i = 2 + 2 * k;
                    services.push(SupportedService { family: p[i], version: p[i + 1] });
                    k = k + 1;
                }
                Ok(Dib::SupportedServices(SupportedServicesDib { services }))
            },
            Some(DescriptionType::KnxAddresses) => {
                if p.len() < 4 {
                    return Err(KnxError::InvalidParametersForDpt);
                }
                let ia = get_u16(p, 2);
                let mut addrs: Vec<u16> = Vec::new();
                let plen = p.len();
                let n = (plen - 4) / 2;
                let mut k: usize = 0;
                while k < n
                    invariant
                        plen == p@.len(),
                        n == (p@.len() - 4) / 2,
                        p@.len() >= 4,
                        k <= n,
                        addrs@.len() == k,
                        forall|j: int|
                            0 <= j < k ==> #[trigger] addrs@[j] == be16(p@[4 + 2 * j], p@[5 + 2 * j]),
                    decreases n - k,
                {
                    assert(4 + 2 * k + 2 <= p@.len()) by (nonlinear_arith)
                        requires
                            k < n,
                            n == (p@.len() - 4) / 2,
                            p@.len() >= 4,
                    ;
                    let i = 4 + 2 * k;
                    addrs.push(get_u16(p, i));
                    k = k + 1;
                }
                Ok(
                    Dib::KnxAddresses(
                        KnxAddressesDib { knx_individual_address: ia, additional_individual_addresses: addrs },
                    ),
                )
            },
            Some(DescriptionType::MfrData) => {
                if p.len() < 4 {
                    return Err(KnxError::InvalidParametersForDpt);
                }
                Ok(
                    Dib::MfrData(
                        MfrDataDib { manufacturer_id: get_u16(p, 2), data: copy_range(p, 4, p.len()) },
                    ),
                )
            },
            None => {
                let raw = copy_range(p, 0, p.len());
                assert(raw@ =~= p@);
                Ok(Dib::Unknown(UnknownDib { type_code, raw_data: raw }))
            },
        }
    }
}

// ------------------------------------------------------------------
// SRP
// ------------------------------------------------------------------

/// Search request parameter.
#[derive(Debug, Clone, PartialEq, Eq)]
pub struct Srp {
    pub srp_type: u8,
    pub data: Vec<u8>,
    pub is_mandatory: bool,
}

/// The octets of an SRP: length, type with the mandatory flag in bit 7,
/// then the data.
pub open spec fn srp_bytes(s: Srp) -> Seq<u8> {
    seq![((2 + s.data@.len()) % 256) as u8, if s.is_mandatory {
        s.srp_type | 0x80
    } else {
        s.srp_type
    }] + s.data@
}

impl Srp {
    /// An SRP from its parts.
    pub fn new(srp_type: u8, data: Vec<u8>, is_mandatory: bool) -> (s: Self)
        ensures
            s.srp_type == srp_type,
            s.data@ == data@,
            s.is_mandatory == is_mandatory,
    {
        Srp { srp_type, data, is_mandatory }
    }

    /// The octets of the parameter.
    pub fn to_buffer(&self) -> (b: Vec<u8>)
        requires
            self.data@.len() + 2 <= usize::MAX,
        ensures
            b@ == srp_bytes(*self),
    {
        let len = 2 + self.data.len();
        let mut b: Vec<u8> = Vec::new();
        b.push((len % 256) as u8);
        let t = if self.is_mandatory {
            self.srp_type | 0x80
        } else {
            self.srp_type
        };
        b.push(t);
        push_all(&mut b, self.data.as_slice());
        assert(b@ =~= srp_bytes(*self));
        b
    }

    /// The SRP at the start of `buffer`: its length octet must cover the
    /// two header octets and lie within the buffer.
    pub fn from_buffer(buffer: &[u8]) -> (r: Result<Self, KnxError>)
        requires
            buffer@.len() >= 2 && buffer@[0] <= buffer@.len() ==> buffer@[0] >= 2,
        ensures
            (buffer@.len() >= 2 && buffer@[0] <= buffer@.len()) ==> (r matches Ok(s) && s.srp_type
                == buffer@[1] & 0x7F && s.is_mandatory == (buffer@[1] & 0x80 != 0) && s.data@
                == buffer@.subrange(2, buffer@[0] as int)),
            !(buffer@.len() >= 2 && buffer@[0] <= buffer@.len()) ==> r == Err::<Self, KnxError>(
                KnxError::InvalidParametersForDpt,
            ),
    {
        if buffer.len() < 2 {
            return Err(KnxError::InvalidParametersForDpt);
        }
        let len = buffer[0] as usize;
        if buffer.len() < len {
            return Err(KnxError::InvalidParametersForDpt);
        }
        let t = buffer[1];
        Ok(Srp { srp_type: t & 0x7F, data: copy_range(buffer, 2, len), is_mandatory: (t & 0x80) != 0 })
    }
}

} // verus!
