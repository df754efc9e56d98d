//! Codes of the KNXnet/IP protocol: service types, error codes, host
//! protocols, connection and description types, layers and media.
use vstd::prelude::*;

verus! {

/// KNXnet/IP service type identifiers.
#[derive(Debug, Clone, Copy, PartialEq, Eq, Structural)]
pub enum KnxNetIpServiceType {
    SearchRequest,
    SearchResponse,
    DescriptionRequest,
    DescriptionResponse,
    ConnectRequest,
    ConnectResponse,
    ConnectionstateRequest,
    ConnectionstateResponse,
    DisconnectRequest,
    DisconnectResponse,
    SearchRequestExtended,
    SearchResponseExtended,
    DeviceConfigurationRequest,
    DeviceConfigurationAck,
    TunnellingRequest,
    TunnellingAck,
    TunnellingFeatureGet,
    TunnellingFeatureResponse,
    TunnellingFeatureSet,
    TunnellingFeatureInfo,
    RoutingIndication,
    RoutingLostMessage,
    RoutingBusy,
    RoutingSystemBroadcast,
}

/// The code of each KnxNetIpServiceType value.
pub open spec fn knx_net_ip_service_type_code(e: KnxNetIpServiceType) -> u16 {
    match e {
        KnxNetIpServiceType::SearchRequest => 0x0201,
        KnxNetIpServiceType::SearchResponse => 0x0202,
        KnxNetIpServiceType::DescriptionRequest => 0x0203,
        KnxNetIpServiceType::DescriptionResponse => 0x0204,
        KnxNetIpServiceType::ConnectRequest => 0x0205,
        KnxNetIpServiceType::ConnectResponse => 0x0206,
        KnxNetIpServiceType::ConnectionstateRequest => 0x0207,
        KnxNetIpServiceType::ConnectionstateResponse => 0x0208,
        KnxNetIpServiceType::DisconnectRequest => 0x0209,
        KnxNetIpServiceType::DisconnectResponse => 0x020A,
        KnxNetIpServiceType::SearchRequestExtended => 0x020B,
        KnxNetIpServiceType::SearchResponseExtended => 0x020C,
        KnxNetIpServiceType::DeviceConfigurationRequest => 0x0310,
        KnxNetIpServiceType::DeviceConfigurationAck => 0x0311,
        KnxNetIpServiceType::TunnellingRequest => 0x0420,
        KnxNetIpServiceType::TunnellingAck => 0x0421,
        KnxNetIpServiceType::TunnellingFeatureGet => 0x0422,
        KnxNetIpServiceType::TunnellingFeatureResponse => 0x0423,
        KnxNetIpServiceType::TunnellingFeatureSet => 0x0424,
        KnxNetIpServiceType::TunnellingFeatureInfo => 0x0425,
        KnxNetIpServiceType::RoutingIndication => 0x0530,
        KnxNetIpServiceType::RoutingLostMessage => 0x0531,
        KnxNetIpServiceType::RoutingBusy => 0x0532,
        KnxNetIpServiceType::RoutingSystemBroadcast => 0x0533,
    }
}

impl KnxNetIpServiceType {
    /// The value whose code is `value`, if any.
    pub fn from_u16(value: u16) -> (r: Option<KnxNetIpServiceType>)
        ensures
            match r {
                Some(e) => knx_net_ip_service_type_code(e) == value,
                None => forall|e: KnxNetIpServiceType| knx_net_ip_service_type_code(e) != value,
            },
    {
        match value {
            0x0201 => Some(KnxNetIpServiceType::SearchRequest),
            0x0202 => Some(KnxNetIpServiceType::SearchResponse),
            0x0203 => Some(KnxNetIpServiceType::DescriptionRequest),
            0x0204 => Some(KnxNetIpServiceType::DescriptionResponse),
            0x0205 => Some(KnxNetIpServiceType::ConnectRequest),
            0x0206 => Some(KnxNetIpServiceType::ConnectResponse),
            0x0207 => Some(KnxNetIpServiceType::ConnectionstateRequest),
            0x0208 => Some(KnxNetIpServiceType::ConnectionstateResponse),
            0x0209 => Some(KnxNetIpServiceType::DisconnectRequest),
            0x020A => Some(KnxNetIpServiceType::DisconnectResponse),
            0x020B => Some(KnxNetIpServiceType::SearchRequestExtended),
            0x020C => Some(KnxNetIpServiceType::SearchResponseExtended),
            0x0310 => Some(KnxNetIpServiceType::DeviceConfigurationRequest),
            0x0311 => Some(KnxNetIpServiceType::DeviceConfigurationAck),
            0x0420 => Some(KnxNetIpServiceType::TunnellingRequest),
            0x0421 => Some(KnxNetIpServiceType::TunnellingAck),
            0x0422 => Some(KnxNetIpServiceType::TunnellingFeatureGet),
            0x0423 => Some(KnxNetIpServiceType::TunnellingFeatureResponse),
            0x0424 => Some(KnxNetIpServiceType::TunnellingFeatureSet),
            0x0425 => Some(KnxNetIpServiceType::TunnellingFeatureInfo),
            0x0530 => Some(KnxNetIpServiceType::RoutingIndication),
            0x0531 => Some(KnxNetIpServiceType::RoutingLostMessage),
            0x0532 => Some(KnxNetIpServiceType::RoutingBusy),
            0x0533 => Some(KnxNetIpServiceType::RoutingSystemBroadcast),
            _ => None,
        }
    }

    /// The code of this value.
    pub fn code(&self) -> (c: u16)
        ensures
            c == knx_net_ip_service_type_code(*self),
    {
        match self {
            KnxNetIpServiceType::SearchRequest => 0x0201,
            KnxNetIpServiceType::SearchResponse => 0x0202,
            KnxNetIpServiceType::DescriptionRequest => 0x0203,
            KnxNetIpServiceType::DescriptionResponse => 0x0204,
            KnxNetIpServiceType::ConnectRequest => 0x0205,
            KnxNetIpServiceType::ConnectResponse => 0x0206,
            KnxNetIpServiceType::ConnectionstateRequest => 0x0207,
            KnxNetIpServiceType::ConnectionstateResponse => 0x0208,
            KnxNetIpServiceType::DisconnectRequest => 0x0209,
            KnxNetIpServiceType::DisconnectResponse => 0x020A,
            KnxNetIpServiceType::SearchRequestExtended => 0x020B,
            KnxNetIpServiceType::SearchResponseExtended => 0x020C,
            KnxNetIpServiceType::DeviceConfigurationRequest => 0x0310,
            KnxNetIpServiceType::DeviceConfigurationAck => 0x0311,
            KnxNetIpServiceType::TunnellingRequest => 0x0420,
            KnxNetIpServiceType::TunnellingAck => 0x0421,
            KnxNetIpServiceType::TunnellingFeatureGet => 0x0422,
            KnxNetIpServiceType::TunnellingFeatureResponse => 0x0423,
            KnxNetIpServiceType::TunnellingFeatureSet => 0x0424,
            KnxNetIpServiceType::TunnellingFeatureInfo => 0x0425,
            KnxNetIpServiceType::RoutingIndication => 0x0530,
            KnxNetIpServiceType::RoutingLostMessage => 0x0531,
            KnxNetIpServiceType::RoutingBusy => 0x0532,
            KnxNetIpServiceType::RoutingSystemBroadcast => 0x0533,
        }
    }
}

/// Distinct KnxNetIpServiceType values have distinct codes, so `from_u16` finds each
/// value again from its code.
pub proof fn lemma_knx_net_ip_service_type_code_injective(a: KnxNetIpServiceType, b: KnxNetIpServiceType)
    requires
        knx_net_ip_service_type_code(a) == knx_net_ip_service_type_code(b),
    ensures
        a == b,
{
}

/// KNXnet/IP status and error codes.
#[derive(Debug, Clone, Copy, PartialEq, Eq, Structural)]
pub enum KnxNetIpErrorCodes {
    ENoError,
    EHostProtocolType,
    EVersionNotSupported,
    ESequenceNumber,
    EConnectionId,
    EConnectionType,
    EConnectionOption,
    ENoMoreConnections,
    ENoMoreUniqueConnections,
    EDataConnection,
    EKnxConnection,
    ETunnellingLayer,
    EConnectionInUse,
}

/// The code of each KnxNetIpErrorCodes value.
pub open spec fn knx_net_ip_error_codes_code(e: KnxNetIpErrorCodes) -> u8 {
    match e {
        KnxNetIpErrorCodes::ENoError => 0x00,
        KnxNetIpErrorCodes::EHostProtocolType => 0x01,
        KnxNetIpErrorCodes::EVersionNotSupported => 0x02,
        KnxNetIpErrorCodes::ESequenceNumber => 0x04,
        KnxNetIpErrorCodes::EConnectionId => 0x21,
        KnxNetIpErrorCodes::EConnectionType => 0x22,
        KnxNetIpErrorCodes::EConnectionOption => 0x23,
        KnxNetIpErrorCodes::ENoMoreConnections => 0x24,
        KnxNetIpErrorCodes::ENoMoreUniqueConnections => 0x25,
        KnxNetIpErrorCodes::EDataConnection => 0x26,
        KnxNetIpErrorCodes::EKnxConnection => 0x27,
        KnxNetIpErrorCodes::ETunnellingLayer => 0x29,
        KnxNetIpErrorCodes::EConnectionInUse => 0x2E,
    }
}

impl KnxNetIpErrorCodes {
    /// The value whose code is `value`, if any.
    pub fn from_u8(value: u8) -> (r: Option<KnxNetIpErrorCodes>)
        ensures
            match r {
                Some(e) => knx_net_ip_error_codes_code(e) == value,
                None => forall|e: KnxNetIpErrorCodes| knx_net_ip_error_codes_code(e) != value,
            },
    {
        match value {
            0x00 => Some(KnxNetIpErrorCodes::ENoError),
            0x01 => Some(KnxNetIpErrorCodes::EHostProtocolType),
            0x02 => Some(KnxNetIpErrorCodes::EVersionNotSupported),
            0x04 => Some(KnxNetIpErrorCodes::ESequenceNumber),
            0x21 => Some(KnxNetIpErrorCodes::EConnectionId),
            0x22 => Some(KnxNetIpErrorCodes::EConnectionType),
            0x23 => Some(KnxNetIpErrorCodes::EConnectionOption),
            0x24 => Some(KnxNetIpErrorCodes::ENoMoreConnections),
            0x25 => Some(KnxNetIpErrorCodes::ENoMoreUniqueConnections),
            0x26 => Some(KnxNetIpErrorCodes::EDataConnection),
            0x27 => Some(KnxNetIpErrorCodes::EKnxConnection),
            0x29 => Some(KnxNetIpErrorCodes::ETunnellingLayer),
            0x2E => Some(KnxNetIpErrorCodes::EConnectionInUse),
            _ => None,
        }
    }

    /// The code of this value.
    pub fn code(&self) -> (c: u8)
        ensures
            c == knx_net_ip_error_codes_code(*self),
    {
        match self {
            KnxNetIpErrorCodes::ENoError => 0x00,
            KnxNetIpErrorCodes::EHostProtocolType => 0x01,
            KnxNetIpErrorCodes::EVersionNotSupported => 0x02,
            KnxNetIpErrorCodes::ESequenceNumber => 0x04,
            KnxNetIpErrorCodes::EConnectionId => 0x21,
            KnxNetIpErrorCodes::EConnectionType => 0x22,
            KnxNetIpErrorCodes::EConnectionOption => 0x23,
            KnxNetIpErrorCodes::ENoMoreConnections => 0x24,
            KnxNetIpErrorCodes::ENoMoreUniqueConnections => 0x25,
            KnxNetIpErrorCodes::EDataConnection => 0x26,
            KnxNetIpErrorCodes::EKnxConnection => 0x27,
            KnxNetIpErrorCodes::ETunnellingLayer => 0x29,
            KnxNetIpErrorCodes::EConnectionInUse => 0x2E,
        }
    }
}

/// Distinct KnxNetIpErrorCodes values have distinct codes, so `from_u8` finds each
/// value again from its code.
pub proof fn lemma_knx_net_ip_error_codes_code_injective(a: KnxNetIpErrorCodes, b: KnxNetIpErrorCodes)
    requires
        knx_net_ip_error_codes_code(a) == knx_net_ip_error_codes_code(b),
    ensures
        a == b,
{
}

/// Transport protocol of a host address.
#[derive(Debug, Clone, Copy, PartialEq, Eq, Structural)]
pub enum HostProtocolCode {
    Ipv4Udp,
    Ipv4Tcp,
}

/// The code of each HostProtocolCode value.
pub open spec fn host_protocol_code_code(e: HostProtocolCode) -> u8 {
    match e {
        HostProtocolCode::Ipv4Udp => 0x01,
        HostProtocolCode::Ipv4Tcp => 0x02,
    }
}

impl HostProtocolCode {
    /// The value whose code is `value`, if any.
    pub fn from_u8(value: u8) -> (r: Option<HostProtocolCode>)
        ensures
            match r {
                Some(e) => host_protocol_code_code(e) == value,
                None => forall|e: HostProtocolCode| host_protocol_code_code(e) != value,
            },
    {
        match value {
            0x01 => Some(HostProtocolCode::Ipv4Udp),
            0x02 => Some(HostProtocolCode::Ipv4Tcp),
            _ => None,
        }
    }

    /// The code of this value.
    pub fn code(&self) -> (c: u8)
        ensures
            c == host_protocol_code_code(*self),
    {
        match self {
            HostProtocolCode::Ipv4Udp => 0x01,
            HostProtocolCode::Ipv4Tcp => 0x02,
        }
    }
}

/// Distinct HostProtocolCode values have distinct codes, so `from_u8` finds each
/// value again from its code.
pub proof fn lemma_host_protocol_code_code_injective(a: HostProtocolCode, b: HostProtocolCode)
    requires
        host_protocol_code_code(a) == host_protocol_code_code(b),
    ensures
        a == b,
{
}

/// Kinds of KNXnet/IP connection.
#[derive(Debug, Clone, Copy, PartialEq, Eq, Structural)]
pub enum ConnectionType {
    DeviceMgmtConnection,
    TunnelConnection,
    RemlogConnection,
    RemconfConnection,
    ObjsvrConnection,
}

/// The code of each ConnectionType value.
pub open spec fn connection_type_code(e: ConnectionType) -> u8 {
    match e {
        ConnectionType::DeviceMgmtConnection => 0x03,
        ConnectionType::TunnelConnection => 0x04,
        ConnectionType::RemlogConnection => 0x06,
        ConnectionType::RemconfConnection => 0x07,
        ConnectionType::ObjsvrConnection => 0x08,
    }
}

impl ConnectionType {
    /// The value whose code is `value`, if any.
    pub fn from_u8(value: u8) -> (r: Option<ConnectionType>)
        ensures
            match r {
                Some(e) => connection_type_code(e) == value,
                None => forall|e: ConnectionType| connection_type_code(e) != value,
            },
    {
        match value {
            0x03 => Some(ConnectionType::DeviceMgmtConnection),
            0x04 => Some(ConnectionType::TunnelConnection),
            0x06 => Some(ConnectionType::RemlogConnection),
            0x07 => Some(ConnectionType::RemconfConnection),
            0x08 => Some(ConnectionType::ObjsvrConnection),
            _ => None,
        }
    }

    /// The code of this value.
    pub fn code(&self) -> (c: u8)
        ensures
            c == connection_type_code(*self),
    {
        match self {
            ConnectionType::DeviceMgmtConnection => 0x03,
            ConnectionType::TunnelConnection => 0x04,
            ConnectionType::RemlogConnection => 0x06,
            ConnectionType::RemconfConnection => 0x07,
            ConnectionType::ObjsvrConnection => 0x08,
        }
    }
}

/// Distinct ConnectionType values have distinct codes, so `from_u8` finds each
/// value again from its code.
pub proof fn lemma_connection_type_code_injective(a: ConnectionType, b: ConnectionType)
    requires
        connection_type_code(a) == connection_type_code(b),
    ensures
        a == b,
{
}

/// Description information block types.
#[derive(Debug, Clone, Copy, PartialEq, Eq, Structural)]
pub enum DescriptionType {
    DeviceInfo,
    SuppSvcFamilies,
    IpConfig,
    IpCurConfig,
    KnxAddresses,
    TunnellingInfo,
    DeviceInfoExtended,
    MfrData,
}

/// The code of each DescriptionType value.
pub open spec fn description_type_code(e: DescriptionType) -> u8 {
    match e {
        DescriptionType::DeviceInfo => 0x01,
        DescriptionType::SuppSvcFamilies => 0x02,
        DescriptionType::IpConfig => 0x03,
        DescriptionType::IpCurConfig => 0x04,
        DescriptionType::KnxAddresses => 0x05,
        DescriptionType::TunnellingInfo => 0x07,
        DescriptionType::DeviceInfoExtended => 0x08,
        DescriptionType::MfrData => 0xFE,
    }
}

impl DescriptionType {
    /// The value whose code is `value`, if any.
    pub fn from_u8(value: u8) -> (r: Option<DescriptionType>)
        ensures
            match r {
                Some(e) => description_type_code(e) == value,
                None => forall|e: DescriptionType| description_type_code(e) != value,
            },
    {
        match value {
            0x01 => Some(DescriptionType::DeviceInfo),
            0x02 => Some(DescriptionType::SuppSvcFamilies),
            0x03 => Some(DescriptionType::IpConfig),
            0x04 => Some(DescriptionType::IpCurConfig),
            0x05 => Some(DescriptionType::KnxAddresses),
            0x07 => Some(DescriptionType::TunnellingInfo),
            0x08 => Some(DescriptionType::DeviceInfoExtended),
            0xFE => Some(DescriptionType::MfrData),
            _ => None,
        }
    }

    /// The code of this value.
    pub fn code(&self) -> (c: u8)
        ensures
            c == description_type_code(*self),
    {
        match self {
            DescriptionType::DeviceInfo => 0x01,
            DescriptionType::SuppSvcFamilies => 0x02,
            DescriptionType::IpConfig => 0x03,
            DescriptionType::IpCurConfig => 0x04,
            DescriptionType::KnxAddresses => 0x05,
            DescriptionType::TunnellingInfo => 0x07,
            DescriptionType::DeviceInfoExtended => 0x08,
            DescriptionType::MfrData => 0xFE,
        }
    }
}

/// Distinct DescriptionType values have distinct codes, so `from_u8` finds each
/// value again from its code.
pub proof fn lemma_description_type_code_injective(a: DescriptionType, b: DescriptionType)
    requires
        description_type_code(a) == description_type_code(b),
    ensures
        a == b,
{
}

/// Tunnelling layers.
#[derive(Debug, Clone, Copy, PartialEq, Eq, Structural)]
pub enum KnxLayer {
    LinkLayer,
    RawLayer,
    BusmonitorLayer,
}

/// The code of each KnxLayer value.
pub open spec fn knx_layer_code(e: KnxLayer) -> u8 {
    match e {
        KnxLayer::LinkLayer => 0x02,
        KnxLayer::RawLayer => 0x04,
        KnxLayer::BusmonitorLayer => 0x80,
    }
}

impl KnxLayer {
    /// The value whose code is `value`, if any.
    pub fn from_u8(value: u8) -> (r: Option<KnxLayer>)
        ensures
            match r {
                Some(e) => knx_layer_code(e) == value,
                None => forall|e: KnxLayer| knx_layer_code(e) != value,
            },
    {
        match value {
            0x02 => Some(KnxLayer::LinkLayer),
            0x04 => Some(KnxLayer::RawLayer),
            0x80 => Some(KnxLayer::BusmonitorLayer),
            _ => None,
        }
    }

    /// The code of this value.
    pub fn code(&self) -> (c: u8)
        ensures
            c == knx_layer_code(*self),
    {
        match self {
            KnxLayer::LinkLayer => 0x02,
            KnxLayer::RawLayer => 0x04,
            KnxLayer::BusmonitorLayer => 0x80,
        }
    }
}

/// Distinct KnxLayer values have distinct codes, so `from_u8` finds each
/// value again from its code.
pub proof fn lemma_knx_layer_code_injective(a: KnxLayer, b: KnxLayer)
    requires
        knx_layer_code(a) == knx_layer_code(b),
    ensures
        a == b,
{
}

/// KNX media.
#[derive(Debug, Clone, Copy, PartialEq, Eq, Structural)]
pub enum KnxMedium {
    Tp1,
    Pl110,
    Rf,
    KnxIp,
}

/// The code of each KnxMedium value.
pub open spec fn knx_medium_code(e: KnxMedium) -> u8 {
    match e {
        KnxMedium::Tp1 => 0x02,
        KnxMedium::Pl110 => 0x04,
        KnxMedium::Rf => 0x10,
        KnxMedium::KnxIp => 0x20,
    }
}

impl KnxMedium {
    /// The value whose code is `value`, if any.
    pub fn from_u8(value: u8) -> (r: Option<KnxMedium>)
        ensures
            match r {
                Some(e) => knx_medium_code(e) == value,
                None => forall|e: KnxMedium| knx_medium_code(e) != value,
            },
    {
        match value {
            0x02 => Some(KnxMedium::Tp1),
            0x04 => Some(KnxMedium::Pl110),
            0x10 => Some(KnxMedium::Rf),
            0x20 => Some(KnxMedium::KnxIp),
            _ => None,
        }
    }

    /// The code of this value.
    pub fn code(&self) -> (c: u8)
        ensures
            c == knx_medium_code(*self),
    {
        match self {
            KnxMedium::Tp1 => 0x02,
            KnxMedium::Pl110 => 0x04,
            KnxMedium::Rf => 0x10,
            KnxMedium::KnxIp => 0x20,
        }
    }
}

/// Distinct KnxMedium values have distinct codes, so `from_u8` finds each
/// value again from its code.
pub proof fn lemma_knx_medium_code_injective(a: KnxMedium, b: KnxMedium)
    requires
        knx_medium_code(a) == knx_medium_code(b),
    ensures
        a == b,
{
}

/// KNXnet/IP service families.
#[derive(Debug, Clone, Copy, PartialEq, Eq, Structural)]
pub enum AllowedSupportedServiceFamilies {
    Core,
    DeviceManagement,
    Tunnelling,
    Routing,
    RemoteLogging,
    RemoteConfigurationAndDiagnosis,
    ObjectServer,
    Security,
}

/// The code of each AllowedSupportedServiceFamilies value.
pub open spec fn allowed_supported_service_families_code(e: AllowedSupportedServiceFamilies) -> u8 {
    match e {
        AllowedSupportedServiceFamilies::Core => 0x02,
        AllowedSupportedServiceFamilies::DeviceManagement => 0x03,
        AllowedSupportedServiceFamilies::Tunnelling => 0x04,
        AllowedSupportedServiceFamilies::Routing => 0x05,
        AllowedSupportedServiceFamilies::RemoteLogging => 0x06,
        AllowedSupportedServiceFamilies::RemoteConfigurationAndDiagnosis => 0x07,
        AllowedSupportedServiceFamilies::ObjectServer => 0x08,
        AllowedSupportedServiceFamilies::Security => 0x09,
    }
}

impl AllowedSupportedServiceFamilies {
    /// The value whose code is `value`, if any.
    pub fn from_u8(value: u8) -> (r: Option<AllowedSupportedServiceFamilies>)
        ensures
            match r {
                Some(e) => allowed_supported_service_families_code(e) == value,
                None => forall|e: AllowedSupportedServiceFamilies| allowed_supported_service_families_code(e) != value,
            },
    {
        match value {
            0x02 => Some(AllowedSupportedServiceFamilies::Core),
            0x03 => Some(AllowedSupportedServiceFamilies::DeviceManagement),
            0x04 => Some(AllowedSupportedServiceFamilies::Tunnelling),
            0x05 => Some(AllowedSupportedServiceFamilies::Routing),
            0x06 => Some(AllowedSupportedServiceFamilies::RemoteLogging),
            0x07 => Some(AllowedSupportedServiceFamilies::RemoteConfigurationAndDiagnosis),
            0x08 => Some(AllowedSupportedServiceFamilies::ObjectServer),
            0x09 => Some(AllowedSupportedServiceFamilies::Security),
            _ => None,
        }
    }

    /// The code of this value.
    pub fn code(&self) -> (c: u8)
        ensures
            c == allowed_supported_service_families_code(*self),
    {
        match self {
            AllowedSupportedServiceFamilies::Core => 0x02,
            AllowedSupportedServiceFamilies::DeviceManagement => 0x03,
            AllowedSupportedServiceFamilies::Tunnelling => 0x04,
            AllowedSupportedServiceFamilies::Routing => 0x05,
            AllowedSupportedServiceFamilies::RemoteLogging => 0x06,
            AllowedSupportedServiceFamilies::RemoteConfigurationAndDiagnosis => 0x07,
            AllowedSupportedServiceFamilies::ObjectServer => 0x08,
            AllowedSupportedServiceFamilies::Security => 0x09,
        }
    }
}

/// Distinct AllowedSupportedServiceFamilies values have distinct codes, so `from_u8` finds each
/// value again from its code.
pub proof fn lemma_allowed_supported_service_families_code_injective(a: AllowedSupportedServiceFamilies, b: AllowedSupportedServiceFamilies)
    requires
        allowed_supported_service_families_code(a) == allowed_supported_service_families_code(b),
    ensures
        a == b,
{
}

/// Tunnel connection layers.
#[derive(Debug, Clone, Copy, PartialEq, Eq, Structural)]
pub enum TunnelLink {
    TunnelLinklayer,
    TunnelRaw,
    TunnelBusmonitor,
}

/// The code of each TunnelLink value.
pub open spec fn tunnel_link_code(e: TunnelLink) -> u8 {
    match e {
        TunnelLink::TunnelLinklayer => 0x02,
        TunnelLink::TunnelRaw => 0x04,
        TunnelLink::TunnelBusmonitor => 0x80,
    }
}

impl TunnelLink {
    /// The value whose code is `value`, if any.
    pub fn from_u8(value: u8) -> (r: Option<TunnelLink>)
        ensures
            match r {
                Some(e) => tunnel_link_code(e) == value,
                None => forall|e: TunnelLink| tunnel_link_code(e) != value,
            },
    {
        match value {
            0x02 => Some(TunnelLink::TunnelLinklayer),
            0x04 => Some(TunnelLink::TunnelRaw),
            0x80 => Some(TunnelLink::TunnelBusmonitor),
            _ => None,
        }
    }

    /// The code of this value.
    pub fn code(&self) -> (c: u8)
        ensures
            c == tunnel_link_code(*self),
    {
        match self {
            TunnelLink::TunnelLinklayer => 0x02,
            TunnelLink::TunnelRaw => 0x04,
            TunnelLink::TunnelBusmonitor => 0x80,
        }
    }
}

/// Distinct TunnelLink values have distinct codes, so `from_u8` finds each
/// value again from its code.
pub proof fn lemma_tunnel_link_code_injective(a: TunnelLink, b: TunnelLink)
    requires
        tunnel_link_code(a) == tunnel_link_code(b),
    ensures
        a == b,
{
}

/// Timeouts of the KNXnet/IP protocol, in seconds.
#[derive(Debug, Clone, Copy, PartialEq, Eq)]
pub struct KnxTimeoutConstants;

impl KnxTimeoutConstants {
    pub const CONNECT_REQUEST_TIMEOUT: u8 = 10;
    pub const CONNECTIONSTATE_REQUEST_TIMEOUT: u8 = 10;
    pub const DEVICE_CONFIGURATION_REQUEST_TIMEOUT: u8 = 10;
    pub const TUNNELING_REQUEST_TIMEOUT: u8 = 1;
    pub const CONNECTION_ALIVE_TIME: u8 = 120;
}

/// The host protocol with code `v`, if any.
pub open spec fn host_protocol_of(v: u8) -> Option<HostProtocolCode> {
    if exists|e: HostProtocolCode| host_protocol_code_code(e) == v {
        Some(choose|e: HostProtocolCode| host_protocol_code_code(e) == v)
    } else {
        None
    }
}

/// The connection type with code `v`, if any.
pub open spec fn connection_type_of(v: u8) -> Option<ConnectionType> {
    if exists|e: ConnectionType| connection_type_code(e) == v {
        Some(choose|e: ConnectionType| connection_type_code(e) == v)
    } else {
        None
    }
}

/// The description type with code `v`, if any.
pub open spec fn description_type_of(v: u8) -> Option<DescriptionType> {
    if exists|e: DescriptionType| description_type_code(e) == v {
        Some(choose|e: DescriptionType| description_type_code(e) == v)
    } else {
        None
    }
}

/// The medium with code `v`, if any.
pub open spec fn knx_medium_of(v: u8) -> Option<KnxMedium> {
    if exists|e: KnxMedium| knx_medium_code(e) == v {
        Some(choose|e: KnxMedium| knx_medium_code(e) == v)
    } else {
        None
    }
}

/// `host_protocol_of` finds a host protocol from its code.
pub proof fn lemma_host_protocol_of(e: HostProtocolCode)
    ensures
        host_protocol_of(host_protocol_code_code(e)) == Some(e),
{
    let c = choose|x: HostProtocolCode| host_protocol_code_code(x) == host_protocol_code_code(e);
    lemma_host_protocol_code_code_injective(c, e);
}

/// `connection_type_of` finds a connection type from its code.
pub proof fn lemma_connection_type_of(e: ConnectionType)
    ensures
        connection_type_of(connection_type_code(e)) == Some(e),
{
    let c = choose|x: ConnectionType| connection_type_code(x) == connection_type_code(e);
    lemma_connection_type_code_injective(c, e);
}

/// `description_type_of` finds a description type from its code.
pub proof fn lemma_description_type_of(e: DescriptionType)
    ensures
        description_type_of(description_type_code(e)) == Some(e),
{
    let c = choose|x: DescriptionType| description_type_code(x) == description_type_code(e);
    lemma_description_type_code_injective(c, e);
}

/// `knx_medium_of` finds a medium from its code.
pub proof fn lemma_knx_medium_of(e: KnxMedium)
    ensures
        knx_medium_of(knx_medium_code(e)) == Some(e),
{
    let c = choose|x: KnxMedium| knx_medium_code(x) == knx_medium_code(e);
    lemma_knx_medium_code_injective(c, e);
}

} // verus!
