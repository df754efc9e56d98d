//! Application layer protocol control information (APCI): the ten-bit
//! service code of an APDU.
use crate::utils::text::{dec_str, hex2, hex_min2, push_char, push_decimal, push_hex2, push_hex_min2, push_str, string_of};
use vstd::prelude::*;

verus! {

/// Application layer services.
#[derive(Debug, Clone, Copy, PartialEq, Eq, Structural)]
pub enum ApciEnum {
    AGroupValueRead,
    AGroupValueResponse,
    AGroupValueWrite,
    AIndividualAddressWrite,
    AIndividualAddressRead,
    AIndividualAddressResponse,
    AAnalogToDigitalConverterRead,
    AAnalogToDigitalConverterResponse,
    ASystemNetworkParameterRead,
    ASystemNetworkParameterResponse,
    ASystemNetworkParameterWrite,
    PlannedForFutureSystemBroadcastService,
    APropertyExtValueRead,
    APropertyExtValueResponse,
    APropertyExtValueWriteCon,
    APropertyExtValueWriteConRes,
    APropertyExtValueWriteUnCon,
    APropertyExtValueInfoReport,
    APropertyExtDescriptionRead,
    APropertyExtDescriptionResponse,
    AFunctionPropertyExtCommand,
    AFunctionPropertyExtStateRead,
    AFunctionPropertyExtStateResponse,
    AMemoryExtendedWrite,
    AMemoryExtendedWriteResponse,
    AMemoryExtendedRead,
    AMemoryExtendedReadResponse,
    AMemoryRead,
    AMemoryResponse,
    AMemoryWrite,
    AUserMemoryRead,
    AUserMemoryResponse,
    AUserMemoryWrite,
    AUserMemoryBitWrite,
    AUserManufacturerInfoRead,
    AUserManufacturerInfoResponse,
    AFunctionPropertyCommand,
    AFunctionPropertyStateRead,
    AFunctionPropertyStateResponse,
    ReservedUserMsg,
    ReservedUserMsg2,
    ReservedUserMsg3,
    ReservedUserMsg4,
    ADeviceDescriptorRead,
    ADeviceDescriptorResponse,
    ARestart,
    AFilterTableOpen,
    AFilterTableRead,
    AFilterTableResponse,
    AFilterTableWrite,
    ARouterMemoryRead,
    ARouterMemoryResponse,
    ARouterMemoryWrite,
    ARouterStatusRead,
    ARouterStatusResponse,
    ARouterStatusWrite,
    AMemoryBitWrite,
    AAuthorizeRequest,
    AAuthorizeResponse,
    AKeyWrite,
    AKeyResponse,
    APropertyValueRead,
    APropertyValueResponse,
    APropertyValueWrite,
    APropertyDescriptionRead,
    APropertyDescriptionResponse,
    ANetworkParameterRead,
    ANetworkParameterResponse,
    AIndividualAddressSerialNumberRead,
    AIndividualAddressSerialNumberResponse,
    AIndividualAddressSerialNumberWrite,
    Reserved2,
    ADomainAddressWrite,
    ADomainAddressRead,
    ADomainAddressResponse,
    ADomainAddressSelectiveRead,
    ANetworkParameterWrite,
    ALinkRead,
    ALinkResponse,
    ALinkWrite,
    AGroupPropValueRead,
    AGroupPropValueResponse,
    AGroupPropValueWrite,
    AGroupPropValueInfoReport,
    ADomainAddressSerialNumberRead,
    ADomainAddressSerialNumberResponse,
    ADomainAddressSerialNumberWrite,
    AFileStreamInfoReport,
}

/// The ten-bit code of each service.
pub open spec fn apci_code(e: ApciEnum) -> u16 {
    match e {
        ApciEnum::AGroupValueRead => 0x00,
        ApciEnum::AGroupValueResponse => 0x40,
        ApciEnum::AGroupValueWrite => 0x80,
        ApciEnum::AIndividualAddressWrite => 0xC0,
        ApciEnum::AIndividualAddressRead => 0x100,
        ApciEnum::AIndividualAddressResponse => 0x140,
        ApciEnum::AAnalogToDigitalConverterRead => 0x180,
        ApciEnum::AAnalogToDigitalConverterResponse => 0x1C0,
        ApciEnum::ASystemNetworkParameterRead => 0x1C8,
        ApciEnum::ASystemNetworkParameterResponse => 0x1C9,
        ApciEnum::ASystemNetworkParameterWrite => 0x1CA,
        ApciEnum::PlannedForFutureSystemBroadcastService => 0x1CB,
        ApciEnum::APropertyExtValueRead => 0x1CC,
        ApciEnum::APropertyExtValueResponse => 0x1CD,
        ApciEnum::APropertyExtValueWriteCon => 0x1CE,
        ApciEnum::APropertyExtValueWriteConRes => 0x1CF,
        ApciEnum::APropertyExtValueWriteUnCon => 0x1D0,
        ApciEnum::APropertyExtValueInfoReport => 0x1D1,
        ApciEnum::APropertyExtDescriptionRead => 0x1D2,
        ApciEnum::APropertyExtDescriptionResponse => 0x1D3,
        ApciEnum::AFunctionPropertyExtCommand => 0x1D4,
        ApciEnum::AFunctionPropertyExtStateRead => 0x1D5,
        ApciEnum::AFunctionPropertyExtStateResponse => 0x1D6,
        ApciEnum::AMemoryExtendedWrite => 0x1FB,
        ApciEnum::AMemoryExtendedWriteResponse => 0x1FC,
        ApciEnum::AMemoryExtendedRead => 0x1FD,
        ApciEnum::AMemoryExtendedReadResponse => 0x1FE,
        ApciEnum::AMemoryRead => 0x200,
        ApciEnum::AMemoryResponse => 0x240,
        ApciEnum::AMemoryWrite => 0x280,
        ApciEnum::AUserMemoryRead => 0x2C0,
        ApciEnum::AUserMemoryResponse => 0x2C1,
        ApciEnum::AUserMemoryWrite => 0x2C2,
        ApciEnum::AUserMemoryBitWrite => 0x2C4,
        ApciEnum::AUserManufacturerInfoRead => 0x2C5,
        ApciEnum::AUserManufacturerInfoResponse => 0x2C6,
        ApciEnum::AFunctionPropertyCommand => 0x2C7,
        ApciEnum::AFunctionPropertyStateRead => 0x2C8,
        ApciEnum::AFunctionPropertyStateResponse => 0x2C9,
        ApciEnum::ReservedUserMsg => 0x2CA,
        ApciEnum::ReservedUserMsg2 => 0x2F7,
        ApciEnum::ReservedUserMsg3 => 0x2F8,
        ApciEnum::ReservedUserMsg4 => 0x2FE,
        ApciEnum::ADeviceDescriptorRead => 0x300,
        ApciEnum::ADeviceDescriptorResponse => 0x340,
        ApciEnum::ARestart => 0x380,
        ApciEnum::AFilterTableOpen => 0x3C0,
        ApciEnum::AFilterTableRead => 0x3C1,
        ApciEnum::AFilterTableResponse => 0x3C2,
        ApciEnum::AFilterTableWrite => 0x3C3,
        ApciEnum::ARouterMemoryRead => 0x3C8,
        ApciEnum::ARouterMemoryResponse => 0x3C9,
        ApciEnum::ARouterMemoryWrite => 0x3CA,
        ApciEnum::ARouterStatusRead => 0x3CD,
        ApciEnum::ARouterStatusResponse => 0x3CE,
        ApciEnum::ARouterStatusWrite => 0x3CF,
        ApciEnum::AMemoryBitWrite => 0x3D0,
        ApciEnum::AAuthorizeRequest => 0x3D1,
        ApciEnum::AAuthorizeResponse => 0x3D2,
        ApciEnum::AKeyWrite => 0x3D3,
        ApciEnum::AKeyResponse => 0x3D4,
        ApciEnum::APropertyValueRead => 0x3D5,
        ApciEnum::APropertyValueResponse => 0x3D6,
        ApciEnum::APropertyValueWrite => 0x3D7,
        ApciEnum::APropertyDescriptionRead => 0x3D8,
        ApciEnum::APropertyDescriptionResponse => 0x3D9,
        ApciEnum::ANetworkParameterRead => 0x3DA,
        ApciEnum::ANetworkParameterResponse => 0x3DB,
        ApciEnum::AIndividualAddressSerialNumberRead => 0x3DC,
        ApciEnum::AIndividualAddressSerialNumberResponse => 0x3DD,
        ApciEnum::AIndividualAddressSerialNumberWrite => 0x3DE,
        ApciEnum::Reserved2 => 0x3DF,
        ApciEnum::ADomainAddressWrite => 0x3E0,
        ApciEnum::ADomainAddressRead => 0x3E1,
        ApciEnum::ADomainAddressResponse => 0x3E2,
        ApciEnum::ADomainAddressSelectiveRead => 0x3E3,
        ApciEnum::ANetworkParameterWrite => 0x3E4,
        ApciEnum::ALinkRead => 0x3E5,
        ApciEnum::ALinkResponse => 0x3E6,
        ApciEnum::ALinkWrite => 0x3E7,
        ApciEnum::AGroupPropValueRead => 0x3E8,
        ApciEnum::AGroupPropValueResponse => 0x3E9,
        ApciEnum::AGroupPropValueWrite => 0x3EA,
        ApciEnum::AGroupPropValueInfoReport => 0x3EB,
        ApciEnum::ADomainAddressSerialNumberRead => 0x3EC,
        ApciEnum::ADomainAddressSerialNumberResponse => 0x3ED,
        ApciEnum::ADomainAddressSerialNumberWrite => 0x3EE,
        ApciEnum::AFileStreamInfoReport => 0x3F0,
    }
}

/// The name of each service.
pub open spec fn apci_name(e: ApciEnum) -> Seq<char> {
    match e {
        ApciEnum::AGroupValueRead => "A_GroupValue_Read_Protocol_Data_Unit"@,
        ApciEnum::AGroupValueResponse => "A_GroupValue_Response_Protocol_Data_Unit"@,
        ApciEnum::AGroupValueWrite => "A_GroupValue_Write_Protocol_Data_Unit"@,
        ApciEnum::AIndividualAddressWrite => "A_IndividualAddress_Write_Protocol_Data_Unit"@,
        ApciEnum::AIndividualAddressRead => "A_IndividualAddress_Read_Protocol_Data_Unit"@,
        ApciEnum::AIndividualAddressResponse => "A_IndividualAddress_Response_Protocol_Data_Unit"@,
        ApciEnum::AAnalogToDigitalConverterRead => "A_Analog_to_Digital_Converter_Read_Protocol_Data_Unit"@,
        ApciEnum::AAnalogToDigitalConverterResponse => "A_Analog_to_Digital_Converter_Response_Protocol_Data_Unit"@,
        ApciEnum::ASystemNetworkParameterRead => "A_SystemNetworkParameter_Read_Protocol_Data_Unit"@,
        ApciEnum::ASystemNetworkParameterResponse => "A_SystemNetworkParameter_Response_Protocol_Data_Unit"@,
        ApciEnum::ASystemNetworkParameterWrite => "A_SystemNetworkParameter_Write_Protocol_Data_Unit"@,
        ApciEnum::PlannedForFutureSystemBroadcastService => "planned_for_future_system_broadcast_service"@,
        ApciEnum::APropertyExtValueRead => "A_PropertyExtValue_Read_Protocol_Data_Unit"@,
        ApciEnum::APropertyExtValueResponse => "A_PropertyExtValue_Response_Protocol_Data_Unit"@,
        ApciEnum::APropertyExtValueWriteCon => "A_PropertyExtValue_WriteCon_Protocol_Data_Unit"@,
        ApciEnum::APropertyExtValueWriteConRes => "A_PropertyExtValue_WriteConRes_Protocol_Data_Unit"@,
        ApciEnum::APropertyExtValueWriteUnCon => "A_PropertyExtValue_WriteUnCon_Protocol_Data_Unit"@,
        ApciEnum::APropertyExtValueInfoReport => "A_PropertyExtValue_InfoReport_Protocol_Data_Unit"@,
        ApciEnum::APropertyExtDescriptionRead => "A_PropertyExtDescription_Read_Protocol_Data_Unit"@,
        ApciEnum::APropertyExtDescriptionResponse => "A_PropertyExtDescription_Response_Protocol_Data_Unit"@,
        ApciEnum::AFunctionPropertyExtCommand => "A_FunctionPropertyExtCommand_Protocol_Data_Unit"@,
        ApciEnum::AFunctionPropertyExtStateRead => "A_FunctionPropertyExtState_Read_Protocol_Data_Unit"@,
        ApciEnum::AFunctionPropertyExtStateResponse => "A_FunctionPropertyExtState_Response_Protocol_Data_Unit"@,
        ApciEnum::AMemoryExtendedWrite => "A_MemoryExtended_Write_Protocol_Data_Unit"@,
        ApciEnum::AMemoryExtendedWriteResponse => "A_MemoryExtended_WriteResponse_Protocol_Data_Unit"@,
        ApciEnum::AMemoryExtendedRead => "A_MemoryExtended_Read_Protocol_Data_Unit"@,
        ApciEnum::AMemoryExtendedReadResponse => "A_MemoryExtended_ReadResponse_Protocol_Data_Unit"@,
        ApciEnum::AMemoryRead => "A_Memory_Read_Protocol_Data_Unit"@,
        ApciEnum::AMemoryResponse => "A_Memory_Response_Protocol_Data_Unit"@,
        ApciEnum::AMemoryWrite => "A_Memory_Write_Protocol_Data_Unit"@,
        ApciEnum::AUserMemoryRead => "A_UserMemory_Read_Protocol_Data_Unit"@,
        ApciEnum::AUserMemoryResponse => "A_UserMemory_Response_Protocol_Data_Unit"@,
        ApciEnum::AUserMemoryWrite => "A_UserMemory_Write_Protocol_Data_Unit"@,
        ApciEnum::AUserMemoryBitWrite => "A_UserMemoryBit_Write_Protocol_Data_Unit"@,
        ApciEnum::AUserManufacturerInfoRead => "A_UserManufacturerInfo_Read_Protocol_Data_Unit"@,
        ApciEnum::AUserManufacturerInfoResponse => "A_UserManufacturerInfo_Response_Protocol_Data_Unit"@,
        ApciEnum::AFunctionPropertyCommand => "A_FunctionPropertyCommand_Protocol_Data_Unit"@,
        ApciEnum::AFunctionPropertyStateRead => "A_FunctionPropertyState_Read_Protocol_Data_Unit"@,
        ApciEnum::AFunctionPropertyStateResponse => "A_FunctionPropertyState_Response_Protocol_Data_Unit"@,
        ApciEnum::ReservedUserMsg => "Reserved_USERMSG"@,
        ApciEnum::ReservedUserMsg2 => "Reserved_USERMSG_2"@,
        ApciEnum::ReservedUserMsg3 => "Reserved_USERMSG_3"@,
        ApciEnum::ReservedUserMsg4 => "Reserved_USERMSG_4"@,
        ApciEnum::ADeviceDescriptorRead => "A_DeviceDescriptor_Read_Protocol_Data_Unit"@,
        ApciEnum::ADeviceDescriptorResponse => "A_DeviceDescriptor_Response_Protocol_Data_Unit"@,
        ApciEnum::ARestart => "A_Restart_Protocol_Data_Unit"@,
        ApciEnum::AFilterTableOpen => "A_FilterTable_Open_Protocol_Data_Unit"@,
        ApciEnum::AFilterTableRead => "A_FilterTable_Read_Protocol_Data_Unit"@,
        ApciEnum::AFilterTableResponse => "A_FilterTable_Response_Protocol_Data_Unit"@,
        ApciEnum::AFilterTableWrite => "A_FilterTable_Write_Protocol_Data_Unit"@,
        ApciEnum::ARouterMemoryRead => "A_RouterMemory_Read_Protocol_Data_Unit"@,
        ApciEnum::ARouterMemoryResponse => "A_RouterMemory_Response_Protocol_Data_Unit"@,
        ApciEnum::ARouterMemoryWrite => "A_RouterMemory_Write_Protocol_Data_Unit"@,
        ApciEnum::ARouterStatusRead => "A_RouterStatus_Read_Protocol_Data_Unit"@,
        ApciEnum::ARouterStatusResponse => "A_RouterStatus_Response_Protocol_Data_Unit"@,
        ApciEnum::ARouterStatusWrite => "A_RouterStatus_Write_Protocol_Data_Unit"@,
        ApciEnum::AMemoryBitWrite => "A_MemoryBit_Write_Protocol_Data_Unit"@,
        ApciEnum::AAuthorizeRequest => "A_Authorize_Request_Protocol_Data_Unit"@,
        ApciEnum::AAuthorizeResponse => "A_Authorize_Response_Protocol_Data_Unit"@,
        ApciEnum::AKeyWrite => "A_Key_Write_Protocol_Data_Unit"@,
        ApciEnum::AKeyResponse => "A_Key_Response_Protocol_Data_Unit"@,
        ApciEnum::APropertyValueRead => "A_PropertyValue_Read_Protocol_Data_Unit"@,
        ApciEnum::APropertyValueResponse => "A_PropertyValue_Response_Protocol_Data_Unit"@,
        ApciEnum::APropertyValueWrite => "A_PropertyValue_Write_Protocol_Data_Unit"@,
        ApciEnum::APropertyDescriptionRead => "A_PropertyDescription_Read_Protocol_Data_Unit"@,
        ApciEnum::APropertyDescriptionResponse => "A_PropertyDescription_Response_Protocol_Data_Unit"@,
        ApciEnum::ANetworkParameterRead => "A_NetworkParameter_Read_Protocol_Data_Unit"@,
        ApciEnum::ANetworkParameterResponse => "A_NetworkParameter_Response_Protocol_Data_Unit"@,
        ApciEnum::AIndividualAddressSerialNumberRead => "A_IndividualAddressSerialNumber_Read_Protocol_Data_Unit"@,
        ApciEnum::AIndividualAddressSerialNumberResponse => "A_IndividualAddressSerialNumber_Response_Protocol_Data_Unit"@,
        ApciEnum::AIndividualAddressSerialNumberWrite => "A_IndividualAddressSerialNumber_Write_Protocol_Data_Unit"@,
        ApciEnum::Reserved2 => "Reserved_2"@,
        ApciEnum::ADomainAddressWrite => "A_DomainAddress_Write_Protocol_Data_Unit"@,
        ApciEnum::ADomainAddressRead => "A_DomainAddress_Read_Protocol_Data_Unit"@,
        ApciEnum::ADomainAddressResponse => "A_DomainAddress_Response_Protocol_Data_Unit"@,
        ApciEnum::ADomainAddressSelectiveRead => "A_DomainAddressSelective_Read_Protocol_Data_Unit"@,
        ApciEnum::ANetworkParameterWrite => "A_NetworkParameter_Write_Protocol_Data_Unit"@,
        ApciEnum::ALinkRead => "A_Link_Read_Protocol_Data_Unit"@,
        ApciEnum::ALinkResponse => "A_Link_Response_Protocol_Data_Unit"@,
        ApciEnum::ALinkWrite => "A_Link_Write_Protocol_Data_Unit"@,
        ApciEnum::AGroupPropValueRead => "A_GroupPropValue_Read_Protocol_Data_Unit"@,
        ApciEnum::AGroupPropValueResponse => "A_GroupPropValue_Response_Protocol_Data_Unit"@,
        ApciEnum::AGroupPropValueWrite => "A_GroupPropValue_Write_Protocol_Data_Unit"@,
        ApciEnum::AGroupPropValueInfoReport => "A_GroupPropValue_InfoReport_Protocol_Data_Unit"@,
        ApciEnum::ADomainAddressSerialNumberRead => "A_DomainAddressSerialNumber_Read_Protocol_Data_Unit"@,
        ApciEnum::ADomainAddressSerialNumberResponse => "A_DomainAddressSerialNumber_Response_Protocol_Data_Unit"@,
        ApciEnum::ADomainAddressSerialNumberWrite => "A_DomainAddressSerialNumber_Write_Protocol_Data_Unit"@,
        ApciEnum::AFileStreamInfoReport => "A_FileStream_InfoReport_Protocol_Data_Unit"@,
    }
}

impl ApciEnum {
    /// The service whose code is the low ten bits of `val`, if any.
    pub fn from_u16(val: u16) -> (r: Option<ApciEnum>)
        ensures
            match r {
                Some(e) => apci_code(e) == val & 0x03FF,
                None => forall|e: ApciEnum| apci_code(e) != val & 0x03FF,
            },
    {
        match val & 0x03FF {
            0x00 => Some(ApciEnum::AGroupValueRead),
            0x40 => Some(ApciEnum::AGroupValueResponse),
            0x80 => Some(ApciEnum::AGroupValueWrite),
            0xC0 => Some(ApciEnum::AIndividualAddressWrite),
            0x100 => Some(ApciEnum::AIndividualAddressRead),
            0x140 => Some(ApciEnum::AIndividualAddressResponse),
            0x180 => Some(ApciEnum::AAnalogToDigitalConverterRead),
            0x1C0 => Some(ApciEnum::AAnalogToDigitalConverterResponse),
            0x1C8 => Some(ApciEnum::ASystemNetworkParameterRead),
            0x1C9 => Some(ApciEnum::ASystemNetworkParameterResponse),
            0x1CA => Some(ApciEnum::ASystemNetworkParameterWrite),
            0x1CB => Some(ApciEnum::PlannedForFutureSystemBroadcastService),
            0x1CC => Some(ApciEnum::APropertyExtValueRead),
            0x1CD => Some(ApciEnum::APropertyExtValueResponse),
            0x1CE => Some(ApciEnum::APropertyExtValueWriteCon),
            0x1CF => Some(ApciEnum::APropertyExtValueWriteConRes),
            0x1D0 => Some(ApciEnum::APropertyExtValueWriteUnCon),
            0x1D1 => Some(ApciEnum::APropertyExtValueInfoReport),
            0x1D2 => Some(ApciEnum::APropertyExtDescriptionRead),
            0x1D3 => Some(ApciEnum::APropertyExtDescriptionResponse),
            0x1D4 => Some(ApciEnum::AFunctionPropertyExtCommand),
            0x1D5 => Some(ApciEnum::AFunctionPropertyExtStateRead),
            0x1D6 => Some(ApciEnum::AFunctionPropertyExtStateResponse),
            0x1FB => Some(ApciEnum::AMemoryExtendedWrite),
            0x1FC => Some(ApciEnum::AMemoryExtendedWriteResponse),
            0x1FD => Some(ApciEnum::AMemoryExtendedRead),
            0x1FE => Some(ApciEnum::AMemoryExtendedReadResponse),
            0x200 => Some(ApciEnum::AMemoryRead),
            0x240 => Some(ApciEnum::AMemoryResponse),
            0x280 => Some(ApciEnum::AMemoryWrite),
            0x2C0 => Some(ApciEnum::AUserMemoryRead),
            0x2C1 => Some(ApciEnum::AUserMemoryResponse),
            0x2C2 => Some(ApciEnum::AUserMemoryWrite),
            0x2C4 => Some(ApciEnum::AUserMemoryBitWrite),
            0x2C5 => Some(ApciEnum::AUserManufacturerInfoRead),
            0x2C6 => Some(ApciEnum::AUserManufacturerInfoResponse),
            0x2C7 => Some(ApciEnum::AFunctionPropertyCommand),
            0x2C8 => Some(ApciEnum::AFunctionPropertyStateRead),
            0x2C9 => Some(ApciEnum::AFunctionPropertyStateResponse),
            0x2CA => Some(ApciEnum::ReservedUserMsg),
            0x2F7 => Some(ApciEnum::ReservedUserMsg2),
            0x2F8 => Some(ApciEnum::ReservedUserMsg3),
            0x2FE => Some(ApciEnum::ReservedUserMsg4),
            0x300 => Some(ApciEnum::ADeviceDescriptorRead),
            0x340 => Some(ApciEnum::ADeviceDescriptorResponse),
            0x380 => Some(ApciEnum::ARestart),
            0x3C0 => Some(ApciEnum::AFilterTableOpen),
            0x3C1 => Some(ApciEnum::AFilterTableRead),
            0x3C2 => Some(ApciEnum::AFilterTableResponse),
            0x3C3 => Some(ApciEnum::AFilterTableWrite),
            0x3C8 => Some(ApciEnum::ARouterMemoryRead),
            0x3C9 => Some(ApciEnum::ARouterMemoryResponse),
            0x3CA => Some(ApciEnum::ARouterMemoryWrite),
            0x3CD => Some(ApciEnum::ARouterStatusRead),
            0x3CE => Some(ApciEnum::ARouterStatusResponse),
            0x3CF => Some(ApciEnum::ARouterStatusWrite),
            0x3D0 => Some(ApciEnum::AMemoryBitWrite),
            0x3D1 => Some(ApciEnum::AAuthorizeRequest),
            0x3D2 => Some(ApciEnum::AAuthorizeResponse),
            0x3D3 => Some(ApciEnum::AKeyWrite),
            0x3D4 => Some(ApciEnum::AKeyResponse),
            0x3D5 => Some(ApciEnum::APropertyValueRead),
            0x3D6 => Some(ApciEnum::APropertyValueResponse),
            0x3D7 => Some(ApciEnum::APropertyValueWrite),
            0x3D8 => Some(ApciEnum::APropertyDescriptionRead),
            0x3D9 => Some(ApciEnum::APropertyDescriptionResponse),
            0x3DA => Some(ApciEnum::ANetworkParameterRead),
            0x3DB => Some(ApciEnum::ANetworkParameterResponse),
            0x3DC => Some(ApciEnum::AIndividualAddressSerialNumberRead),
            0x3DD => Some(ApciEnum::AIndividualAddressSerialNumberResponse),
            0x3DE => Some(ApciEnum::AIndividualAddressSerialNumberWrite),
            0x3DF => Some(ApciEnum::Reserved2),
            0x3E0 => Some(ApciEnum::ADomainAddressWrite),
            0x3E1 => Some(ApciEnum::ADomainAddressRead),
            0x3E2 => Some(ApciEnum::ADomainAddressResponse),
            0x3E3 => Some(ApciEnum::ADomainAddressSelectiveRead),
            0x3E4 => Some(ApciEnum::ANetworkParameterWrite),
            0x3E5 => Some(ApciEnum::ALinkRead),
            0x3E6 => Some(ApciEnum::ALinkResponse),
            0x3E7 => Some(ApciEnum::ALinkWrite),
            0x3E8 => Some(ApciEnum::AGroupPropValueRead),
            0x3E9 => Some(ApciEnum::AGroupPropValueResponse),
            0x3EA => Some(ApciEnum::AGroupPropValueWrite),
            0x3EB => Some(ApciEnum::AGroupPropValueInfoReport),
            0x3EC => Some(ApciEnum::ADomainAddressSerialNumberRead),
            0x3ED => Some(ApciEnum::ADomainAddressSerialNumberResponse),
            0x3EE => Some(ApciEnum::ADomainAddressSerialNumberWrite),
            0x3F0 => Some(ApciEnum::AFileStreamInfoReport),
            _ => None,
        }
    }

    /// The ten-bit code of this service.
    pub fn code(&self) -> (c: u16)
        ensures
            c == apci_code(*self),
    {
        match self {
            ApciEnum::AGroupValueRead => 0x00,
            ApciEnum::AGroupValueResponse => 0x40,
            ApciEnum::AGroupValueWrite => 0x80,
            ApciEnum::AIndividualAddressWrite => 0xC0,
            ApciEnum::AIndividualAddressRead => 0x100,
            ApciEnum::AIndividualAddressResponse => 0x140,
            ApciEnum::AAnalogToDigitalConverterRead => 0x180,
            ApciEnum::AAnalogToDigitalConverterResponse => 0x1C0,
            ApciEnum::ASystemNetworkParameterRead => 0x1C8,
            ApciEnum::ASystemNetworkParameterResponse => 0x1C9,
            ApciEnum::ASystemNetworkParameterWrite => 0x1CA,
            ApciEnum::PlannedForFutureSystemBroadcastService => 0x1CB,
            ApciEnum::APropertyExtValueRead => 0x1CC,
            ApciEnum::APropertyExtValueResponse => 0x1CD,
            ApciEnum::APropertyExtValueWriteCon => 0x1CE,
            ApciEnum::APropertyExtValueWriteConRes => 0x1CF,
            ApciEnum::APropertyExtValueWriteUnCon => 0x1D0,
            ApciEnum::APropertyExtValueInfoReport => 0x1D1,
            ApciEnum::APropertyExtDescriptionRead => 0x1D2,
            ApciEnum::APropertyExtDescriptionResponse => 0x1D3,
            ApciEnum::AFunctionPropertyExtCommand => 0x1D4,
            ApciEnum::AFunctionPropertyExtStateRead => 0x1D5,
            ApciEnum::AFunctionPropertyExtStateResponse => 0x1D6,
            ApciEnum::AMemoryExtendedWrite => 0x1FB,
            ApciEnum::AMemoryExtendedWriteResponse => 0x1FC,
            ApciEnum::AMemoryExtendedRead => 0x1FD,
            ApciEnum::AMemoryExtendedReadResponse => 0x1FE,
            ApciEnum::AMemoryRead => 0x200,
            ApciEnum::AMemoryResponse => 0x240,
            ApciEnum::AMemoryWrite => 0x280,
            ApciEnum::AUserMemoryRead => 0x2C0,
            ApciEnum::AUserMemoryResponse => 0x2C1,
            ApciEnum::AUserMemoryWrite => 0x2C2,
            ApciEnum::AUserMemoryBitWrite => 0x2C4,
            ApciEnum::AUserManufacturerInfoRead => 0x2C5,
            ApciEnum::AUserManufacturerInfoResponse => 0x2C6,
            ApciEnum::AFunctionPropertyCommand => 0x2C7,
            ApciEnum::AFunctionPropertyStateRead => 0x2C8,
            ApciEnum::AFunctionPropertyStateResponse => 0x2C9,
            ApciEnum::ReservedUserMsg => 0x2CA,
            ApciEnum::ReservedUserMsg2 => 0x2F7,
            ApciEnum::ReservedUserMsg3 => 0x2F8,
            ApciEnum::ReservedUserMsg4 => 0x2FE,
            ApciEnum::ADeviceDescriptorRead => 0x300,
            ApciEnum::ADeviceDescriptorResponse => 0x340,
            ApciEnum::ARestart => 0x380,
            ApciEnum::AFilterTableOpen => 0x3C0,
            ApciEnum::AFilterTableRead => 0x3C1,
            ApciEnum::AFilterTableResponse => 0x3C2,
            ApciEnum::AFilterTableWrite => 0x3C3,
            ApciEnum::ARouterMemoryRead => 0x3C8,
            ApciEnum::ARouterMemoryResponse => 0x3C9,
            ApciEnum::ARouterMemoryWrite => 0x3CA,
            ApciEnum::ARouterStatusRead => 0x3CD,
            ApciEnum::ARouterStatusResponse => 0x3CE,
            ApciEnum::ARouterStatusWrite => 0x3CF,
            ApciEnum::AMemoryBitWrite => 0x3D0,
            ApciEnum::AAuthorizeRequest => 0x3D1,
            ApciEnum::AAuthorizeResponse => 0x3D2,
            ApciEnum::AKeyWrite => 0x3D3,
            ApciEnum::AKeyResponse => 0x3D4,
            ApciEnum::APropertyValueRead => 0x3D5,
            ApciEnum::APropertyValueResponse => 0x3D6,
            ApciEnum::APropertyValueWrite => 0x3D7,
            ApciEnum::APropertyDescriptionRead => 0x3D8,
            ApciEnum::APropertyDescriptionResponse => 0x3D9,
            ApciEnum::ANetworkParameterRead => 0x3DA,
            ApciEnum::ANetworkParameterResponse => 0x3DB,
            ApciEnum::AIndividualAddressSerialNumberRead => 0x3DC,
            ApciEnum::AIndividualAddressSerialNumberResponse => 0x3DD,
            ApciEnum::AIndividualAddressSerialNumberWrite => 0x3DE,
            ApciEnum::Reserved2 => 0x3DF,
            ApciEnum::ADomainAddressWrite => 0x3E0,
            ApciEnum::ADomainAddressRead => 0x3E1,
            ApciEnum::ADomainAddressResponse => 0x3E2,
            ApciEnum::ADomainAddressSelectiveRead => 0x3E3,
            ApciEnum::ANetworkParameterWrite => 0x3E4,
            ApciEnum::ALinkRead => 0x3E5,
            ApciEnum::ALinkResponse => 0x3E6,
            ApciEnum::ALinkWrite => 0x3E7,
            ApciEnum::AGroupPropValueRead => 0x3E8,
            ApciEnum::AGroupPropValueResponse => 0x3E9,
            ApciEnum::AGroupPropValueWrite => 0x3EA,
            ApciEnum::AGroupPropValueInfoReport => 0x3EB,
            ApciEnum::ADomainAddressSerialNumberRead => 0x3EC,
            ApciEnum::ADomainAddressSerialNumberResponse => 0x3ED,
            ApciEnum::ADomainAddressSerialNumberWrite => 0x3EE,
            ApciEnum::AFileStreamInfoReport => 0x3F0,
        }
    }

    /// The name of this service.
    pub fn to_str(&self) -> (s: &'static str)
        ensures
            s@ == apci_name(*self),
    {
        match self {
            ApciEnum::AGroupValueRead => "A_GroupValue_Read_Protocol_Data_Unit",
            ApciEnum::AGroupValueResponse => "A_GroupValue_Response_Protocol_Data_Unit",
            ApciEnum::AGroupValueWrite => "A_GroupValue_Write_Protocol_Data_Unit",
            ApciEnum::AIndividualAddressWrite => "A_IndividualAddress_Write_Protocol_Data_Unit",
            ApciEnum::AIndividualAddressRead => "A_IndividualAddress_Read_Protocol_Data_Unit",
            ApciEnum::AIndividualAddressResponse => "A_IndividualAddress_Response_Protocol_Data_Unit",
            ApciEnum::AAnalogToDigitalConverterRead => "A_Analog_to_Digital_Converter_Read_Protocol_Data_Unit",
            ApciEnum::AAnalogToDigitalConverterResponse => "A_Analog_to_Digital_Converter_Response_Protocol_Data_Unit",
            ApciEnum::ASystemNetworkParameterRead => "A_SystemNetworkParameter_Read_Protocol_Data_Unit",
            ApciEnum::ASystemNetworkParameterResponse => "A_SystemNetworkParameter_Response_Protocol_Data_Unit",
            ApciEnum::ASystemNetworkParameterWrite => "A_SystemNetworkParameter_Write_Protocol_Data_Unit",
            ApciEnum::PlannedForFutureSystemBroadcastService => "planned_for_future_system_broadcast_service",
            ApciEnum::APropertyExtValueRead => "A_PropertyExtValue_Read_Protocol_Data_Unit",
            ApciEnum::APropertyExtValueResponse => "A_PropertyExtValue_Response_Protocol_Data_Unit",
            ApciEnum::APropertyExtValueWriteCon => "A_PropertyExtValue_WriteCon_Protocol_Data_Unit",
            ApciEnum::APropertyExtValueWriteConRes => "A_PropertyExtValue_WriteConRes_Protocol_Data_Unit",
            ApciEnum::APropertyExtValueWriteUnCon => "A_PropertyExtValue_WriteUnCon_Protocol_Data_Unit",
            ApciEnum::APropertyExtValueInfoReport => "A_PropertyExtValue_InfoReport_Protocol_Data_Unit",
            ApciEnum::APropertyExtDescriptionRead => "A_PropertyExtDescription_Read_Protocol_Data_Unit",
            ApciEnum::APropertyExtDescriptionResponse => "A_PropertyExtDescription_Response_Protocol_Data_Unit",
            ApciEnum::AFunctionPropertyExtCommand => "A_FunctionPropertyExtCommand_Protocol_Data_Unit",
            ApciEnum::AFunctionPropertyExtStateRead => "A_FunctionPropertyExtState_Read_Protocol_Data_Unit",
            ApciEnum::AFunctionPropertyExtStateResponse => "A_FunctionPropertyExtState_Response_Protocol_Data_Unit",
            ApciEnum::AMemoryExtendedWrite => "A_MemoryExtended_Write_Protocol_Data_Unit",
            ApciEnum::AMemoryExtendedWriteResponse => "A_MemoryExtended_WriteResponse_Protocol_Data_Unit",
            ApciEnum::AMemoryExtendedRead => "A_MemoryExtended_Read_Protocol_Data_Unit",
            ApciEnum::AMemoryExtendedReadResponse => "A_MemoryExtended_ReadResponse_Protocol_Data_Unit",
            ApciEnum::AMemoryRead => "A_Memory_Read_Protocol_Data_Unit",
            ApciEnum::AMemoryResponse => "A_Memory_Response_Protocol_Data_Unit",
            ApciEnum::AMemoryWrite => "A_Memory_Write_Protocol_Data_Unit",
            ApciEnum::AUserMemoryRead => "A_UserMemory_Read_Protocol_Data_Unit",
            ApciEnum::AUserMemoryResponse => "A_UserMemory_Response_Protocol_Data_Unit",
            ApciEnum::AUserMemoryWrite => "A_UserMemory_Write_Protocol_Data_Unit",
            ApciEnum::AUserMemoryBitWrite => "A_UserMemoryBit_Write_Protocol_Data_Unit",
            ApciEnum::AUserManufacturerInfoRead => "A_UserManufacturerInfo_Read_Protocol_Data_Unit",
            ApciEnum::AUserManufacturerInfoResponse => "A_UserManufacturerInfo_Response_Protocol_Data_Unit",
            ApciEnum::AFunctionPropertyCommand => "A_FunctionPropertyCommand_Protocol_Data_Unit",
            ApciEnum::AFunctionPropertyStateRead => "A_FunctionPropertyState_Read_Protocol_Data_Unit",
            ApciEnum::AFunctionPropertyStateResponse => "A_FunctionPropertyState_Response_Protocol_Data_Unit",
            ApciEnum::ReservedUserMsg => "Reserved_USERMSG",
            ApciEnum::ReservedUserMsg2 => "Reserved_USERMSG_2",
            ApciEnum::ReservedUserMsg3 => "Reserved_USERMSG_3",
            ApciEnum::ReservedUserMsg4 => "Reserved_USERMSG_4",
            ApciEnum::ADeviceDescriptorRead => "A_DeviceDescriptor_Read_Protocol_Data_Unit",
            ApciEnum::ADeviceDescriptorResponse => "A_DeviceDescriptor_Response_Protocol_Data_Unit",
            ApciEnum::ARestart => "A_Restart_Protocol_Data_Unit",
            ApciEnum::AFilterTableOpen => "A_FilterTable_Open_Protocol_Data_Unit",
            ApciEnum::AFilterTableRead => "A_FilterTable_Read_Protocol_Data_Unit",
            ApciEnum::AFilterTableResponse => "A_FilterTable_Response_Protocol_Data_Unit",
            ApciEnum::AFilterTableWrite => "A_FilterTable_Write_Protocol_Data_Unit",
            ApciEnum::ARouterMemoryRead => "A_RouterMemory_Read_Protocol_Data_Unit",
            ApciEnum::ARouterMemoryResponse => "A_RouterMemory_Response_Protocol_Data_Unit",
            ApciEnum::ARouterMemoryWrite => "A_RouterMemory_Write_Protocol_Data_Unit",
            ApciEnum::ARouterStatusRead => "A_RouterStatus_Read_Protocol_Data_Unit",
            ApciEnum::ARouterStatusResponse => "A_RouterStatus_Response_Protocol_Data_Unit",
            ApciEnum::ARouterStatusWrite => "A_RouterStatus_Write_Protocol_Data_Unit",
            ApciEnum::AMemoryBitWrite => "A_MemoryBit_Write_Protocol_Data_Unit",
            ApciEnum::AAuthorizeRequest => "A_Authorize_Request_Protocol_Data_Unit",
            ApciEnum::AAuthorizeResponse => "A_Authorize_Response_Protocol_Data_Unit",
            ApciEnum::AKeyWrite => "A_Key_Write_Protocol_Data_Unit",
            ApciEnum::AKeyResponse => "A_Key_Response_Protocol_Data_Unit",
            ApciEnum::APropertyValueRead => "A_PropertyValue_Read_Protocol_Data_Unit",
            ApciEnum::APropertyValueResponse => "A_PropertyValue_Response_Protocol_Data_Unit",
            ApciEnum::APropertyValueWrite => "A_PropertyValue_Write_Protocol_Data_Unit",
            ApciEnum::APropertyDescriptionRead => "A_PropertyDescription_Read_Protocol_Data_Unit",
            ApciEnum::APropertyDescriptionResponse => "A_PropertyDescription_Response_Protocol_Data_Unit",
            ApciEnum::ANetworkParameterRead => "A_NetworkParameter_Read_Protocol_Data_Unit",
            ApciEnum::ANetworkParameterResponse => "A_NetworkParameter_Response_Protocol_Data_Unit",
            ApciEnum::AIndividualAddressSerialNumberRead => "A_IndividualAddressSerialNumber_Read_Protocol_Data_Unit",
            ApciEnum::AIndividualAddressSerialNumberResponse => "A_IndividualAddressSerialNumber_Response_Protocol_Data_Unit",
            ApciEnum::AIndividualAddressSerialNumberWrite => "A_IndividualAddressSerialNumber_Write_Protocol_Data_Unit",
            ApciEnum::Reserved2 => "Reserved_2",
            ApciEnum::ADomainAddressWrite => "A_DomainAddress_Write_Protocol_Data_Unit",
            ApciEnum::ADomainAddressRead => "A_DomainAddress_Read_Protocol_Data_Unit",
            ApciEnum::ADomainAddressResponse => "A_DomainAddress_Response_Protocol_Data_Unit",
            ApciEnum::ADomainAddressSelectiveRead => "A_DomainAddressSelective_Read_Protocol_Data_Unit",
            ApciEnum::ANetworkParameterWrite => "A_NetworkParameter_Write_Protocol_Data_Unit",
            ApciEnum::ALinkRead => "A_Link_Read_Protocol_Data_Unit",
            ApciEnum::ALinkResponse => "A_Link_Response_Protocol_Data_Unit",
            ApciEnum::ALinkWrite => "A_Link_Write_Protocol_Data_Unit",
            ApciEnum::AGroupPropValueRead => "A_GroupPropValue_Read_Protocol_Data_Unit",
            ApciEnum::AGroupPropValueResponse => "A_GroupPropValue_Response_Protocol_Data_Unit",
            ApciEnum::AGroupPropValueWrite => "A_GroupPropValue_Write_Protocol_Data_Unit",
            ApciEnum::AGroupPropValueInfoReport => "A_GroupPropValue_InfoReport_Protocol_Data_Unit",
            ApciEnum::ADomainAddressSerialNumberRead => "A_DomainAddressSerialNumber_Read_Protocol_Data_Unit",
            ApciEnum::ADomainAddressSerialNumberResponse => "A_DomainAddressSerialNumber_Response_Protocol_Data_Unit",
            ApciEnum::ADomainAddressSerialNumberWrite => "A_DomainAddressSerialNumber_Write_Protocol_Data_Unit",
            ApciEnum::AFileStreamInfoReport => "A_FileStream_InfoReport_Protocol_Data_Unit",
        }
    }
}

/// The service with a given code, if any.
spec fn apci_of_code(v: u16) -> Option<ApciEnum> {
    match v {
        0x00 => Some(ApciEnum::AGroupValueRead),
        0x40 => Some(ApciEnum::AGroupValueResponse),
        0x80 => Some(ApciEnum::AGroupValueWrite),
        0xC0 => Some(ApciEnum::AIndividualAddressWrite),
        0x100 => Some(ApciEnum::AIndividualAddressRead),
        0x140 => Some(ApciEnum::AIndividualAddressResponse),
        0x180 => Some(ApciEnum::AAnalogToDigitalConverterRead),
        0x1C0 => Some(ApciEnum::AAnalogToDigitalConverterResponse),
        0x1C8 => Some(ApciEnum::ASystemNetworkParameterRead),
        0x1C9 => Some(ApciEnum::ASystemNetworkParameterResponse),
        0x1CA => Some(ApciEnum::ASystemNetworkParameterWrite),
        0x1CB => Some(ApciEnum::PlannedForFutureSystemBroadcastService),
        0x1CC => Some(ApciEnum::APropertyExtValueRead),
        0x1CD => Some(ApciEnum::APropertyExtValueResponse),
        0x1CE => Some(ApciEnum::APropertyExtValueWriteCon),
        0x1CF => Some(ApciEnum::APropertyExtValueWriteConRes),
        0x1D0 => Some(ApciEnum::APropertyExtValueWriteUnCon),
        0x1D1 => Some(ApciEnum::APropertyExtValueInfoReport),
        0x1D2 => Some(ApciEnum::APropertyExtDescriptionRead),
        0x1D3 => Some(ApciEnum::APropertyExtDescriptionResponse),
        0x1D4 => Some(ApciEnum::AFunctionPropertyExtCommand),
        0x1D5 => Some(ApciEnum::AFunctionPropertyExtStateRead),
        0x1D6 => Some(ApciEnum::AFunctionPropertyExtStateResponse),
        0x1FB => Some(ApciEnum::AMemoryExtendedWrite),
        0x1FC => Some(ApciEnum::AMemoryExtendedWriteResponse),
        0x1FD => Some(ApciEnum::AMemoryExtendedRead),
        0x1FE => Some(ApciEnum::AMemoryExtendedReadResponse),
        0x200 => Some(ApciEnum::AMemoryRead),
        0x240 => Some(ApciEnum::AMemoryResponse),
        0x280 => Some(ApciEnum::AMemoryWrite),
        0x2C0 => Some(ApciEnum::AUserMemoryRead),
        0x2C1 => Some(ApciEnum::AUserMemoryResponse),
        0x2C2 => Some(ApciEnum::AUserMemoryWrite),
        0x2C4 => Some(ApciEnum::AUserMemoryBitWrite),
        0x2C5 => Some(ApciEnum::AUserManufacturerInfoRead),
        0x2C6 => Some(ApciEnum::AUserManufacturerInfoResponse),
        0x2C7 => Some(ApciEnum::AFunctionPropertyCommand),
        0x2C8 => Some(ApciEnum::AFunctionPropertyStateRead),
        0x2C9 => Some(ApciEnum::AFunctionPropertyStateResponse),
        0x2CA => Some(ApciEnum::ReservedUserMsg),
        0x2F7 => Some(ApciEnum::ReservedUserMsg2),
        0x2F8 => Some(ApciEnum::ReservedUserMsg3),
        0x2FE => Some(ApciEnum::ReservedUserMsg4),
        0x300 => Some(ApciEnum::ADeviceDescriptorRead),
        0x340 => Some(ApciEnum::ADeviceDescriptorResponse),
        0x380 => Some(ApciEnum::ARestart),
        0x3C0 => Some(ApciEnum::AFilterTableOpen),
        0x3C1 => Some(ApciEnum::AFilterTableRead),
        0x3C2 => Some(ApciEnum::AFilterTableResponse),
        0x3C3 => Some(ApciEnum::AFilterTableWrite),
        0x3C8 => Some(ApciEnum::ARouterMemoryRead),
        0x3C9 => Some(ApciEnum::ARouterMemoryResponse),
        0x3CA => Some(ApciEnum::ARouterMemoryWrite),
        0x3CD => Some(ApciEnum::ARouterStatusRead),
        0x3CE => Some(ApciEnum::ARouterStatusResponse),
        0x3CF => Some(ApciEnum::ARouterStatusWrite),
        0x3D0 => Some(ApciEnum::AMemoryBitWrite),
        0x3D1 => Some(ApciEnum::AAuthorizeRequest),
        0x3D2 => Some(ApciEnum::AAuthorizeResponse),
        0x3D3 => Some(ApciEnum::AKeyWrite),
        0x3D4 => Some(ApciEnum::AKeyResponse),
        0x3D5 => Some(ApciEnum::APropertyValueRead),
        0x3D6 => Some(ApciEnum::APropertyValueResponse),
        0x3D7 => Some(ApciEnum::APropertyValueWrite),
        0x3D8 => Some(ApciEnum::APropertyDescriptionRead),
        0x3D9 => Some(ApciEnum::APropertyDescriptionResponse),
        0x3DA => Some(ApciEnum::ANetworkParameterRead),
        0x3DB => Some(ApciEnum::ANetworkParameterResponse),
        0x3DC => Some(ApciEnum::AIndividualAddressSerialNumberRead),
        0x3DD => Some(ApciEnum::AIndividualAddressSerialNumberResponse),
        0x3DE => Some(ApciEnum::AIndividualAddressSerialNumberWrite),
        0x3DF => Some(ApciEnum::Reserved2),
        0x3E0 => Some(ApciEnum::ADomainAddressWrite),
        0x3E1 => Some(ApciEnum::ADomainAddressRead),
        0x3E2 => Some(ApciEnum::ADomainAddressResponse),
        0x3E3 => Some(ApciEnum::ADomainAddressSelectiveRead),
        0x3E4 => Some(ApciEnum::ANetworkParameterWrite),
        0x3E5 => Some(ApciEnum::ALinkRead),
        0x3E6 => Some(ApciEnum::ALinkResponse),
        0x3E7 => Some(ApciEnum::ALinkWrite),
        0x3E8 => Some(ApciEnum::AGroupPropValueRead),
        0x3E9 => Some(ApciEnum::AGroupPropValueResponse),
        0x3EA => Some(ApciEnum::AGroupPropValueWrite),
        0x3EB => Some(ApciEnum::AGroupPropValueInfoReport),
        0x3EC => Some(ApciEnum::ADomainAddressSerialNumberRead),
        0x3ED => Some(ApciEnum::ADomainAddressSerialNumberResponse),
        0x3EE => Some(ApciEnum::ADomainAddressSerialNumberWrite),
        0x3F0 => Some(ApciEnum::AFileStreamInfoReport),
        _ => None,
    }
}

/// A ten-bit APCI value.
#[derive(Debug, Clone, Copy, PartialEq, Eq)]
pub struct Apci {
    value: u16,
}

/// Description of an APCI.
#[derive(Debug, Clone)]
pub struct ApciDescription {
    pub obj: &'static str,
    pub command: String,
    pub value: String,
}

/// The service name of a ten-bit code, or `UNKNOWN_APCI_COMMAND_` and the
/// code in decimal.
pub open spec fn apci_command_text(v: u16) -> Seq<char> {
    if exists|e: ApciEnum| apci_code(e) == v {
        apci_name(choose|e: ApciEnum| apci_code(e) == v)
    } else {
        "UNKNOWN_APCI_COMMAND_"@ + dec_str(v as nat)
    }
}

/// The two octets of an APCI value: the top two bits, then the low eight.
pub open spec fn apci_pack(v: u16) -> (u8, u8) {
    (((v >> 8) & 0x03) as u8, (v & 0xFF) as u8)
}

/// The APCI value of two octets: the low two bits of the first, then the second.
pub open spec fn apci_unpack(o1: u8, o2: u8) -> u16 {
    (((o1 & 0x03) as u16) << 8) | (o2 as u16)
}

impl Apci {
    /// The ten-bit value.
    pub closed spec fn value(&self) -> u16 {
        self.value
    }

    #[verifier::type_invariant]
    spec fn ten_bits(&self) -> bool {
        self.value < 1024
    }

    /// An APCI holding the low ten bits of `apci`.
    pub fn new(apci: u16) -> (a: Self)
        ensures
            a.value() == apci & 0x03FF,
    {
        let v = apci & 0x03FF;
        assert(v < 1024) by (bit_vector)
            requires
                v == apci & 0x03FF,
        ;
        Apci { value: v }
    }

    /// The ten-bit value.
    pub fn get_value(&self) -> (v: u16)
        ensures
            v == self.value(),
            v < 1024,
    {
        proof {
            use_type_invariant(self);
        }
        self.value
    }

    /// Keeps the low ten bits of `val`.
    pub fn set_value(&mut self, val: u16)
        ensures
            final(self).value() == val & 0x03FF,
    {
        let v = val & 0x03FF;
        assert(v < 1024) by (bit_vector)
            requires
                v == val & 0x03FF,
        ;
        self.value = v;
    }

    /// The service name of the value.
    pub fn get_command(&self) -> (s: String)
        ensures
            s@ == apci_command_text(self.value()),
    {
        proof {
            use_type_invariant(self);
        }
        let v = self.value;
        assert(v & 0x03FF == v) by (bit_vector)
            requires
                v < 1024,
        ;
        match ApciEnum::from_u16(v) {
            Some(e) => {
                proof {
                    lemma_apci_code_injective(e, choose|x: ApciEnum| apci_code(x) == v);
                }
                string_of(e.to_str())
            },
            None => {
                let mut s = String::new();
                push_str(&mut s, "UNKNOWN_APCI_COMMAND_");
                push_decimal(&mut s, v as u32);
                s
            },
        }
    }

    /// Sets the value to the code of `cmd`.
    pub fn set_command(&mut self, cmd: ApciEnum)
        ensures
            final(self).value() == apci_code(cmd),
    {
        proof {
            lemma_apci_code_below(cmd);
        }
        self.value = cmd.code();
    }

    /// `0x` and the value in upper-case hex, at least two digits.
    pub fn to_hex(&self) -> (s: String)
        ensures
            s@ == seq!['0', 'x'] + hex_min2(self.value() as nat),
    {
        let mut s = String::new();
        push_char(&mut s, '0');
        push_char(&mut s, 'x');
        push_hex_min2(&mut s, self.value as u32);
        s
    }

    /// The value as two octets, high first.
    pub fn to_buffer(&self) -> (b: Vec<u8>)
        ensures
            b@ == seq![(self.value() >> 8) as u8, (self.value() & 0xFF) as u8],
    {
        vec![(self.value >> 8) as u8, (self.value & 0xFF) as u8]
    }

    /// The two octets that carry the value in an APDU.
    pub fn pack_number(&self) -> (p: (u8, u8))
        ensures
            p == apci_pack(self.value()),
    {
        (((self.value >> 8) & 0x03) as u8, (self.value & 0xFF) as u8)
    }

    /// The value carried by two APDU octets.
    pub fn unpack_number(octet1: u8, octet2: u8) -> (v: u16)
        ensures
            v == apci_unpack(octet1, octet2),
    {
        (((octet1 & 0x03) as u16) << 8) | (octet2 as u16)
    }

    /// Service name and value.
    pub fn describe(&self) -> (d: ApciDescription)
        ensures
            d.obj@ == "APCI"@,
            d.command@ == apci_command_text(self.value()),
            d.value@ == seq!['0', 'x'] + hex_min2(self.value() as nat) + " (Buffer: "@ + hex2(
                (self.value() >> 8) as u8,
                true,
            ) + hex2((self.value() & 0xFF) as u8, true) + seq![')'],
    {
        let mut value = self.to_hex();
        push_str(&mut value, " (Buffer: ");
        push_hex2(&mut value, (self.value >> 8) as u8, true);
        push_hex2(&mut value, (self.value & 0xFF) as u8, true);
        push_char(&mut value, ')');
        ApciDescription { obj: "APCI", command: self.get_command(), value }
    }
}

proof fn lemma_apci_code_below(e: ApciEnum)
    ensures
        apci_code(e) < 1024,
{
}

proof fn lemma_apci_of_code(e: ApciEnum)
    ensures
        apci_of_code(apci_code(e)) == Some(e),
{
}

/// Distinct services have distinct codes, so `ApciEnum::from_u16` finds
/// every service again from its code.
pub proof fn lemma_apci_code_injective(e1: ApciEnum, e2: ApciEnum)
    requires
        apci_code(e1) == apci_code(e2),
    ensures
        e1 == e2,
{
    lemma_apci_of_code(e1);
    lemma_apci_of_code(e2);
}

/// Packing an APCI value into two octets and unpacking them gives the
/// value back.
pub proof fn lemma_apci_pack_unpack(v: u16)
    requires
        v < 1024,
    ensures
        apci_unpack(apci_pack(v).0, apci_pack(v).1) == v,
{
    let hi = ((v >> 8) & 0x03) as u8;
    let lo = (v & 0xFF) as u8;
    assert((((hi & 0x03) as u16) << 8) | (lo as u16) == v) by (bit_vector)
        requires
            v < 1024,
            hi == ((v >> 8) & 0x03) as u8,
            lo == (v & 0xFF) as u8,
    ;
}

} // verus!
