//! External Message Interface (EMI) frames. The kind of a frame is the
//! service that its message code stands for in the message code table
//! (EMI2/IMI2 column first, then cEMI).
use crate::errors::KnxError;
use crate::protocol::cemi::{
    addr_or_zero, prop_header, prop_parsed, prop_word, prop_word_parsed, push_addr, push_prop,
    push_word, prop_word_exec, tail, word, MFuncProp, MFuncPropWithReturn, MProp,
    MPropWithPayload, MPropWriteConfirm,
};
use crate::protocol::control_field::ControlField;
use crate::protocol::knx_add_info_types::u32_bytes;
use crate::protocol::layers::data::apdu::{apdu_parsed, pdu_bytes, Apdu};
use crate::protocol::layers::data::npdu::{npci_octet, Npdu};
use crate::protocol::layers::data::tpdu::{tpdu_bytes, tpdu_fits, tpdu_parsed, Tpdu};
use crate::protocol::message_code_field::{
    code_of, get_cemi_message_code, get_emi_message_code, get_service_name_by_cemi_value,
    get_service_name_by_emi_value, message_code_table, row_by_cemi, row_by_emi, row_by_name,
};
use crate::utils::bytes::{be16, be32, read_u16_be, read_u32_be};
use crate::utils::knx_helper::{address_text, KnxHelper};
use crate::utils::text::{contains_seq, ends_with_seq, str_contains, str_ends_with, str_eq, string_of};
use vstd::prelude::*;

verus! {

/// PEI switch request.
#[derive(Debug, Clone)]
pub struct PeiSwitchEmi {
    pub message_code: u8,
    pub control: u8,
}

/// Busmonitor indication.
#[derive(Debug, Clone)]
pub struct LBusmonEmi {
    pub message_code: u8,
    pub data: Vec<u8>,
}

/// Raw frame.
#[derive(Debug, Clone)]
pub struct LRawEmi {
    pub message_code: u8,
    pub data: Vec<u8>,
}

/// Plain data request with its time.
#[derive(Debug, Clone)]
pub struct LPlainDataEmi {
    pub message_code: u8,
    pub time: u32,
    pub data: Vec<u8>,
}

/// Link-layer data with its NPDU.
#[derive(Debug, Clone)]
pub struct LDataEmi {
    pub message_code: u8,
    pub control_field1: ControlField,
    pub source_address: String,
    pub destination_address: String,
    pub npdu: Npdu,
}

/// Link-layer poll data.
#[derive(Debug, Clone)]
pub struct LPollDataEmi {
    pub message_code: u8,
    pub control_field1: ControlField,
    pub polling_group: u16,
    pub nr_of_slots: u8,
}

/// Network-layer data with its TPDU.
#[derive(Debug, Clone)]
pub struct NDataEmi {
    pub message_code: u8,
    pub control_field1: ControlField,
    pub source_address: String,
    pub destination_address: String,
    pub hop_count: u8,
    pub tpdu: Tpdu,
}

/// Network-layer poll data.
#[derive(Debug, Clone)]
pub struct NPollDataEmi {
    pub message_code: u8,
    pub control_field1: ControlField,
    pub polling_group: u16,
    pub nr_of_slots: u8,
}

/// Transport connect or disconnect.
#[derive(Debug, Clone)]
pub struct TConnectDisconnectEmi {
    pub message_code: u8,
    pub control: u8,
    pub address: String,
}

/// Transport, management or application data with its APDU.
#[derive(Debug, Clone)]
pub struct TDataEmi {
    pub message_code: u8,
    pub control_field1: ControlField,
    pub source_address: String,
    pub destination_address: String,
    pub sap: u8,
    pub hop_count: u8,
    pub apdu: Apdu,
}

/// Transport or application poll data.
#[derive(Debug, Clone)]
pub struct TPollDataEmi {
    pub message_code: u8,
    pub control_field1: ControlField,
    pub polling_group: u16,
    pub nr_of_slots: u8,
}

/// A message of a service this library does not read.
#[derive(Debug, Clone)]
pub struct GenericEmiMessage {
    pub message_code: u8,
    pub data: Vec<u8>,
}

/// An EMI message.
#[derive(Debug, Clone)]
pub enum Emi {
    PeiSwitchReq(PeiSwitchEmi),
    LBusmonInd(LBusmonEmi),
    LRawReq(LRawEmi),
    LRawCon(LRawEmi),
    LRawInd(LRawEmi),
    LPlainDataReq(LPlainDataEmi),
    LDataReq(LDataEmi),
    LDataCon(LDataEmi),
    LDataInd(LDataEmi),
    LPollDataReq(LPollDataEmi),
    LPollDataCon(LPollDataEmi),
    LSystemBroadcastReq(LDataEmi),
    LSystemBroadcastCon(LDataEmi),
    LSystemBroadcastInd(LDataEmi),
    NDataIndividualReq(NDataEmi),
    NDataIndividualCon(NDataEmi),
    NDataIndividualInd(NDataEmi),
    NDataGroupReq(NDataEmi),
    NDataGroupCon(NDataEmi),
    NDataGroupInd(NDataEmi),
    NDataBroadcastReq(NDataEmi),
    NDataBroadcastCon(NDataEmi),
    NDataBroadcastInd(NDataEmi),
    NPollDataReq(NPollDataEmi),
    NPollDataCon(NPollDataEmi),
    TConnectReq(TConnectDisconnectEmi),
    TConnectCon(TConnectDisconnectEmi),
    TConnectInd(TConnectDisconnectEmi),
    TDisconnectReq(TConnectDisconnectEmi),
    TDisconnectCon(TConnectDisconnectEmi),
    TDisconnectInd(TConnectDisconnectEmi),
    TDataConnectedReq(TDataEmi),
    TDataConnectedCon(TDataEmi),
    TDataConnectedInd(TDataEmi),
    TDataGroupReq(TDataEmi),
    TDataGroupCon(TDataEmi),
    TDataGroupInd(TDataEmi),
    TDataIndividualReq(TDataEmi),
    TDataIndividualCon(TDataEmi),
    TDataIndividualInd(TDataEmi),
    TDataBroadcastReq(TDataEmi),
    TDataBroadcastCon(TDataEmi),
    TDataBroadcastInd(TDataEmi),
    TPollDataReq(TPollDataEmi),
    TPollDataCon(TPollDataEmi),
    MConnectInd(TConnectDisconnectEmi),
    MDisconnectInd(TConnectDisconnectEmi),
    MUserDataConnectedReq(TDataEmi),
    MUserDataConnectedCon(TDataEmi),
    MUserDataConnectedInd(TDataEmi),
    MUserDataIndividualReq(TDataEmi),
    MUserDataIndividualCon(TDataEmi),
    MUserDataIndividualInd(TDataEmi),
    APollDataReq(TPollDataEmi),
    APollDataCon(TPollDataEmi),
    MPropReadReq(MProp),
    MPropReadCon(MPropWithPayload),
    MPropWriteReq(MPropWithPayload),
    MPropWriteCon(MPropWriteConfirm),
    MPropInfoInd(MPropWithPayload),
    MFuncPropCommandReq(MFuncProp),
    MFuncPropCommandCon(MFuncPropWithReturn),
    MFuncPropStateReadReq(MFuncProp),
    MFuncPropStateReadCon(MFuncPropWithReturn),
    MResetReq,
    MResetInd,
    ADataGroupReq(TDataEmi),
    ADataGroupCon(TDataEmi),
    ADataGroupInd(TDataEmi),
    ADataIndividualReq(TDataEmi),
    ADataIndividualCon(TDataEmi),
    ADataIndividualInd(TDataEmi),
    ADataBroadcastReq(TDataEmi),
    ADataBroadcastCon(TDataEmi),
    ADataBroadcastInd(TDataEmi),
    ADataConnectedReq(TDataEmi),
    ADataConnectedCon(TDataEmi),
    ADataConnectedInd(TDataEmi),
    AUserDataConnectedReq(TDataEmi),
    AUserDataConnectedCon(TDataEmi),
    AUserDataConnectedInd(TDataEmi),
    AUserDataUnconnectedReq(TDataEmi),
    AUserDataUnconnectedInd(TDataEmi),
    Generic(GenericEmiMessage),
}

/// The service an EMI message code stands for; `Other` for any other.
#[derive(Debug, Clone, Copy, PartialEq, Eq, Structural)]
pub enum EmiService {
    PeiSwitchReq,
    LBusmonInd,
    LRawReq,
    LRawCon,
    LRawInd,
    LPlainDataReq,
    LDataReq,
    LDataCon,
    LDataInd,
    LPollDataReq,
    LPollDataCon,
    LSystemBroadcastReq,
    LSystemBroadcastCon,
    LSystemBroadcastInd,
    NDataIndividualReq,
    NDataIndividualCon,
    NDataIndividualInd,
    NDataGroupReq,
    NDataGroupCon,
    NDataGroupInd,
    NDataBroadcastReq,
    NDataBroadcastCon,
    NDataBroadcastInd,
    NPollDataReq,
    NPollDataCon,
    TConnectReq,
    TConnectCon,
    TConnectInd,
    TDisconnectReq,
    TDisconnectCon,
    TDisconnectInd,
    TDataConnectedReq,
    TDataConnectedCon,
    TDataConnectedInd,
    TDataGroupReq,
    TDataGroupCon,
    TDataGroupInd,
    TDataIndividualReq,
    TDataIndividualCon,
    TDataIndividualInd,
    TDataBroadcastReq,
    TDataBroadcastCon,
    TDataBroadcastInd,
    TPollDataReq,
    TPollDataCon,
    MConnectInd,
    MDisconnectInd,
    MUserDataConnectedReq,
    MUserDataConnectedCon,
    MUserDataConnectedInd,
    MUserDataIndividualReq,
    MUserDataIndividualCon,
    MUserDataIndividualInd,
    APollDataReq,
    APollDataCon,
    MPropReadReq,
    MPropReadCon,
    MPropWriteReq,
    MPropWriteCon,
    MPropInfoInd,
    MFuncPropCommandReq,
    MFuncPropCommandCon,
    MFuncPropStateReadReq,
    MFuncPropStateReadCon,
    MResetReq,
    MResetInd,
    ADataGroupReq,
    ADataGroupCon,
    ADataGroupInd,
    ADataIndividualReq,
    ADataIndividualCon,
    ADataIndividualInd,
    ADataBroadcastReq,
    ADataBroadcastCon,
    ADataBroadcastInd,
    ADataConnectedReq,
    ADataConnectedCon,
    ADataConnectedInd,
    AUserDataConnectedReq,
    AUserDataConnectedCon,
    AUserDataConnectedInd,
    AUserDataUnconnectedReq,
    AUserDataUnconnectedInd,
    Other,
}

/// The service name of each kind of message (empty for a generic message).
pub open spec fn emi_variant_name(e: Emi) -> Seq<char> {
    match e {
        Emi::PeiSwitchReq(_) => "PEI_Switch.req"@,
        Emi::LBusmonInd(_) => "L_Busmon.ind"@,
        Emi::LRawReq(_) => "L_Raw.req"@,
        Emi::LRawCon(_) => "L_Raw.con"@,
        Emi::LRawInd(_) => "L_Raw.ind"@,
        Emi::LPlainDataReq(_) => "L_Plain_Data.req"@,
        Emi::LDataReq(_) => "L_Data.req"@,
        Emi::LDataCon(_) => "L_Data.con"@,
        Emi::LDataInd(_) => "L_Data.ind"@,
        Emi::LPollDataReq(_) => "L_Poll_Data.req"@,
        Emi::LPollDataCon(_) => "L_Poll_Data.con"@,
        Emi::LSystemBroadcastReq(_) => "L_SystemBroadcast.req"@,
        Emi::LSystemBroadcastCon(_) => "L_SystemBroadcast.con"@,
        Emi::LSystemBroadcastInd(_) => "L_SystemBroadcast.ind"@,
        Emi::NDataIndividualReq(_) => "N_Data_Individual.req"@,
        Emi::NDataIndividualCon(_) => "N_Data_Individual.con"@,
        Emi::NDataIndividualInd(_) => "N_Data_Individual.ind"@,
        Emi::NDataGroupReq(_) => "N_Data_Group.req"@,
        Emi::NDataGroupCon(_) => "N_Data_Group.con"@,
        Emi::NDataGroupInd(_) => "N_Data_Group.ind"@,
        Emi::NDataBroadcastReq(_) => "N_Data_Broadcast.req"@,
        Emi::NDataBroadcastCon(_) => "N_Data_Broadcast.con"@,
        Emi::NDataBroadcastInd(_) => "N_Data_Broadcast.ind"@,
        Emi::NPollDataReq(_) => "N_Poll_Data.req"@,
        Emi::NPollDataCon(_) => "N_Poll_Data.con"@,
        Emi::TConnectReq(_) => "T_Connect.req"@,
        Emi::TConnectCon(_) => "T_Connect.con"@,
        Emi::TConnectInd(_) => "T_Connect.ind"@,
        Emi::TDisconnectReq(_) => "T_Disconnect.req"@,
        Emi::TDisconnectCon(_) => "T_Disconnect.con"@,
        Emi::TDisconnectInd(_) => "T_Disconnect.ind"@,
        Emi::TDataConnectedReq(_) => "T_Data_Connected.req"@,
        Emi::TDataConnectedCon(_) => "T_Data_Connected.con"@,
        Emi::TDataConnectedInd(_) => "T_Data_Connected.ind"@,
        Emi::TDataGroupReq(_) => "T_Data_Group.req"@,
        Emi::TDataGroupCon(_) => "T_Data_Group.con"@,
        Emi::TDataGroupInd(_) => "T_Data_Group.ind"@,
        Emi::TDataIndividualReq(_) => "T_Data_Individual.req"@,
        Emi::TDataIndividualCon(_) => "T_Data_Individual.con"@,
        Emi::TDataIndividualInd(_) => "T_Data_Individual.ind"@,
        Emi::TDataBroadcastReq(_) => "T_Data_Broadcast.req"@,
        Emi::TDataBroadcastCon(_) => "T_Data_Broadcast.con"@,
        Emi::TDataBroadcastInd(_) => "T_Data_Broadcast.ind"@,
        Emi::TPollDataReq(_) => "T_Poll_Data.req"@,
        Emi::TPollDataCon(_) => "T_Poll_Data.con"@,
        Emi::MConnectInd(_) => "M_Connect.ind"@,
        Emi::MDisconnectInd(_) => "M_Disconnect.ind"@,
        Emi::MUserDataConnectedReq(_) => "M_User_Data_Connected.req"@,
        Emi::MUserDataConnectedCon(_) => "M_User_Data_Connected.con"@,
        Emi::MUserDataConnectedInd(_) => "M_User_Data_Connected.ind"@,
        Emi::MUserDataIndividualReq(_) => "M_User_Data_Individual.req"@,
        Emi::MUserDataIndividualCon(_) => "M_User_Data_Individual.con"@,
        Emi::MUserDataIndividualInd(_) => "M_User_Data_Individual.ind"@,
        Emi::APollDataReq(_) => "A_Poll_Data.req"@,
        Emi::APollDataCon(_) => "A_Poll_Data.con"@,
        Emi::MPropReadReq(_) => "M_PropRead.req"@,
        Emi::MPropReadCon(_) => "M_PropRead.con"@,
        Emi::MPropWriteReq(_) => "M_PropWrite.req"@,
        Emi::MPropWriteCon(_) => "M_PropWrite.con"@,
        Emi::MPropInfoInd(_) => "M_PropInfo.ind"@,
        Emi::MFuncPropCommandReq(_) => "M_FuncPropCommand.req"@,
        Emi::MFuncPropCommandCon(_) => "M_FuncPropCommand.con"@,
        Emi::MFuncPropStateReadReq(_) => "M_FuncPropStateRead.req"@,
        Emi::MFuncPropStateReadCon(_) => "M_FuncPropStateRead.con"@,
        Emi::MResetReq => "M_Reset.req"@,
        Emi::MResetInd => "M_Reset.ind"@,
        Emi::ADataGroupReq(_) => "A_Data_Group.req"@,
        Emi::ADataGroupCon(_) => "A_Data_Group.con"@,
        Emi::ADataGroupInd(_) => "A_Data_Group.ind"@,
        Emi::ADataIndividualReq(_) => "A_Data_Individual.req"@,
        Emi::ADataIndividualCon(_) => "A_Data_Individual.con"@,
        Emi::ADataIndividualInd(_) => "A_Data_Individual.ind"@,
        Emi::ADataBroadcastReq(_) => "A_Data_Broadcast.req"@,
        Emi::ADataBroadcastCon(_) => "A_Data_Broadcast.con"@,
        Emi::ADataBroadcastInd(_) => "A_Data_Broadcast.ind"@,
        Emi::ADataConnectedReq(_) => "A_Data_Connected.req"@,
        Emi::ADataConnectedCon(_) => "A_Data_Connected.con"@,
        Emi::ADataConnectedInd(_) => "A_Data_Connected.ind"@,
        Emi::AUserDataConnectedReq(_) => "A_User_Data_Connected.req"@,
        Emi::AUserDataConnectedCon(_) => "A_User_Data_Connected.con"@,
        Emi::AUserDataConnectedInd(_) => "A_User_Data_Connected.ind"@,
        Emi::AUserDataUnconnectedReq(_) => "A_User_Data_Unconnected.req"@,
        Emi::AUserDataUnconnectedInd(_) => "A_User_Data_Unconnected.ind"@,
        Emi::Generic(_) => Seq::empty(),
    }
}

/// The service of each kind of message.
pub open spec fn emi_service(e: Emi) -> EmiService {
    match e {
        Emi::PeiSwitchReq(_) => EmiService::PeiSwitchReq,
        Emi::LBusmonInd(_) => EmiService::LBusmonInd,
        Emi::LRawReq(_) => EmiService::LRawReq,
        Emi::LRawCon(_) => EmiService::LRawCon,
        Emi::LRawInd(_) => EmiService::LRawInd,
        Emi::LPlainDataReq(_) => EmiService::LPlainDataReq,
        Emi::LDataReq(_) => EmiService::LDataReq,
        Emi::LDataCon(_) => EmiService::LDataCon,
        Emi::LDataInd(_) => EmiService::LDataInd,
        Emi::LPollDataReq(_) => EmiService::LPollDataReq,
        Emi::LPollDataCon(_) => EmiService::LPollDataCon,
        Emi::LSystemBroadcastReq(_) => EmiService::LSystemBroadcastReq,
        Emi::LSystemBroadcastCon(_) => EmiService::LSystemBroadcastCon,
        Emi::LSystemBroadcastInd(_) => EmiService::LSystemBroadcastInd,
        Emi::NDataIndividualReq(_) => EmiService::NDataIndividualReq,
        Emi::NDataIndividualCon(_) => EmiService::NDataIndividualCon,
        Emi::NDataIndividualInd(_) => EmiService::NDataIndividualInd,
        Emi::NDataGroupReq(_) => EmiService::NDataGroupReq,
        Emi::NDataGroupCon(_) => EmiService::NDataGroupCon,
        Emi::NDataGroupInd(_) => EmiService::NDataGroupInd,
        Emi::NDataBroadcastReq(_) => EmiService::NDataBroadcastReq,
        Emi::NDataBroadcastCon(_) => EmiService::NDataBroadcastCon,
        Emi::NDataBroadcastInd(_) => EmiService::NDataBroadcastInd,
        Emi::NPollDataReq(_) => EmiService::NPollDataReq,
        Emi::NPollDataCon(_) => EmiService::NPollDataCon,
        Emi::TConnectReq(_) => EmiService::TConnectReq,
        Emi::TConnectCon(_) => EmiService::TConnectCon,
        Emi::TConnectInd(_) => EmiService::TConnectInd,
        Emi::TDisconnectReq(_) => EmiService::TDisconnectReq,
        Emi::TDisconnectCon(_) => EmiService::TDisconnectCon,
        Emi::TDisconnectInd(_) => EmiService::TDisconnectInd,
        Emi::TDataConnectedReq(_) => EmiService::TDataConnectedReq,
        Emi::TDataConnectedCon(_) => EmiService::TDataConnectedCon,
        Emi::TDataConnectedInd(_) => EmiService::TDataConnectedInd,
        Emi::TDataGroupReq(_) => EmiService::TDataGroupReq,
        Emi::TDataGroupCon(_) => EmiService::TDataGroupCon,
        Emi::TDataGroupInd(_) => EmiService::TDataGroupInd,
        Emi::TDataIndividualReq(_) => EmiService::TDataIndividualReq,
        Emi::TDataIndividualCon(_) => EmiService::TDataIndividualCon,
        Emi::TDataIndividualInd(_) => EmiService::TDataIndividualInd,
        Emi::TDataBroadcastReq(_) => EmiService::TDataBroadcastReq,
        Emi::TDataBroadcastCon(_) => EmiService::TDataBroadcastCon,
        Emi::TDataBroadcastInd(_) => EmiService::TDataBroadcastInd,
        Emi::TPollDataReq(_) => EmiService::TPollDataReq,
        Emi::TPollDataCon(_) => EmiService::TPollDataCon,
        Emi::MConnectInd(_) => EmiService::MConnectInd,
        Emi::MDisconnectInd(_) => EmiService::MDisconnectInd,
        Emi::MUserDataConnectedReq(_) => EmiService::MUserDataConnectedReq,
        Emi::MUserDataConnectedCon(_) => EmiService::MUserDataConnectedCon,
        Emi::MUserDataConnectedInd(_) => EmiService::MUserDataConnectedInd,
        Emi::MUserDataIndividualReq(_) => EmiService::MUserDataIndividualReq,
        Emi::MUserDataIndividualCon(_) => EmiService::MUserDataIndividualCon,
        Emi::MUserDataIndividualInd(_) => EmiService::MUserDataIndividualInd,
        Emi::APollDataReq(_) => EmiService::APollDataReq,
        Emi::APollDataCon(_) => EmiService::APollDataCon,
        Emi::MPropReadReq(_) => EmiService::MPropReadReq,
        Emi::MPropReadCon(_) => EmiService::MPropReadCon,
        Emi::MPropWriteReq(_) => EmiService::MPropWriteReq,
        Emi::MPropWriteCon(_) => EmiService::MPropWriteCon,
        Emi::MPropInfoInd(_) => EmiService::MPropInfoInd,
        Emi::MFuncPropCommandReq(_) => EmiService::MFuncPropCommandReq,
        Emi::MFuncPropCommandCon(_) => EmiService::MFuncPropCommandCon,
        Emi::MFuncPropStateReadReq(_) => EmiService::MFuncPropStateReadReq,
        Emi::MFuncPropStateReadCon(_) => EmiService::MFuncPropStateReadCon,
        Emi::MResetReq => EmiService::MResetReq,
        Emi::MResetInd => EmiService::MResetInd,
        Emi::ADataGroupReq(_) => EmiService::ADataGroupReq,
        Emi::ADataGroupCon(_) => EmiService::ADataGroupCon,
        Emi::ADataGroupInd(_) => EmiService::ADataGroupInd,
        Emi::ADataIndividualReq(_) => EmiService::ADataIndividualReq,
        Emi::ADataIndividualCon(_) => EmiService::ADataIndividualCon,
        Emi::ADataIndividualInd(_) => EmiService::ADataIndividualInd,
        Emi::ADataBroadcastReq(_) => EmiService::ADataBroadcastReq,
        Emi::ADataBroadcastCon(_) => EmiService::ADataBroadcastCon,
        Emi::ADataBroadcastInd(_) => EmiService::ADataBroadcastInd,
        Emi::ADataConnectedReq(_) => EmiService::ADataConnectedReq,
        Emi::ADataConnectedCon(_) => EmiService::ADataConnectedCon,
        Emi::ADataConnectedInd(_) => EmiService::ADataConnectedInd,
        Emi::AUserDataConnectedReq(_) => EmiService::AUserDataConnectedReq,
        Emi::AUserDataConnectedCon(_) => EmiService::AUserDataConnectedCon,
        Emi::AUserDataConnectedInd(_) => EmiService::AUserDataConnectedInd,
        Emi::AUserDataUnconnectedReq(_) => EmiService::AUserDataUnconnectedReq,
        Emi::AUserDataUnconnectedInd(_) => EmiService::AUserDataUnconnectedInd,
        Emi::Generic(_) => EmiService::Other,
    }
}

/// The code of a service name: its EMI2/IMI2 code, else its cEMI code,
/// else 0.
pub open spec fn code_of_name(n: Seq<char>) -> u8 {
    match row_by_name(message_code_table(), n) {
        Some(row) => match code_of(row.3) {
            Some(v) => v,
            None => match code_of(row.4) {
                Some(v) => v,
                None => 0,
            },
        },
        None => 0,
    }
}

/// The message code of a message: that of its service name, or the stored
/// code of a generic message.
pub open spec fn emi_code(e: Emi) -> u8 {
    match e {
        Emi::Generic(g) => g.message_code,
        _ => code_of_name(emi_variant_name(e)),
    }
}

/// The service name of a code: the first with that EMI2/IMI2 code, else
/// the first with that cEMI code, else empty.
pub open spec fn name_of_code(v: u8) -> Seq<char> {
    match row_by_emi(message_code_table(), v) {
        Some(row) => row.0,
        None => match row_by_cemi(message_code_table(), v) {
            Some(row) => row.0,
            None => Seq::empty(),
        },
    }
}

/// The service name of an EMI2/IMI2 code, else empty.
pub open spec fn emi_name_of_code(v: u8) -> Seq<char> {
    match row_by_emi(message_code_table(), v) {
        Some(row) => row.0,
        None => Seq::empty(),
    }
}

/// The service that `Emi::from_buffer` reads for a service name.
pub open spec fn service_of_name(n: Seq<char>) -> EmiService {
    if n == "PEI_Switch.req"@ {
        EmiService::PeiSwitchReq
    } else if n == "L_Busmon.ind"@ {
        EmiService::LBusmonInd
    } else if n == "L_Raw.req"@ {
        EmiService::LRawReq
    } else if n == "L_Raw.con"@ {
        EmiService::LRawCon
    } else if n == "L_Raw.ind"@ {
        EmiService::LRawInd
    } else if n == "L_Plain_Data.req"@ {
        EmiService::LPlainDataReq
    } else if n == "L_Data.req"@ {
        EmiService::LDataReq
    } else if n == "L_Data.con"@ {
        EmiService::LDataCon
    } else if n == "L_Data.ind"@ {
        EmiService::LDataInd
    } else if n == "L_SystemBroadcast.req"@ {
        EmiService::LSystemBroadcastReq
    } else if n == "L_SystemBroadcast.con"@ {
        EmiService::LSystemBroadcastCon
    } else if n == "L_SystemBroadcast.ind"@ {
        EmiService::LSystemBroadcastInd
    } else if n == "L_Poll_Data.req"@ {
        EmiService::LPollDataReq
    } else if n == "L_Poll_Data.con"@ {
        EmiService::LPollDataCon
    } else if n == "N_Data_Individual.req"@ {
        EmiService::NDataIndividualReq
    } else if n == "N_Data_Individual.con"@ {
        EmiService::NDataIndividualCon
    } else if n == "N_Data_Individual.ind"@ {
        EmiService::NDataIndividualInd
    } else if n == "N_Data_Group.req"@ {
        EmiService::NDataGroupReq
    } else if n == "N_Data_Group.con"@ {
        EmiService::NDataGroupCon
    } else if n == "N_Data_Group.ind"@ {
        EmiService::NDataGroupInd
    } else if n == "N_Data_Broadcast.req"@ {
        EmiService::NDataBroadcastReq
    } else if n == "N_Data_Broadcast.con"@ {
        EmiService::NDataBroadcastCon
    } else if n == "N_Data_Broadcast.ind"@ {
        EmiService::NDataBroadcastInd
    } else if n == "N_Poll_Data.req"@ {
        EmiService::NPollDataReq
    } else if n == "N_Poll_Data.con"@ {
        EmiService::NPollDataCon
    } else if n == "T_Connect.req"@ {
        EmiService::TConnectReq
    } else if n == "T_Disconnect.req"@ {
        EmiService::TDisconnectReq
    } else if n == "T_Connect.con"@ {
        EmiService::TConnectCon
    } else if n == "T_Connect.ind"@ {
        EmiService::TConnectInd
    } else if n == "T_Disconnect.con"@ {
        EmiService::TDisconnectCon
    } else if n == "T_Disconnect.ind"@ {
        EmiService::TDisconnectInd
    } else if n == "M_Connect.ind"@ {
        EmiService::MConnectInd
    } else if n == "M_Disconnect.ind"@ {
        EmiService::MDisconnectInd
    } else if n == "T_Data_Connected.req"@ {
        EmiService::TDataConnectedReq
    } else if n == "T_Data_Connected.con"@ {
        EmiService::TDataConnectedCon
    } else if n == "T_Data_Connected.ind"@ {
        EmiService::TDataConnectedInd
    } else if n == "T_Data_Group.req"@ {
        EmiService::TDataGroupReq
    } else if n == "T_Data_Group.con"@ {
        EmiService::TDataGroupCon
    } else if n == "T_Data_Group.ind"@ {
        EmiService::TDataGroupInd
    } else if n == "T_Data_Individual.req"@ {
        EmiService::TDataIndividualReq
    } else if n == "T_Data_Individual.con"@ {
        EmiService::TDataIndividualCon
    } else if n == "T_Data_Individual.ind"@ {
        EmiService::TDataIndividualInd
    } else if n == "T_Data_Broadcast.req"@ {
        EmiService::TDataBroadcastReq
    } else if n == "T_Data_Broadcast.con"@ {
        EmiService::TDataBroadcastCon
    } else if n == "T_Data_Broadcast.ind"@ {
        EmiService::TDataBroadcastInd
    } else if n == "M_User_Data_Connected.req"@ {
        EmiService::MUserDataConnectedReq
    } else if n == "M_User_Data_Connected.con"@ {
        EmiService::MUserDataConnectedCon
    } else if n == "M_User_Data_Connected.ind"@ {
        EmiService::MUserDataConnectedInd
    } else if n == "M_User_Data_Individual.req"@ {
        EmiService::MUserDataIndividualReq
    } else if n == "M_User_Data_Individual.con"@ {
        EmiService::MUserDataIndividualCon
    } else if n == "M_User_Data_Individual.ind"@ {
        EmiService::MUserDataIndividualInd
    } else if n == "A_Data_Group.req"@ {
        EmiService::ADataGroupReq
    } else if n == "A_Data_Group.con"@ {
        EmiService::ADataGroupCon
    } else if n == "A_Data_Group.ind"@ {
        EmiService::ADataGroupInd
    } else if n == "A_Data_Individual.req"@ {
        EmiService::ADataIndividualReq
    } else if n == "A_Data_Individual.con"@ {
        EmiService::ADataIndividualCon
    } else if n == "A_Data_Individual.ind"@ {
        EmiService::ADataIndividualInd
    } else if n == "A_Data_Broadcast.req"@ {
        EmiService::ADataBroadcastReq
    } else if n == "A_Data_Broadcast.con"@ {
        EmiService::ADataBroadcastCon
    } else if n == "A_Data_Broadcast.ind"@ {
        EmiService::ADataBroadcastInd
    } else if n == "A_Data_Connected.req"@ {
        EmiService::ADataConnectedReq
    } else if n == "A_Data_Connected.con"@ {
        EmiService::ADataConnectedCon
    } else if n == "A_Data_Connected.ind"@ {
        EmiService::ADataConnectedInd
    } else if n == "A_UserData_Connected.req"@ {
        EmiService::AUserDataConnectedReq
    } else if n == "A_UserData_Connected.con"@ {
        EmiService::AUserDataConnectedCon
    } else if n == "A_UserData_Connected.ind"@ {
        EmiService::AUserDataConnectedInd
    } else if n == "A_User_Data_Connected.req"@ {
        EmiService::AUserDataConnectedReq
    } else if n == "A_User_Data_Connected.con"@ {
        EmiService::AUserDataConnectedCon
    } else if n == "A_User_Data_Connected.ind"@ {
        EmiService::AUserDataConnectedInd
    } else if n == "A_UserData_Unconnected.req"@ {
        EmiService::AUserDataUnconnectedReq
    } else if n == "A_UserData_Unconnected.ind"@ {
        EmiService::AUserDataUnconnectedInd
    } else if n == "A_User_Data_Unconnected.req"@ {
        EmiService::AUserDataUnconnectedReq
    } else if n == "A_User_Data_Unconnected.ind"@ {
        EmiService::AUserDataUnconnectedInd
    } else if n == "T_Poll_Data.req"@ {
        EmiService::TPollDataReq
    } else if n == "T_Poll_Data.con"@ {
        EmiService::TPollDataCon
    } else if n == "A_Poll_Data.req"@ {
        EmiService::APollDataReq
    } else if n == "A_Poll_Data.con"@ {
        EmiService::APollDataCon
    } else if n == "M_PropRead.req"@ {
        EmiService::MPropReadReq
    } else if n == "M_PropRead.con"@ {
        EmiService::MPropReadCon
    } else if n == "M_PropWrite.req"@ {
        EmiService::MPropWriteReq
    } else if n == "M_PropInfo.ind"@ {
        EmiService::MPropInfoInd
    } else if n == "M_PropWrite.con"@ {
        EmiService::MPropWriteCon
    } else if n == "M_FuncPropCommand.req"@ {
        EmiService::MFuncPropCommandReq
    } else if n == "M_FuncPropStateRead.req"@ {
        EmiService::MFuncPropStateReadReq
    } else if n == "M_FuncPropCommand.con"@ {
        EmiService::MFuncPropCommandCon
    } else if n == "M_FuncPropStateRead.con"@ {
        EmiService::MFuncPropStateReadCon
    } else if n == "M_Reset.req"@ {
        EmiService::MResetReq
    } else if n == "M_Reset.ind"@ {
        EmiService::MResetInd
    } else {
        EmiService::Other
    }
}

fn service_of_name_exec(n: &str) -> (s: EmiService)
    ensures
        s == service_of_name(n@),
{
    if str_eq(n, "PEI_Switch.req") {
        EmiService::PeiSwitchReq
    } else if str_eq(n, "L_Busmon.ind") {
        EmiService::LBusmonInd
    } else if str_eq(n, "L_Raw.req") {
        EmiService::LRawReq
    } else if str_eq(n, "L_Raw.con") {
        EmiService::LRawCon
    } else if str_eq(n, "L_Raw.ind") {
        EmiService::LRawInd
    } else if str_eq(n, "L_Plain_Data.req") {
        EmiService::LPlainDataReq
    } else if str_eq(n, "L_Data.req") {
        EmiService::LDataReq
    } else if str_eq(n, "L_Data.con") {
        EmiService::LDataCon
    } else if str_eq(n, "L_Data.ind") {
        EmiService::LDataInd
    } else if str_eq(n, "L_SystemBroadcast.req") {
        EmiService::LSystemBroadcastReq
    } else if str_eq(n, "L_SystemBroadcast.con") {
        EmiService::LSystemBroadcastCon
    } else if str_eq(n, "L_SystemBroadcast.ind") {
        EmiService::LSystemBroadcastInd
    } else if str_eq(n, "L_Poll_Data.req") {
        EmiService::LPollDataReq
    } else if str_eq(n, "L_Poll_Data.con") {
        EmiService::LPollDataCon
    } else if str_eq(n, "N_Data_Individual.req") {
        EmiService::NDataIndividualReq
    } else if str_eq(n, "N_Data_Individual.con") {
        EmiService::NDataIndividualCon
    } else if str_eq(n, "N_Data_Individual.ind") {
        EmiService::NDataIndividualInd
    } else if str_eq(n, "N_Data_Group.req") {
        EmiService::NDataGroupReq
    } else if str_eq(n, "N_Data_Group.con") {
        EmiService::NDataGroupCon
    } else if str_eq(n, "N_Data_Group.ind") {
        EmiService::NDataGroupInd
    } else if str_eq(n, "N_Data_Broadcast.req") {
        EmiService::NDataBroadcastReq
    } else if str_eq(n, "N_Data_Broadcast.con") {
        EmiService::NDataBroadcastCon
    } else if str_eq(n, "N_Data_Broadcast.ind") {
        EmiService::NDataBroadcastInd
    } else if str_eq(n, "N_Poll_Data.req") {
        EmiService::NPollDataReq
    } else if str_eq(n, "N_Poll_Data.con") {
        EmiService::NPollDataCon
    } else if str_eq(n, "T_Connect.req") {
        EmiService::TConnectReq
    } else if str_eq(n, "T_Disconnect.req") {
        EmiService::TDisconnectReq
    } else if str_eq(n, "T_Connect.con") {
        EmiService::TConnectCon
    } else if str_eq(n, "T_Connect.ind") {
        EmiService::TConnectInd
    } else if str_eq(n, "T_Disconnect.con") {
        EmiService::TDisconnectCon
    } else if str_eq(n, "T_Disconnect.ind") {
        EmiService::TDisconnectInd
    } else if str_eq(n, "M_Connect.ind") {
        EmiService::MConnectInd
    } else if str_eq(n, "M_Disconnect.ind") {
        EmiService::MDisconnectInd
    } else if str_eq(n, "T_Data_Connected.req") {
        EmiService::TDataConnectedReq
    } else if str_eq(n, "T_Data_Connected.con") {
        EmiService::TDataConnectedCon
    } else if str_eq(n, "T_Data_Connected.ind") {
        EmiService::TDataConnectedInd
    } else if str_eq(n, "T_Data_Group.req") {
        EmiService::TDataGroupReq
    } else if str_eq(n, "T_Data_Group.con") {
        EmiService::TDataGroupCon
    } else if str_eq(n, "T_Data_Group.ind") {
        EmiService::TDataGroupInd
    } else if str_eq(n, "T_Data_Individual.req") {
        EmiService::TDataIndividualReq
    } else if str_eq(n, "T_Data_Individual.con") {
        EmiService::TDataIndividualCon
    } else if str_eq(n, "T_Data_Individual.ind") {
        EmiService::TDataIndividualInd
    } else if str_eq(n, "T_Data_Broadcast.req") {
        EmiService::TDataBroadcastReq
    } else if str_eq(n, "T_Data_Broadcast.con") {
        EmiService::TDataBroadcastCon
    } else if str_eq(n, "T_Data_Broadcast.ind") {
        EmiService::TDataBroadcastInd
    } else if str_eq(n, "M_User_Data_Connected.req") {
        EmiService::MUserDataConnectedReq
    } else if str_eq(n, "M_User_Data_Connected.con") {
        EmiService::MUserDataConnectedCon
    } else if str_eq(n, "M_User_Data_Connected.ind") {
        EmiService::MUserDataConnectedInd
    } else if str_eq(n, "M_User_Data_Individual.req") {
        EmiService::MUserDataIndividualReq
    } else if str_eq(n, "M_User_Data_Individual.con") {
        EmiService::MUserDataIndividualCon
    } else if str_eq(n, "M_User_Data_Individual.ind") {
        EmiService::MUserDataIndividualInd
    } else if str_eq(n, "A_Data_Group.req") {
        EmiService::ADataGroupReq
    } else if str_eq(n, "A_Data_Group.con") {
        EmiService::ADataGroupCon
    } else if str_eq(n, "A_Data_Group.ind") {
        EmiService::ADataGroupInd
    } else if str_eq(n, "A_Data_Individual.req") {
        EmiService::ADataIndividualReq
    } else if str_eq(n, "A_Data_Individual.con") {
        EmiService::ADataIndividualCon
    } else if str_eq(n, "A_Data_Individual.ind") {
        EmiService::ADataIndividualInd
    } else if str_eq(n, "A_Data_Broadcast.req") {
        EmiService::ADataBroadcastReq
    } else if str_eq(n, "A_Data_Broadcast.con") {
        EmiService::ADataBroadcastCon
    } else if str_eq(n, "A_Data_Broadcast.ind") {
        EmiService::ADataBroadcastInd
    } else if str_eq(n, "A_Data_Connected.req") {
        EmiService::ADataConnectedReq
    } else if str_eq(n, "A_Data_Connected.con") {
        EmiService::ADataConnectedCon
    } else if str_eq(n, "A_Data_Connected.ind") {
        EmiService::ADataConnectedInd
    } else if str_eq(n, "A_UserData_Connected.req") {
        EmiService::AUserDataConnectedReq
    } else if str_eq(n, "A_UserData_Connected.con") {
        EmiService::AUserDataConnectedCon
    } else if str_eq(n, "A_UserData_Connected.ind") {
        EmiService::AUserDataConnectedInd
    } else if str_eq(n, "A_User_Data_Connected.req") {
        EmiService::AUserDataConnectedReq
    } else if str_eq(n, "A_User_Data_Connected.con") {
        EmiService::AUserDataConnectedCon
    } else if str_eq(n, "A_User_Data_Connected.ind") {
        EmiService::AUserDataConnectedInd
    } else if str_eq(n, "A_UserData_Unconnected.req") {
        EmiService::AUserDataUnconnectedReq
    } else if str_eq(n, "A_UserData_Unconnected.ind") {
        EmiService::AUserDataUnconnectedInd
    } else if str_eq(n, "A_User_Data_Unconnected.req") {
        EmiService::AUserDataUnconnectedReq
    } else if str_eq(n, "A_User_Data_Unconnected.ind") {
        EmiService::AUserDataUnconnectedInd
    } else if str_eq(n, "T_Poll_Data.req") {
        EmiService::TPollDataReq
    } else if str_eq(n, "T_Poll_Data.con") {
        EmiService::TPollDataCon
    } else if str_eq(n, "A_Poll_Data.req") {
        EmiService::APollDataReq
    } else if str_eq(n, "A_Poll_Data.con") {
        EmiService::APollDataCon
    } else if str_eq(n, "M_PropRead.req") {
        EmiService::MPropReadReq
    } else if str_eq(n, "M_PropRead.con") {
        EmiService::MPropReadCon
    } else if str_eq(n, "M_PropWrite.req") {
        EmiService::MPropWriteReq
    } else if str_eq(n, "M_PropInfo.ind") {
        EmiService::MPropInfoInd
    } else if str_eq(n, "M_PropWrite.con") {
        EmiService::MPropWriteCon
    } else if str_eq(n, "M_FuncPropCommand.req") {
        EmiService::MFuncPropCommandReq
    } else if str_eq(n, "M_FuncPropStateRead.req") {
        EmiService::MFuncPropStateReadReq
    } else if str_eq(n, "M_FuncPropCommand.con") {
        EmiService::MFuncPropCommandCon
    } else if str_eq(n, "M_FuncPropStateRead.con") {
        EmiService::MFuncPropStateReadCon
    } else if str_eq(n, "M_Reset.req") {
        EmiService::MResetReq
    } else if str_eq(n, "M_Reset.ind") {
        EmiService::MResetInd
    } else {
        EmiService::Other
    }
}

fn name_of_code_exec(v: u8) -> (n: &'static str)
    ensures
        n@ == name_of_code(v),
{
    proof {
        reveal_strlit("");
    }
    match get_service_name_by_emi_value(v) {
        Some(n) => n,
        None => match get_service_name_by_cemi_value(v) {
            Some(n) => n,
            None => "",
        },
    }
}

fn emi_name_of_code_exec(v: u8) -> (n: &'static str)
    ensures
        n@ == emi_name_of_code(v),
{
    proof {
        reveal_strlit("");
    }
    match get_service_name_by_emi_value(v) {
        Some(n) => n,
        None => "",
    }
}

/// The text `0.0.0`, given where a frame carries no address.
pub open spec fn no_address() -> Seq<char> {
    "0.0.0"@
}

/// Whether a service name is an indication.
pub open spec fn is_ind_name(n: Seq<char>) -> bool {
    ends_with_seq(n, ".ind"@)
}

/// Whether a service name is a confirmation.
pub open spec fn is_con_name(n: Seq<char>) -> bool {
    ends_with_seq(n, ".con"@)
}

/// Whether a service name addresses a group or everyone.
pub open spec fn is_group_name(n: Seq<char>) -> bool {
    contains_seq(n, "Group"@) || contains_seq(n, "Broadcast"@)
}

/// Whether a message can be laid out.
pub open spec fn emi_fits(e: Emi) -> bool {
    match e {
        Emi::LDataReq(x) | Emi::LDataCon(x) | Emi::LDataInd(x) | Emi::LSystemBroadcastReq(x) | Emi::LSystemBroadcastCon(x) | Emi::LSystemBroadcastInd(x) => tpdu_fits(x.npdu.tpdu),
        Emi::NDataIndividualReq(x) | Emi::NDataIndividualCon(x) | Emi::NDataIndividualInd(x) | Emi::NDataGroupReq(x) | Emi::NDataGroupCon(x) | Emi::NDataGroupInd(x) | Emi::NDataBroadcastReq(x) | Emi::NDataBroadcastCon(x) | Emi::NDataBroadcastInd(x) => tpdu_fits(x.tpdu),
        Emi::TDataConnectedReq(x) | Emi::TDataConnectedCon(x) | Emi::TDataConnectedInd(x) | Emi::TDataGroupReq(x) | Emi::TDataGroupCon(x) | Emi::TDataGroupInd(x) | Emi::TDataIndividualReq(x) | Emi::TDataIndividualCon(x) | Emi::TDataIndividualInd(x) | Emi::TDataBroadcastReq(x) | Emi::TDataBroadcastCon(x) | Emi::TDataBroadcastInd(x) | Emi::MUserDataConnectedReq(x) | Emi::MUserDataConnectedCon(x) | Emi::MUserDataConnectedInd(x) | Emi::MUserDataIndividualReq(x) | Emi::MUserDataIndividualCon(x) | Emi::MUserDataIndividualInd(x) | Emi::ADataGroupReq(x) | Emi::ADataGroupCon(x) | Emi::ADataGroupInd(x) | Emi::ADataIndividualReq(x) | Emi::ADataIndividualCon(x) | Emi::ADataIndividualInd(x) | Emi::ADataBroadcastReq(x) | Emi::ADataBroadcastCon(x) | Emi::ADataBroadcastInd(x) | Emi::ADataConnectedReq(x) | Emi::ADataConnectedCon(x) | Emi::ADataConnectedInd(x) | Emi::AUserDataConnectedReq(x) | Emi::AUserDataConnectedCon(x) | Emi::AUserDataConnectedInd(x) | Emi::AUserDataUnconnectedReq(x) | Emi::AUserDataUnconnectedInd(x) => x.apdu.data@.len() + 2 <= usize::MAX,
        _ => true,
    }
}

/// The octets of a message.
pub open spec fn emi_bytes(e: Emi) -> Seq<u8> {
    let code = emi_code(e);
    match e {
        Emi::PeiSwitchReq(x) => seq![code, x.control],
        Emi::LBusmonInd(x) => seq![code] + x.data@,
        Emi::LRawReq(x) | Emi::LRawCon(x) | Emi::LRawInd(x) => seq![code] + x.data@,
        Emi::LPlainDataReq(x) => seq![code, 0u8] + u32_bytes(x.time) + x.data@,
        Emi::LDataReq(x) | Emi::LDataCon(x) | Emi::LDataInd(x) | Emi::LSystemBroadcastReq(x) | Emi::LSystemBroadcastCon(x) | Emi::LSystemBroadcastInd(x) => seq![code, x.control_field1.value()] + (if e is LDataInd || e is LSystemBroadcastInd {
            addr_or_zero(x.source_address@)
        } else {
            seq![0u8, 0u8]
        }) + addr_or_zero(x.destination_address@) + seq![npci_octet(x.npdu)] + tpdu_bytes(x.npdu.tpdu),
        Emi::LPollDataReq(x) | Emi::LPollDataCon(x) => seq![code, x.control_field1.value(), 0u8, 0u8] + word(x.polling_group) + seq![x.nr_of_slots % 16],
        Emi::NPollDataReq(x) | Emi::NPollDataCon(x) => seq![code, x.control_field1.value(), 0u8, 0u8] + word(x.polling_group) + seq![x.nr_of_slots % 16],
        Emi::TPollDataReq(x) | Emi::TPollDataCon(x) | Emi::APollDataReq(x) | Emi::APollDataCon(x) => seq![code, x.control_field1.value(), 0u8, 0u8] + word(x.polling_group) + seq![x.nr_of_slots % 16],
        Emi::NDataIndividualReq(x) | Emi::NDataIndividualCon(x) | Emi::NDataIndividualInd(x) | Emi::NDataGroupReq(x) | Emi::NDataGroupCon(x) | Emi::NDataGroupInd(x) | Emi::NDataBroadcastReq(x) | Emi::NDataBroadcastCon(x) | Emi::NDataBroadcastInd(x) => seq![code, x.control_field1.value()] + (if e is NDataIndividualInd || e is NDataGroupInd || e is NDataBroadcastInd {
            addr_or_zero(x.source_address@)
        } else {
            seq![0u8, 0u8]
        }) + addr_or_zero(x.destination_address@) + seq![((x.hop_count % 16) * 16 + tpdu_bytes(x.tpdu).len() % 16) as u8] + tpdu_bytes(x.tpdu),
        Emi::TConnectReq(x) | Emi::TDisconnectReq(x) => seq![code, x.control, 0u8, 0u8] + addr_or_zero(x.address@),
        Emi::TConnectCon(x) | Emi::TConnectInd(x) | Emi::TDisconnectCon(x) | Emi::TDisconnectInd(x) | Emi::MConnectInd(x) | Emi::MDisconnectInd(x) => seq![code, x.control] + addr_or_zero(x.address@) + seq![0u8, 0u8],
        Emi::TDataConnectedReq(x) | Emi::TDataConnectedCon(x) | Emi::TDataConnectedInd(x) | Emi::TDataGroupReq(x) | Emi::TDataGroupCon(x) | Emi::TDataGroupInd(x) | Emi::TDataIndividualReq(x) | Emi::TDataIndividualCon(x) | Emi::TDataIndividualInd(x) | Emi::TDataBroadcastReq(x) | Emi::TDataBroadcastCon(x) | Emi::TDataBroadcastInd(x) | Emi::MUserDataConnectedReq(x) | Emi::MUserDataConnectedCon(x) | Emi::MUserDataConnectedInd(x) | Emi::MUserDataIndividualReq(x) | Emi::MUserDataIndividualCon(x) | Emi::MUserDataIndividualInd(x) | Emi::ADataGroupReq(x) | Emi::ADataGroupCon(x) | Emi::ADataGroupInd(x) | Emi::ADataIndividualReq(x) | Emi::ADataIndividualCon(x) | Emi::ADataIndividualInd(x) | Emi::ADataBroadcastReq(x) | Emi::ADataBroadcastCon(x) | Emi::ADataBroadcastInd(x) | Emi::ADataConnectedReq(x) | Emi::ADataConnectedCon(x) | Emi::ADataConnectedInd(x) | Emi::AUserDataConnectedReq(x) | Emi::AUserDataConnectedCon(x) | Emi::AUserDataConnectedInd(x) | Emi::AUserDataUnconnectedReq(x) | Emi::AUserDataUnconnectedInd(x) => {
            let a = pdu_bytes(x.apdu.tpci.value(), x.apdu.apci.value(), x.apdu.data@, x.apdu.is_short);
            let n = emi_name_of_code(code);
            seq![code, x.control_field1.value()] + (if is_ind_name(n) {
                addr_or_zero(x.source_address@)
            } else {
                seq![0u8, 0u8]
            }) + seq![
                if !is_ind_name(n) && !is_con_name(n) {
                    addr_or_zero(x.destination_address@)[0]
                } else {
                    0u8
                },
                x.sap,
                ((x.hop_count % 8) * 16 + a.len() % 16) as u8,
            ] + a
        },
        Emi::MPropReadReq(x) => seq![code] + prop_header(x.interface_object_type, x.object_instance, x.property_id) + word(prop_word(x.number_of_elements, x.start_index)),
        Emi::MPropReadCon(x) | Emi::MPropWriteReq(x) | Emi::MPropInfoInd(x) => seq![code] + prop_header(x.interface_object_type, x.object_instance, x.property_id) + word(prop_word(x.number_of_elements, x.start_index)) + x.data@,
        Emi::MPropWriteCon(x) => seq![code] + prop_header(x.interface_object_type, x.object_instance, x.property_id) + word(prop_word(x.number_of_elements, x.start_index)) + if x.number_of_elements == 0 {
            seq![x.error_info]
        } else {
            Seq::empty()
        },
        Emi::MFuncPropCommandReq(x) | Emi::MFuncPropStateReadReq(x) => seq![code] + prop_header(x.interface_object_type, x.object_instance, x.property_id) + x.data@,
        Emi::MFuncPropCommandCon(x) | Emi::MFuncPropStateReadCon(x) => seq![code] + prop_header(x.interface_object_type, x.object_instance, x.property_id) + seq![x.return_code] + x.data@,
        Emi::MResetReq | Emi::MResetInd => seq![code],
        Emi::Generic(x) => seq![x.message_code] + x.data@,
    }
}

/// Whether the NPDU after the sixth octet of `b` can be read.
pub open spec fn npdu_ok(b: Seq<u8>) -> bool {
    let t = b.subrange(6, b.len() as int);
    t.len() >= 2 && t.len() - 1 >= t[0] % 16 && t[0] % 16 > 0
}

/// Whether the unit after the seventh octet of `b` (as long as the low
/// four bits of `b[6]` say) can be read.
pub open spec fn unit_ok(b: Seq<u8>) -> bool {
    b.len() >= 7 + b[6] % 16 && b[6] % 16 > 0
}

/// The unit after the seventh octet of `b`.
pub open spec fn unit_of(b: Seq<u8>) -> Seq<u8> {
    b.subrange(7, 7 + b[6] % 16)
}

/// Whether `b` holds a message that `Emi::from_buffer` reads.
pub open spec fn emi_parse_ok(b: Seq<u8>) -> bool {
    b.len() >= 1 && match service_of_name(name_of_code(b[0])) {
        EmiService::PeiSwitchReq => b.len() >= 2,
        EmiService::LPlainDataReq => b.len() >= 6,
        EmiService::LDataReq | EmiService::LDataCon | EmiService::LDataInd | EmiService::LSystemBroadcastReq | EmiService::LSystemBroadcastCon | EmiService::LSystemBroadcastInd => b.len() >= 7 && npdu_ok(b),
        EmiService::LPollDataReq | EmiService::LPollDataCon | EmiService::NPollDataReq | EmiService::NPollDataCon | EmiService::TPollDataReq | EmiService::TPollDataCon | EmiService::APollDataReq | EmiService::APollDataCon => b.len() >= 7,
        EmiService::NDataIndividualReq | EmiService::NDataIndividualCon | EmiService::NDataIndividualInd | EmiService::NDataGroupReq | EmiService::NDataGroupCon | EmiService::NDataGroupInd | EmiService::NDataBroadcastReq | EmiService::NDataBroadcastCon | EmiService::NDataBroadcastInd | EmiService::TDataConnectedReq | EmiService::TDataConnectedCon | EmiService::TDataConnectedInd | EmiService::TDataGroupReq | EmiService::TDataGroupCon | EmiService::TDataGroupInd | EmiService::TDataIndividualReq | EmiService::TDataIndividualCon | EmiService::TDataIndividualInd | EmiService::TDataBroadcastReq | EmiService::TDataBroadcastCon | EmiService::TDataBroadcastInd | EmiService::MUserDataConnectedReq | EmiService::MUserDataConnectedCon | EmiService::MUserDataConnectedInd | EmiService::MUserDataIndividualReq | EmiService::MUserDataIndividualCon | EmiService::MUserDataIndividualInd | EmiService::ADataGroupReq | EmiService::ADataGroupCon | EmiService::ADataGroupInd | EmiService::ADataIndividualReq | EmiService::ADataIndividualCon | EmiService::ADataIndividualInd | EmiService::ADataBroadcastReq | EmiService::ADataBroadcastCon | EmiService::ADataBroadcastInd | EmiService::ADataConnectedReq | EmiService::ADataConnectedCon | EmiService::ADataConnectedInd | EmiService::AUserDataConnectedReq | EmiService::AUserDataConnectedCon | EmiService::AUserDataConnectedInd | EmiService::AUserDataUnconnectedReq | EmiService::AUserDataUnconnectedInd => b.len() >= 7 && unit_ok(b),
        EmiService::TConnectReq | EmiService::TDisconnectReq => b.len() >= 6,
        EmiService::TConnectCon | EmiService::TConnectInd | EmiService::TDisconnectCon | EmiService::TDisconnectInd | EmiService::MConnectInd | EmiService::MDisconnectInd => b.len() >= 4,
        EmiService::MPropReadReq | EmiService::MPropReadCon | EmiService::MPropWriteReq | EmiService::MPropInfoInd | EmiService::MPropWriteCon => b.len() >= 7,
        EmiService::MFuncPropCommandReq | EmiService::MFuncPropStateReadReq => b.len() >= 5,
        EmiService::MFuncPropCommandCon | EmiService::MFuncPropStateReadCon => b.len() >= 6,
        _ => true,
    }
}

/// The source address of a data frame: read when the service is an
/// indication, else `0.0.0`.
pub open spec fn src_parsed(b: Seq<u8>, n: Seq<char>, s: Seq<char>) -> bool {
    s == if is_ind_name(n) {
        address_text(b[2], b[3], false, false)
    } else {
        no_address()
    }
}

/// Whether `e` is the message read from `b` (for `b` with `emi_parse_ok`).
pub open spec fn emi_parsed(b: Seq<u8>, e: Emi) -> bool {
    let n = name_of_code(b[0]);
    emi_service(e) == service_of_name(n) && match e {
        Emi::PeiSwitchReq(x) => x.message_code == b[0] && x.control == b[1],
        Emi::LBusmonInd(x) => x.message_code == b[0] && x.data@ == b.subrange(1, b.len() as int),
        Emi::LRawReq(x) | Emi::LRawCon(x) | Emi::LRawInd(x) => x.message_code == b[0] && x.data@ == b.subrange(1, b.len() as int),
        Emi::LPlainDataReq(x) => x.message_code == b[0] && x.time == be32(b[2], b[3], b[4], b[5]) && x.data@ == b.subrange(6, b.len() as int),
        Emi::LDataReq(x) | Emi::LDataCon(x) | Emi::LDataInd(x) | Emi::LSystemBroadcastReq(x) | Emi::LSystemBroadcastCon(x) | Emi::LSystemBroadcastInd(x) => {
            let t = b.subrange(6, b.len() as int);
            let len = (t[0] % 16) as int;
            &&& x.message_code == b[0]
            &&& x.control_field1.value() == b[1]
            &&& src_parsed(b, n, x.source_address@)
            &&& x.destination_address@ == address_text(b[4], b[5], true, true)
            &&& x.npdu.hop_count == (t[0] / 16) % 8
            &&& x.npdu.length == len
            &&& x.npdu.address_type == crate::protocol::control_field_extended::AddressType::Group
            &&& tpdu_parsed(t.subrange(1, 1 + len), x.npdu.tpdu)
        },
        Emi::LPollDataReq(x) | Emi::LPollDataCon(x) => x.message_code == b[0] && x.control_field1.value() == b[1] && x.polling_group == be16(b[4], b[5]) && x.nr_of_slots == b[6] % 16,
        Emi::NPollDataReq(x) | Emi::NPollDataCon(x) => x.message_code == b[0] && x.control_field1.value() == b[1] && x.polling_group == be16(b[4], b[5]) && x.nr_of_slots == b[6] % 16,
        Emi::TPollDataReq(x) | Emi::TPollDataCon(x) | Emi::APollDataReq(x) | Emi::APollDataCon(x) => x.message_code == b[0] && x.control_field1.value() == b[1] && x.polling_group == be16(b[4], b[5]) && x.nr_of_slots == b[6] % 16,
        Emi::NDataIndividualReq(x) | Emi::NDataIndividualCon(x) | Emi::NDataIndividualInd(x) | Emi::NDataGroupReq(x) | Emi::NDataGroupCon(x) | Emi::NDataGroupInd(x) | Emi::NDataBroadcastReq(x) | Emi::NDataBroadcastCon(x) | Emi::NDataBroadcastInd(x) => {
            let g = is_group_name(n);
            &&& x.message_code == b[0]
            &&& x.control_field1.value() == b[1]
            &&& src_parsed(b, n, x.source_address@)
            &&& x.destination_address@ == address_text(b[4], b[5], g, g)
            &&& x.hop_count == b[6] / 16
            &&& tpdu_parsed(unit_of(b), x.tpdu)
        },
        Emi::TConnectReq(x) | Emi::TDisconnectReq(x) => x.message_code == b[0] && x.control == b[1] && x.address@ == address_text(b[4], b[5], false, false),
        Emi::TConnectCon(x) | Emi::TConnectInd(x) | Emi::TDisconnectCon(x) | Emi::TDisconnectInd(x) | Emi::MConnectInd(x) | Emi::MDisconnectInd(x) => x.message_code == b[0] && x.control == b[1] && x.address@ == address_text(b[2], b[3], false, false),
        Emi::TDataConnectedReq(x) | Emi::TDataConnectedCon(x) | Emi::TDataConnectedInd(x) | Emi::TDataGroupReq(x) | Emi::TDataGroupCon(x) | Emi::TDataGroupInd(x) | Emi::TDataIndividualReq(x) | Emi::TDataIndividualCon(x) | Emi::TDataIndividualInd(x) | Emi::TDataBroadcastReq(x) | Emi::TDataBroadcastCon(x) | Emi::TDataBroadcastInd(x) | Emi::MUserDataConnectedReq(x) | Emi::MUserDataConnectedCon(x) | Emi::MUserDataConnectedInd(x) | Emi::MUserDataIndividualReq(x) | Emi::MUserDataIndividualCon(x) | Emi::MUserDataIndividualInd(x) | Emi::ADataGroupReq(x) | Emi::ADataGroupCon(x) | Emi::ADataGroupInd(x) | Emi::ADataIndividualReq(x) | Emi::ADataIndividualCon(x) | Emi::ADataIndividualInd(x) | Emi::ADataBroadcastReq(x) | Emi::ADataBroadcastCon(x) | Emi::ADataBroadcastInd(x) | Emi::ADataConnectedReq(x) | Emi::ADataConnectedCon(x) | Emi::ADataConnectedInd(x) | Emi::AUserDataConnectedReq(x) | Emi::AUserDataConnectedCon(x) | Emi::AUserDataConnectedInd(x) | Emi::AUserDataUnconnectedReq(x) | Emi::AUserDataUnconnectedInd(x) => {
            let g = is_group_name(n);
            &&& x.message_code == b[0]
            &&& x.control_field1.value() == b[1]
            &&& src_parsed(b, n, x.source_address@)
            &&& x.destination_address@ == if !is_ind_name(n) && !is_con_name(n) {
                address_text(b[4], b[5], g, g)
            } else {
                no_address()
            }
            &&& x.sap == b[5]
            &&& x.hop_count == (b[6] / 16) % 8
            &&& apdu_parsed(unit_of(b), x.apdu)
        },
        Emi::MPropReadReq(x) => prop_parsed(b, x.interface_object_type, x.object_instance, x.property_id) && prop_word_parsed(b, x.number_of_elements, x.start_index),
        Emi::MPropReadCon(x) | Emi::MPropWriteReq(x) | Emi::MPropInfoInd(x) => prop_parsed(b, x.interface_object_type, x.object_instance, x.property_id) && prop_word_parsed(b, x.number_of_elements, x.start_index) && x.data@ == b.subrange(7, b.len() as int),
        Emi::MPropWriteCon(x) => prop_parsed(b, x.interface_object_type, x.object_instance, x.property_id) && prop_word_parsed(b, x.number_of_elements, x.start_index) && x.error_info == (if x.number_of_elements == 0 && b.len() >= 8 {
            b[7]
        } else {
            0u8
        }),
        Emi::MFuncPropCommandReq(x) | Emi::MFuncPropStateReadReq(x) => prop_parsed(b, x.interface_object_type, x.object_instance, x.property_id) && x.data@ == b.subrange(5, b.len() as int),
        Emi::MFuncPropCommandCon(x) | Emi::MFuncPropStateReadCon(x) => prop_parsed(b, x.interface_object_type, x.object_instance, x.property_id) && x.return_code == b[5] && x.data@ == b.subrange(6, b.len() as int),
        Emi::MResetReq | Emi::MResetInd => true,
        Emi::Generic(x) => x.message_code == b[0] && x.data@ == b.subrange(1, b.len() as int),
    }
}

impl Emi {
    /// The message code: that of the service name (EMI2/IMI2, else cEMI,
    /// else 0), or the stored code of a generic message.
    pub fn get_message_code(&self) -> (c: u8)
        ensures
            c == emi_code(*self),
    {
        let name = match self {
            Emi::PeiSwitchReq(_) => "PEI_Switch.req",
            Emi::LBusmonInd(_) => "L_Busmon.ind",
            Emi::LRawReq(_) => "L_Raw.req",
            Emi::LRawCon(_) => "L_Raw.con",
            Emi::LRawInd(_) => "L_Raw.ind",
            Emi::LPlainDataReq(_) => "L_Plain_Data.req",
            Emi::LDataReq(_) => "L_Data.req",
            Emi::LDataCon(_) => "L_Data.con",
            Emi::LDataInd(_) => "L_Data.ind",
            Emi::LPollDataReq(_) => "L_Poll_Data.req",
            Emi::LPollDataCon(_) => "L_Poll_Data.con",
            Emi::LSystemBroadcastReq(_) => "L_SystemBroadcast.req",
            Emi::LSystemBroadcastCon(_) => "L_SystemBroadcast.con",
            Emi::LSystemBroadcastInd(_) => "L_SystemBroadcast.ind",
            Emi::NDataIndividualReq(_) => "N_Data_Individual.req",
            Emi::NDataIndividualCon(_) => "N_Data_Individual.con",
            Emi::NDataIndividualInd(_) => "N_Data_Individual.ind",
            Emi::NDataGroupReq(_) => "N_Data_Group.req",
            Emi::NDataGroupCon(_) => "N_Data_Group.con",
            Emi::NDataGroupInd(_) => "N_Data_Group.ind",
            Emi::NDataBroadcastReq(_) => "N_Data_Broadcast.req",
            Emi::NDataBroadcastCon(_) => "N_Data_Broadcast.con",
            Emi::NDataBroadcastInd(_) => "N_Data_Broadcast.ind",
            Emi::NPollDataReq(_) => "N_Poll_Data.req",
            Emi::NPollDataCon(_) => "N_Poll_Data.con",
            Emi::TConnectReq(_) => "T_Connect.req",
            Emi::TConnectCon(_) => "T_Connect.con",
            Emi::TConnectInd(_) => "T_Connect.ind",
            Emi::TDisconnectReq(_) => "T_Disconnect.req",
            Emi::TDisconnectCon(_) => "T_Disconnect.con",
            Emi::TDisconnectInd(_) => "T_Disconnect.ind",
            Emi::TDataConnectedReq(_) => "T_Data_Connected.req",
            Emi::TDataConnectedCon(_) => "T_Data_Connected.con",
            Emi::TDataConnectedInd(_) => "T_Data_Connected.ind",
            Emi::TDataGroupReq(_) => "T_Data_Group.req",
            Emi::TDataGroupCon(_) => "T_Data_Group.con",
            Emi::TDataGroupInd(_) => "T_Data_Group.ind",
            Emi::TDataIndividualReq(_) => "T_Data_Individual.req",
            Emi::TDataIndividualCon(_) => "T_Data_Individual.con",
            Emi::TDataIndividualInd(_) => "T_Data_Individual.ind",
            Emi::TDataBroadcastReq(_) => "T_Data_Broadcast.req",
            Emi::TDataBroadcastCon(_) => "T_Data_Broadcast.con",
            Emi::TDataBroadcastInd(_) => "T_Data_Broadcast.ind",
            Emi::TPollDataReq(_) => "T_Poll_Data.req",
            Emi::TPollDataCon(_) => "T_Poll_Data.con",
            Emi::MConnectInd(_) => "M_Connect.ind",
            Emi::MDisconnectInd(_) => "M_Disconnect.ind",
            Emi::MUserDataConnectedReq(_) => "M_User_Data_Connected.req",
            Emi::MUserDataConnectedCon(_) => "M_User_Data_Connected.con",
            Emi::MUserDataConnectedInd(_) => "M_User_Data_Connected.ind",
            Emi::MUserDataIndividualReq(_) => "M_User_Data_Individual.req",
            Emi::MUserDataIndividualCon(_) => "M_User_Data_Individual.con",
            Emi::MUserDataIndividualInd(_) => "M_User_Data_Individual.ind",
            Emi::APollDataReq(_) => "A_Poll_Data.req",
            Emi::APollDataCon(_) => "A_Poll_Data.con",
            Emi::MPropReadReq(_) => "M_PropRead.req",
            Emi::MPropReadCon(_) => "M_PropRead.con",
            Emi::MPropWriteReq(_) => "M_PropWrite.req",
            Emi::MPropWriteCon(_) => "M_PropWrite.con",
            Emi::MPropInfoInd(_) => "M_PropInfo.ind",
            Emi::MFuncPropCommandReq(_) => "M_FuncPropCommand.req",
            Emi::MFuncPropCommandCon(_) => "M_FuncPropCommand.con",
            Emi::MFuncPropStateReadReq(_) => "M_FuncPropStateRead.req",
            Emi::MFuncPropStateReadCon(_) => "M_FuncPropStateRead.con",
            Emi::MResetReq => "M_Reset.req",
            Emi::MResetInd => "M_Reset.ind",
            Emi::ADataGroupReq(_) => "A_Data_Group.req",
            Emi::ADataGroupCon(_) => "A_Data_Group.con",
            Emi::ADataGroupInd(_) => "A_Data_Group.ind",
            Emi::ADataIndividualReq(_) => "A_Data_Individual.req",
            Emi::ADataIndividualCon(_) => "A_Data_Individual.con",
            Emi::ADataIndividualInd(_) => "A_Data_Individual.ind",
            Emi::ADataBroadcastReq(_) => "A_Data_Broadcast.req",
            Emi::ADataBroadcastCon(_) => "A_Data_Broadcast.con",
            Emi::ADataBroadcastInd(_) => "A_Data_Broadcast.ind",
            Emi::ADataConnectedReq(_) => "A_Data_Connected.req",
            Emi::ADataConnectedCon(_) => "A_Data_Connected.con",
            Emi::ADataConnectedInd(_) => "A_Data_Connected.ind",
            Emi::AUserDataConnectedReq(_) => "A_User_Data_Connected.req",
            Emi::AUserDataConnectedCon(_) => "A_User_Data_Connected.con",
            Emi::AUserDataConnectedInd(_) => "A_User_Data_Connected.ind",
            Emi::AUserDataUnconnectedReq(_) => "A_User_Data_Unconnected.req",
            Emi::AUserDataUnconnectedInd(_) => "A_User_Data_Unconnected.ind",
            Emi::Generic(g) => {
                return g.message_code;
            },
        };
        match get_emi_message_code(name) {
            Some(v) => v,
            None => match get_cemi_message_code(name) {
                Some(v) => v,
                None => 0,
            },
        }
    }
}

#[verifier::rlimit(100)]
fn parse_raw(buffer: &[u8], message_code: u8, name: &str, s: EmiService) -> (r: Result<Emi, KnxError>)
    requires
        buffer@.len() >= 1,
        message_code == buffer@[0],
        name@ == name_of_code(buffer@[0]),
        s == service_of_name(name@),
        s is LRawReq || s is LRawCon || s is LRawInd,
    ensures
        emi_parse_ok(buffer@) ==> (r matches Ok(e) && emi_parsed(buffer@, e)),
        !emi_parse_ok(buffer@) ==> r == Err::<Emi, KnxError>(KnxError::InvalidParametersForDpt),
{
    let lr = LRawEmi { message_code, data: tail(buffer, 1) };
    match s {
        EmiService::LRawReq => Ok(Emi::LRawReq(lr)),
        EmiService::LRawCon => Ok(Emi::LRawCon(lr)),
        _ => Ok(Emi::LRawInd(lr)),
    }
}

#[verifier::rlimit(100)]
fn parse_ldata(buffer: &[u8], message_code: u8, name: &str, s: EmiService) -> (r: Result<Emi, KnxError>)
    requires
        buffer@.len() >= 1,
        message_code == buffer@[0],
        name@ == name_of_code(buffer@[0]),
        s == service_of_name(name@),
        s is LDataReq || s is LDataCon || s is LDataInd || s is LSystemBroadcastReq || s is LSystemBroadcastCon || s is LSystemBroadcastInd,
    ensures
        emi_parse_ok(buffer@) ==> (r matches Ok(e) && emi_parsed(buffer@, e)),
        !emi_parse_ok(buffer@) ==> r == Err::<Emi, KnxError>(KnxError::InvalidParametersForDpt),
{
    if buffer.len() < 7 {
        return Err(KnxError::InvalidParametersForDpt);
    }
    let control_field1 = ControlField::new(buffer[1]);
    let source_address = source_of(buffer, name);
    let npdu = Npdu::from_buffer(vstd::slice::slice_subrange(buffer, 6, buffer.len()))?;
    let is_group = match npdu.address_type {
        crate::protocol::control_field_extended::AddressType::Group => true,
        crate::protocol::control_field_extended::AddressType::Individual => false,
    };
    let destination_address = address_at(buffer, 4, is_group);
    let ld = LDataEmi { message_code, control_field1, source_address, destination_address, npdu };
    match s {
        EmiService::LDataReq => Ok(Emi::LDataReq(ld)),
        EmiService::LDataCon => Ok(Emi::LDataCon(ld)),
        EmiService::LDataInd => Ok(Emi::LDataInd(ld)),
        EmiService::LSystemBroadcastReq => Ok(Emi::LSystemBroadcastReq(ld)),
        EmiService::LSystemBroadcastCon => Ok(Emi::LSystemBroadcastCon(ld)),
        _ => Ok(Emi::LSystemBroadcastInd(ld)),
    }
}

#[verifier::rlimit(100)]
fn parse_poll(buffer: &[u8], message_code: u8, name: &str, s: EmiService) -> (r: Result<Emi, KnxError>)
    requires
        buffer@.len() >= 1,
        message_code == buffer@[0],
        name@ == name_of_code(buffer@[0]),
        s == service_of_name(name@),
        s is LPollDataReq || s is LPollDataCon || s is NPollDataReq || s is NPollDataCon || s is TPollDataReq || s is TPollDataCon || s is APollDataReq || s is APollDataCon,
    ensures
        emi_parse_ok(buffer@) ==> (r matches Ok(e) && emi_parsed(buffer@, e)),
        !emi_parse_ok(buffer@) ==> r == Err::<Emi, KnxError>(KnxError::InvalidParametersForDpt),
{
    if buffer.len() < 7 {
        return Err(KnxError::InvalidParametersForDpt);
    }
    let control_field1 = ControlField::new(buffer[1]);
    let polling_group = read_u16_be(buffer, 4);
    let nr_of_slots = buffer[6] % 16;
    match s {
        EmiService::LPollDataReq => Ok(Emi::LPollDataReq(LPollDataEmi { message_code, control_field1, polling_group, nr_of_slots })),
        EmiService::LPollDataCon => Ok(Emi::LPollDataCon(LPollDataEmi { message_code, control_field1, polling_group, nr_of_slots })),
        EmiService::NPollDataReq => Ok(Emi::NPollDataReq(NPollDataEmi { message_code, control_field1, polling_group, nr_of_slots })),
        EmiService::NPollDataCon => Ok(Emi::NPollDataCon(NPollDataEmi { message_code, control_field1, polling_group, nr_of_slots })),
        EmiService::TPollDataReq => Ok(Emi::TPollDataReq(TPollDataEmi { message_code, control_field1, polling_group, nr_of_slots })),
        EmiService::TPollDataCon => Ok(Emi::TPollDataCon(TPollDataEmi { message_code, control_field1, polling_group, nr_of_slots })),
        EmiService::APollDataReq => Ok(Emi::APollDataReq(TPollDataEmi { message_code, control_field1, polling_group, nr_of_slots })),
        _ => Ok(Emi::APollDataCon(TPollDataEmi { message_code, control_field1, polling_group, nr_of_slots })),
    }
}

#[verifier::rlimit(100)]
fn parse_ndata(buffer: &[u8], message_code: u8, name: &str, s: EmiService) -> (r: Result<Emi, KnxError>)
    requires
        buffer@.len() >= 1,
        message_code == buffer@[0],
        name@ == name_of_code(buffer@[0]),
        s == service_of_name(name@),
        s is NDataIndividualReq || s is NDataIndividualCon || s is NDataIndividualInd || s is NDataGroupReq || s is NDataGroupCon || s is NDataGroupInd || s is NDataBroadcastReq || s is NDataBroadcastCon || s is NDataBroadcastInd,
    ensures
        emi_parse_ok(buffer@) ==> (r matches Ok(e) && emi_parsed(buffer@, e)),
        !emi_parse_ok(buffer@) ==> r == Err::<Emi, KnxError>(KnxError::InvalidParametersForDpt),
{
    if buffer.len() < 7 {
        return Err(KnxError::InvalidParametersForDpt);
    }
    let control_field1 = ControlField::new(buffer[1]);
    let source_address = source_of(buffer, name);
    let is_group = str_contains(name, "Group") || str_contains(name, "Broadcast");
    let destination_address = address_at(buffer, 4, is_group);
    let octet6 = buffer[6];
    let hop_count = octet6 / 16;
    let length = (octet6 % 16) as usize;
    if buffer.len() < 7 + length {
        return Err(KnxError::InvalidParametersForDpt);
    }
    let tpdu = Tpdu::from_buffer(vstd::slice::slice_subrange(buffer, 7, 7 + length))?;
    let nd = NDataEmi { message_code, control_field1, source_address, destination_address, hop_count, tpdu };
    match s {
        EmiService::NDataIndividualReq => Ok(Emi::NDataIndividualReq(nd)),
        EmiService::NDataIndividualCon => Ok(Emi::NDataIndividualCon(nd)),
        EmiService::NDataIndividualInd => Ok(Emi::NDataIndividualInd(nd)),
        EmiService::NDataGroupReq => Ok(Emi::NDataGroupReq(nd)),
        EmiService::NDataGroupCon => Ok(Emi::NDataGroupCon(nd)),
        EmiService::NDataGroupInd => Ok(Emi::NDataGroupInd(nd)),
        EmiService::NDataBroadcastReq => Ok(Emi::NDataBroadcastReq(nd)),
        EmiService::NDataBroadcastCon => Ok(Emi::NDataBroadcastCon(nd)),
        _ => Ok(Emi::NDataBroadcastInd(nd)),
    }
}

#[verifier::rlimit(100)]
fn parse_tconnect(buffer: &[u8], message_code: u8, name: &str, s: EmiService) -> (r: Result<Emi, KnxError>)
    requires
        buffer@.len() >= 1,
        message_code == buffer@[0],
        name@ == name_of_code(buffer@[0]),
        s == service_of_name(name@),
        s is TConnectReq || s is TDisconnectReq || s is TConnectCon || s is TConnectInd || s is TDisconnectCon || s is TDisconnectInd || s is MConnectInd || s is MDisconnectInd,
    ensures
        emi_parse_ok(buffer@) ==> (r matches Ok(e) && emi_parsed(buffer@, e)),
        !emi_parse_ok(buffer@) ==> r == Err::<Emi, KnxError>(KnxError::InvalidParametersForDpt),
{
    if matches!(s, EmiService::TConnectReq | EmiService::TDisconnectReq) {
        if buffer.len() < 6 {
            return Err(KnxError::InvalidParametersForDpt);
        }
        let tc = TConnectDisconnectEmi { message_code, control: buffer[1], address: address_at(buffer, 4, false) };
        match s {
            EmiService::TConnectReq => Ok(Emi::TConnectReq(tc)),
            _ => Ok(Emi::TDisconnectReq(tc)),
        }
    } else {
        if buffer.len() < 4 {
            return Err(KnxError::InvalidParametersForDpt);
        }
        let tc = TConnectDisconnectEmi { message_code, control: buffer[1], address: address_at(buffer, 2, false) };
        match s {
            EmiService::TConnectCon => Ok(Emi::TConnectCon(tc)),
            EmiService::TConnectInd => Ok(Emi::TConnectInd(tc)),
            EmiService::TDisconnectCon => Ok(Emi::TDisconnectCon(tc)),
            EmiService::TDisconnectInd => Ok(Emi::TDisconnectInd(tc)),
            EmiService::MConnectInd => Ok(Emi::MConnectInd(tc)),
            _ => Ok(Emi::MDisconnectInd(tc)),
        }
    }
}

#[verifier::rlimit(100)]
fn parse_tdata(buffer: &[u8], message_code: u8, name: &str, s: EmiService) -> (r: Result<Emi, KnxError>)
    requires
        buffer@.len() >= 1,
        message_code == buffer@[0],
        name@ == name_of_code(buffer@[0]),
        s == service_of_name(name@),
        s is TDataConnectedReq || s is TDataConnectedCon || s is TDataConnectedInd || s is TDataGroupReq || s is TDataGroupCon || s is TDataGroupInd || s is TDataIndividualReq || s is TDataIndividualCon || s is TDataIndividualInd || s is TDataBroadcastReq || s is TDataBroadcastCon || s is TDataBroadcastInd || s is MUserDataConnectedReq || s is MUserDataConnectedCon || s is MUserDataConnectedInd || s is MUserDataIndividualReq || s is MUserDataIndividualCon || s is MUserDataIndividualInd || s is ADataGroupReq || s is ADataGroupCon || s is ADataGroupInd || s is ADataIndividualReq || s is ADataIndividualCon || s is ADataIndividualInd || s is ADataBroadcastReq || s is ADataBroadcastCon || s is ADataBroadcastInd || s is ADataConnectedReq || s is ADataConnectedCon || s is ADataConnectedInd || s is AUserDataConnectedReq || s is AUserDataConnectedCon || s is AUserDataConnectedInd || s is AUserDataUnconnectedReq || s is AUserDataUnconnectedInd,
    ensures
        emi_parse_ok(buffer@) ==> (r matches Ok(e) && emi_parsed(buffer@, e)),
        !emi_parse_ok(buffer@) ==> r == Err::<Emi, KnxError>(KnxError::InvalidParametersForDpt),
{
    if buffer.len() < 7 {
        return Err(KnxError::InvalidParametersForDpt);
    }
    let control_field1 = ControlField::new(buffer[1]);
    let is_ind = str_ends_with(name, ".ind");
    let is_con = str_ends_with(name, ".con");
    let source_address = source_of(buffer, name);
    let is_group = str_contains(name, "Group") || str_contains(name, "Broadcast");
    let destination_address = if !is_ind && !is_con {
        address_at(buffer, 4, is_group)
    } else {
        string_of("0.0.0")
    };
    let sap = buffer[5];
    let octet6 = buffer[6];
    let hop_count = (octet6 / 16) % 8;
    let length = (octet6 % 16) as usize;
    if buffer.len() < 7 + length {
        return Err(KnxError::InvalidParametersForDpt);
    }
    let apdu = Apdu::from_buffer(vstd::slice::slice_subrange(buffer, 7, 7 + length))?;
    let td = TDataEmi { message_code, control_field1, source_address, destination_address, sap, hop_count, apdu };
    match s {
        EmiService::TDataConnectedReq => Ok(Emi::TDataConnectedReq(td)),
        EmiService::TDataConnectedCon => Ok(Emi::TDataConnectedCon(td)),
        EmiService::TDataConnectedInd => Ok(Emi::TDataConnectedInd(td)),
        EmiService::TDataGroupReq => Ok(Emi::TDataGroupReq(td)),
        EmiService::TDataGroupCon => Ok(Emi::TDataGroupCon(td)),
        EmiService::TDataGroupInd => Ok(Emi::TDataGroupInd(td)),
        EmiService::TDataIndividualReq => Ok(Emi::TDataIndividualReq(td)),
        EmiService::TDataIndividualCon => Ok(Emi::TDataIndividualCon(td)),
        EmiService::TDataIndividualInd => Ok(Emi::TDataIndividualInd(td)),
        EmiService::TDataBroadcastReq => Ok(Emi::TDataBroadcastReq(td)),
        EmiService::TDataBroadcastCon => Ok(Emi::TDataBroadcastCon(td)),
        EmiService::TDataBroadcastInd => Ok(Emi::TDataBroadcastInd(td)),
        EmiService::MUserDataConnectedReq => Ok(Emi::MUserDataConnectedReq(td)),
        EmiService::MUserDataConnectedCon => Ok(Emi::MUserDataConnectedCon(td)),
        EmiService::MUserDataConnectedInd => Ok(Emi::MUserDataConnectedInd(td)),
        EmiService::MUserDataIndividualReq => Ok(Emi::MUserDataIndividualReq(td)),
        EmiService::MUserDataIndividualCon => Ok(Emi::MUserDataIndividualCon(td)),
        EmiService::MUserDataIndividualInd => Ok(Emi::MUserDataIndividualInd(td)),
        EmiService::ADataGroupReq => Ok(Emi::ADataGroupReq(td)),
        EmiService::ADataGroupCon => Ok(Emi::ADataGroupCon(td)),
        EmiService::ADataGroupInd => Ok(Emi::ADataGroupInd(td)),
        EmiService::ADataIndividualReq => Ok(Emi::ADataIndividualReq(td)),
        EmiService::ADataIndividualCon => Ok(Emi::ADataIndividualCon(td)),
        EmiService::ADataIndividualInd => Ok(Emi::ADataIndividualInd(td)),
        EmiService::ADataBroadcastReq => Ok(Emi::ADataBroadcastReq(td)),
        EmiService::ADataBroadcastCon => Ok(Emi::ADataBroadcastCon(td)),
        EmiService::ADataBroadcastInd => Ok(Emi::ADataBroadcastInd(td)),
        EmiService::ADataConnectedReq => Ok(Emi::ADataConnectedReq(td)),
        EmiService::ADataConnectedCon => Ok(Emi::ADataConnectedCon(td)),
        EmiService::ADataConnectedInd => Ok(Emi::ADataConnectedInd(td)),
        EmiService::AUserDataConnectedReq => Ok(Emi::AUserDataConnectedReq(td)),
        EmiService::AUserDataConnectedCon => Ok(Emi::AUserDataConnectedCon(td)),
        EmiService::AUserDataConnectedInd => Ok(Emi::AUserDataConnectedInd(td)),
        EmiService::AUserDataUnconnectedReq => Ok(Emi::AUserDataUnconnectedReq(td)),
        _ => Ok(Emi::AUserDataUnconnectedInd(td)),
    }
}

#[verifier::rlimit(100)]
fn parse_mprop(buffer: &[u8], message_code: u8, name: &str, s: EmiService) -> (r: Result<Emi, KnxError>)
    requires
        buffer@.len() >= 1,
        message_code == buffer@[0],
        name@ == name_of_code(buffer@[0]),
        s == service_of_name(name@),
        s is MPropReadReq || s is MPropReadCon || s is MPropWriteReq || s is MPropInfoInd || s is MPropWriteCon,
    ensures
        emi_parse_ok(buffer@) ==> (r matches Ok(e) && emi_parsed(buffer@, e)),
        !emi_parse_ok(buffer@) ==> r == Err::<Emi, KnxError>(KnxError::InvalidParametersForDpt),
{
    if buffer.len() < 7 {
        return Err(KnxError::InvalidParametersForDpt);
    }
    let interface_object_type = read_u16_be(buffer, 1);
    let object_instance = buffer[3];
    let property_id = buffer[4];
    let w = read_u16_be(buffer, 5);
    let start_index = w % 4096;
    let number_of_elements = (w / 4096) as u8;
    match s {
        EmiService::MPropReadReq => Ok(Emi::MPropReadReq(MProp { interface_object_type, object_instance, property_id, number_of_elements, start_index })),
        EmiService::MPropWriteCon => {
            let error_info = if number_of_elements == 0 && buffer.len() >= 8 {
                buffer[7]
            } else {
                0
            };
            Ok(Emi::MPropWriteCon(MPropWriteConfirm { interface_object_type, object_instance, property_id, number_of_elements, start_index, error_info }))
        },
        _ => {
            let mp = MPropWithPayload { interface_object_type, object_instance, property_id, number_of_elements, start_index, data: tail(buffer, 7) };
            match s {
                EmiService::MPropReadCon => Ok(Emi::MPropReadCon(mp)),
                EmiService::MPropWriteReq => Ok(Emi::MPropWriteReq(mp)),
                _ => Ok(Emi::MPropInfoInd(mp)),
            }
        },
    }
}

#[verifier::rlimit(100)]
fn parse_mfunc(buffer: &[u8], message_code: u8, name: &str, s: EmiService) -> (r: Result<Emi, KnxError>)
    requires
        buffer@.len() >= 1,
        message_code == buffer@[0],
        name@ == name_of_code(buffer@[0]),
        s == service_of_name(name@),
        s is MFuncPropCommandReq || s is MFuncPropStateReadReq || s is MFuncPropCommandCon || s is MFuncPropStateReadCon,
    ensures
        emi_parse_ok(buffer@) ==> (r matches Ok(e) && emi_parsed(buffer@, e)),
        !emi_parse_ok(buffer@) ==> r == Err::<Emi, KnxError>(KnxError::InvalidParametersForDpt),
{
    if matches!(s, EmiService::MFuncPropCommandReq | EmiService::MFuncPropStateReadReq) {
        if buffer.len() < 5 {
            return Err(KnxError::InvalidParametersForDpt);
        }
        let mf = MFuncProp { interface_object_type: read_u16_be(buffer, 1), object_instance: buffer[3], property_id: buffer[4], data: tail(buffer, 5) };
        match s {
            EmiService::MFuncPropCommandReq => Ok(Emi::MFuncPropCommandReq(mf)),
            _ => Ok(Emi::MFuncPropStateReadReq(mf)),
        }
    } else {
        if buffer.len() < 6 {
            return Err(KnxError::InvalidParametersForDpt);
        }
        let mf = MFuncPropWithReturn { interface_object_type: read_u16_be(buffer, 1), object_instance: buffer[3], property_id: buffer[4], return_code: buffer[5], data: tail(buffer, 6) };
        match s {
            EmiService::MFuncPropCommandCon => Ok(Emi::MFuncPropCommandCon(mf)),
            _ => Ok(Emi::MFuncPropStateReadCon(mf)),
        }
    }
}

impl Emi {
    /// The message held by `buffer`: its message code names a service,
    /// whose layout is read; a code of no known service gives a generic
    /// message.
    pub fn from_buffer(buffer: &[u8]) -> (r: Result<Self, KnxError>)
        ensures
            emi_parse_ok(buffer@) ==> (r matches Ok(e) && emi_parsed(buffer@, e)),
            !emi_parse_ok(buffer@) ==> r == Err::<Self, KnxError>(KnxError::InvalidParametersForDpt),
    {
        if buffer.len() == 0 {
            return Err(KnxError::InvalidParametersForDpt);
        }
        let message_code = buffer[0];
        let name = name_of_code_exec(message_code);
        let s = service_of_name_exec(name);
        match s {
            EmiService::PeiSwitchReq => {
                if buffer.len() < 2 {
                    return Err(KnxError::InvalidParametersForDpt);
                }
                Ok(Emi::PeiSwitchReq(PeiSwitchEmi { message_code, control: buffer[1] }))
            },
            EmiService::LBusmonInd => Ok(Emi::LBusmonInd(LBusmonEmi { message_code, data: tail(buffer, 1) })),
            EmiService::LPlainDataReq => {
                if buffer.len() < 6 {
                    return Err(KnxError::InvalidParametersForDpt);
                }
                let time = read_u32_be(buffer, 2);
                Ok(Emi::LPlainDataReq(LPlainDataEmi { message_code, time, data: tail(buffer, 6) }))
            },
            EmiService::MResetReq => Ok(Emi::MResetReq),
            EmiService::MResetInd => Ok(Emi::MResetInd),
            EmiService::Other => Ok(Emi::Generic(GenericEmiMessage { message_code, data: tail(buffer, 1) })),
            _ => {
                if matches!(s, EmiService::LRawReq | EmiService::LRawCon | EmiService::LRawInd) {
                    parse_raw(buffer, message_code, name, s)
                } else if matches!(s, EmiService::LDataReq | EmiService::LDataCon | EmiService::LDataInd | EmiService::LSystemBroadcastReq | EmiService::LSystemBroadcastCon | EmiService::LSystemBroadcastInd) {
                    parse_ldata(buffer, message_code, name, s)
                } else if matches!(s, EmiService::LPollDataReq | EmiService::LPollDataCon | EmiService::NPollDataReq | EmiService::NPollDataCon | EmiService::TPollDataReq | EmiService::TPollDataCon | EmiService::APollDataReq | EmiService::APollDataCon) {
                    parse_poll(buffer, message_code, name, s)
                } else if matches!(s, EmiService::NDataIndividualReq | EmiService::NDataIndividualCon | EmiService::NDataIndividualInd | EmiService::NDataGroupReq | EmiService::NDataGroupCon | EmiService::NDataGroupInd | EmiService::NDataBroadcastReq | EmiService::NDataBroadcastCon | EmiService::NDataBroadcastInd) {
                    parse_ndata(buffer, message_code, name, s)
                } else if matches!(s, EmiService::TConnectReq | EmiService::TDisconnectReq | EmiService::TConnectCon | EmiService::TConnectInd | EmiService::TDisconnectCon | EmiService::TDisconnectInd | EmiService::MConnectInd | EmiService::MDisconnectInd) {
                    parse_tconnect(buffer, message_code, name, s)
                } else if matches!(s, EmiService::TDataConnectedReq | EmiService::TDataConnectedCon | EmiService::TDataConnectedInd | EmiService::TDataGroupReq | EmiService::TDataGroupCon | EmiService::TDataGroupInd | EmiService::TDataIndividualReq | EmiService::TDataIndividualCon | EmiService::TDataIndividualInd | EmiService::TDataBroadcastReq | EmiService::TDataBroadcastCon | EmiService::TDataBroadcastInd | EmiService::MUserDataConnectedReq | EmiService::MUserDataConnectedCon | EmiService::MUserDataConnectedInd | EmiService::MUserDataIndividualReq | EmiService::MUserDataIndividualCon | EmiService::MUserDataIndividualInd | EmiService::ADataGroupReq | EmiService::ADataGroupCon | EmiService::ADataGroupInd | EmiService::ADataIndividualReq | EmiService::ADataIndividualCon | EmiService::ADataIndividualInd | EmiService::ADataBroadcastReq | EmiService::ADataBroadcastCon | EmiService::ADataBroadcastInd | EmiService::ADataConnectedReq | EmiService::ADataConnectedCon | EmiService::ADataConnectedInd | EmiService::AUserDataConnectedReq | EmiService::AUserDataConnectedCon | EmiService::AUserDataConnectedInd | EmiService::AUserDataUnconnectedReq | EmiService::AUserDataUnconnectedInd) {
                    parse_tdata(buffer, message_code, name, s)
                } else if matches!(s, EmiService::MPropReadReq | EmiService::MPropReadCon | EmiService::MPropWriteReq | EmiService::MPropInfoInd | EmiService::MPropWriteCon) {
                    parse_mprop(buffer, message_code, name, s)
                } else {
                    parse_mfunc(buffer, message_code, name, s)
                }
            },
        }
    }
}

#[verifier::rlimit(100)]
fn ldata_bytes(e: &Emi, code: u8) -> (b: Vec<u8>)
    requires
        code == emi_code(*e),
        emi_fits(*e),
        match *e {
            Emi::LDataReq(_) | Emi::LDataCon(_) | Emi::LDataInd(_) | Emi::LSystemBroadcastReq(_) | Emi::LSystemBroadcastCon(_) | Emi::LSystemBroadcastInd(_) => true,
            _ => false,
        },
    ensures
        b@ == emi_bytes(*e),
{
    let mut b: Vec<u8> = Vec::new();
    match e {
        Emi::LDataReq(x) | Emi::LDataCon(x) | Emi::LDataInd(x) | Emi::LSystemBroadcastReq(x) | Emi::LSystemBroadcastCon(x) | Emi::LSystemBroadcastInd(x) => {
            let n = x.npdu.to_buffer();
            b.push(code);
            b.push(x.control_field1.get_buffer()[0]);
            let ind = match e {
                Emi::LDataInd(_) | Emi::LSystemBroadcastInd(_) => true,
                _ => false,
            };
            if ind {
                push_addr(&mut b, x.source_address.as_str());
            } else {
                b.push(0);
                b.push(0);
            }
            push_addr(&mut b, x.destination_address.as_str());
            b.extend_from_slice(n.as_slice());
        },
        _ => {},
    }
    assert(b@ =~= emi_bytes(*e));
    b
}

#[verifier::rlimit(100)]
fn ndata_bytes(e: &Emi, code: u8) -> (b: Vec<u8>)
    requires
        code == emi_code(*e),
        emi_fits(*e),
        match *e {
            Emi::NDataIndividualReq(_) | Emi::NDataIndividualCon(_) | Emi::NDataIndividualInd(_) | Emi::NDataGroupReq(_) | Emi::NDataGroupCon(_) | Emi::NDataGroupInd(_) | Emi::NDataBroadcastReq(_) | Emi::NDataBroadcastCon(_) | Emi::NDataBroadcastInd(_) => true,
            _ => false,
        },
    ensures
        b@ == emi_bytes(*e),
{
    let mut b: Vec<u8> = Vec::new();
    match e {
        Emi::NDataIndividualReq(x) | Emi::NDataIndividualCon(x) | Emi::NDataIndividualInd(x) | Emi::NDataGroupReq(x) | Emi::NDataGroupCon(x) | Emi::NDataGroupInd(x) | Emi::NDataBroadcastReq(x) | Emi::NDataBroadcastCon(x) | Emi::NDataBroadcastInd(x) => {
            let t = x.tpdu.to_buffer();
            b.push(code);
            b.push(x.control_field1.get_buffer()[0]);
            let ind = match e {
                Emi::NDataIndividualInd(_) | Emi::NDataGroupInd(_) | Emi::NDataBroadcastInd(_) => true,
                _ => false,
            };
            if ind {
                push_addr(&mut b, x.source_address.as_str());
            } else {
                b.push(0);
                b.push(0);
            }
            push_addr(&mut b, x.destination_address.as_str());
            b.push((x.hop_count % 16) * 16 + (t.len() % 16) as u8);
            b.extend_from_slice(t.as_slice());
        },
        _ => {},
    }
    assert(b@ =~= emi_bytes(*e));
    b
}

#[verifier::rlimit(100)]
fn tdata_bytes(e: &Emi, code: u8) -> (b: Vec<u8>)
    requires
        code == emi_code(*e),
        emi_fits(*e),
        match *e {
            Emi::TDataConnectedReq(_) | Emi::TDataConnectedCon(_) | Emi::TDataConnectedInd(_) | Emi::TDataGroupReq(_) | Emi::TDataGroupCon(_) | Emi::TDataGroupInd(_) | Emi::TDataIndividualReq(_) | Emi::TDataIndividualCon(_) | Emi::TDataIndividualInd(_) | Emi::TDataBroadcastReq(_) | Emi::TDataBroadcastCon(_) | Emi::TDataBroadcastInd(_) | Emi::MUserDataConnectedReq(_) | Emi::MUserDataConnectedCon(_) | Emi::MUserDataConnectedInd(_) | Emi::MUserDataIndividualReq(_) | Emi::MUserDataIndividualCon(_) | Emi::MUserDataIndividualInd(_) | Emi::ADataGroupReq(_) | Emi::ADataGroupCon(_) | Emi::ADataGroupInd(_) | Emi::ADataIndividualReq(_) | Emi::ADataIndividualCon(_) | Emi::ADataIndividualInd(_) | Emi::ADataBroadcastReq(_) | Emi::ADataBroadcastCon(_) | Emi::ADataBroadcastInd(_) | Emi::ADataConnectedReq(_) | Emi::ADataConnectedCon(_) | Emi::ADataConnectedInd(_) | Emi::AUserDataConnectedReq(_) | Emi::AUserDataConnectedCon(_) | Emi::AUserDataConnectedInd(_) | Emi::AUserDataUnconnectedReq(_) | Emi::AUserDataUnconnectedInd(_) => true,
            _ => false,
        },
    ensures
        b@ == emi_bytes(*e),
{
    let mut b: Vec<u8> = Vec::new();
    match e {
        Emi::TDataConnectedReq(x) | Emi::TDataConnectedCon(x) | Emi::TDataConnectedInd(x) | Emi::TDataGroupReq(x) | Emi::TDataGroupCon(x) | Emi::TDataGroupInd(x) | Emi::TDataIndividualReq(x) | Emi::TDataIndividualCon(x) | Emi::TDataIndividualInd(x) | Emi::TDataBroadcastReq(x) | Emi::TDataBroadcastCon(x) | Emi::TDataBroadcastInd(x) | Emi::MUserDataConnectedReq(x) | Emi::MUserDataConnectedCon(x) | Emi::MUserDataConnectedInd(x) | Emi::MUserDataIndividualReq(x) | Emi::MUserDataIndividualCon(x) | Emi::MUserDataIndividualInd(x) | Emi::ADataGroupReq(x) | Emi::ADataGroupCon(x) | Emi::ADataGroupInd(x) | Emi::ADataIndividualReq(x) | Emi::ADataIndividualCon(x) | Emi::ADataIndividualInd(x) | Emi::ADataBroadcastReq(x) | Emi::ADataBroadcastCon(x) | Emi::ADataBroadcastInd(x) | Emi::ADataConnectedReq(x) | Emi::ADataConnectedCon(x) | Emi::ADataConnectedInd(x) | Emi::AUserDataConnectedReq(x) | Emi::AUserDataConnectedCon(x) | Emi::AUserDataConnectedInd(x) | Emi::AUserDataUnconnectedReq(x) | Emi::AUserDataUnconnectedInd(x) => {
            let a = x.apdu.to_buffer();
            let n = emi_name_of_code_exec(code);
            let ind = str_ends_with(n, ".ind");
            let con = str_ends_with(n, ".con");
            b.push(code);
            b.push(x.control_field1.get_buffer()[0]);
            if ind {
                push_addr(&mut b, x.source_address.as_str());
            } else {
                b.push(0);
                b.push(0);
            }
            let d = if !ind && !con {
                let mut t: Vec<u8> = Vec::new();
                push_addr(&mut t, x.destination_address.as_str());
                t[0]
            } else {
                0
            };
            b.push(d);
            b.push(x.sap);
            b.push((x.hop_count % 8) * 16 + (a.len() % 16) as u8);
            b.extend_from_slice(a.as_slice());
        },
        _ => {},
    }
    assert(b@ =~= emi_bytes(*e));
    b
}

#[verifier::rlimit(100)]
fn other_bytes(e: &Emi, code: u8) -> (b: Vec<u8>)
    requires
        code == emi_code(*e),
        emi_fits(*e),
        match *e {
            Emi::LPollDataReq(_) | Emi::LPollDataCon(_) | Emi::NPollDataReq(_) | Emi::NPollDataCon(_) | Emi::TPollDataReq(_) | Emi::TPollDataCon(_) | Emi::APollDataReq(_) | Emi::APollDataCon(_) | Emi::TConnectReq(_) | Emi::TDisconnectReq(_) | Emi::TConnectCon(_) | Emi::TConnectInd(_) | Emi::TDisconnectCon(_) | Emi::TDisconnectInd(_) | Emi::MConnectInd(_) | Emi::MDisconnectInd(_) | Emi::MPropReadReq(_) | Emi::MPropReadCon(_) | Emi::MPropWriteReq(_) | Emi::MPropInfoInd(_) | Emi::MPropWriteCon(_) | Emi::MFuncPropCommandReq(_) | Emi::MFuncPropStateReadReq(_) | Emi::MFuncPropCommandCon(_) | Emi::MFuncPropStateReadCon(_) => true,
            _ => false,
        },
    ensures
        b@ == emi_bytes(*e),
{
    let mut b: Vec<u8> = Vec::new();
    match e {
        Emi::LPollDataReq(x) | Emi::LPollDataCon(x) => {
            b.push(code);
            b.push(x.control_field1.get_buffer()[0]);
            b.push(0);
            b.push(0);
            push_word(&mut b, x.polling_group);
            b.push(x.nr_of_slots % 16);
        },
        Emi::NPollDataReq(x) | Emi::NPollDataCon(x) => {
            b.push(code);
            b.push(x.control_field1.get_buffer()[0]);
            b.push(0);
            b.push(0);
            push_word(&mut b, x.polling_group);
            b.push(x.nr_of_slots % 16);
        },
        Emi::TPollDataReq(x) | Emi::TPollDataCon(x) | Emi::APollDataReq(x) | Emi::APollDataCon(x) => {
            b.push(code);
            b.push(x.control_field1.get_buffer()[0]);
            b.push(0);
            b.push(0);
            push_word(&mut b, x.polling_group);
            b.push(x.nr_of_slots % 16);
        },
        Emi::TConnectReq(x) | Emi::TDisconnectReq(x) => {
            b.push(code);
            b.push(x.control);
            b.push(0);
            b.push(0);
            push_addr(&mut b, x.address.as_str());
        },
        Emi::TConnectCon(x) | Emi::TConnectInd(x) | Emi::TDisconnectCon(x) | Emi::TDisconnectInd(x) | Emi::MConnectInd(x) | Emi::MDisconnectInd(x) => {
            b.push(code);
            b.push(x.control);
            push_addr(&mut b, x.address.as_str());
            b.push(0);
            b.push(0);
        },
        Emi::MPropReadReq(x) => {
            b.push(code);
            push_prop(&mut b, x.interface_object_type, x.object_instance, x.property_id);
            push_word(&mut b, prop_word_exec(x.number_of_elements, x.start_index));
        },
        Emi::MPropReadCon(x) | Emi::MPropWriteReq(x) | Emi::MPropInfoInd(x) => {
            b.push(code);
            push_prop(&mut b, x.interface_object_type, x.object_instance, x.property_id);
            push_word(&mut b, prop_word_exec(x.number_of_elements, x.start_index));
            b.extend_from_slice(x.data.as_slice());
        },
        Emi::MPropWriteCon(x) => {
            b.push(code);
            push_prop(&mut b, x.interface_object_type, x.object_instance, x.property_id);
            push_word(&mut b, prop_word_exec(x.number_of_elements, x.start_index));
            if x.number_of_elements == 0 {
                b.push(x.error_info);
            }
        },
        Emi::MFuncPropCommandReq(x) | Emi::MFuncPropStateReadReq(x) => {
            b.push(code);
            push_prop(&mut b, x.interface_object_type, x.object_instance, x.property_id);
            b.extend_from_slice(x.data.as_slice());
        },
        Emi::MFuncPropCommandCon(x) | Emi::MFuncPropStateReadCon(x) => {
            b.push(code);
            push_prop(&mut b, x.interface_object_type, x.object_instance, x.property_id);
            b.push(x.return_code);
            b.extend_from_slice(x.data.as_slice());
        },
        _ => {},
    }
    assert(b@ =~= emi_bytes(*e));
    b
}

impl Emi {
    /// The octets of the message.
    pub fn to_buffer(&self) -> (b: Vec<u8>)
        requires
            emi_fits(*self),
        ensures
            b@ == emi_bytes(*self),
    {
        let code = self.get_message_code();
        match self {
            Emi::PeiSwitchReq(x) => {
                let b = vec![code, x.control];
                assert(b@ =~= emi_bytes(*self));
                b
            },
            Emi::LBusmonInd(x) => {
                let mut b = vec![code];
                b.extend_from_slice(x.data.as_slice());
                assert(b@ =~= emi_bytes(*self));
                b
            },
            Emi::LRawReq(x) | Emi::LRawCon(x) | Emi::LRawInd(x) => {
                let mut b = vec![code];
                b.extend_from_slice(x.data.as_slice());
                assert(b@ =~= emi_bytes(*self));
                b
            },
            Emi::LPlainDataReq(x) => {
                let mut b = vec![code, 0];
                b.push((x.time / 16777216) as u8);
                b.push(((x.time / 65536) % 256) as u8);
                b.push(((x.time / 256) % 256) as u8);
                b.push((x.time % 256) as u8);
                b.extend_from_slice(x.data.as_slice());
                assert(b@ =~= emi_bytes(*self));
                b
            },
            Emi::LDataReq(_) | Emi::LDataCon(_) | Emi::LDataInd(_) | Emi::LSystemBroadcastReq(_) | Emi::LSystemBroadcastCon(_) | Emi::LSystemBroadcastInd(_) => ldata_bytes(self, code),
            Emi::NDataIndividualReq(_) | Emi::NDataIndividualCon(_) | Emi::NDataIndividualInd(_) | Emi::NDataGroupReq(_) | Emi::NDataGroupCon(_) | Emi::NDataGroupInd(_) | Emi::NDataBroadcastReq(_) | Emi::NDataBroadcastCon(_) | Emi::NDataBroadcastInd(_) => ndata_bytes(self, code),
            Emi::TDataConnectedReq(_) | Emi::TDataConnectedCon(_) | Emi::TDataConnectedInd(_) | Emi::TDataGroupReq(_) | Emi::TDataGroupCon(_) | Emi::TDataGroupInd(_) | Emi::TDataIndividualReq(_) | Emi::TDataIndividualCon(_) | Emi::TDataIndividualInd(_) | Emi::TDataBroadcastReq(_) | Emi::TDataBroadcastCon(_) | Emi::TDataBroadcastInd(_) | Emi::MUserDataConnectedReq(_) | Emi::MUserDataConnectedCon(_) | Emi::MUserDataConnectedInd(_) | Emi::MUserDataIndividualReq(_) | Emi::MUserDataIndividualCon(_) | Emi::MUserDataIndividualInd(_) | Emi::ADataGroupReq(_) | Emi::ADataGroupCon(_) | Emi::ADataGroupInd(_) | Emi::ADataIndividualReq(_) | Emi::ADataIndividualCon(_) | Emi::ADataIndividualInd(_) | Emi::ADataBroadcastReq(_) | Emi::ADataBroadcastCon(_) | Emi::ADataBroadcastInd(_) | Emi::ADataConnectedReq(_) | Emi::ADataConnectedCon(_) | Emi::ADataConnectedInd(_) | Emi::AUserDataConnectedReq(_) | Emi::AUserDataConnectedCon(_) | Emi::AUserDataConnectedInd(_) | Emi::AUserDataUnconnectedReq(_) | Emi::AUserDataUnconnectedInd(_) => tdata_bytes(self, code),
            Emi::MResetReq | Emi::MResetInd => {
                let b = vec![code];
                assert(b@ =~= emi_bytes(*self));
                b
            },
            Emi::Generic(x) => {
                let mut b = vec![x.message_code];
                b.extend_from_slice(x.data.as_slice());
                assert(b@ =~= emi_bytes(*self));
                b
            },
            _ => other_bytes(self, code),
        }
    }
}

/// The source address of a data frame: read from octets 2..4 when the
/// service is an indication, else `0.0.0`.
fn source_of(buffer: &[u8], name: &str) -> (s: String)
    requires
        buffer@.len() >= 4,
    ensures
        src_parsed(buffer@, name@, s@),
{
    if str_ends_with(name, ".ind") {
        address_at(buffer, 2, false)
    } else {
        string_of("0.0.0")
    }
}

/// The address text of the two octets at `at`: a three-level group
/// address when `group`, else an individual address.
fn address_at(buffer: &[u8], at: usize, group: bool) -> (s: String)
    requires
        at + 2 <= buffer@.len(),
    ensures
        s@ == address_text(buffer@[at as int], buffer@[at + 1], group, group),
{
    let n = buffer.len();
    assert(at + 2 <= n);
    proof {
        reveal_strlit("/");
        reveal_strlit(".");
        assert("."@[0] != "/"@[0]);
        assert("."@ != "/"@);
    }
    let sep = if group {
        "/"
    } else {
        "."
    };
    let sl = vstd::slice::slice_subrange(buffer, at, at + 2);
    assert(sl@.len() == 2 && sl@[0] == buffer@[at as int] && sl@[1] == buffer@[at + 1]);
    match KnxHelper::get_address_to_string(sl, sep, group) {
        Ok(s) => s,
        Err(_) => String::new(),
    }
}

} // verus!
