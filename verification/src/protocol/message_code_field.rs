//! The message codes of the external message interfaces (IMI1, EMI1,
//! EMI2/IMI2 and cEMI) and the services they stand for.
use crate::utils::text::str_eq;
use vstd::prelude::*;

verus! {

/// Message codes of the common EMI.
pub struct CemiMessageCodes;

impl CemiMessageCodes {
    pub const L_BUSMON_IND: u8 = 0x2B;
    pub const L_DATA_REQ: u8 = 0x11;
    pub const L_DATA_CON: u8 = 0x2E;
    pub const L_DATA_IND: u8 = 0x29;
    pub const L_RAW_REQ: u8 = 0x10;
    pub const L_RAW_IND: u8 = 0x2D;
    pub const L_RAW_CON: u8 = 0x2F;
    pub const L_POLL_DATA_REQ: u8 = 0x13;
    pub const L_POLL_DATA_CON: u8 = 0x25;
    pub const T_DATA_CONNECTED_REQ: u8 = 0x41;
    pub const T_DATA_CONNECTED_IND: u8 = 0x89;
    pub const T_DATA_INDIVIDUAL_REQ: u8 = 0x4A;
    pub const T_DATA_INDIVIDUAL_IND: u8 = 0x94;
    pub const M_PROP_READ_REQ: u8 = 0xFC;
    pub const M_PROP_READ_CON: u8 = 0xFB;
    pub const M_PROP_WRITE_REQ: u8 = 0xF6;
    pub const M_PROP_WRITE_CON: u8 = 0xF5;
    pub const M_PROP_INFO_IND: u8 = 0xF7;
    pub const M_FUNC_PROP_COMMAND_REQ: u8 = 0xF8;
    pub const M_FUNC_PROP_STATE_READ_REQ: u8 = 0xF9;
    pub const M_FUNC_PROP_COMMAND_CON: u8 = 0xFA;
    pub const M_RESET_REQ: u8 = 0xF1;
    pub const M_RESET_IND: u8 = 0xF0;
}

/// Message codes of EMI2.
pub struct EmiMessageCodes;

impl EmiMessageCodes {
    pub const L_BUSMON_IND: u8 = 0x2B;
    pub const L_DATA_REQ: u8 = 0x11;
    pub const L_DATA_CON: u8 = 0x2E;
    pub const L_DATA_IND: u8 = 0x29;
    pub const L_RAW_REQ: u8 = 0x10;
    pub const L_RAW_IND: u8 = 0x2D;
    pub const L_RAW_CON: u8 = 0x2F;
}

/// Layers and parts a message is delivered to by default.
#[derive(Debug, Clone, Copy, PartialEq, Eq, Structural)]
pub enum DefaultDestination {
    DLL,
    NL,
    TL,
    TLG,
    TLC,
    TLL,
    AL,
    ALG,
    MAN,
    PEI,
    USR,
    CemiServer,
    CemiClient,
}

/// A message code in one interface standard and its default destinations.
#[derive(Debug, Clone)]
pub struct MessageCodeStandardInfo {
    pub value: u8,
    pub destinations: Vec<DefaultDestination>,
}

/// A service and its message code in each interface standard.
#[derive(Debug, Clone)]
pub struct MessageCodeEntry {
    pub service_name: &'static str,
    pub imi1: Option<MessageCodeStandardInfo>,
    pub emi1: Option<MessageCodeStandardInfo>,
    pub emi2_imi2: Option<MessageCodeStandardInfo>,
    pub cemi: Option<MessageCodeStandardInfo>,
}

/// A message code and its destinations, as plain values.
pub type CodeInfo = Option<(u8, Seq<DefaultDestination>)>;

/// A table row as plain values: name, IMI1, EMI1, EMI2/IMI2 and cEMI codes.
pub type CodeRow = (Seq<char>, CodeInfo, CodeInfo, CodeInfo, CodeInfo);

/// The plain value of a code.
pub open spec fn info_view(i: Option<MessageCodeStandardInfo>) -> CodeInfo {
    match i {
        Some(x) => Some((x.value, x.destinations@)),
        None => None,
    }
}

/// The plain value of a row.
pub open spec fn entry_view(e: MessageCodeEntry) -> CodeRow {
    (e.service_name@, info_view(e.imi1), info_view(e.emi1), info_view(e.emi2_imi2), info_view(e.cemi))
}

/// Rows 0 to 22 of the message code table.
pub open spec fn message_code_rows_0() -> Seq<CodeRow> {
    seq![
        (
            "Ph_Data.req"@,
            None,
            None,
            Some((0x01u8, seq![])),
            None,
        ),
        (
            "Ph_data.con"@,
            None,
            None,
            Some((0x1eu8, seq![])),
            None,
        ),
        (
            "Ph_Data.ind"@,
            None,
            None,
            Some((0x19u8, seq![])),
            None,
        ),
        (
            "L_Busmon.ind"@,
            Some((0x29u8, seq![DefaultDestination::PEI])),
            Some((0x49u8, seq![DefaultDestination::PEI])),
            Some((0x2bu8, seq![DefaultDestination::PEI])),
            Some((0x2bu8, seq![DefaultDestination::PEI])),
        ),
        (
            "L_Data.req"@,
            Some((0x11u8, seq![DefaultDestination::DLL])),
            Some((0x11u8, seq![DefaultDestination::DLL])),
            Some((0x11u8, seq![DefaultDestination::DLL])),
            Some((0x11u8, seq![DefaultDestination::DLL, DefaultDestination::CemiServer])),
        ),
        (
            "L_Data.con"@,
            Some((0x2eu8, seq![DefaultDestination::TL])),
            Some((0x4eu8, seq![DefaultDestination::TL])),
            Some((0x2eu8, seq![DefaultDestination::NL])),
            Some((0x2eu8, seq![DefaultDestination::NL, DefaultDestination::CemiClient])),
        ),
        (
            "L_Data.ind"@,
            Some((0x29u8, seq![DefaultDestination::TL])),
            Some((0x49u8, seq![DefaultDestination::TL])),
            Some((0x29u8, seq![DefaultDestination::NL])),
            Some((0x29u8, seq![DefaultDestination::NL, DefaultDestination::CemiClient])),
        ),
        (
            "L_SystemBroadcast.req"@,
            Some((0x15u8, seq![])),
            Some((0x15u8, seq![])),
            Some((0x17u8, seq![])),
            None,
        ),
        (
            "L_SystemBroadcast.con"@,
            Some((0x2cu8, seq![])),
            Some((0x4cu8, seq![])),
            Some((0x26u8, seq![])),
            None,
        ),
        (
            "L_SystemBroadcast.ind"@,
            Some((0x2bu8, seq![])),
            Some((0x4bu8, seq![])),
            Some((0x28u8, seq![])),
            None,
        ),
        (
            "L_Plain_Data.req"@,
            None,
            None,
            Some((0x10u8, seq![DefaultDestination::DLL])),
            None,
        ),
        (
            "L_Raw.req"@,
            None,
            None,
            Some((0x10u8, seq![DefaultDestination::DLL])),
            Some((0x10u8, seq![DefaultDestination::DLL])),
        ),
        (
            "L_Raw.ind"@,
            None,
            None,
            None,
            Some((0x2du8, seq![DefaultDestination::NL])),
        ),
        (
            "L_Raw.con"@,
            None,
            None,
            None,
            Some((0x2fu8, seq![DefaultDestination::NL])),
        ),
        (
            "L_Poll_Data.req"@,
            None,
            None,
            Some((0x13u8, seq![DefaultDestination::DLL])),
            Some((0x13u8, seq![DefaultDestination::DLL, DefaultDestination::CemiServer])),
        ),
        (
            "L_Poll_Data.con"@,
            None,
            None,
            Some((0x25u8, seq![DefaultDestination::NL])),
            Some((0x25u8, seq![DefaultDestination::NL, DefaultDestination::CemiClient])),
        ),
        (
            "L_Meter.ind"@,
            None,
            None,
            Some((0x24u8, seq![DefaultDestination::NL])),
            None,
        ),
        (
            "N_Data_Individual.req"@,
            None,
            None,
            Some((0x21u8, seq![DefaultDestination::NL])),
            None,
        ),
        (
            "N_Data_Individual.con"@,
            None,
            None,
            Some((0x4eu8, seq![DefaultDestination::TLC])),
            None,
        ),
        (
            "N_Data_Individual.ind"@,
            None,
            None,
            Some((0x49u8, seq![DefaultDestination::TLC])),
            None,
        ),
        (
            "N_Data_Group.req"@,
            None,
            None,
            Some((0x22u8, seq![DefaultDestination::NL])),
            None,
        ),
        (
            "N_Data_Group.con"@,
            None,
            None,
            Some((0x3eu8, seq![DefaultDestination::TLG])),
            None,
        ),
        (
            "N_Data_Group.ind"@,
            None,
            None,
            Some((0x3au8, seq![DefaultDestination::TLG])),
            None,
        ),
    ]
}

/// Rows 23 to 45 of the message code table.
pub open spec fn message_code_rows_1() -> Seq<CodeRow> {
    seq![
        (
            "N_Data_Broadcast.req"@,
            None,
            None,
            Some((0x2cu8, seq![DefaultDestination::NL])),
            None,
        ),
        (
            "N_Data_Broadcast.con"@,
            None,
            None,
            Some((0x4fu8, seq![DefaultDestination::TLC])),
            None,
        ),
        (
            "N_Data_Broadcast.ind"@,
            None,
            None,
            Some((0x4du8, seq![DefaultDestination::TLC])),
            None,
        ),
        (
            "N_Poll_Data.req"@,
            None,
            None,
            Some((0x23u8, seq![DefaultDestination::NL])),
            None,
        ),
        (
            "N_Poll_Data.con"@,
            None,
            None,
            Some((0x35u8, seq![DefaultDestination::TLG])),
            None,
        ),
        (
            "T_Connect.req"@,
            Some((0x23u8, seq![DefaultDestination::TL])),
            Some((0x23u8, seq![DefaultDestination::TL])),
            Some((0x43u8, seq![DefaultDestination::TLC])),
            None,
        ),
        (
            "T_Connect.con"@,
            None,
            None,
            Some((0x86u8, seq![DefaultDestination::MAN])),
            None,
        ),
        (
            "T_Connect.ind"@,
            Some((0x33u8, seq![DefaultDestination::MAN])),
            Some((0x43u8, seq![DefaultDestination::MAN])),
            Some((0x85u8, seq![DefaultDestination::MAN])),
            None,
        ),
        (
            "T_Disconnect.req"@,
            Some((0x24u8, seq![DefaultDestination::TL])),
            Some((0x24u8, seq![DefaultDestination::TL])),
            Some((0x44u8, seq![DefaultDestination::TLC])),
            None,
        ),
        (
            "T_Disconnect.con"@,
            None,
            None,
            Some((0x88u8, seq![DefaultDestination::MAN])),
            None,
        ),
        (
            "T_Disconnect.ind"@,
            Some((0x34u8, seq![DefaultDestination::MAN])),
            Some((0x44u8, seq![DefaultDestination::MAN])),
            Some((0x87u8, seq![DefaultDestination::MAN])),
            None,
        ),
        (
            "T_Data_Connected.req"@,
            Some((0x21u8, seq![DefaultDestination::TL])),
            Some((0x21u8, seq![DefaultDestination::TL])),
            Some((0x41u8, seq![DefaultDestination::TLC])),
            Some((0x41u8, seq![DefaultDestination::CemiServer])),
        ),
        (
            "T_Data_Connected.con"@,
            None,
            None,
            Some((0x8eu8, seq![DefaultDestination::MAN])),
            None,
        ),
        (
            "T_Data_Connected.ind"@,
            Some((0x39u8, seq![DefaultDestination::MAN])),
            Some((0x49u8, seq![DefaultDestination::MAN])),
            Some((0x89u8, seq![DefaultDestination::MAN])),
            Some((0x89u8, seq![DefaultDestination::CemiClient])),
        ),
        (
            "T_Data_Group.req"@,
            Some((0x22u8, seq![DefaultDestination::TL])),
            Some((0x22u8, seq![DefaultDestination::TL])),
            Some((0x32u8, seq![DefaultDestination::TLG])),
            None,
        ),
        (
            "T_Data_Group.con"@,
            Some((0x3eu8, seq![DefaultDestination::ALG])),
            Some((0x4eu8, seq![DefaultDestination::ALG])),
            Some((0x7eu8, seq![DefaultDestination::ALG])),
            None,
        ),
        (
            "T_Data_Group.ind"@,
            Some((0x3au8, seq![DefaultDestination::ALG])),
            Some((0x4au8, seq![DefaultDestination::ALG])),
            Some((0x7au8, seq![DefaultDestination::ALG])),
            None,
        ),
        (
            "T_Data_Broadcast.req"@,
            Some((0x2bu8, seq![DefaultDestination::TLC])),
            Some((0x2bu8, seq![DefaultDestination::TLC])),
            Some((0x4cu8, seq![DefaultDestination::TLC])),
            None,
        ),
        (
            "T_Data_Broadcast.con"@,
            None,
            None,
            Some((0x8fu8, seq![DefaultDestination::MAN])),
            None,
        ),
        (
            "T_Data_Broadcast.ind"@,
            Some((0x38u8, seq![DefaultDestination::MAN])),
            Some((0x48u8, seq![DefaultDestination::MAN])),
            Some((0x8du8, seq![DefaultDestination::MAN])),
            None,
        ),
        (
            "T_Data_SystemBroadcast.req"@,
            Some((0x25u8, seq![])),
            Some((0x25u8, seq![])),
            None,
            None,
        ),
        (
            "T_Data_SystemBroadcast.con"@,
            Some((0x3cu8, seq![])),
            Some((0x4cu8, seq![])),
            None,
            None,
        ),
        (
            "T_Data_SystemBroadcast.ind"@,
            Some((0x3du8, seq![])),
            Some((0x4du8, seq![])),
            None,
            None,
        ),
    ]
}

/// Rows 46 to 68 of the message code table.
pub open spec fn message_code_rows_2() -> Seq<CodeRow> {
    seq![
        (
            "T_Data_Individual.req"@,
            Some((0x2au8, seq![DefaultDestination::TL])),
            Some((0x2au8, seq![DefaultDestination::TL])),
            Some((0x4au8, seq![DefaultDestination::TLC])),
            Some((0x4au8, seq![DefaultDestination::CemiServer])),
        ),
        (
            "T_Data_Individual.con"@,
            Some((0x3fu8, seq![DefaultDestination::MAN])),
            Some((0x4fu8, seq![DefaultDestination::MAN])),
            Some((0x9cu8, seq![DefaultDestination::MAN])),
            None,
        ),
        (
            "T_Data_Individual.ind"@,
            Some((0x32u8, seq![DefaultDestination::MAN])),
            Some((0x42u8, seq![DefaultDestination::MAN])),
            Some((0x94u8, seq![DefaultDestination::MAN])),
            Some((0x94u8, seq![DefaultDestination::CemiClient])),
        ),
        (
            "T_Poll_Data.req"@,
            None,
            None,
            Some((0x33u8, seq![DefaultDestination::TLG])),
            None,
        ),
        (
            "T_Poll_Data.con"@,
            None,
            None,
            Some((0x75u8, seq![DefaultDestination::TLG])),
            None,
        ),
        (
            "M_Connect.ind"@,
            None,
            None,
            Some((0xd5u8, seq![DefaultDestination::USR, DefaultDestination::PEI])),
            None,
        ),
        (
            "M_Disconnect.ind"@,
            None,
            None,
            Some((0xd7u8, seq![DefaultDestination::USR, DefaultDestination::PEI])),
            None,
        ),
        (
            "M_User_Data_Connected.req"@,
            Some((0x31u8, seq![DefaultDestination::MAN])),
            Some((0x31u8, seq![DefaultDestination::MAN])),
            Some((0x82u8, seq![DefaultDestination::USR, DefaultDestination::PEI])),
            None,
        ),
        (
            "M_User_Data_Connected.con"@,
            None,
            None,
            Some((0xd1u8, seq![DefaultDestination::USR, DefaultDestination::PEI])),
            None,
        ),
        (
            "M_User_Data_Connected.ind"@,
            Some((0x59u8, seq![DefaultDestination::MAN])),
            Some((0x49u8, seq![DefaultDestination::MAN])),
            Some((0xd2u8, seq![DefaultDestination::USR, DefaultDestination::PEI])),
            None,
        ),
        (
            "A_Data_Group.req"@,
            None,
            None,
            Some((0x72u8, seq![DefaultDestination::ALG])),
            None,
        ),
        (
            "A_Data_Group.con"@,
            None,
            None,
            Some((0xeeu8, seq![DefaultDestination::USR, DefaultDestination::PEI])),
            None,
        ),
        (
            "A_Data_Group.ind"@,
            None,
            None,
            Some((0xeau8, seq![DefaultDestination::USR, DefaultDestination::PEI])),
            None,
        ),
        (
            "M_User_Data_Individual.req"@,
            None,
            None,
            Some((0x81u8, seq![DefaultDestination::MAN])),
            None,
        ),
        (
            "M_User_Data_Individual.con"@,
            None,
            None,
            Some((0xdeu8, seq![DefaultDestination::USR, DefaultDestination::PEI])),
            None,
        ),
        (
            "M_User_Data_Individual.ind"@,
            None,
            None,
            Some((0xd9u8, seq![DefaultDestination::USR, DefaultDestination::PEI])),
            None,
        ),
        (
            "A_Poll_Data.req"@,
            None,
            None,
            Some((0x73u8, seq![DefaultDestination::ALG])),
            None,
        ),
        (
            "A_Poll_Data.con"@,
            None,
            None,
            Some((0xe5u8, seq![DefaultDestination::USR, DefaultDestination::PEI])),
            None,
        ),
        (
            "M_InterfaceObj_Data.req"@,
            None,
            None,
            Some((0x9au8, seq![DefaultDestination::MAN])),
            None,
        ),
        (
            "M_InterfaceObj_Data.con"@,
            None,
            None,
            Some((0xdcu8, seq![DefaultDestination::USR, DefaultDestination::PEI])),
            None,
        ),
        (
            "M_InterfaceObj_Data.ind"@,
            None,
            None,
            Some((0xd4u8, seq![DefaultDestination::USR, DefaultDestination::PEI])),
            None,
        ),
        (
            "U_Value_Read.req"@,
            Some((0x35u8, seq![DefaultDestination::ALG])),
            Some((0x35u8, seq![DefaultDestination::ALG])),
            Some((0x74u8, seq![DefaultDestination::ALG])),
            None,
        ),
        (
            "U_Value_Read.con"@,
            Some((0x55u8, seq![DefaultDestination::USR])),
            Some((0x45u8, seq![DefaultDestination::USR])),
            Some((0xe4u8, seq![DefaultDestination::USR])),
            None,
        ),
    ]
}

/// Rows 69 to 91 of the message code table.
pub open spec fn message_code_rows_3() -> Seq<CodeRow> {
    seq![
        (
            "U_Flags_Read.req"@,
            Some((0x37u8, seq![DefaultDestination::ALG])),
            Some((0x37u8, seq![DefaultDestination::ALG])),
            Some((0x7cu8, seq![DefaultDestination::ALG])),
            None,
        ),
        (
            "U_Flags_Read.con"@,
            Some((0x57u8, seq![DefaultDestination::USR])),
            Some((0x47u8, seq![DefaultDestination::USR])),
            Some((0xecu8, seq![DefaultDestination::USR])),
            None,
        ),
        (
            "U_Event.ind"@,
            Some((0x5du8, seq![DefaultDestination::USR])),
            Some((0x4du8, seq![DefaultDestination::USR])),
            Some((0xe7u8, seq![DefaultDestination::USR])),
            None,
        ),
        (
            "U_Value_Write.req"@,
            Some((0x36u8, seq![DefaultDestination::ALG])),
            Some((0x36u8, seq![DefaultDestination::ALG])),
            Some((0x71u8, seq![DefaultDestination::ALG])),
            None,
        ),
        (
            "U_User_Data"@,
            None,
            None,
            Some((0xd0u8, seq![DefaultDestination::USR])),
            None,
        ),
        (
            "PC_Set_Value.req"@,
            Some((0x46u8, seq![DefaultDestination::MAN])),
            Some((0x46u8, seq![DefaultDestination::MAN])),
            Some((0xa6u8, seq![DefaultDestination::MAN])),
            None,
        ),
        (
            "PC_Get_Value.req"@,
            Some((0x4cu8, seq![DefaultDestination::MAN])),
            Some((0x4cu8, seq![DefaultDestination::MAN])),
            Some((0xacu8, seq![DefaultDestination::MAN])),
            None,
        ),
        (
            "PC_Get_Value.con"@,
            Some((0x4bu8, seq![DefaultDestination::PEI])),
            Some((0x4bu8, seq![DefaultDestination::PEI])),
            Some((0xabu8, seq![DefaultDestination::PEI])),
            None,
        ),
        (
            "PEI_Identify.req"@,
            None,
            None,
            Some((0xa7u8, seq![])),
            None,
        ),
        (
            "PEI_Identify.con"@,
            None,
            None,
            Some((0xa8u8, seq![DefaultDestination::PEI])),
            None,
        ),
        (
            "PEI_Switch.req"@,
            None,
            None,
            Some((0xa9u8, seq![])),
            None,
        ),
        (
            "TM_Timer.ind"@,
            None,
            None,
            Some((0xc1u8, seq![DefaultDestination::USR])),
            None,
        ),
        (
            "M_PropRead.req"@,
            None,
            None,
            None,
            Some((0xfcu8, seq![DefaultDestination::CemiServer])),
        ),
        (
            "M_PropRead.con"@,
            None,
            None,
            None,
            Some((0xfbu8, seq![DefaultDestination::CemiClient])),
        ),
        (
            "M_PropWrite.req"@,
            None,
            None,
            None,
            Some((0xf6u8, seq![DefaultDestination::CemiServer])),
        ),
        (
            "M_PropWrite.con"@,
            None,
            None,
            None,
            Some((0xf5u8, seq![DefaultDestination::CemiClient])),
        ),
        (
            "M_PropInfo.ind"@,
            None,
            None,
            None,
            Some((0xf7u8, seq![DefaultDestination::CemiClient])),
        ),
        (
            "M_FuncPropCommand.req"@,
            None,
            None,
            None,
            Some((0xf8u8, seq![DefaultDestination::CemiServer])),
        ),
        (
            "M_FuncPropStateRead.req"@,
            None,
            None,
            None,
            Some((0xf9u8, seq![DefaultDestination::CemiServer])),
        ),
        (
            "M_FuncPropCommand.con"@,
            None,
            None,
            None,
            Some((0xfau8, seq![DefaultDestination::CemiClient])),
        ),
        (
            "M_FuncPropStateRead.con"@,
            None,
            None,
            None,
            Some((0xfau8, seq![DefaultDestination::CemiClient])),
        ),
        (
            "M_Reset.req"@,
            None,
            None,
            None,
            Some((0xf1u8, seq![DefaultDestination::CemiServer])),
        ),
        (
            "M_Reset.ind"@,
            None,
            None,
            None,
            Some((0xf0u8, seq![DefaultDestination::CemiClient])),
        ),
    ]
}

/// The message code table.
pub open spec fn message_code_table() -> Seq<CodeRow> {
    message_code_rows_0() + message_code_rows_1() + message_code_rows_2() + message_code_rows_3()
}

fn info(value: u8, destinations: Vec<DefaultDestination>) -> (i: MessageCodeStandardInfo)
    ensures
        i.value == value,
        i.destinations@ == destinations@,
{
    MessageCodeStandardInfo { value, destinations }
}

fn push_rows_0(t: &mut Vec<MessageCodeEntry>)
    ensures
        final(t)@.len() == old(t)@.len() + 23,
        forall|i: int| 0 <= i < old(t)@.len() ==> final(t)@[i] == old(t)@[i],
        forall|i: int| 0 <= i < 23 ==> #[trigger] entry_view(final(t)@[old(t)@.len() + i]) == message_code_rows_0()[i],
{
    let ghost n: int = t@.len() as int;
    t.push(
        MessageCodeEntry {
            service_name: "Ph_Data.req",
            imi1: None,
            emi1: None,
            emi2_imi2: Some(info(0x01, vec![])),
            cemi: None,
        },
    );
    t.push(
        MessageCodeEntry {
            service_name: "Ph_data.con",
            imi1: None,
            emi1: None,
            emi2_imi2: Some(info(0x1e, vec![])),
            cemi: None,
        },
    );
    t.push(
        MessageCodeEntry {
            service_name: "Ph_Data.ind",
            imi1: None,
            emi1: None,
            emi2_imi2: Some(info(0x19, vec![])),
            cemi: None,
        },
    );
    t.push(
        MessageCodeEntry {
            service_name: "L_Busmon.ind",
            imi1: Some(info(0x29, vec![DefaultDestination::PEI])),
            emi1: Some(info(0x49, vec![DefaultDestination::PEI])),
            emi2_imi2: Some(info(0x2b, vec![DefaultDestination::PEI])),
            cemi: Some(info(0x2b, vec![DefaultDestination::PEI])),
        },
    );
    t.push(
        MessageCodeEntry {
            service_name: "L_Data.req",
            imi1: Some(info(0x11, vec![DefaultDestination::DLL])),
            emi1: Some(info(0x11, vec![DefaultDestination::DLL])),
            emi2_imi2: Some(info(0x11, vec![DefaultDestination::DLL])),
            cemi: Some(info(0x11, vec![DefaultDestination::DLL, DefaultDestination::CemiServer])),
        },
    );
    t.push(
        MessageCodeEntry {
            service_name: "L_Data.con",
            imi1: Some(info(0x2e, vec![DefaultDestination::TL])),
            emi1: Some(info(0x4e, vec![DefaultDestination::TL])),
            emi2_imi2: Some(info(0x2e, vec![DefaultDestination::NL])),
            cemi: Some(info(0x2e, vec![DefaultDestination::NL, DefaultDestination::CemiClient])),
        },
    );
    t.push(
        MessageCodeEntry {
            service_name: "L_Data.ind",
            imi1: Some(info(0x29, vec![DefaultDestination::TL])),
            emi1: Some(info(0x49, vec![DefaultDestination::TL])),
            emi2_imi2: Some(info(0x29, vec![DefaultDestination::NL])),
            cemi: Some(info(0x29, vec![DefaultDestination::NL, DefaultDestination::CemiClient])),
        },
    );
    t.push(
        MessageCodeEntry {
            service_name: "L_SystemBroadcast.req",
            imi1: Some(info(0x15, vec![])),
            emi1: Some(info(0x15, vec![])),
            emi2_imi2: Some(info(0x17, vec![])),
            cemi: None,
        },
    );
    t.push(
        MessageCodeEntry {
            service_name: "L_SystemBroadcast.con",
            imi1: Some(info(0x2c, vec![])),
            emi1: Some(info(0x4c, vec![])),
            emi2_imi2: Some(info(0x26, vec![])),
            cemi: None,
        },
    );
    t.push(
        MessageCodeEntry {
            service_name: "L_SystemBroadcast.ind",
            imi1: Some(info(0x2b, vec![])),
            emi1: Some(info(0x4b, vec![])),
            emi2_imi2: Some(info(0x28, vec![])),
            cemi: None,
        },
    );
    t.push(
        MessageCodeEntry {
            service_name: "L_Plain_Data.req",
            imi1: None,
            emi1: None,
            emi2_imi2: Some(info(0x10, vec![DefaultDestination::DLL])),
            cemi: None,
        },
    );
    t.push(
        MessageCodeEntry {
            service_name: "L_Raw.req",
            imi1: None,
            emi1: None,
            emi2_imi2: Some(info(0x10, vec![DefaultDestination::DLL])),
            cemi: Some(info(0x10, vec![DefaultDestination::DLL])),
        },
    );
    t.push(
        MessageCodeEntry {
            service_name: "L_Raw.ind",
            imi1: None,
            emi1: None,
            emi2_imi2: None,
            cemi: Some(info(0x2d, vec![DefaultDestination::NL])),
        },
    );
    t.push(
        MessageCodeEntry {
            service_name: "L_Raw.con",
            imi1: None,
            emi1: None,
            emi2_imi2: None,
            cemi: Some(info(0x2f, vec![DefaultDestination::NL])),
        },
    );
    t.push(
        MessageCodeEntry {
            service_name: "L_Poll_Data.req",
            imi1: None,
            emi1: None,
            emi2_imi2: Some(info(0x13, vec![DefaultDestination::DLL])),
            cemi: Some(info(0x13, vec![DefaultDestination::DLL, DefaultDestination::CemiServer])),
        },
    );
    t.push(
        MessageCodeEntry {
            service_name: "L_Poll_Data.con",
            imi1: None,
            emi1: None,
            emi2_imi2: Some(info(0x25, vec![DefaultDestination::NL])),
            cemi: Some(info(0x25, vec![DefaultDestination::NL, DefaultDestination::CemiClient])),
        },
    );
    t.push(
        MessageCodeEntry {
            service_name: "L_Meter.ind",
            imi1: None,
            emi1: None,
            emi2_imi2: Some(info(0x24, vec![DefaultDestination::NL])),
            cemi: None,
        },
    );
    t.push(
        MessageCodeEntry {
            service_name: "N_Data_Individual.req",
            imi1: None,
            emi1: None,
            emi2_imi2: Some(info(0x21, vec![DefaultDestination::NL])),
            cemi: None,
        },
    );
    t.push(
        MessageCodeEntry {
            service_name: "N_Data_Individual.con",
            imi1: None,
            emi1: None,
            emi2_imi2: Some(info(0x4e, vec![DefaultDestination::TLC])),
            cemi: None,
        },
    );
    t.push(
        MessageCodeEntry {
            service_name: "N_Data_Individual.ind",
            imi1: None,
            emi1: None,
            emi2_imi2: Some(info(0x49, vec![DefaultDestination::TLC])),
            cemi: None,
        },
    );
    t.push(
        MessageCodeEntry {
            service_name: "N_Data_Group.req",
            imi1: None,
            emi1: None,
            emi2_imi2: Some(info(0x22, vec![DefaultDestination::NL])),
            cemi: None,
        },
    );
    t.push(
        MessageCodeEntry {
            service_name: "N_Data_Group.con",
            imi1: None,
            emi1: None,
            emi2_imi2: Some(info(0x3e, vec![DefaultDestination::TLG])),
            cemi: None,
        },
    );
    t.push(
        MessageCodeEntry {
            service_name: "N_Data_Group.ind",
            imi1: None,
            emi1: None,
            emi2_imi2: Some(info(0x3a, vec![DefaultDestination::TLG])),
            cemi: None,
        },
    );
    proof {
        let rows = message_code_rows_0();
        assert forall|i: int| 0 <= i < 23 implies #[trigger] entry_view(t@[n + i]) == rows[i] by {

            if i == 0 { assert(entry_view(t@[n + 0]) =~~= rows[0]); }
            if i == 1 { assert(entry_view(t@[n + 1]) =~~= rows[1]); }
            if i == 2 { assert(entry_view(t@[n + 2]) =~~= rows[2]); }
            if i == 3 { assert(entry_view(t@[n + 3]) =~~= rows[3]); }
            if i == 4 { assert(entry_view(t@[n + 4]) =~~= rows[4]); }
            if i == 5 { assert(entry_view(t@[n + 5]) =~~= rows[5]); }
            if i == 6 { assert(entry_view(t@[n + 6]) =~~= rows[6]); }
            if i == 7 { assert(entry_view(t@[n + 7]) =~~= rows[7]); }
            if i == 8 { assert(entry_view(t@[n + 8]) =~~= rows[8]); }
            if i == 9 { assert(entry_view(t@[n + 9]) =~~= rows[9]); }
            if i == 10 { assert(entry_view(t@[n + 10]) =~~= rows[10]); }
            if i == 11 { assert(entry_view(t@[n + 11]) =~~= rows[11]); }
            if i == 12 { assert(entry_view(t@[n + 12]) =~~= rows[12]); }
            if i == 13 { assert(entry_view(t@[n + 13]) =~~= rows[13]); }
            if i == 14 { assert(entry_view(t@[n + 14]) =~~= rows[14]); }
            if i == 15 { assert(entry_view(t@[n + 15]) =~~= rows[15]); }
            if i == 16 { assert(entry_view(t@[n + 16]) =~~= rows[16]); }
            if i == 17 { assert(entry_view(t@[n + 17]) =~~= rows[17]); }
            if i == 18 { assert(entry_view(t@[n + 18]) =~~= rows[18]); }
            if i == 19 { assert(entry_view(t@[n + 19]) =~~= rows[19]); }
            if i == 20 { assert(entry_view(t@[n + 20]) =~~= rows[20]); }
            if i == 21 { assert(entry_view(t@[n + 21]) =~~= rows[21]); }
            if i == 22 { assert(entry_view(t@[n + 22]) =~~= rows[22]); }
        }
    }
}

fn push_rows_1(t: &mut Vec<MessageCodeEntry>)
    ensures
        final(t)@.len() == old(t)@.len() + 23,
        forall|i: int| 0 <= i < old(t)@.len() ==> final(t)@[i] == old(t)@[i],
        forall|i: int| 0 <= i < 23 ==> #[trigger] entry_view(final(t)@[old(t)@.len() + i]) == message_code_rows_1()[i],
{
    let ghost n: int = t@.len() as int;
    t.push(
        MessageCodeEntry {
            service_name: "N_Data_Broadcast.req",
            imi1: None,
            emi1: None,
            emi2_imi2: Some(info(0x2c, vec![DefaultDestination::NL])),
            cemi: None,
        },
    );
    t.push(
        MessageCodeEntry {
            service_name: "N_Data_Broadcast.con",
            imi1: None,
            emi1: None,
            emi2_imi2: Some(info(0x4f, vec![DefaultDestination::TLC])),
            cemi: None,
        },
    );
    t.push(
        MessageCodeEntry {
            service_name: "N_Data_Broadcast.ind",
            imi1: None,
            emi1: None,
            emi2_imi2: Some(info(0x4d, vec![DefaultDestination::TLC])),
            cemi: None,
        },
    );
    t.push(
        MessageCodeEntry {
            service_name: "N_Poll_Data.req",
            imi1: None,
            emi1: None,
            emi2_imi2: Some(info(0x23, vec![DefaultDestination::NL])),
            cemi: None,
        },
    );
    t.push(
        MessageCodeEntry {
            service_name: "N_Poll_Data.con",
            imi1: None,
            emi1: None,
            emi2_imi2: Some(info(0x35, vec![DefaultDestination::TLG])),
            cemi: None,
        },
    );
    t.push(
        MessageCodeEntry {
            service_name: "T_Connect.req",
            imi1: Some(info(0x23, vec![DefaultDestination::TL])),
            emi1: Some(info(0x23, vec![DefaultDestination::TL])),
            emi2_imi2: Some(info(0x43, vec![DefaultDestination::TLC])),
            cemi: None,
        },
    );
    t.push(
        MessageCodeEntry {
            service_name: "T_Connect.con",
            imi1: None,
            emi1: None,
            emi2_imi2: Some(info(0x86, vec![DefaultDestination::MAN])),
            cemi: None,
        },
    );
    t.push(
        MessageCodeEntry {
            service_name: "T_Connect.ind",
            imi1: Some(info(0x33, vec![DefaultDestination::MAN])),
            emi1: Some(info(0x43, vec![DefaultDestination::MAN])),
            emi2_imi2: Some(info(0x85, vec![DefaultDestination::MAN])),
            cemi: None,
        },
    );
    t.push(
        MessageCodeEntry {
            service_name: "T_Disconnect.req",
            imi1: Some(info(0x24, vec![DefaultDestination::TL])),
            emi1: Some(info(0x24, vec![DefaultDestination::TL])),
            emi2_imi2: Some(info(0x44, vec![DefaultDestination::TLC])),
            cemi: None,
        },
    );
    t.push(
        MessageCodeEntry {
            service_name: "T_Disconnect.con",
            imi1: None,
            emi1: None,
            emi2_imi2: Some(info(0x88, vec![DefaultDestination::MAN])),
            cemi: None,
        },
    );
    t.push(
        MessageCodeEntry {
            service_name: "T_Disconnect.ind",
            imi1: Some(info(0x34, vec![DefaultDestination::MAN])),
            emi1: Some(info(0x44, vec![DefaultDestination::MAN])),
            emi2_imi2: Some(info(0x87, vec![DefaultDestination::MAN])),
            cemi: None,
        },
    );
    t.push(
        MessageCodeEntry {
            service_name: "T_Data_Connected.req",
            imi1: Some(info(0x21, vec![DefaultDestination::TL])),
            emi1: Some(info(0x21, vec![DefaultDestination::TL])),
            emi2_imi2: Some(info(0x41, vec![DefaultDestination::TLC])),
            cemi: Some(info(0x41, vec![DefaultDestination::CemiServer])),
        },
    );
    t.push(
        MessageCodeEntry {
            service_name: "T_Data_Connected.con",
            imi1: None,
            emi1: None,
            emi2_imi2: Some(info(0x8e, vec![DefaultDestination::MAN])),
            cemi: None,
        },
    );
    t.push(
        MessageCodeEntry {
            service_name: "T_Data_Connected.ind",
            imi1: Some(info(0x39, vec![DefaultDestination::MAN])),
            emi1: Some(info(0x49, vec![DefaultDestination::MAN])),
            emi2_imi2: Some(info(0x89, vec![DefaultDestination::MAN])),
            cemi: Some(info(0x89, vec![DefaultDestination::CemiClient])),
        },
    );
    t.push(
        MessageCodeEntry {
            service_name: "T_Data_Group.req",
            imi1: Some(info(0x22, vec![DefaultDestination::TL])),
            emi1: Some(info(0x22, vec![DefaultDestination::TL])),
            emi2_imi2: Some(info(0x32, vec![DefaultDestination::TLG])),
            cemi: None,
        },
    );
    t.push(
        MessageCodeEntry {
            service_name: "T_Data_Group.con",
            imi1: Some(info(0x3e, vec![DefaultDestination::ALG])),
            emi1: Some(info(0x4e, vec![DefaultDestination::ALG])),
            emi2_imi2: Some(info(0x7e, vec![DefaultDestination::ALG])),
            cemi: None,
        },
    );
    t.push(
        MessageCodeEntry {
            service_name: "T_Data_Group.ind",
            imi1: Some(info(0x3a, vec![DefaultDestination::ALG])),
            emi1: Some(info(0x4a, vec![DefaultDestination::ALG])),
            emi2_imi2: Some(info(0x7a, vec![DefaultDestination::ALG])),
            cemi: None,
        },
    );
    t.push(
        MessageCodeEntry {
            service_name: "T_Data_Broadcast.req",
            imi1: Some(info(0x2b, vec![DefaultDestination::TLC])),
            emi1: Some(info(0x2b, vec![DefaultDestination::TLC])),
            emi2_imi2: Some(info(0x4c, vec![DefaultDestination::TLC])),
            cemi: None,
        },
    );
    t.push(
        MessageCodeEntry {
            service_name: "T_Data_Broadcast.con",
            imi1: None,
            emi1: None,
            emi2_imi2: Some(info(0x8f, vec![DefaultDestination::MAN])),
            cemi: None,
        },
    );
    t.push(
        MessageCodeEntry {
            service_name: "T_Data_Broadcast.ind",
            imi1: Some(info(0x38, vec![DefaultDestination::MAN])),
            emi1: Some(info(0x48, vec![DefaultDestination::MAN])),
            emi2_imi2: Some(info(0x8d, vec![DefaultDestination::MAN])),
            cemi: None,
        },
    );
    t.push(
        MessageCodeEntry {
            service_name: "T_Data_SystemBroadcast.req",
            imi1: Some(info(0x25, vec![])),
            emi1: Some(info(0x25, vec![])),
            emi2_imi2: None,
            cemi: None,
        },
    );
    t.push(
        MessageCodeEntry {
            service_name: "T_Data_SystemBroadcast.con",
            imi1: Some(info(0x3c, vec![])),
            emi1: Some(info(0x4c, vec![])),
            emi2_imi2: None,
            cemi: None,
        },
    );
    t.push(
        MessageCodeEntry {
            service_name: "T_Data_SystemBroadcast.ind",
            imi1: Some(info(0x3d, vec![])),
            emi1: Some(info(0x4d, vec![])),
            emi2_imi2: None,
            cemi: None,
        },
    );
    proof {
        let rows = message_code_rows_1();
        assert forall|i: int| 0 <= i < 23 implies #[trigger] entry_view(t@[n + i]) == rows[i] by {

            if i == 0 { assert(entry_view(t@[n + 0]) =~~= rows[0]); }
            if i == 1 { assert(entry_view(t@[n + 1]) =~~= rows[1]); }
            if i == 2 { assert(entry_view(t@[n + 2]) =~~= rows[2]); }
            if i == 3 { assert(entry_view(t@[n + 3]) =~~= rows[3]); }
            if i == 4 { assert(entry_view(t@[n + 4]) =~~= rows[4]); }
            if i == 5 { assert(entry_view(t@[n + 5]) =~~= rows[5]); }
            if i == 6 { assert(entry_view(t@[n + 6]) =~~= rows[6]); }
            if i == 7 { assert(entry_view(t@[n + 7]) =~~= rows[7]); }
            if i == 8 { assert(entry_view(t@[n + 8]) =~~= rows[8]); }
            if i == 9 { assert(entry_view(t@[n + 9]) =~~= rows[9]); }
            if i == 10 { assert(entry_view(t@[n + 10]) =~~= rows[10]); }
            if i == 11 { assert(entry_view(t@[n + 11]) =~~= rows[11]); }
            if i == 12 { assert(entry_view(t@[n + 12]) =~~= rows[12]); }
            if i == 13 { assert(entry_view(t@[n + 13]) =~~= rows[13]); }
            if i == 14 { assert(entry_view(t@[n + 14]) =~~= rows[14]); }
            if i == 15 { assert(entry_view(t@[n + 15]) =~~= rows[15]); }
            if i == 16 { assert(entry_view(t@[n + 16]) =~~= rows[16]); }
            if i == 17 { assert(entry_view(t@[n + 17]) =~~= rows[17]); }
            if i == 18 { assert(entry_view(t@[n + 18]) =~~= rows[18]); }
            if i == 19 { assert(entry_view(t@[n + 19]) =~~= rows[19]); }
            if i == 20 { assert(entry_view(t@[n + 20]) =~~= rows[20]); }
            if i == 21 { assert(entry_view(t@[n + 21]) =~~= rows[21]); }
            if i == 22 { assert(entry_view(t@[n + 22]) =~~= rows[22]); }
        }
    }
}

fn push_rows_2(t: &mut Vec<MessageCodeEntry>)
    ensures
        final(t)@.len() == old(t)@.len() + 23,
        forall|i: int| 0 <= i < old(t)@.len() ==> final(t)@[i] == old(t)@[i],
        forall|i: int| 0 <= i < 23 ==> #[trigger] entry_view(final(t)@[old(t)@.len() + i]) == message_code_rows_2()[i],
{
    let ghost n: int = t@.len() as int;
    t.push(
        MessageCodeEntry {
            service_name: "T_Data_Individual.req",
            imi1: Some(info(0x2a, vec![DefaultDestination::TL])),
            emi1: Some(info(0x2a, vec![DefaultDestination::TL])),
            emi2_imi2: Some(info(0x4a, vec![DefaultDestination::TLC])),
            cemi: Some(info(0x4a, vec![DefaultDestination::CemiServer])),
        },
    );
    t.push(
        MessageCodeEntry {
            service_name: "T_Data_Individual.con",
            imi1: Some(info(0x3f, vec![DefaultDestination::MAN])),
            emi1: Some(info(0x4f, vec![DefaultDestination::MAN])),
            emi2_imi2: Some(info(0x9c, vec![DefaultDestination::MAN])),
            cemi: None,
        },
    );
    t.push(
        MessageCodeEntry {
            service_name: "T_Data_Individual.ind",
            imi1: Some(info(0x32, vec![DefaultDestination::MAN])),
            emi1: Some(info(0x42, vec![DefaultDestination::MAN])),
            emi2_imi2: Some(info(0x94, vec![DefaultDestination::MAN])),
            cemi: Some(info(0x94, vec![DefaultDestination::CemiClient])),
        },
    );
    t.push(
        MessageCodeEntry {
            service_name: "T_Poll_Data.req",
            imi1: None,
            emi1: None,
            emi2_imi2: Some(info(0x33, vec![DefaultDestination::TLG])),
            cemi: None,
        },
    );
    t.push(
        MessageCodeEntry {
            service_name: "T_Poll_Data.con",
            imi1: None,
            emi1: None,
            emi2_imi2: Some(info(0x75, vec![DefaultDestination::TLG])),
            cemi: None,
        },
    );
    t.push(
        MessageCodeEntry {
            service_name: "M_Connect.ind",
            imi1: None,
            emi1: None,
            emi2_imi2: Some(info(0xd5, vec![DefaultDestination::USR, DefaultDestination::PEI])),
            cemi: None,
        },
    );
    t.push(
        MessageCodeEntry {
            service_name: "M_Disconnect.ind",
            imi1: None,
            emi1: None,
            emi2_imi2: Some(info(0xd7, vec![DefaultDestination::USR, DefaultDestination::PEI])),
            cemi: None,
        },
    );
    t.push(
        MessageCodeEntry {
            service_name: "M_User_Data_Connected.req",
            imi1: Some(info(0x31, vec![DefaultDestination::MAN])),
            emi1: Some(info(0x31, vec![DefaultDestination::MAN])),
            emi2_imi2: Some(info(0x82, vec![DefaultDestination::USR, DefaultDestination::PEI])),
            cemi: None,
        },
    );
    t.push(
        MessageCodeEntry {
            service_name: "M_User_Data_Connected.con",
            imi1: None,
            emi1: None,
            emi2_imi2: Some(info(0xd1, vec![DefaultDestination::USR, DefaultDestination::PEI])),
            cemi: None,
        },
    );
    t.push(
        MessageCodeEntry {
            service_name: "M_User_Data_Connected.ind",
            imi1: Some(info(0x59, vec![DefaultDestination::MAN])),
            emi1: Some(info(0x49, vec![DefaultDestination::MAN])),
            emi2_imi2: Some(info(0xd2, vec![DefaultDestination::USR, DefaultDestination::PEI])),
            cemi: None,
        },
    );
    t.push(
        MessageCodeEntry {
            service_name: "A_Data_Group.req",
            imi1: None,
            emi1: None,
            emi2_imi2: Some(info(0x72, vec![DefaultDestination::ALG])),
            cemi: None,
        },
    );
    t.push(
        MessageCodeEntry {
            service_name: "A_Data_Group.con",
            imi1: None,
            emi1: None,
            emi2_imi2: Some(info(0xee, vec![DefaultDestination::USR, DefaultDestination::PEI])),
            cemi: None,
        },
    );
    t.push(
        MessageCodeEntry {
            service_name: "A_Data_Group.ind",
            imi1: None,
            emi1: None,
            emi2_imi2: Some(info(0xea, vec![DefaultDestination::USR, DefaultDestination::PEI])),
            cemi: None,
        },
    );
    t.push(
        MessageCodeEntry {
            service_name: "M_User_Data_Individual.req",
            imi1: None,
            emi1: None,
            emi2_imi2: Some(info(0x81, vec![DefaultDestination::MAN])),
            cemi: None,
        },
    );
    t.push(
        MessageCodeEntry {
            service_name: "M_User_Data_Individual.con",
            imi1: None,
            emi1: None,
            emi2_imi2: Some(info(0xde, vec![DefaultDestination::USR, DefaultDestination::PEI])),
            cemi: None,
        },
    );
    t.push(
        MessageCodeEntry {
            service_name: "M_User_Data_Individual.ind",
            imi1: None,
            emi1: None,
            emi2_imi2: Some(info(0xd9, vec![DefaultDestination::USR, DefaultDestination::PEI])),
            cemi: None,
        },
    );
    t.push(
        MessageCodeEntry {
            service_name: "A_Poll_Data.req",
            imi1: None,
            emi1: None,
            emi2_imi2: Some(info(0x73, vec![DefaultDestination::ALG])),
            cemi: None,
        },
    );
    t.push(
        MessageCodeEntry {
            service_name: "A_Poll_Data.con",
            imi1: None,
            emi1: None,
            emi2_imi2: Some(info(0xe5, vec![DefaultDestination::USR, DefaultDestination::PEI])),
            cemi: None,
        },
    );
    t.push(
        MessageCodeEntry {
            service_name: "M_InterfaceObj_Data.req",
            imi1: None,
            emi1: None,
            emi2_imi2: Some(info(0x9a, vec![DefaultDestination::MAN])),
            cemi: None,
        },
    );
    t.push(
        MessageCodeEntry {
            service_name: "M_InterfaceObj_Data.con",
            imi1: None,
            emi1: None,
            emi2_imi2: Some(info(0xdc, vec![DefaultDestination::USR, DefaultDestination::PEI])),
            cemi: None,
        },
    );
    t.push(
        MessageCodeEntry {
            service_name: "M_InterfaceObj_Data.ind",
            imi1: None,
            emi1: None,
            emi2_imi2: Some(info(0xd4, vec![DefaultDestination::USR, DefaultDestination::PEI])),
            cemi: None,
        },
    );
    t.push(
        MessageCodeEntry {
            service_name: "U_Value_Read.req",
            imi1: Some(info(0x35, vec![DefaultDestination::ALG])),
            emi1: Some(info(0x35, vec![DefaultDestination::ALG])),
            emi2_imi2: Some(info(0x74, vec![DefaultDestination::ALG])),
            cemi: None,
        },
    );
    t.push(
        MessageCodeEntry {
            service_name: "U_Value_Read.con",
            imi1: Some(info(0x55, vec![DefaultDestination::USR])),
            emi1: Some(info(0x45, vec![DefaultDestination::USR])),
            emi2_imi2: Some(info(0xe4, vec![DefaultDestination::USR])),
            cemi: None,
        },
    );
    proof {
        let rows = message_code_rows_2();
        assert forall|i: int| 0 <= i < 23 implies #[trigger] entry_view(t@[n + i]) == rows[i] by {

            if i == 0 { assert(entry_view(t@[n + 0]) =~~= rows[0]); }
            if i == 1 { assert(entry_view(t@[n + 1]) =~~= rows[1]); }
            if i == 2 { assert(entry_view(t@[n + 2]) =~~= rows[2]); }
            if i == 3 { assert(entry_view(t@[n + 3]) =~~= rows[3]); }
            if i == 4 { assert(entry_view(t@[n + 4]) =~~= rows[4]); }
            if i == 5 { assert(entry_view(t@[n + 5]) =~~= rows[5]); }
            if i == 6 { assert(entry_view(t@[n + 6]) =~~= rows[6]); }
            if i == 7 { assert(entry_view(t@[n + 7]) =~~= rows[7]); }
            if i == 8 { assert(entry_view(t@[n + 8]) =~~= rows[8]); }
            if i == 9 { assert(entry_view(t@[n + 9]) =~~= rows[9]); }
            if i == 10 { assert(entry_view(t@[n + 10]) =~~= rows[10]); }
            if i == 11 { assert(entry_view(t@[n + 11]) =~~= rows[11]); }
            if i == 12 { assert(entry_view(t@[n + 12]) =~~= rows[12]); }
            if i == 13 { assert(entry_view(t@[n + 13]) =~~= rows[13]); }
            if i == 14 { assert(entry_view(t@[n + 14]) =~~= rows[14]); }
            if i == 15 { assert(entry_view(t@[n + 15]) =~~= rows[15]); }
            if i == 16 { assert(entry_view(t@[n + 16]) =~~= rows[16]); }
            if i == 17 { assert(entry_view(t@[n + 17]) =~~= rows[17]); }
            if i == 18 { assert(entry_view(t@[n + 18]) =~~= rows[18]); }
            if i == 19 { assert(entry_view(t@[n + 19]) =~~= rows[19]); }
            if i == 20 { assert(entry_view(t@[n + 20]) =~~= rows[20]); }
            if i == 21 { assert(entry_view(t@[n + 21]) =~~= rows[21]); }
            if i == 22 { assert(entry_view(t@[n + 22]) =~~= rows[22]); }
        }
    }
}

fn push_rows_3(t: &mut Vec<MessageCodeEntry>)
    ensures
        final(t)@.len() == old(t)@.len() + 23,
        forall|i: int| 0 <= i < old(t)@.len() ==> final(t)@[i] == old(t)@[i],
        forall|i: int| 0 <= i < 23 ==> #[trigger] entry_view(final(t)@[old(t)@.len() + i]) == message_code_rows_3()[i],
{
    let ghost n: int = t@.len() as int;
    t.push(
        MessageCodeEntry {
            service_name: "U_Flags_Read.req",
            imi1: Some(info(0x37, vec![DefaultDestination::ALG])),
            emi1: Some(info(0x37, vec![DefaultDestination::ALG])),
            emi2_imi2: Some(info(0x7c, vec![DefaultDestination::ALG])),
            cemi: None,
        },
    );
    t.push(
        MessageCodeEntry {
            service_name: "U_Flags_Read.con",
            imi1: Some(info(0x57, vec![DefaultDestination::USR])),
            emi1: Some(info(0x47, vec![DefaultDestination::USR])),
            emi2_imi2: Some(info(0xec, vec![DefaultDestination::USR])),
            cemi: None,
        },
    );
    t.push(
        MessageCodeEntry {
            service_name: "U_Event.ind",
            imi1: Some(info(0x5d, vec![DefaultDestination::USR])),
            emi1: Some(info(0x4d, vec![DefaultDestination::USR])),
            emi2_imi2: Some(info(0xe7, vec![DefaultDestination::USR])),
            cemi: None,
        },
    );
    t.push(
        MessageCodeEntry {
            service_name: "U_Value_Write.req",
            imi1: Some(info(0x36, vec![DefaultDestination::ALG])),
            emi1: Some(info(0x36, vec![DefaultDestination::ALG])),
            emi2_imi2: Some(info(0x71, vec![DefaultDestination::ALG])),
            cemi: None,
        },
    );
    t.push(
        MessageCodeEntry {
            service_name: "U_User_Data",
            imi1: None,
            emi1: None,
            emi2_imi2: Some(info(0xd0, vec![DefaultDestination::USR])),
            cemi: None,
        },
    );
    t.push(
        MessageCodeEntry {
            service_name: "PC_Set_Value.req",
            imi1: Some(info(0x46, vec![DefaultDestination::MAN])),
            emi1: Some(info(0x46, vec![DefaultDestination::MAN])),
            emi2_imi2: Some(info(0xa6, vec![DefaultDestination::MAN])),
            cemi: None,
        },
    );
    t.push(
        MessageCodeEntry {
            service_name: "PC_Get_Value.req",
            imi1: Some(info(0x4c, vec![DefaultDestination::MAN])),
            emi1: Some(info(0x4c, vec![DefaultDestination::MAN])),
            emi2_imi2: Some(info(0xac, vec![DefaultDestination::MAN])),
            cemi: None,
        },
    );
    t.push(
        MessageCodeEntry {
            service_name: "PC_Get_Value.con",
            imi1: Some(info(0x4b, vec![DefaultDestination::PEI])),
            emi1: Some(info(0x4b, vec![DefaultDestination::PEI])),
            emi2_imi2: Some(info(0xab, vec![DefaultDestination::PEI])),
            cemi: None,
        },
    );
    t.push(
        MessageCodeEntry {
            service_name: "PEI_Identify.req",
            imi1: None,
            emi1: None,
            emi2_imi2: Some(info(0xa7, vec![])),
            cemi: None,
        },
    );
    t.push(
        MessageCodeEntry {
            service_name: "PEI_Identify.con",
            imi1: None,
            emi1: None,
            emi2_imi2: Some(info(0xa8, vec![DefaultDestination::PEI])),
            cemi: None,
        },
    );
    t.push(
        MessageCodeEntry {
            service_name: "PEI_Switch.req",
            imi1: None,
            emi1: None,
            emi2_imi2: Some(info(0xa9, vec![])),
            cemi: None,
        },
    );
    t.push(
        MessageCodeEntry {
            service_name: "TM_Timer.ind",
            imi1: None,
            emi1: None,
            emi2_imi2: Some(info(0xc1, vec![DefaultDestination::USR])),
            cemi: None,
        },
    );
    t.push(
        MessageCodeEntry {
            service_name: "M_PropRead.req",
            imi1: None,
            emi1: None,
            emi2_imi2: None,
            cemi: Some(info(0xfc, vec![DefaultDestination::CemiServer])),
        },
    );
    t.push(
        MessageCodeEntry {
            service_name: "M_PropRead.con",
            imi1: None,
            emi1: None,
            emi2_imi2: None,
            cemi: Some(info(0xfb, vec![DefaultDestination::CemiClient])),
        },
    );
    t.push(
        MessageCodeEntry {
            service_name: "M_PropWrite.req",
            imi1: None,
            emi1: None,
            emi2_imi2: None,
            cemi: Some(info(0xf6, vec![DefaultDestination::CemiServer])),
        },
    );
    t.push(
        MessageCodeEntry {
            service_name: "M_PropWrite.con",
            imi1: None,
            emi1: None,
            emi2_imi2: None,
            cemi: Some(info(0xf5, vec![DefaultDestination::CemiClient])),
        },
    );
    t.push(
        MessageCodeEntry {
            service_name: "M_PropInfo.ind",
            imi1: None,
            emi1: None,
            emi2_imi2: None,
            cemi: Some(info(0xf7, vec![DefaultDestination::CemiClient])),
        },
    );
    t.push(
        MessageCodeEntry {
            service_name: "M_FuncPropCommand.req",
            imi1: None,
            emi1: None,
            emi2_imi2: None,
            cemi: Some(info(0xf8, vec![DefaultDestination::CemiServer])),
        },
    );
    t.push(
        MessageCodeEntry {
            service_name: "M_FuncPropStateRead.req",
            imi1: None,
            emi1: None,
            emi2_imi2: None,
            cemi: Some(info(0xf9, vec![DefaultDestination::CemiServer])),
        },
    );
    t.push(
        MessageCodeEntry {
            service_name: "M_FuncPropCommand.con",
            imi1: None,
            emi1: None,
            emi2_imi2: None,
            cemi: Some(info(0xfa, vec![DefaultDestination::CemiClient])),
        },
    );
    t.push(
        MessageCodeEntry {
            service_name: "M_FuncPropStateRead.con",
            imi1: None,
            emi1: None,
            emi2_imi2: None,
            cemi: Some(info(0xfa, vec![DefaultDestination::CemiClient])),
        },
    );
    t.push(
        MessageCodeEntry {
            service_name: "M_Reset.req",
            imi1: None,
            emi1: None,
            emi2_imi2: None,
            cemi: Some(info(0xf1, vec![DefaultDestination::CemiServer])),
        },
    );
    t.push(
        MessageCodeEntry {
            service_name: "M_Reset.ind",
            imi1: None,
            emi1: None,
            emi2_imi2: None,
            cemi: Some(info(0xf0, vec![DefaultDestination::CemiClient])),
        },
    );
    proof {
        let rows = message_code_rows_3();
        assert forall|i: int| 0 <= i < 23 implies #[trigger] entry_view(t@[n + i]) == rows[i] by {

            if i == 0 { assert(entry_view(t@[n + 0]) =~~= rows[0]); }
            if i == 1 { assert(entry_view(t@[n + 1]) =~~= rows[1]); }
            if i == 2 { assert(entry_view(t@[n + 2]) =~~= rows[2]); }
            if i == 3 { assert(entry_view(t@[n + 3]) =~~= rows[3]); }
            if i == 4 { assert(entry_view(t@[n + 4]) =~~= rows[4]); }
            if i == 5 { assert(entry_view(t@[n + 5]) =~~= rows[5]); }
            if i == 6 { assert(entry_view(t@[n + 6]) =~~= rows[6]); }
            if i == 7 { assert(entry_view(t@[n + 7]) =~~= rows[7]); }
            if i == 8 { assert(entry_view(t@[n + 8]) =~~= rows[8]); }
            if i == 9 { assert(entry_view(t@[n + 9]) =~~= rows[9]); }
            if i == 10 { assert(entry_view(t@[n + 10]) =~~= rows[10]); }
            if i == 11 { assert(entry_view(t@[n + 11]) =~~= rows[11]); }
            if i == 12 { assert(entry_view(t@[n + 12]) =~~= rows[12]); }
            if i == 13 { assert(entry_view(t@[n + 13]) =~~= rows[13]); }
            if i == 14 { assert(entry_view(t@[n + 14]) =~~= rows[14]); }
            if i == 15 { assert(entry_view(t@[n + 15]) =~~= rows[15]); }
            if i == 16 { assert(entry_view(t@[n + 16]) =~~= rows[16]); }
            if i == 17 { assert(entry_view(t@[n + 17]) =~~= rows[17]); }
            if i == 18 { assert(entry_view(t@[n + 18]) =~~= rows[18]); }
            if i == 19 { assert(entry_view(t@[n + 19]) =~~= rows[19]); }
            if i == 20 { assert(entry_view(t@[n + 20]) =~~= rows[20]); }
            if i == 21 { assert(entry_view(t@[n + 21]) =~~= rows[21]); }
            if i == 22 { assert(entry_view(t@[n + 22]) =~~= rows[22]); }
        }
    }
}

/// The message code table: every service with its code in each standard.
pub fn message_code_field() -> (t: Vec<MessageCodeEntry>)
    ensures
        t@.len() == message_code_table().len(),
        forall|i: int| 0 <= i < t@.len() ==> #[trigger] entry_view(t@[i]) == message_code_table()[i],
{
    let mut t: Vec<MessageCodeEntry> = Vec::new();
    push_rows_0(&mut t);
    push_rows_1(&mut t);
    push_rows_2(&mut t);
    push_rows_3(&mut t);
    proof {
        let tab = message_code_table();
        assert forall|i: int| 0 <= i < t@.len() implies #[trigger] entry_view(t@[i]) == tab[i] by {
            if 0 <= i < 23 {
                assert(entry_view(t@[0 + (i - 0)]) == message_code_rows_0()[i - 0]);
            }
            if 23 <= i < 46 {
                assert(entry_view(t@[23 + (i - 23)]) == message_code_rows_1()[i - 23]);
            }
            if 46 <= i < 69 {
                assert(entry_view(t@[46 + (i - 46)]) == message_code_rows_2()[i - 46]);
            }
            if 69 <= i < 92 {
                assert(entry_view(t@[69 + (i - 69)]) == message_code_rows_3()[i - 69]);
            }
        }
    }
    t
}

/// The first row of `t` named `name`.
pub open spec fn row_by_name(t: Seq<CodeRow>, name: Seq<char>) -> Option<CodeRow>
    decreases t.len(),
{
    if t.len() == 0 {
        None
    } else if t[0].0 == name {
        Some(t[0])
    } else {
        row_by_name(t.drop_first(), name)
    }
}

/// Whether a code column holds `v`.
pub open spec fn has_code(c: CodeInfo, v: u8) -> bool {
    c matches Some((x, _)) && x == v
}

/// The first row of `t` whose cEMI code is `v`.
pub open spec fn row_by_cemi(t: Seq<CodeRow>, v: u8) -> Option<CodeRow>
    decreases t.len(),
{
    if t.len() == 0 {
        None
    } else if has_code(t[0].4, v) {
        Some(t[0])
    } else {
        row_by_cemi(t.drop_first(), v)
    }
}

/// The first row of `t` whose EMI2/IMI2 code is `v`.
pub open spec fn row_by_emi(t: Seq<CodeRow>, v: u8) -> Option<CodeRow>
    decreases t.len(),
{
    if t.len() == 0 {
        None
    } else if has_code(t[0].3, v) {
        Some(t[0])
    } else {
        row_by_emi(t.drop_first(), v)
    }
}

/// The code of a column, if the standard has one.
pub open spec fn code_of(c: CodeInfo) -> Option<u8> {
    match c {
        Some((v, _)) => Some(v),
        None => None,
    }
}

/// The index of the first row named `name`.
fn find_by_name(t: &Vec<MessageCodeEntry>, name: &str) -> (r: Option<usize>)
    requires
        t@.len() == message_code_table().len(),
        forall|i: int| 0 <= i < t@.len() ==> #[trigger] entry_view(t@[i]) == message_code_table()[i],
    ensures
        match r {
            Some(i) => i < t@.len() && row_by_name(message_code_table(), name@) == Some(
                message_code_table()[i as int],
            ),
            None => row_by_name(message_code_table(), name@) is None,
        },
{
    let ghost tab = message_code_table();
    let mut i: usize = 0;
    assert(tab.subrange(0, tab.len() as int) =~= tab);
    while i < t.len()
        invariant
            tab == message_code_table(),
            t@.len() == tab.len(),
            forall|j: int| 0 <= j < t@.len() ==> #[trigger] entry_view(t@[j]) == tab[j],
            i <= t@.len(),
            row_by_name(tab, name@) == row_by_name(tab.subrange(i as int, tab.len() as int), name@),
        decreases t.len() - i,
    {
        assert(entry_view(t@[i as int]) == tab[i as int]);
        if str_eq(t[i].service_name, name) {
            return Some(i);
        }
        assert(tab.subrange(i as int, tab.len() as int).drop_first() =~= tab.subrange(
            i as int + 1,
            tab.len() as int,
        ));
        i = i + 1;
    }
    None
}

/// The row whose code in the chosen column is `v`.
fn find_by_code(t: &Vec<MessageCodeEntry>, v: u8, cemi: bool) -> (r: Option<usize>)
    requires
        t@.len() == message_code_table().len(),
        forall|i: int| 0 <= i < t@.len() ==> #[trigger] entry_view(t@[i]) == message_code_table()[i],
    ensures
        cemi ==> match r {
            Some(i) => i < t@.len() && row_by_cemi(message_code_table(), v) == Some(
                message_code_table()[i as int],
            ),
            None => row_by_cemi(message_code_table(), v) is None,
        },
        !cemi ==> match r {
            Some(i) => i < t@.len() && row_by_emi(message_code_table(), v) == Some(
                message_code_table()[i as int],
            ),
            None => row_by_emi(message_code_table(), v) is None,
        },
{
    let ghost tab = message_code_table();
    let mut i: usize = 0;
    assert(tab.subrange(0, tab.len() as int) =~= tab);
    while i < t.len()
        invariant
            tab == message_code_table(),
            t@.len() == tab.len(),
            forall|j: int| 0 <= j < t@.len() ==> #[trigger] entry_view(t@[j]) == tab[j],
            i <= t@.len(),
            cemi ==> row_by_cemi(tab, v) == row_by_cemi(tab.subrange(i as int, tab.len() as int), v),
            !cemi ==> row_by_emi(tab, v) == row_by_emi(tab.subrange(i as int, tab.len() as int), v),
        decreases t.len() - i,
    {
        assert(entry_view(t@[i as int]) == tab[i as int]);
        let col = if cemi {
            &t[i].cemi
        } else {
            &t[i].emi2_imi2
        };
        let hit = match col {
            Some(x) => x.value == v,
            None => false,
        };
        if hit {
            return Some(i);
        }
        assert(tab.subrange(i as int, tab.len() as int).drop_first() =~= tab.subrange(
            i as int + 1,
            tab.len() as int,
        ));
        i = i + 1;
    }
    None
}

/// The EMI2/IMI2 code of the first service named `n`, if it has one.
pub open spec fn emi_code_of_name(n: Seq<char>) -> Option<u8> {
    match row_by_name(message_code_table(), n) {
        Some(row) => code_of(row.3),
        None => None,
    }
}

/// The cEMI code of the first service named `n`, if it has one.
pub open spec fn cemi_code_of_name(n: Seq<char>) -> Option<u8> {
    match row_by_name(message_code_table(), n) {
        Some(row) => code_of(row.4),
        None => None,
    }
}

/// The cEMI code of the service named `service_name`.
pub fn get_cemi_message_code(service_name: &str) -> (r: Option<u8>)
    ensures
        r == cemi_code_of_name(service_name@),
{
    let t = message_code_field();
    match find_by_name(&t, service_name) {
        Some(i) => {
            assert(entry_view(t@[i as int]) == message_code_table()[i as int]);
            match &t[i].cemi {
                Some(x) => Some(x.value),
                None => None,
            }
        },
        None => None,
    }
}

/// The name of the first service whose cEMI code is `value`.
pub fn get_service_name_by_cemi_value(value: u8) -> (r: Option<&'static str>)
    ensures
        match row_by_cemi(message_code_table(), value) {
            Some(row) => r matches Some(s) && s@ == row.0,
            None => r is None,
        },
{
    let t = message_code_field();
    match find_by_code(&t, value, true) {
        Some(i) => {
            assert(entry_view(t@[i as int]) == message_code_table()[i as int]);
            Some(t[i].service_name)
        },
        None => None,
    }
}

/// The EMI2/IMI2 code of the service named `service_name`.
pub fn get_emi_message_code(service_name: &str) -> (r: Option<u8>)
    ensures
        r == emi_code_of_name(service_name@),
{
    let t = message_code_field();
    match find_by_name(&t, service_name) {
        Some(i) => {
            assert(entry_view(t@[i as int]) == message_code_table()[i as int]);
            match &t[i].emi2_imi2 {
                Some(x) => Some(x.value),
                None => None,
            }
        },
        None => None,
    }
}

/// The name of the first service whose EMI2/IMI2 code is `value`.
pub fn get_service_name_by_emi_value(value: u8) -> (r: Option<&'static str>)
    ensures
        match row_by_emi(message_code_table(), value) {
            Some(row) => r matches Some(s) && s@ == row.0,
            None => r is None,
        },
{
    let t = message_code_field();
    match find_by_code(&t, value, false) {
        Some(i) => {
            assert(entry_view(t@[i as int]) == message_code_table()[i as int]);
            Some(t[i].service_name)
        },
        None => None,
    }
}

} // verus!
