//! Common External Message Interface (cEMI) frames: link-layer data, poll
//! data, raw and busmonitor frames, connected transport data, property
//! services and reset.
use crate::errors::KnxError;
use crate::protocol::control_field::{described_as, ControlField, ControlFieldDescription};
use crate::utils::text::string_of;
use crate::protocol::control_field_extended::ExtendedControlField;
use crate::protocol::knx_add_info_types::{
    add_info_bytes, add_info_fits, add_info_parse_ok, add_info_parsed, AddInfo,
};
use crate::protocol::layers::data::tpdu::{lemma_tpdu_round_trip, tpdu_bytes, tpdu_fits, tpdu_parsed, tpdu_round_trips, Tpdu};
use crate::utils::bytes::{be16, read_u16_be};
use crate::utils::knx_helper::{address_from_string_spec, address_text, data_length_spec, lemma_group3_address_round_trip, lemma_individual_address_round_trip, KnxHelper};
use vstd::prelude::*;

verus! {

// ------------------------------------------------------------------
// Additional information
// ------------------------------------------------------------------

/// The additional information of a frame: a list of fields.
#[derive(Debug, Clone)]
pub struct AdditionalInformationField {
    pub items: Vec<AddInfo>,
}

/// The octets of a list of fields, one after the other.
pub open spec fn add_info_list_bytes(items: Seq<AddInfo>) -> Seq<u8>
    decreases items.len(),
{
    if items.len() == 0 {
        Seq::empty()
    } else {
        add_info_list_bytes(items.drop_last()) + add_info_bytes(items.last())
    }
}

/// Whether every field of the list can be laid out and the whole list
/// leaves room for a frame around it.
pub open spec fn add_info_list_fits(items: Seq<AddInfo>) -> bool {
    &&& forall|i: int| 0 <= i < items.len() ==> #[trigger] add_info_fits(items[i])
    &&& add_info_list_bytes(items).len() + 16 <= usize::MAX
}

/// The blocks of `b`: each a type octet, a length octet and that many
/// octets; `None` when a block runs past the end.
pub open spec fn split_blocks(b: Seq<u8>) -> Option<Seq<Seq<u8>>>
    decreases b.len(),
{
    if b.len() == 0 {
        Some(Seq::empty())
    } else if b.len() < 2 || 2 + b[1] > b.len() {
        None
    } else {
        match split_blocks(b.subrange(2 + b[1], b.len() as int)) {
            Some(rest) => Some(seq![b.subrange(0, 2 + b[1])] + rest),
            None => None,
        }
    }
}

/// The blocks that hold a readable field, in order.
pub open spec fn readable_blocks(blocks: Seq<Seq<u8>>) -> Seq<Seq<u8>> {
    blocks.filter(|blk: Seq<u8>| add_info_parse_ok(blk))
}

/// Whether `items` are the fields read from `blocks`: the blocks that hold
/// a readable field, in order (the other blocks are skipped).
pub open spec fn items_parsed(blocks: Seq<Seq<u8>>, items: Seq<AddInfo>) -> bool {
    let ok = readable_blocks(blocks);
    items.len() == ok.len() && forall|k: int| 0 <= k < items.len() ==> #[trigger] add_info_parsed(ok[k], items[k])
}

/// The octets of a list of fields, one after the other.
fn add_info_list_buffer(items: &Vec<AddInfo>) -> (b: Vec<u8>)
    requires
        add_info_list_fits(items@),
    ensures
        b@ == add_info_list_bytes(items@),
{
    let mut b: Vec<u8> = Vec::new();
    let mut i: usize = 0;
    while i < items.len()
        invariant
            i <= items@.len(),
            add_info_list_fits(items@),
            b@ == add_info_list_bytes(items@.subrange(0, i as int)),
        decreases items.len() - i,
    {
        assert(add_info_fits(items@[i as int]));
        let part = items[i].get_buffer();
        b.extend_from_slice(part.as_slice());
        assert(items@.subrange(0, i as int + 1).drop_last() =~= items@.subrange(0, i as int));
        i = i + 1;
    }
    assert(items@.subrange(0, items@.len() as int) =~= items@);
    b
}

impl AdditionalInformationField {
    /// A field list holding `items`.
    pub fn new(items: Vec<AddInfo>) -> (a: Self)
        ensures
            a.items@ == items@,
    {
        AdditionalInformationField { items }
    }

    /// An empty list.
    pub fn default() -> (a: Self)
        ensures
            a.items@.len() == 0,
    {
        AdditionalInformationField { items: Vec::new() }
    }

    /// Number of octets of all fields.
    pub fn length(&self) -> (n: usize)
        requires
            add_info_list_fits(self.items@),
        ensures
            n == add_info_list_bytes(self.items@).len(),
    {
        let mut n: usize = 0;
        let mut i: usize = 0;
        while i < self.items.len()
            invariant
                i <= self.items@.len(),
                add_info_list_fits(self.items@),
                n == add_info_list_bytes(self.items@.subrange(0, i as int)).len(),
            decreases self.items.len() - i,
        {
            proof {
                lemma_list_bytes_prefix_len(self.items@, i as int + 1);
                assert(self.items@.subrange(0, i as int + 1).drop_last() =~= self.items@.subrange(0, i as int));
                assert(add_info_fits(self.items@[i as int]));
            }
            n = n + self.items[i].total_length();
            i = i + 1;
        }
        assert(self.items@.subrange(0, self.items@.len() as int) =~= self.items@);
        n
    }

    /// All fields, one after the other.
    pub fn to_buffer(&self) -> (b: Vec<u8>)
        requires
            add_info_list_fits(self.items@),
        ensures
            b@ == add_info_list_bytes(self.items@),
    {
        add_info_list_buffer(&self.items)
    }

    /// The fields of `buffer`; blocks that run past the end are an error,
    /// blocks that do not hold a readable field are skipped.
    pub fn from_buffer(buffer: &[u8]) -> (r: Result<Self, KnxError>)
        ensures
            match split_blocks(buffer@) {
                Some(blocks) => r matches Ok(a) && items_parsed(blocks, a.items@),
                None => r == Err::<Self, KnxError>(KnxError::InvalidParametersForDpt),
            },
    {
        let mut items: Vec<AddInfo> = Vec::new();
        let mut offset: usize = 0;
        let ghost mut done: Seq<Seq<u8>> = Seq::empty();
        assert(buffer@.subrange(0, buffer@.len() as int) =~= buffer@);
        proof {
            reveal(Seq::filter);
            assert(readable_blocks(done).len() == 0);
            assert(Seq::<Seq<u8>>::empty() + split_blocks(buffer@)->0 =~= split_blocks(buffer@)->0) by {
            };
        }
        while offset < buffer.len()
            invariant
                offset <= buffer@.len(),
                split_blocks(buffer@) == (match split_blocks(buffer@.subrange(offset as int, buffer@.len() as int)) {
                    Some(rest) => Some(done + rest),
                    None => None::<Seq<Seq<u8>>>,
                }),
                items_parsed(done, items@),
            decreases buffer.len() - offset,
        {
            let ghost rest = buffer@.subrange(offset as int, buffer@.len() as int);
            if buffer.len() - offset < 2 {
                return Err(KnxError::InvalidParametersForDpt);
            }
            let len = buffer[offset + 1] as usize;
            let total = 2 + len;
            assert(rest[1] == buffer@[offset + 1]);
            if total > buffer.len() - offset {
                return Err(KnxError::InvalidParametersForDpt);
            }
            let block = vstd::slice::slice_subrange(buffer, offset, offset + total);
            let ghost blk = block@;
            assert(blk =~= rest.subrange(0, 2 + rest[1]));
            assert(rest.subrange(2 + rest[1], rest.len() as int) =~= buffer@.subrange(
                offset + total,
                buffer@.len() as int,
            ));
            let parsed = AddInfo::from_buffer(block);
            proof {
                reveal(Seq::filter);
                assert(done.push(blk).drop_last() =~= done);
                assert(readable_blocks(done.push(blk)) == if add_info_parse_ok(blk) {
                    readable_blocks(done).push(blk)
                } else {
                    readable_blocks(done)
                });
            }
            match parsed {
                Ok(item) => {
                    items.push(item);
                },
                Err(_) => {},
            }
            proof {
                match split_blocks(buffer@.subrange(offset + total, buffer@.len() as int)) {
                    Some(r2) => {
                        assert(done + (seq![blk] + r2) =~= done.push(blk) + r2);
                    },
                    None => {},
                }
                done = done.push(blk);
            }
            offset = offset + total;
        }
        proof {
            assert(buffer@.subrange(offset as int, buffer@.len() as int) =~= Seq::<u8>::empty());
            assert(done + Seq::<Seq<u8>>::empty() =~= done);
        }
        Ok(AdditionalInformationField { items })
    }
}

proof fn lemma_list_bytes_prefix_len(items: Seq<AddInfo>, n: int)
    requires
        0 < n <= items.len(),
        add_info_list_bytes(items).len() + 16 <= usize::MAX,
    ensures
        add_info_list_bytes(items.subrange(0, n)).len() <= add_info_list_bytes(items).len(),
    decreases items.len(),
{
    if n < items.len() {
        assert(items.drop_last().subrange(0, n) =~= items.subrange(0, n));
        lemma_list_bytes_prefix_len(items.drop_last(), n);
    } else {
        assert(items.subrange(0, n) =~= items);
    }
}

// ------------------------------------------------------------------
// Frame bodies
// ------------------------------------------------------------------

/// Link-layer data: additional information, control fields, addresses and
/// the TPDU.
#[derive(Debug, Clone)]
pub struct LData {
    pub additional_info: Vec<AddInfo>,
    pub control_field1: ControlField,
    pub control_field2: ExtendedControlField,
    pub source_address: String,
    pub destination_address: String,
    pub tpdu: Tpdu,
}

/// Link-layer poll data.
#[derive(Debug, Clone)]
pub struct LPollData {
    pub additional_info: Vec<AddInfo>,
    pub control_field1: ControlField,
    pub control_field2: ExtendedControlField,
    pub source_address: String,
    pub destination_address: String,
    pub num_of_slots: u8,
    pub poll_data: Vec<u8>,
}

/// A raw link-layer frame.
#[derive(Debug, Clone)]
pub struct LRaw {
    pub additional_info: Vec<AddInfo>,
    pub data: Vec<u8>,
}

/// A frame seen by the busmonitor.
#[derive(Debug, Clone)]
pub struct LBusmon {
    pub additional_info: Vec<AddInfo>,
    pub data: Vec<u8>,
}

/// Connection-oriented transport data.
#[derive(Debug, Clone)]
pub struct TDataConnected {
    pub additional_info: Vec<AddInfo>,
    pub tpdu: Tpdu,
}

/// A property read request.
#[derive(Debug, Clone)]
pub struct MProp {
    pub interface_object_type: u16,
    pub object_instance: u8,
    pub property_id: u8,
    pub number_of_elements: u8,
    pub start_index: u16,
}

/// A property service with data.
#[derive(Debug, Clone)]
pub struct MPropWithPayload {
    pub interface_object_type: u16,
    pub object_instance: u8,
    pub property_id: u8,
    pub number_of_elements: u8,
    pub start_index: u16,
    pub data: Vec<u8>,
}

/// A property write confirmation.
#[derive(Debug, Clone)]
pub struct MPropWriteConfirm {
    pub interface_object_type: u16,
    pub object_instance: u8,
    pub property_id: u8,
    pub number_of_elements: u8,
    pub start_index: u16,
    pub error_info: u8,
}

/// A function property request.
#[derive(Debug, Clone)]
pub struct MFuncProp {
    pub interface_object_type: u16,
    pub object_instance: u8,
    pub property_id: u8,
    pub data: Vec<u8>,
}

/// A function property confirmation with its return code.
#[derive(Debug, Clone)]
pub struct MFuncPropWithReturn {
    pub interface_object_type: u16,
    pub object_instance: u8,
    pub property_id: u8,
    pub return_code: u8,
    pub data: Vec<u8>,
}

/// A cEMI message.
#[derive(Debug, Clone)]
pub enum Cemi {
    LDataReq(LData),
    LDataCon(LData),
    LDataInd(LData),
    LPollDataReq(LPollData),
    LPollDataCon(LPollData),
    LRawReq(LRaw),
    LRawCon(LRaw),
    LRawInd(LRaw),
    LBusmonInd(LBusmon),
    TDataConnectedReq(TDataConnected),
    TDataConnectedInd(TDataConnected),
    MPropReadReq(MProp),
    MPropReadCon(MPropWithPayload),
    MPropWriteReq(MPropWithPayload),
    MPropWriteCon(MPropWriteConfirm),
    MPropInfoInd(MPropWithPayload),
    MFuncPropCommandReq(MFuncProp),
    MFuncPropCommandCon(MFuncPropWithReturn),
    MFuncPropStateReadReq(MFuncProp),
    MResetReq,
    MResetInd,
}

/// Description of a cEMI message.
#[derive(Debug, Clone)]
pub struct CemiDescription {
    pub obj: &'static str,
    pub message_code: u8,
    /// For link-layer data frames: source, destination and control field.
    pub source_address: Option<String>,
    pub destination_address: Option<String>,
    pub control_field1: Option<ControlFieldDescription>,
}

/// The name of each kind of message in descriptions.
pub open spec fn cemi_name(c: Cemi) -> Seq<char> {
    match c {
        Cemi::LDataReq(_) => "L_Data_req"@,
        Cemi::LDataCon(_) => "L_Data_con"@,
        Cemi::LDataInd(_) => "L_Data_ind"@,
        Cemi::LPollDataReq(_) => "L_Poll_Data_req"@,
        Cemi::LPollDataCon(_) => "L_Poll_Data_con"@,
        Cemi::LRawReq(_) => "L_Raw_req"@,
        Cemi::LRawCon(_) => "L_Raw_con"@,
        Cemi::LRawInd(_) => "L_Raw_ind"@,
        Cemi::LBusmonInd(_) => "L_Busmon_ind"@,
        Cemi::TDataConnectedReq(_) => "T_Data_Connected_req"@,
        Cemi::TDataConnectedInd(_) => "T_Data_Connected_ind"@,
        Cemi::MPropReadReq(_) => "M_PropRead_req"@,
        Cemi::MPropReadCon(_) => "M_PropRead_con"@,
        Cemi::MPropWriteReq(_) => "M_PropWrite_req"@,
        Cemi::MPropWriteCon(_) => "M_PropWrite_con"@,
        Cemi::MPropInfoInd(_) => "M_PropInfo_ind"@,
        Cemi::MFuncPropCommandReq(_) => "M_FuncPropCommand_req"@,
        Cemi::MFuncPropCommandCon(_) => "M_FuncPropCommand_con"@,
        Cemi::MFuncPropStateReadReq(_) => "M_FuncPropStateRead_req"@,
        Cemi::MResetReq => "M_Reset_req"@,
        Cemi::MResetInd => "M_Reset_ind"@,
    }
}

/// The cEMI message code of each kind of message.
pub open spec fn cemi_code(c: Cemi) -> u8 {
    match c {
        Cemi::LDataReq(_) => 0x11,
        Cemi::LDataCon(_) => 0x2E,
        Cemi::LDataInd(_) => 0x29,
        Cemi::LPollDataReq(_) => 0x13,
        Cemi::LPollDataCon(_) => 0x25,
        Cemi::LRawReq(_) => 0x10,
        Cemi::LRawCon(_) => 0x2F,
        Cemi::LRawInd(_) => 0x2D,
        Cemi::LBusmonInd(_) => 0x2B,
        Cemi::TDataConnectedReq(_) => 0x41,
        Cemi::TDataConnectedInd(_) => 0x89,
        Cemi::MPropReadReq(_) => 0xFC,
        Cemi::MPropReadCon(_) => 0xFB,
        Cemi::MPropWriteReq(_) => 0xF6,
        Cemi::MPropWriteCon(_) => 0xF5,
        Cemi::MPropInfoInd(_) => 0xF7,
        Cemi::MFuncPropCommandReq(_) => 0xF8,
        Cemi::MFuncPropCommandCon(_) => 0xFA,
        Cemi::MFuncPropStateReadReq(_) => 0xF9,
        Cemi::MResetReq => 0xF1,
        Cemi::MResetInd => 0xF0,
    }
}

/// The two octets of an address text, or two zero octets when the text is
/// not an address.
pub open spec fn addr_or_zero(s: Seq<char>) -> Seq<u8> {
    match address_from_string_spec(s) {
        Some((hi, lo)) => seq![hi, lo],
        None => seq![0u8, 0u8],
    }
}

/// The two octets of a 16-bit value, high first.
pub open spec fn word(v: u16) -> Seq<u8> {
    seq![(v / 256) as u8, (v % 256) as u8]
}

/// The word holding a start index (12 bits) and a number of elements (4 bits).
pub open spec fn prop_word(noe: u8, start: u16) -> u16 {
    ((start % 4096) + (noe % 16) * 4096) as u16
}

/// The header of a property service: object type, instance, property and,
/// for the services that have them, number of elements and start index.
pub open spec fn prop_header(iot: u16, oi: u8, pid: u8) -> Seq<u8> {
    word(iot) + seq![oi, pid]
}

/// The link-layer header common to data and poll frames: message code,
/// additional information, control fields and the two addresses.
pub open spec fn link_header(
    code: u8,
    ai: Seq<AddInfo>,
    cf1: ControlField,
    cf2: ExtendedControlField,
    src: Seq<char>,
    dst: Seq<char>,
) -> Seq<u8> {
    seq![code, (add_info_list_bytes(ai).len() % 256) as u8] + add_info_list_bytes(ai) + seq![
        cf1.value(),
        cf2.value(),
    ] + addr_or_zero(src) + addr_or_zero(dst)
}

/// Whether `to_buffer` can lay out the message.
pub open spec fn cemi_fits(c: Cemi) -> bool {
    match c {
        Cemi::LDataReq(x) | Cemi::LDataCon(x) | Cemi::LDataInd(x) => add_info_list_fits(
            x.additional_info@,
        ) && tpdu_fits(x.tpdu) && add_info_list_bytes(x.additional_info@).len()
            + tpdu_bytes(x.tpdu).len() + 16 <= usize::MAX,
        Cemi::LPollDataReq(x) | Cemi::LPollDataCon(x) => add_info_list_fits(x.additional_info@),
        Cemi::LRawReq(x) | Cemi::LRawCon(x) | Cemi::LRawInd(x) => add_info_list_fits(
            x.additional_info@,
        ),
        Cemi::LBusmonInd(x) => add_info_list_fits(x.additional_info@),
        Cemi::TDataConnectedReq(x) | Cemi::TDataConnectedInd(x) => add_info_list_fits(
            x.additional_info@,
        ) && tpdu_fits(x.tpdu) && add_info_list_bytes(x.additional_info@).len()
            + tpdu_bytes(x.tpdu).len() + 16 <= usize::MAX,
        _ => true,
    }
}

/// The octets of a message.
pub open spec fn cemi_bytes(c: Cemi) -> Seq<u8> {
    let code = cemi_code(c);
    match c {
        Cemi::LDataReq(x) | Cemi::LDataCon(x) | Cemi::LDataInd(x) => link_header(
            code,
            x.additional_info@,
            x.control_field1,
            x.control_field2,
            x.source_address@,
            x.destination_address@,
        ) + seq![(data_length_spec(x.tpdu.apdu.data@.len(), x.tpdu.apdu.is_short) % 256) as u8]
            + tpdu_bytes(x.tpdu),
        Cemi::LPollDataReq(x) => link_header(
            code,
            x.additional_info@,
            x.control_field1,
            x.control_field2,
            x.source_address@,
            x.destination_address@,
        ) + seq![x.num_of_slots],
        Cemi::LPollDataCon(x) => link_header(
            code,
            x.additional_info@,
            x.control_field1,
            x.control_field2,
            x.source_address@,
            x.destination_address@,
        ) + seq![
            x.num_of_slots,
            if x.poll_data@.len() > 0 {
                x.poll_data@[0]
            } else {
                0u8
            },
        ],
        Cemi::LRawReq(x) | Cemi::LRawCon(x) | Cemi::LRawInd(x) => seq![
            code,
            (add_info_list_bytes(x.additional_info@).len() % 256) as u8,
        ] + add_info_list_bytes(x.additional_info@) + x.data@,
        Cemi::LBusmonInd(x) => seq![code, (add_info_list_bytes(x.additional_info@).len() % 256) as u8]
            + add_info_list_bytes(x.additional_info@) + x.data@,
        Cemi::TDataConnectedReq(x) | Cemi::TDataConnectedInd(x) => seq![
            code,
            (add_info_list_bytes(x.additional_info@).len() % 256) as u8,
        ] + add_info_list_bytes(x.additional_info@) + seq![0u8, 0u8, 0u8, 0u8, 0u8, 0u8] + seq![
            (data_length_spec(x.tpdu.apdu.data@.len(), x.tpdu.apdu.is_short) % 256) as u8,
        ] + tpdu_bytes(x.tpdu),
        Cemi::MPropReadReq(x) => seq![code] + prop_header(
            x.interface_object_type,
            x.object_instance,
            x.property_id,
        ) + word(prop_word(x.number_of_elements, x.start_index)),
        Cemi::MPropReadCon(x) | Cemi::MPropWriteReq(x) | Cemi::MPropInfoInd(x) => seq![code]
            + prop_header(x.interface_object_type, x.object_instance, x.property_id) + word(
            prop_word(x.number_of_elements, x.start_index),
        ) + x.data@,
        Cemi::MPropWriteCon(x) => seq![code] + prop_header(
            x.interface_object_type,
            x.object_instance,
            x.property_id,
        ) + word(prop_word(x.number_of_elements, x.start_index)) + if x.number_of_elements == 0 {
            seq![x.error_info]
        } else {
            Seq::empty()
        },
        Cemi::MFuncPropCommandReq(x) | Cemi::MFuncPropStateReadReq(x) => seq![code] + prop_header(
            x.interface_object_type,
            x.object_instance,
            x.property_id,
        ) + x.data@,
        Cemi::MFuncPropCommandCon(x) => seq![code] + prop_header(
            x.interface_object_type,
            x.object_instance,
            x.property_id,
        ) + seq![x.return_code] + x.data@,
        Cemi::MResetReq | Cemi::MResetInd => seq![code],
    }
}

/// Whether the octets `b` of a link-layer data frame (L_Data.req, .con or
/// .ind) are written back as read: no additional information, nothing after
/// the transport unit, and a transport unit that round-trips.
pub open spec fn ldata_round_trips(b: Seq<u8>) -> bool {
    &&& b.len() >= 10
    &&& (b[0] == 0x11 || b[0] == 0x2E || b[0] == 0x29)
    &&& b[1] == 0
    &&& b.len() == 10 + b[8]
    &&& tpdu_round_trips(b.subrange(9, b.len() as int))
}

proof fn lemma_ldata_parts(b: Seq<u8>, x: LData)
    requires
        ldata_round_trips(b),
        ldata_parsed(b, x),
        b.len() <= usize::MAX,
    ensures
        tpdu_fits(x.tpdu),
        add_info_list_fits(x.additional_info@),
        add_info_list_bytes(x.additional_info@).len() + tpdu_bytes(x.tpdu).len() + 16 <= usize::MAX,
        link_header(b[0], x.additional_info@, x.control_field1, x.control_field2, x.source_address@, x.destination_address@)
            + seq![(data_length_spec(x.tpdu.apdu.data@.len(), x.tpdu.apdu.is_short) % 256) as u8] + tpdu_bytes(x.tpdu) == b,
{
    let t = b.subrange(9, b.len() as int);
    assert(b.subrange(9, 10 + b[8] as int) =~= t);
    lemma_tpdu_round_trip(t, x.tpdu);
    assert(x.additional_info@.len() == 0);
    assert(add_info_list_bytes(x.additional_info@) =~= Seq::<u8>::empty());
    lemma_individual_address_round_trip(b[4], b[5]);
    if b[3] >= 128 {
        lemma_group3_address_round_trip(b[6], b[7]);
    } else {
        lemma_individual_address_round_trip(b[6], b[7]);
    }
    assert(addr_or_zero(x.source_address@) =~= seq![b[4], b[5]]);
    assert(addr_or_zero(x.destination_address@) =~= seq![b[6], b[7]]);
    assert(link_header(b[0], x.additional_info@, x.control_field1, x.control_field2, x.source_address@,
        x.destination_address@) =~= b.subrange(0, 8));
    assert(b.subrange(0, 8) + seq![b[8]] + t =~= b);
}

/// A link-layer data frame read from octets that round-trip is written
/// back as those octets.
pub proof fn lemma_ldata_round_trip(b: Seq<u8>, c: Cemi)
    requires
        ldata_round_trips(b),
        cemi_parsed(b, c),
        b.len() <= usize::MAX,
    ensures
        cemi_fits(c),
        cemi_bytes(c) == b,
{
    match c {
        Cemi::LDataReq(x) | Cemi::LDataCon(x) | Cemi::LDataInd(x) => {
            lemma_ldata_parts(b, x);
        },
        _ => {},
    }
}

// ------------------------------------------------------------------
// Reading a message
// ------------------------------------------------------------------

/// Whether the additional information of frame `b` (its length in `b[1]`,
/// the fields after it) can be read.
pub open spec fn frame_items_ok(b: Seq<u8>) -> bool {
    b[1] == 0 || split_blocks(b.subrange(2, 2 + b[1])) is Some
}

/// Whether `items` is the additional information read from frame `b`.
pub open spec fn frame_items(b: Seq<u8>, items: Seq<AddInfo>) -> bool {
    if b[1] == 0 {
        items.len() == 0
    } else {
        items_parsed(split_blocks(b.subrange(2, 2 + b[1]))->0, items)
    }
}

/// Whether `b` starts a link-layer header with `extra` octets after the
/// additional information and readable fields.
pub open spec fn link_frame_ok(b: Seq<u8>, extra: int) -> bool {
    b.len() >= 2 && b.len() >= 2 + b[1] + extra && frame_items_ok(b)
}

/// The source and destination addresses read from the link-layer header
/// at `base`: the destination is a three-level group address when the
/// extended control field says group.
pub open spec fn link_addresses_parsed(b: Seq<u8>, base: int, src: Seq<char>, dst: Seq<char>) -> bool {
    let g = b[base + 1] >= 128;
    src == address_text(b[base + 2], b[base + 3], false, false) && dst == address_text(
        b[base + 4],
        b[base + 5],
        g,
        g,
    )
}

/// Whether `b` holds a message that `Cemi::from_buffer` reads.
pub open spec fn cemi_parse_ok(b: Seq<u8>) -> bool {
    b.len() >= 1 && {
        let c = b[0];
        if c == 0x11 || c == 0x2E || c == 0x29 {
            link_frame_ok(b, 7) && b.len() >= 2 + b[1] + 8 + b[2 + b[1] + 6]
        } else if c == 0x13 {
            link_frame_ok(b, 7)
        } else if c == 0x25 {
            link_frame_ok(b, 8)
        } else if c == 0x10 || c == 0x2F || c == 0x2D || c == 0x2B {
            link_frame_ok(b, 0)
        } else if c == 0x41 || c == 0x89 {
            link_frame_ok(b, 8)
        } else if c == 0xFC || c == 0xFB || c == 0xF6 || c == 0xF7 || c == 0xF5 {
            b.len() >= 7
        } else if c == 0xF8 || c == 0xF9 {
            b.len() >= 5
        } else if c == 0xFA {
            b.len() >= 6
        } else {
            c == 0xF1 || c == 0xF0
        }
    }
}

/// Whether the property header of `b` is the one given.
pub open spec fn prop_parsed(b: Seq<u8>, iot: u16, oi: u8, pid: u8) -> bool {
    iot == be16(b[1], b[2]) && oi == b[3] && pid == b[4]
}

/// Whether number of elements and start index are those of the word in `b[5..7]`.
pub open spec fn prop_word_parsed(b: Seq<u8>, noe: u8, start: u16) -> bool {
    let w = be16(b[5], b[6]);
    start == w % 4096 && noe == w / 4096
}

/// Whether `d` is the link-layer data read from `b`.
pub open spec fn ldata_parsed(b: Seq<u8>, d: LData) -> bool {
    let base = 2 + b[1];
    &&& frame_items(b, d.additional_info@)
    &&& d.control_field1.value() == b[base]
    &&& d.control_field2.value() == b[base + 1]
    &&& link_addresses_parsed(b, base, d.source_address@, d.destination_address@)
    &&& tpdu_parsed(b.subrange(base + 7, base + 8 + b[base + 6]), d.tpdu)
}

/// Whether `d` is the poll data read from `b`.
pub open spec fn lpoll_parsed(b: Seq<u8>, d: LPollData, con: bool) -> bool {
    let base = 2 + b[1];
    &&& frame_items(b, d.additional_info@)
    &&& d.control_field1.value() == b[base]
    &&& d.control_field2.value() == b[base + 1]
    &&& link_addresses_parsed(b, base, d.source_address@, d.destination_address@)
    &&& d.num_of_slots == b[base + 6]
    &&& d.poll_data@ == if con {
        seq![b[base + 7]]
    } else {
        Seq::empty()
    }
}

/// Whether `c` is the message read from `b` (for `b` with `cemi_parse_ok`).
pub open spec fn cemi_parsed(b: Seq<u8>, c: Cemi) -> bool {
    let code = b[0];
    let base = 2 + b[1];
    cemi_code(c) == code && match c {
        Cemi::LDataReq(x) | Cemi::LDataCon(x) | Cemi::LDataInd(x) => ldata_parsed(b, x),
        Cemi::LPollDataReq(x) => lpoll_parsed(b, x, false),
        Cemi::LPollDataCon(x) => lpoll_parsed(b, x, true),
        Cemi::LRawReq(x) | Cemi::LRawCon(x) | Cemi::LRawInd(x) => frame_items(b, x.additional_info@)
            && x.data@ == b.subrange(base, b.len() as int),
        Cemi::LBusmonInd(x) => frame_items(b, x.additional_info@) && x.data@ == b.subrange(
            base,
            b.len() as int,
        ),
        Cemi::TDataConnectedReq(x) | Cemi::TDataConnectedInd(x) => frame_items(
            b,
            x.additional_info@,
        ) && tpdu_parsed(b.subrange(base + 7, b.len() as int), x.tpdu),
        Cemi::MPropReadReq(x) => prop_parsed(b, x.interface_object_type, x.object_instance, x.property_id)
            && prop_word_parsed(b, x.number_of_elements, x.start_index),
        Cemi::MPropReadCon(x) | Cemi::MPropWriteReq(x) | Cemi::MPropInfoInd(x) => prop_parsed(
            b,
            x.interface_object_type,
            x.object_instance,
            x.property_id,
        ) && prop_word_parsed(b, x.number_of_elements, x.start_index) && x.data@ == b.subrange(
            7,
            b.len() as int,
        ),
        Cemi::MPropWriteCon(x) => prop_parsed(
            b,
            x.interface_object_type,
            x.object_instance,
            x.property_id,
        ) && prop_word_parsed(b, x.number_of_elements, x.start_index) && x.error_info == (if x.number_of_elements == 0 && b.len() >= 8 {
            b[7]
        } else {
            0u8
        }),
        Cemi::MFuncPropCommandReq(x) | Cemi::MFuncPropStateReadReq(x) => prop_parsed(
            b,
            x.interface_object_type,
            x.object_instance,
            x.property_id,
        ) && x.data@ == b.subrange(5, b.len() as int),
        Cemi::MFuncPropCommandCon(x) => prop_parsed(
            b,
            x.interface_object_type,
            x.object_instance,
            x.property_id,
        ) && x.return_code == b[5] && x.data@ == b.subrange(6, b.len() as int),
        Cemi::MResetReq | Cemi::MResetInd => true,
    }
}

/// The additional information of frame `buffer` (which holds its
/// `buffer[1]` octets).
fn frame_items_of(buffer: &[u8]) -> (r: Result<Vec<AddInfo>, KnxError>)
    requires
        buffer@.len() >= 2,
        buffer@.len() >= 2 + buffer@[1],
    ensures
        frame_items_ok(buffer@) ==> (r matches Ok(v) && frame_items(buffer@, v@)),
        !frame_items_ok(buffer@) ==> r == Err::<Vec<AddInfo>, KnxError>(KnxError::InvalidParametersForDpt),
{
    let n = buffer[1] as usize;
    if n > 0 {
        let a = AdditionalInformationField::from_buffer(vstd::slice::slice_subrange(buffer, 2, 2 + n))?;
        Ok(a.items)
    } else {
        Ok(Vec::new())
    }
}

/// The addresses of the link-layer header at `base`.
fn link_addresses(buffer: &[u8], base: usize) -> (r: (String, String))
    requires
        base + 6 <= buffer@.len(),
    ensures
        link_addresses_parsed(buffer@, base as int, r.0@, r.1@),
{
    let n = buffer.len();
    assert(base + 6 <= n);
    proof {
        reveal_strlit("/");
        reveal_strlit(".");
        assert("."@[0] != "/"@[0]);
        assert("."@ != "/"@);
    }
    let s1 = vstd::slice::slice_subrange(buffer, base + 2, base + 4);
    assert(s1@.len() == 2 && s1@[0] == buffer@[base + 2] && s1@[1] == buffer@[base + 3]);
    let src = match KnxHelper::get_address_to_string(s1, ".", false) {
        Ok(s) => s,
        Err(_) => String::new(),
    };
    assert(src@ == address_text(buffer@[base + 2], buffer@[base + 3], false, false));
    let g = buffer[base + 1] >= 128;
    let sep = if g {
        "/"
    } else {
        "."
    };
    assert(sep@ == "/"@ <==> g);
    let s2 = vstd::slice::slice_subrange(buffer, base + 4, base + 6);
    assert(s2@.len() == 2 && s2@[0] == buffer@[base + 4] && s2@[1] == buffer@[base + 5]);
    let dst = match KnxHelper::get_address_to_string(s2, sep, g) {
        Ok(s) => s,
        Err(_) => String::new(),
    };
    (src, dst)
}

/// The payload after index `from` as a new vector.
pub(crate) fn tail(buffer: &[u8], from: usize) -> (v: Vec<u8>)
    requires
        from <= buffer@.len(),
    ensures
        v@ == buffer@.subrange(from as int, buffer@.len() as int),
{
    vstd::slice::slice_to_vec(vstd::slice::slice_subrange(buffer, from, buffer.len()))
}

impl Cemi {
    /// The message code.
    pub fn get_message_code(&self) -> (c: u8)
        ensures
            c == cemi_code(*self),
    {
        match self {
            Cemi::LDataReq(_) => 0x11,
            Cemi::LDataCon(_) => 0x2E,
            Cemi::LDataInd(_) => 0x29,
            Cemi::LPollDataReq(_) => 0x13,
            Cemi::LPollDataCon(_) => 0x25,
            Cemi::LRawReq(_) => 0x10,
            Cemi::LRawCon(_) => 0x2F,
            Cemi::LRawInd(_) => 0x2D,
            Cemi::LBusmonInd(_) => 0x2B,
            Cemi::TDataConnectedReq(_) => 0x41,
            Cemi::TDataConnectedInd(_) => 0x89,
            Cemi::MPropReadReq(_) => 0xFC,
            Cemi::MPropReadCon(_) => 0xFB,
            Cemi::MPropWriteReq(_) => 0xF6,
            Cemi::MPropWriteCon(_) => 0xF5,
            Cemi::MPropInfoInd(_) => 0xF7,
            Cemi::MFuncPropCommandReq(_) => 0xF8,
            Cemi::MFuncPropCommandCon(_) => 0xFA,
            Cemi::MFuncPropStateReadReq(_) => 0xF9,
            Cemi::MResetReq => 0xF1,
            Cemi::MResetInd => 0xF0,
        }
    }

    /// The message held by `buffer`, dispatched on its message code.
    pub fn from_buffer(buffer: &[u8]) -> (r: Result<Self, KnxError>)
        ensures
            cemi_parse_ok(buffer@) ==> (r matches Ok(c) && cemi_parsed(buffer@, c)),
            !cemi_parse_ok(buffer@) ==> r == Err::<Self, KnxError>(KnxError::InvalidParametersForDpt),
    {
        if buffer.len() == 0 {
            return Err(KnxError::InvalidParametersForDpt);
        }
        let code = buffer[0];
        if code == 0x11 || code == 0x2E || code == 0x29 {
            if buffer.len() < 2 {
                return Err(KnxError::InvalidParametersForDpt);
            }
            let base = 2 + buffer[1] as usize;
            if buffer.len() < base + 7 {
                return Err(KnxError::InvalidParametersForDpt);
            }
            let additional_info = frame_items_of(buffer)?;
            let control_field1 = ControlField::new(buffer[base]);
            let control_field2 = ExtendedControlField::new(buffer[base + 1]);
            let (source_address, destination_address) = link_addresses(buffer, base);
            let length = buffer[base + 6] as usize;
            if buffer.len() < base + 7 + length + 1 {
                return Err(KnxError::InvalidParametersForDpt);
            }
            let tpdu = Tpdu::from_buffer(
                vstd::slice::slice_subrange(buffer, base + 7, base + 7 + length + 1),
            )?;
            let ld = LData {
                additional_info,
                control_field1,
                control_field2,
                source_address,
                destination_address,
                tpdu,
            };
            if code == 0x11 {
                Ok(Cemi::LDataReq(ld))
            } else if code == 0x2E {
                Ok(Cemi::LDataCon(ld))
            } else {
                Ok(Cemi::LDataInd(ld))
            }
        } else if code == 0x13 || code == 0x25 {
            if buffer.len() < 2 {
                return Err(KnxError::InvalidParametersForDpt);
            }
            let base = 2 + buffer[1] as usize;
            let extra: usize = if code == 0x25 {
                8
            } else {
                7
            };
            if buffer.len() < base + extra {
                return Err(KnxError::InvalidParametersForDpt);
            }
            let additional_info = frame_items_of(buffer)?;
            let control_field1 = ControlField::new(buffer[base]);
            let control_field2 = ExtendedControlField::new(buffer[base + 1]);
            let (source_address, destination_address) = link_addresses(buffer, base);
            let num_of_slots = buffer[base + 6];
            let poll_data = if code == 0x25 {
                let v = vec![buffer[base + 7]];
                assert(v@ =~= seq![buffer@[base + 7]]);
                v
            } else {
                Vec::new()
            };
            let pd = LPollData {
                additional_info,
                control_field1,
                control_field2,
                source_address,
                destination_address,
                num_of_slots,
                poll_data,
            };
            if code == 0x13 {
                Ok(Cemi::LPollDataReq(pd))
            } else {
                Ok(Cemi::LPollDataCon(pd))
            }
        } else if code == 0x10 || code == 0x2F || code == 0x2D || code == 0x2B {
            if buffer.len() < 2 {
                return Err(KnxError::InvalidParametersForDpt);
            }
            let base = 2 + buffer[1] as usize;
            if buffer.len() < base {
                return Err(KnxError::InvalidParametersForDpt);
            }
            let additional_info = frame_items_of(buffer)?;
            let data = tail(buffer, base);
            if code == 0x2B {
                Ok(Cemi::LBusmonInd(LBusmon { additional_info, data }))
            } else if code == 0x10 {
                Ok(Cemi::LRawReq(LRaw { additional_info, data }))
            } else if code == 0x2F {
                Ok(Cemi::LRawCon(LRaw { additional_info, data }))
            } else {
                Ok(Cemi::LRawInd(LRaw { additional_info, data }))
            }
        } else if code == 0x41 || code == 0x89 {
            if buffer.len() < 2 {
                return Err(KnxError::InvalidParametersForDpt);
            }
            let base = 2 + buffer[1] as usize;
            if buffer.len() < base + 7 {
                return Err(KnxError::InvalidParametersForDpt);
            }
            let additional_info = frame_items_of(buffer)?;
            let tpdu = Tpdu::from_buffer(vstd::slice::slice_subrange(buffer, base + 7, buffer.len()))?;
            let tc = TDataConnected { additional_info, tpdu };
            if code == 0x41 {
                Ok(Cemi::TDataConnectedReq(tc))
            } else {
                Ok(Cemi::TDataConnectedInd(tc))
            }
        } else if code == 0xFC || code == 0xFB || code == 0xF6 || code == 0xF7 || code == 0xF5 {
            if buffer.len() < 7 {
                return Err(KnxError::InvalidParametersForDpt);
            }
            let interface_object_type = read_u16_be(buffer, 1);
            let object_instance = buffer[3];
            let property_id = buffer[4];
            let w = read_u16_be(buffer, 5);
            let start_index = w % 4096;
            let number_of_elements = (w / 4096) as u8;
            if code == 0xFC {
                Ok(
                    Cemi::MPropReadReq(
                        MProp {
                            interface_object_type,
                            object_instance,
                            property_id,
                            number_of_elements,
                            start_index,
                        },
                    ),
                )
            } else if code == 0xF5 {
                let error_info = if number_of_elements == 0 && buffer.len() >= 8 {
                    buffer[7]
                } else {
                    0
                };
                Ok(
                    Cemi::MPropWriteCon(
                        MPropWriteConfirm {
                            interface_object_type,
                            object_instance,
                            property_id,
                            number_of_elements,
                            start_index,
                            error_info,
                        },
                    ),
                )
            } else {
                let mp = MPropWithPayload {
                    interface_object_type,
                    object_instance,
                    property_id,
                    number_of_elements,
                    start_index,
                    data: tail(buffer, 7),
                };
                if code == 0xFB {
                    Ok(Cemi::MPropReadCon(mp))
                } else if code == 0xF6 {
                    Ok(Cemi::MPropWriteReq(mp))
                } else {
                    Ok(Cemi::MPropInfoInd(mp))
                }
            }
        } else if code == 0xF8 || code == 0xF9 {
            if buffer.len() < 5 {
                return Err(KnxError::InvalidParametersForDpt);
            }
            let mf = MFuncProp {
                interface_object_type: read_u16_be(buffer, 1),
                object_instance: buffer[3],
                property_id: buffer[4],
                data: tail(buffer, 5),
            };
            if code == 0xF8 {
                Ok(Cemi::MFuncPropCommandReq(mf))
            } else {
                Ok(Cemi::MFuncPropStateReadReq(mf))
            }
        } else if code == 0xFA {
            if buffer.len() < 6 {
                return Err(KnxError::InvalidParametersForDpt);
            }
            Ok(
                Cemi::MFuncPropCommandCon(
                    MFuncPropWithReturn {
                        interface_object_type: read_u16_be(buffer, 1),
                        object_instance: buffer[3],
                        property_id: buffer[4],
                        return_code: buffer[5],
                        data: tail(buffer, 6),
                    },
                ),
            )
        } else if code == 0xF1 {
            Ok(Cemi::MResetReq)
        } else if code == 0xF0 {
            Ok(Cemi::MResetInd)
        } else {
            Err(KnxError::InvalidParametersForDpt)
        }
    }

    /// Description of the message.
    /// The message's name and code; for link-layer data frames also the
    /// source and destination address and the description of control
    /// field 1.
    pub fn describe(&self) -> (d: CemiDescription)
        ensures
            d.obj@ == cemi_name(*self),
            d.message_code == cemi_code(*self),
            match *self {
                Cemi::LDataReq(x) | Cemi::LDataCon(x) | Cemi::LDataInd(x) => {
                    &&& d.source_address matches Some(a) && a@ == x.source_address@
                    &&& d.destination_address matches Some(a) && a@ == x.destination_address@
                    &&& d.control_field1 matches Some(f) && described_as(x.control_field1, f)
                },
                _ => d.source_address is None && d.destination_address is None && d.control_field1 is None,
            },
    {
        let obj = self.name();
        let message_code = self.get_message_code();
        match self {
            Cemi::LDataReq(x) | Cemi::LDataCon(x) | Cemi::LDataInd(x) => CemiDescription {
                obj,
                message_code,
                source_address: Some(string_of(x.source_address.as_str())),
                destination_address: Some(string_of(x.destination_address.as_str())),
                control_field1: Some(x.control_field1.describe()),
            },
            _ => CemiDescription { obj, message_code, source_address: None, destination_address: None, control_field1: None },
        }
    }

    /// The name of the message in descriptions.
    pub fn name(&self) -> (n: &'static str)
        ensures
            n@ == cemi_name(*self),
    {
        proof {
            reveal_strlit("L_Data_req");
            reveal_strlit("L_Data_con");
            reveal_strlit("L_Data_ind");
            reveal_strlit("L_Poll_Data_req");
            reveal_strlit("L_Poll_Data_con");
            reveal_strlit("L_Raw_req");
            reveal_strlit("L_Raw_con");
            reveal_strlit("L_Raw_ind");
            reveal_strlit("L_Busmon_ind");
            reveal_strlit("T_Data_Connected_req");
            reveal_strlit("T_Data_Connected_ind");
            reveal_strlit("M_PropRead_req");
            reveal_strlit("M_PropRead_con");
            reveal_strlit("M_PropWrite_req");
            reveal_strlit("M_PropWrite_con");
            reveal_strlit("M_PropInfo_ind");
            reveal_strlit("M_FuncPropCommand_req");
            reveal_strlit("M_FuncPropCommand_con");
            reveal_strlit("M_FuncPropStateRead_req");
            reveal_strlit("M_Reset_req");
            reveal_strlit("M_Reset_ind");
        }
        match self {
            Cemi::LDataReq(_) => "L_Data_req",
            Cemi::LDataCon(_) => "L_Data_con",
            Cemi::LDataInd(_) => "L_Data_ind",
            Cemi::LPollDataReq(_) => "L_Poll_Data_req",
            Cemi::LPollDataCon(_) => "L_Poll_Data_con",
            Cemi::LRawReq(_) => "L_Raw_req",
            Cemi::LRawCon(_) => "L_Raw_con",
            Cemi::LRawInd(_) => "L_Raw_ind",
            Cemi::LBusmonInd(_) => "L_Busmon_ind",
            Cemi::TDataConnectedReq(_) => "T_Data_Connected_req",
            Cemi::TDataConnectedInd(_) => "T_Data_Connected_ind",
            Cemi::MPropReadReq(_) => "M_PropRead_req",
            Cemi::MPropReadCon(_) => "M_PropRead_con",
            Cemi::MPropWriteReq(_) => "M_PropWrite_req",
            Cemi::MPropWriteCon(_) => "M_PropWrite_con",
            Cemi::MPropInfoInd(_) => "M_PropInfo_ind",
            Cemi::MFuncPropCommandReq(_) => "M_FuncPropCommand_req",
            Cemi::MFuncPropCommandCon(_) => "M_FuncPropCommand_con",
            Cemi::MFuncPropStateReadReq(_) => "M_FuncPropStateRead_req",
            Cemi::MResetReq => "M_Reset_req",
            Cemi::MResetInd => "M_Reset_ind",
        }
    }
}

// ------------------------------------------------------------------
// Writing a message
// ------------------------------------------------------------------

/// Appends the two octets of an address text, or two zeros.
pub(crate) fn push_addr(b: &mut Vec<u8>, s: &str)
    ensures
        final(b)@ == old(b)@ + addr_or_zero(s@),
{
    let a = match KnxHelper::get_address_from_string(s) {
        Ok(a) => a,
        Err(_) => [0u8, 0u8],
    };
    b.push(a[0]);
    b.push(a[1]);
    assert(final(b)@ =~= old(b)@ + addr_or_zero(s@));
}

/// Appends the message code, the additional information with its length.
fn push_info(b: &mut Vec<u8>, code: u8, ai: &Vec<AddInfo>)
    requires
        add_info_list_fits(ai@),
    ensures
        final(b)@ == old(b)@ + seq![code, (add_info_list_bytes(ai@).len() % 256) as u8]
            + add_info_list_bytes(ai@),
{
    let bytes = add_info_list_buffer(ai);
    b.push(code);
    b.push((bytes.len() % 256) as u8);
    b.extend_from_slice(bytes.as_slice());
    assert(final(b)@ =~= old(b)@ + seq![code, (add_info_list_bytes(ai@).len() % 256) as u8]
        + add_info_list_bytes(ai@));
}

/// Appends the link-layer header.
fn push_link_header(
    b: &mut Vec<u8>,
    code: u8,
    ai: &Vec<AddInfo>,
    cf1: &ControlField,
    cf2: &ExtendedControlField,
    src: &String,
    dst: &String,
)
    requires
        add_info_list_fits(ai@),
    ensures
        final(b)@ == old(b)@ + link_header(code, ai@, *cf1, *cf2, src@, dst@),
{
    push_info(b, code, ai);
    b.push(cf1.get_buffer()[0]);
    b.push(cf2.get_buffer()[0]);
    push_addr(b, src.as_str());
    push_addr(b, dst.as_str());
    assert(final(b)@ =~= old(b)@ + link_header(code, ai@, *cf1, *cf2, src@, dst@));
}

/// Appends the property header.
pub(crate) fn push_prop(b: &mut Vec<u8>, iot: u16, oi: u8, pid: u8)
    ensures
        final(b)@ == old(b)@ + prop_header(iot, oi, pid),
{
    b.push((iot / 256) as u8);
    b.push((iot % 256) as u8);
    b.push(oi);
    b.push(pid);
    assert(final(b)@ =~= old(b)@ + prop_header(iot, oi, pid));
}

/// Appends a 16-bit value, high octet first.
pub(crate) fn push_word(b: &mut Vec<u8>, v: u16)
    ensures
        final(b)@ == old(b)@ + word(v),
{
    b.push((v / 256) as u8);
    b.push((v % 256) as u8);
    assert(final(b)@ =~= old(b)@ + word(v));
}

/// The word of number of elements and start index.
pub(crate) fn prop_word_exec(noe: u8, start: u16) -> (w: u16)
    ensures
        w == prop_word(noe, start),
{
    start % 4096 + (noe % 16) as u16 * 4096
}

impl Cemi {
    /// The octets of the message.
    pub fn to_buffer(&self) -> (b: Vec<u8>)
        requires
            cemi_fits(*self),
        ensures
            b@ == cemi_bytes(*self),
    {
        let code = self.get_message_code();
        let mut b: Vec<u8> = Vec::new();
        match self {
            Cemi::LDataReq(x) | Cemi::LDataCon(x) | Cemi::LDataInd(x) => {
                let t = x.tpdu.to_buffer();
                push_link_header(
                    &mut b,
                    code,
                    &x.additional_info,
                    &x.control_field1,
                    &x.control_field2,
                    &x.source_address,
                    &x.destination_address,
                );
                let n = x.tpdu.apdu.get_length();
                b.push((n % 256) as u8);
                b.extend_from_slice(t.as_slice());
            },
            Cemi::LPollDataReq(x) => {
                push_link_header(
                    &mut b,
                    code,
                    &x.additional_info,
                    &x.control_field1,
                    &x.control_field2,
                    &x.source_address,
                    &x.destination_address,
                );
                b.push(x.num_of_slots);
            },
            Cemi::LPollDataCon(x) => {
                push_link_header(
                    &mut b,
                    code,
                    &x.additional_info,
                    &x.control_field1,
                    &x.control_field2,
                    &x.source_address,
                    &x.destination_address,
                );
                b.push(x.num_of_slots);
                let p = if x.poll_data.len() > 0 {
                    x.poll_data[0]
                } else {
                    0
                };
                b.push(p);
            },
            Cemi::LRawReq(x) | Cemi::LRawCon(x) | Cemi::LRawInd(x) => {
                push_info(&mut b, code, &x.additional_info);
                b.extend_from_slice(x.data.as_slice());
            },
            Cemi::LBusmonInd(x) => {
                push_info(&mut b, code, &x.additional_info);
                b.extend_from_slice(x.data.as_slice());
            },
            Cemi::TDataConnectedReq(x) | Cemi::TDataConnectedInd(x) => {
                let t = x.tpdu.to_buffer();
                push_info(&mut b, code, &x.additional_info);
                let mut k: usize = 0;
                while k < 6
                    invariant
                        k <= 6,
                        b@ == seq![code, (add_info_list_bytes(x.additional_info@).len() % 256) as u8]
                            + add_info_list_bytes(x.additional_info@) + Seq::new(k as nat, |i: int| 0u8),
                    decreases 6 - k,
                {
                    b.push(0);
                    assert(Seq::new(k as nat + 1, |i: int| 0u8) =~= Seq::new(k as nat, |i: int| 0u8).push(0u8));
                    k = k + 1;
                }
                assert(Seq::new(6, |i: int| 0u8) =~= seq![0u8, 0u8, 0u8, 0u8, 0u8, 0u8]);
                let n = x.tpdu.apdu.get_length();
                b.push((n % 256) as u8);
                b.extend_from_slice(t.as_slice());
            },
            Cemi::MPropReadReq(x) => {
                b.push(code);
                push_prop(&mut b, x.interface_object_type, x.object_instance, x.property_id);
                push_word(&mut b, prop_word_exec(x.number_of_elements, x.start_index));
            },
            Cemi::MPropReadCon(x) | Cemi::MPropWriteReq(x) | Cemi::MPropInfoInd(x) => {
                b.push(code);
                push_prop(&mut b, x.interface_object_type, x.object_instance, x.property_id);
                push_word(&mut b, prop_word_exec(x.number_of_elements, x.start_index));
                b.extend_from_slice(x.data.as_slice());
            },
            Cemi::MPropWriteCon(x) => {
                b.push(code);
                push_prop(&mut b, x.interface_object_type, x.object_instance, x.property_id);
                push_word(&mut b, prop_word_exec(x.number_of_elements, x.start_index));
                if x.number_of_elements == 0 {
                    b.push(x.error_info);
                }
            },
            Cemi::MFuncPropCommandReq(x) | Cemi::MFuncPropStateReadReq(x) => {
                b.push(code);
                push_prop(&mut b, x.interface_object_type, x.object_instance, x.property_id);
                b.extend_from_slice(x.data.as_slice());
            },
            Cemi::MFuncPropCommandCon(x) => {
                b.push(code);
                push_prop(&mut b, x.interface_object_type, x.object_instance, x.property_id);
                b.push(x.return_code);
                b.extend_from_slice(x.data.as_slice());
            },
            Cemi::MResetReq | Cemi::MResetInd => {
                b.push(code);
            },
        }
        assert(b@ =~= cemi_bytes(*self));
        b
    }
}

} // verus!
