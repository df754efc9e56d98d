//! The group telegrams every connection sends: a value write and a read
//! request, as L_Data.req frames.
use crate::errors::KnxError;
use crate::protocol::cemi::{Cemi, LData};
use crate::protocol::control_field::ControlField;
use crate::protocol::control_field_extended::ExtendedControlField;
use crate::protocol::data::knx_data_decode::{dpt_number_overflows, dpt_number_spec, fallback_spec, DptValue};
use crate::protocol::data::knx_data_encode::{encoded, is_dpt7_text, is_short_spec, KnxDataEncoder};
use crate::protocol::layers::data::apdu::Apdu;
use crate::protocol::layers::data::tpdu::Tpdu;
use crate::protocol::layers::interfaces::apci::Apci;
use crate::protocol::layers::interfaces::tpci::Tpci;
use crate::utils::text::string_of;
use vstd::prelude::*;

verus! {

/// Whether `ld` is a standard group telegram from `src` to `dst` with
/// APCI `apci`, data `data` and the short-data flag `is_short`: control
/// fields 0xBC and 0xE0, no additional information, TPCI 0.
pub open spec fn group_telegram(
    ld: LData,
    src: Seq<char>,
    dst: Seq<char>,
    apci: u16,
    data: Seq<u8>,
    is_short: bool,
) -> bool {
    &&& ld.additional_info@.len() == 0
    &&& ld.control_field1.value() == 0xBC
    &&& ld.control_field2.value() == 0xE0
    &&& ld.source_address@ == src
    &&& ld.destination_address@ == dst
    &&& ld.tpdu.tpci.value() == 0
    &&& ld.tpdu.apdu.tpci.value() == 0
    &&& ld.tpdu.apdu.apci.value() == apci
    &&& ld.tpdu.apdu.data@ == data
    &&& ld.tpdu.apdu.is_short == is_short
    &&& ld.tpdu.data@ == data
}

fn telegram(source: &str, destination: &str, apci: u16, data: Vec<u8>, is_short: bool) -> (ld: LData)
    requires
        apci < 1024,
    ensures
        group_telegram(ld, source@, destination@, apci, data@, is_short),
{
    let tpci = Tpci::new(0x00);
    let a = Apci::new(apci);
    assert(apci & 0x03FF == apci) by (bit_vector)
        requires
            apci < 1024,
    ;
    let apdu = Apdu { tpci, apci: a, data: data.clone(), is_short };
    let tpdu = Tpdu { tpci, apdu, data };
    LData {
        additional_info: Vec::new(),
        control_field1: ControlField::new(0xBC),
        control_field2: ExtendedControlField::new(0xE0),
        source_address: string_of(source),
        destination_address: string_of(destination),
        tpdu,
    }
}

/// The GroupValue_Write request carrying `value` coded as `dpt`, from
/// `source` to `destination`; coding errors are passed on.
pub fn group_write_frame(source: &str, destination: &str, dpt: &str, value: &DptValue) -> (r: Result<Cemi, KnxError>)
    requires
        !dpt_number_overflows(dpt@),
        dpt_number_spec(dpt@) matches Some(n) && is_dpt7_text(fallback_spec(n))
            ==> !(value is Dpt7Suffix),
    ensures
        dpt_number_spec(dpt@) is None ==> r == Err::<Cemi, KnxError>(KnxError::DPTNotFound),
        dpt_number_spec(dpt@) matches Some(n) ==> match encoded(fallback_spec(n), *value) {
            Some(b) => r matches Ok(Cemi::LDataReq(ld)) && group_telegram(
                ld,
                source@,
                destination@,
                0x80,
                b,
                is_short_spec(dpt@),
            ),
            None => r == Err::<Cemi, KnxError>(KnxError::InvalidParametersForDpt),
        },
{
    let data = match KnxDataEncoder::encode_this(dpt, value) {
        Ok(d) => d,
        Err(e) => {
            return Err(e);
        },
    };
    let is_short = KnxDataEncoder::is_short_dpt(dpt);
    Ok(Cemi::LDataReq(telegram(source, destination, 0x80, data, is_short)))
}

/// The GroupValue_Read request to `destination`, from 0.0.0, with one zero
/// data octet in short form.
pub fn group_read_frame(destination: &str) -> (c: Cemi)
    ensures
        c matches Cemi::LDataReq(ld) && group_telegram(ld, "0.0.0"@, destination@, 0, seq![0u8], true),
{
    let data = vec![0u8];
    assert(data@ =~= seq![0u8]);
    Cemi::LDataReq(telegram("0.0.0", destination, 0, data, true))
}

} // verus!
