//! Conversion of link-layer data, busmonitor and raw frames between EMI
//! and cEMI.
use crate::errors::KnxError;
use crate::protocol::cemi::{cemi_code, Cemi, LBusmon, LData, LRaw};
use crate::protocol::control_field::ControlField;
use crate::protocol::control_field_extended::{AddressType, ExtendedControlField};
use crate::protocol::emi::{
    emi_parse_ok, emi_parsed, name_of_code, service_of_name, Emi, EmiService, LBusmonEmi,
    LDataEmi, LRawEmi,
};
use crate::protocol::layers::data::npdu::Npdu;
use crate::protocol::layers::data::tpdu::{copy_tpdu, tpdu_bytes, tpdu_fits, tpdu_same};
use crate::protocol::message_code_field::{
    cemi_code_of_name, emi_code_of_name, get_cemi_message_code, get_emi_message_code,
};
use crate::utils::text::string_of;
use vstd::prelude::*;

verus! {

/// Conversions between EMI and cEMI frames.
pub struct CemiAdapter;

/// A code from the table, or `default` when the service has none.
pub open spec fn code_or(c: Option<u8>, default: u8) -> u8 {
    match c {
        Some(v) => v,
        None => default,
    }
}

/// The extended control field built from an NPDU: its hop count (when at
/// most 7) in bits 6..4 and bit 7 set for a group destination.
pub open spec fn ctrl2_from(hop: u8, t: AddressType) -> u8 {
    ((if hop <= 7 {
        hop * 16
    } else {
        0
    }) + (if t == AddressType::Group {
        128int
    } else {
        0int
    })) as u8
}

/// The cEMI code a converted frame gets: request and confirmation codes
/// (looked up in the EMI column) keep their kind, anything else becomes
/// an indication.
pub open spec fn converted_kind(mc: u8, req: u8, con: u8, ind: u8, req_c: u8, con_c: u8) -> u8 {
    if mc == req {
        req_c
    } else if mc == con {
        con_c
    } else {
        ind
    }
}

/// Whether `c` is the cEMI frame that `e` converts to.
pub open spec fn cemi_of_emi(e: Emi, c: Cemi) -> bool {
    match e {
        Emi::LDataReq(ld) | Emi::LDataCon(ld) | Emi::LDataInd(ld) => {
            &&& cemi_code(c) == converted_kind(
                ld.message_code,
                code_or(emi_code_of_name("L_Data.req"@), 0x11),
                code_or(emi_code_of_name("L_Data.con"@), 0x2E),
                0x29,
                0x11,
                0x2E,
            )
            &&& match c {
                Cemi::LDataReq(x) | Cemi::LDataCon(x) | Cemi::LDataInd(x) => {
                    &&& x.additional_info@.len() == 0
                    &&& x.control_field1 == ld.control_field1
                    &&& x.control_field2.value() == ctrl2_from(
                        ld.npdu.hop_count,
                        ld.npdu.address_type,
                    )
                    &&& x.source_address@ == ld.source_address@
                    &&& x.destination_address@ == ld.destination_address@
                    &&& x.tpdu == ld.npdu.tpdu
                },
                _ => false,
            }
        },
        Emi::LBusmonInd(lb) => c matches Cemi::LBusmonInd(x) && x.additional_info@.len() == 0
            && x.data@ == lb.data@,
        Emi::LRawReq(lr) | Emi::LRawCon(lr) | Emi::LRawInd(lr) => {
            &&& cemi_code(c) == converted_kind(
                lr.message_code,
                code_or(emi_code_of_name("L_Raw.req"@), 0x10),
                code_or(emi_code_of_name("L_Raw.con"@), 0x2F),
                0x2D,
                0x10,
                0x2F,
            )
            &&& match c {
                Cemi::LRawReq(x) | Cemi::LRawCon(x) | Cemi::LRawInd(x) => x.additional_info@.len()
                    == 0 && x.data@ == lr.data@,
                _ => false,
            }
        },
        _ => false,
    }
}

/// Whether the frame in `b` is one that converts to cEMI.
pub open spec fn emi_convertible(b: Seq<u8>) -> bool {
    let s = service_of_name(name_of_code(b[0]));
    s == EmiService::LDataReq || s == EmiService::LDataCon || s == EmiService::LDataInd || s
        == EmiService::LBusmonInd || s == EmiService::LRawReq || s == EmiService::LRawCon || s
        == EmiService::LRawInd
}

/// Whether the cEMI frame converts to EMI and can be laid out.
pub open spec fn cemi_convertible(c: Cemi) -> bool {
    match c {
        Cemi::LDataReq(x) | Cemi::LDataCon(x) | Cemi::LDataInd(x) => tpdu_fits(x.tpdu),
        Cemi::LBusmonInd(_) | Cemi::LRawReq(_) | Cemi::LRawCon(_) | Cemi::LRawInd(_) => true,
        _ => false,
    }
}

/// Whether `e` is the EMI frame that `c` converts to.
pub open spec fn emi_of_cemi(c: Cemi, e: Emi) -> bool {
    match c {
        Cemi::LDataReq(ld) | Cemi::LDataCon(ld) | Cemi::LDataInd(ld) => {
            let kind = converted_kind(
                cemi_code(c),
                code_or(cemi_code_of_name("L_Data.req"@), 0x11),
                code_or(cemi_code_of_name("L_Data.con"@), 0x2E),
                2,
                0,
                1,
            );
            &&& (kind == 0 ==> e is LDataReq) && (kind == 1 ==> e is LDataCon) && (kind == 2
                ==> e is LDataInd)
            &&& match e {
                Emi::LDataReq(x) | Emi::LDataCon(x) | Emi::LDataInd(x) => {
                    &&& x.message_code == cemi_code(c)
                    &&& x.control_field1.value() == ld.control_field1.value()
                    &&& x.source_address@ == ld.source_address@
                    &&& x.destination_address@ == ld.destination_address@
                    &&& tpdu_same(x.npdu.tpdu, ld.tpdu)
                    &&& x.npdu.address_type == (if ld.control_field2.value() >= 128 {
                        AddressType::Group
                    } else {
                        AddressType::Individual
                    })
                    &&& x.npdu.hop_count == (ld.control_field2.value() / 16) % 8
                    &&& x.npdu.length == (tpdu_bytes(ld.tpdu).len() % 256) as u8
                },
                _ => false,
            }
        },
        Cemi::LBusmonInd(lb) => e matches Emi::LBusmonInd(x) && x.message_code == code_or(
            emi_code_of_name("L_Busmon.ind"@),
            0x2B,
        ) && x.data@ == lb.data@,
        Cemi::LRawReq(lr) | Cemi::LRawCon(lr) | Cemi::LRawInd(lr) => {
            let kind = converted_kind(
                cemi_code(c),
                code_or(cemi_code_of_name("L_Raw.req"@), 0x10),
                code_or(cemi_code_of_name("L_Raw.con"@), 0x2F),
                2,
                0,
                1,
            );
            &&& (kind == 0 ==> e is LRawReq) && (kind == 1 ==> e is LRawCon) && (kind == 2
                ==> e is LRawInd)
            &&& match e {
                Emi::LRawReq(x) | Emi::LRawCon(x) | Emi::LRawInd(x) => x.message_code == cemi_code(
                    c,
                ) && x.data@ == lr.data@,
                _ => false,
            }
        },
        _ => false,
    }
}

/// Converting an EMI link-layer data frame to cEMI sets bit 7 of the
/// extended control field exactly when the EMI frame's NPCI marks a group
/// destination, and carries the hop count over into bits 6..4.
pub proof fn lemma_emi_to_cemi_npci(e: Emi, c: Cemi)
    requires
        cemi_of_emi(e, c),
        e is LDataReq || e is LDataCon || e is LDataInd,
    ensures
        match e {
            Emi::LDataReq(ld) | Emi::LDataCon(ld) | Emi::LDataInd(ld) => match c {
                Cemi::LDataReq(x) | Cemi::LDataCon(x) | Cemi::LDataInd(x) => {
                    &&& (x.control_field2.value() >= 128 <==> ld.npdu.address_type
                        == AddressType::Group)
                    &&& (ld.npdu.hop_count <= 7 ==> (x.control_field2.value() / 16) % 8
                        == ld.npdu.hop_count)
                },
                _ => false,
            },
            _ => true,
        },
{
}

/// An EMI link-layer data frame converted to cEMI and back keeps its
/// destination's address type, its hop count, its control field and its
/// addresses.
pub proof fn lemma_emi_cemi_emi_keeps_npci(e: Emi, c: Cemi, back: Emi)
    requires
        cemi_of_emi(e, c),
        emi_of_cemi(c, back),
        e is LDataReq || e is LDataCon || e is LDataInd,
    ensures
        match e {
            Emi::LDataReq(ld) | Emi::LDataCon(ld) | Emi::LDataInd(ld) => match back {
                Emi::LDataReq(y) | Emi::LDataCon(y) | Emi::LDataInd(y) => {
                    &&& y.npdu.address_type == ld.npdu.address_type
                    &&& (ld.npdu.hop_count <= 7 ==> y.npdu.hop_count == ld.npdu.hop_count)
                    &&& y.control_field1.value() == ld.control_field1.value()
                    &&& y.source_address@ == ld.source_address@
                    &&& y.destination_address@ == ld.destination_address@
                },
                _ => false,
            },
            _ => true,
        },
{
    lemma_emi_to_cemi_npci(e, c);
}

fn code_or_exec(c: Option<u8>, default: u8) -> (r: u8)
    ensures
        r == code_or(c, default),
{
    match c {
        Some(v) => v,
        None => default,
    }
}

impl CemiAdapter {
    /// The cEMI frame for the EMI frame in `emi_buffer`: link-layer data,
    /// busmonitor and raw frames convert; anything else, or a frame that
    /// cannot be read, is an error.
    pub fn emi_to_cemi(emi_buffer: &[u8]) -> (r: Result<Cemi, KnxError>)
        ensures
            (emi_parse_ok(emi_buffer@) && emi_convertible(emi_buffer@)) ==> (r matches Ok(c)
                && exists|e: Emi| emi_parsed(emi_buffer@, e) && cemi_of_emi(e, c)),
            !(emi_parse_ok(emi_buffer@) && emi_convertible(emi_buffer@)) ==> r == Err::<
                Cemi,
                KnxError,
            >(KnxError::InvalidParametersForDpt),
    {
        let emi = Emi::from_buffer(emi_buffer)?;
        let ghost e0 = emi;
        match emi {
            Emi::LDataReq(ld) | Emi::LDataCon(ld) | Emi::LDataInd(ld) => {
                let mut control_field2 = ExtendedControlField::new(0);
                let h = ld.npdu.get_hop_count();
                let _ = control_field2.set_hop_count(h);
                control_field2.set_address_type(ld.npdu.address_type);
                proof {
                    let v = control_field2.value();
                    let hb: u8 = if h <= 7 {
                        ((0u8 & 0x8F) | ((h & 0x07) << 4)) as u8
                    } else {
                        0u8
                    };
                    assert(h <= 7 ==> ((0u8 & 0x8F) | ((h & 0x07) << 4)) == h * 16) by (bit_vector);
                    assert(hb < 128);
                    assert(hb < 128 ==> (hb | 0x80) == hb + 128 && (hb & 0x7F) == hb) by (bit_vector);
                    assert(v == ctrl2_from(h, ld.npdu.address_type));
                }
                let req_mc = code_or_exec(get_emi_message_code("L_Data.req"), 0x11);
                let con_mc = code_or_exec(get_emi_message_code("L_Data.con"), 0x2E);
                let data = LData {
                    additional_info: Vec::new(),
                    control_field1: ld.control_field1,
                    control_field2,
                    source_address: ld.source_address,
                    destination_address: ld.destination_address,
                    tpdu: ld.npdu.tpdu,
                };
                let c = if ld.message_code == req_mc {
                    Cemi::LDataReq(data)
                } else if ld.message_code == con_mc {
                    Cemi::LDataCon(data)
                } else {
                    Cemi::LDataInd(data)
                };
                assert(cemi_of_emi(e0, c));
                Ok(c)
            },
            Emi::LBusmonInd(lb) => {
                let c = Cemi::LBusmonInd(LBusmon { additional_info: Vec::new(), data: lb.data });
                assert(cemi_of_emi(e0, c));
                Ok(c)
            },
            Emi::LRawReq(lr) | Emi::LRawCon(lr) | Emi::LRawInd(lr) => {
                let req_mc = code_or_exec(get_emi_message_code("L_Raw.req"), 0x10);
                let con_mc = code_or_exec(get_emi_message_code("L_Raw.con"), 0x2F);
                let raw = LRaw { additional_info: Vec::new(), data: lr.data };
                let c = if lr.message_code == req_mc {
                    Cemi::LRawReq(raw)
                } else if lr.message_code == con_mc {
                    Cemi::LRawCon(raw)
                } else {
                    Cemi::LRawInd(raw)
                };
                assert(cemi_of_emi(e0, c));
                Ok(c)
            },
            _ => Err(KnxError::InvalidParametersForDpt),
        }
    }

    /// The EMI frame for a cEMI link-layer data, busmonitor or raw frame;
    /// any other frame is an error.
    pub fn cemi_to_emi(cemi: &Cemi) -> (r: Result<Emi, KnxError>)
        requires
            cemi_convertible(*cemi) || !(cemi is LDataReq || cemi is LDataCon || cemi is LDataInd),
        ensures
            cemi_convertible(*cemi) ==> (r matches Ok(e) && emi_of_cemi(*cemi, e)),
            !cemi_convertible(*cemi) ==> r == Err::<Emi, KnxError>(KnxError::InvalidParametersForDpt),
    {
        match cemi {
            Cemi::LDataReq(ld) | Cemi::LDataCon(ld) | Cemi::LDataInd(ld) => {
                let t = ld.tpdu.to_buffer();
                let hop = ld.control_field2.get_hop_count();
                let at = ld.control_field2.get_address_type();
                let npdu = match Npdu::new(copy_tpdu(&ld.tpdu), at, hop, (t.len() % 256) as u8) {
                    Ok(n) => n,
                    Err(e) => {
                        return Err(e);
                    },
                };
                let mc = cemi.get_message_code();
                let e = LDataEmi {
                    message_code: mc,
                    control_field1: ControlField::new(ld.control_field1.get_buffer()[0]),
                    source_address: string_of(ld.source_address.as_str()),
                    destination_address: string_of(ld.destination_address.as_str()),
                    npdu,
                };
                let req_mc = code_or_exec(get_cemi_message_code("L_Data.req"), 0x11);
                let con_mc = code_or_exec(get_cemi_message_code("L_Data.con"), 0x2E);
                if mc == req_mc {
                    Ok(Emi::LDataReq(e))
                } else if mc == con_mc {
                    Ok(Emi::LDataCon(e))
                } else {
                    Ok(Emi::LDataInd(e))
                }
            },
            Cemi::LBusmonInd(lb) => {
                let mc = code_or_exec(get_emi_message_code("L_Busmon.ind"), 0x2B);
                Ok(
                    Emi::LBusmonInd(
                        LBusmonEmi {
                            message_code: mc,
                            data: vstd::slice::slice_to_vec(lb.data.as_slice()),
                        },
                    ),
                )
            },
            Cemi::LRawReq(lr) | Cemi::LRawCon(lr) | Cemi::LRawInd(lr) => {
                let mc = cemi.get_message_code();
                let e = LRawEmi {
                    message_code: mc,
                    data: vstd::slice::slice_to_vec(lr.data.as_slice()),
                };
                let req_mc = code_or_exec(get_cemi_message_code("L_Raw.req"), 0x10);
                let con_mc = code_or_exec(get_cemi_message_code("L_Raw.con"), 0x2F);
                if mc == req_mc {
                    Ok(Emi::LRawReq(e))
                } else if mc == con_mc {
                    Ok(Emi::LRawCon(e))
                } else {
                    Ok(Emi::LRawInd(e))
                }
            },
            _ => Err(KnxError::InvalidParametersForDpt),
        }
    }
}

} // verus!
