//! Network layer protocol data unit: the NPCI octet (address type, hop
//! count, length) followed by the TPDU.
use crate::errors::KnxError;
use crate::protocol::control_field_extended::AddressType;
use crate::protocol::layers::data::tpdu::{tpdu_bytes, tpdu_fits, tpdu_parsed, Tpdu, TpduDescription};
use vstd::prelude::*;

verus! {

/// An NPDU.
#[derive(Debug, Clone, PartialEq, Eq)]
pub struct Npdu {
    pub hop_count: u8,
    pub tpdu: Tpdu,
    pub address_type: AddressType,
    pub length: u8,
}

/// Description of an NPDU.
#[derive(Debug, Clone)]
pub struct NpduDescription {
    pub obj: &'static str,
    pub layer: &'static str,
    pub address_type: &'static str,
    pub hop_count: u8,
    pub tpdu: TpduDescription,
}

/// The NPCI octet: address type in bit 7, hop count shifted into bits 6..4
/// and the low four bits of the length.
pub open spec fn npci_octet(n: Npdu) -> u8 {
    ((if n.address_type == AddressType::Group {
        1u8
    } else {
        0u8
    }) << 7) | (n.hop_count << 4) | (n.length & 0x0F)
}

impl Npdu {
    /// An NPDU; the hop count must be at most 7.
    pub fn new(tpdu: Tpdu, address_type: AddressType, hop_count: u8, length: u8) -> (r: Result<
        Self,
        KnxError,
    >)
        ensures
            hop_count > 7 ==> r == Err::<Self, KnxError>(KnxError::InvalidParametersForDpt),
            hop_count <= 7 ==> (r matches Ok(n) && n.tpdu == tpdu && n.address_type == address_type
                && n.hop_count == hop_count && n.length == length),
    {
        if hop_count > 7 {
            return Err(KnxError::InvalidParametersForDpt);
        }
        Ok(Npdu { hop_count, tpdu, address_type, length })
    }

    /// The hop count.
    pub fn get_hop_count(&self) -> (h: u8)
        ensures
            h == self.hop_count,
    {
        self.hop_count
    }

    /// Sets a hop count up to 7; larger values are refused and leave the
    /// unit unchanged.
    pub fn set_hop_count(&mut self, value: u8) -> (r: Result<(), KnxError>)
        ensures
            value > 7 ==> r == Err::<(), KnxError>(KnxError::InvalidParametersForDpt),
            value > 7 ==> *final(self) == *old(self),
            value <= 7 ==> r is Ok,
            value <= 7 ==> final(self).hop_count == value,
            final(self).tpdu == old(self).tpdu,
            final(self).address_type == old(self).address_type,
            final(self).length == old(self).length,
    {
        if value > 7 {
            return Err(KnxError::InvalidParametersForDpt);
        }
        self.hop_count = value;
        Ok(())
    }

    /// The NPCI octet followed by the TPDU.
    pub fn to_buffer(&self) -> (b: Vec<u8>)
        requires
            tpdu_fits(self.tpdu),
        ensures
            b@ == seq![npci_octet(*self)] + tpdu_bytes(self.tpdu),
    {
        let t = self.tpdu.to_buffer();
        let bit: u8 = match self.address_type {
            AddressType::Group => 1,
            AddressType::Individual => 0,
        };
        let npci = (bit << 7) | (self.hop_count << 4) | (self.length & 0x0F);
        let mut b: Vec<u8> = vec![npci];
        b.extend_from_slice(t.as_slice());
        assert(b@ =~= seq![npci_octet(*self)] + tpdu_bytes(self.tpdu));
        b
    }

    /// Description of the unit.
    pub fn describe(&self) -> (d: NpduDescription)
        ensures
            d.obj@ == "NPDU"@,
            d.layer@ == "Network Layer (NPDU)"@,
            d.address_type@ == (if self.address_type == AddressType::Group {
                "GROUP"@
            } else {
                "INDIVIDUAL"@
            }),
            d.hop_count == self.hop_count,
    {
        let at = match self.address_type {
            AddressType::Group => "GROUP",
            AddressType::Individual => "INDIVIDUAL",
        };
        NpduDescription {
            obj: "NPDU",
            layer: "Network Layer (NPDU)",
            address_type: at,
            hop_count: self.hop_count,
            tpdu: self.tpdu.describe(),
        }
    }

    /// The NPDU held by `buffer`: the NPCI gives hop count and TPDU length,
    /// the TPDU is read from the octets after it (it must not be empty),
    /// and the address type is taken to be group.
    pub fn from_buffer(buffer: &[u8]) -> (r: Result<Self, KnxError>)
        ensures
            ({
                let len = (buffer@[0] % 16) as int;
                let ok = buffer@.len() >= 2 && buffer@.len() - 1 >= len && len > 0;
                let t = buffer@.subrange(1, 1 + len);
                &&& ok ==> (r matches Ok(n) && n.hop_count == (buffer@[0] / 16) % 8 && n.length
                    == len && n.address_type == AddressType::Group && tpdu_parsed(t, n.tpdu))
                &&& !ok ==> r == Err::<Self, KnxError>(KnxError::InvalidParametersForDpt)
            }),
    {
        if buffer.len() < 2 {
            return Err(KnxError::InvalidParametersForDpt);
        }
        let npci = buffer[0];
        let hop_count = (npci / 16) % 8;
        let length = npci % 16;
        if buffer.len() - 1 < length as usize {
            return Err(KnxError::InvalidParametersForDpt);
        }
        let t = vstd::slice::slice_subrange(buffer, 1, 1 + length as usize);
        let tpdu = Tpdu::from_buffer(t)?;
        Npdu::new(tpdu, AddressType::Group, hop_count, length)
    }
}

} // verus!
