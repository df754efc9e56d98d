//! Extended control field (CTRLE) of an `L_Data_Extended` frame.
//!
//! Bit 7 address type, bits 6..4 hop count, bits 3..0 extended frame format.
use crate::utils::text::{hex2, push_hex2, string_of};
use vstd::prelude::*;

verus! {

/// Kind of the destination address.
#[derive(Debug, Clone, Copy, PartialEq, Eq, Structural)]
pub enum AddressType {
    Individual,
    Group,
}

/// Extended frame format codes (bits 3..0).
#[derive(Debug, Clone, Copy, PartialEq, Eq, Structural)]
pub enum ExtendedFrameFormat {
    PointToPointOrStandardGroupAddressed,
    MulticastZoneAddressed11,
    MulticastZoneAddressed01,
    MulticastZoneAddressed10,
    MulticastZoneAddressed00,
}

/// The four-bit code of a frame format.
pub open spec fn eff_code(e: ExtendedFrameFormat) -> u8 {
    match e {
        ExtendedFrameFormat::PointToPointOrStandardGroupAddressed => 0,
        ExtendedFrameFormat::MulticastZoneAddressed11 => 7,
        ExtendedFrameFormat::MulticastZoneAddressed01 => 5,
        ExtendedFrameFormat::MulticastZoneAddressed10 => 6,
        ExtendedFrameFormat::MulticastZoneAddressed00 => 4,
    }
}

/// The frame format coded by the low four bits of `v`: the multicast
/// codes 4 to 7, anything else point-to-point or standard group.
pub open spec fn eff_of(v: u8) -> ExtendedFrameFormat {
    let c = v % 16;
    if c == 7 {
        ExtendedFrameFormat::MulticastZoneAddressed11
    } else if c == 5 {
        ExtendedFrameFormat::MulticastZoneAddressed01
    } else if c == 6 {
        ExtendedFrameFormat::MulticastZoneAddressed10
    } else if c == 4 {
        ExtendedFrameFormat::MulticastZoneAddressed00
    } else {
        ExtendedFrameFormat::PointToPointOrStandardGroupAddressed
    }
}

/// Name of a frame format in descriptions.
pub open spec fn eff_name(e: ExtendedFrameFormat) -> Seq<char> {
    match e {
        ExtendedFrameFormat::PointToPointOrStandardGroupAddressed => "Point_To_Point_Or_Standard_Group_Addressed_L_Data_Extended_Frame"@,
        ExtendedFrameFormat::MulticastZoneAddressed11 => "Multicast_Zone_Addressed_11"@,
        ExtendedFrameFormat::MulticastZoneAddressed01 => "Multicast_Zone_Addressed_01"@,
        ExtendedFrameFormat::MulticastZoneAddressed10 => "Multicast_Zone_Addressed_10"@,
        ExtendedFrameFormat::MulticastZoneAddressed00 => "Multicast_Zone_Addressed_00"@,
    }
}

impl ExtendedFrameFormat {
    /// The frame format coded by the low four bits of `value`.
    pub fn from_u8(value: u8) -> (e: Self)
        ensures
            e == eff_of(value),
    {
        match value % 16 {
            7 => ExtendedFrameFormat::MulticastZoneAddressed11,
            5 => ExtendedFrameFormat::MulticastZoneAddressed01,
            6 => ExtendedFrameFormat::MulticastZoneAddressed10,
            4 => ExtendedFrameFormat::MulticastZoneAddressed00,
            _ => ExtendedFrameFormat::PointToPointOrStandardGroupAddressed,
        }
    }

    /// The four-bit code of this format.
    pub fn code(&self) -> (c: u8)
        ensures
            c == eff_code(*self),
    {
        match self {
            ExtendedFrameFormat::PointToPointOrStandardGroupAddressed => 0,
            ExtendedFrameFormat::MulticastZoneAddressed11 => 7,
            ExtendedFrameFormat::MulticastZoneAddressed01 => 5,
            ExtendedFrameFormat::MulticastZoneAddressed10 => 6,
            ExtendedFrameFormat::MulticastZoneAddressed00 => 4,
        }
    }
}

/// The CTRLE octet.
#[derive(Debug, Clone, Copy, PartialEq, Eq)]
pub struct ExtendedControlField {
    buffer: [u8; 1],
}

/// Description of a CTRLE octet.
#[derive(Debug, Clone)]
pub struct ExtendedControlFieldDescription {
    pub obj: &'static str,
    pub hex: String,
    pub address_type: &'static str,
    pub hop_count: u8,
    pub extended_frame_format: &'static str,
    pub buffer: u8,
}

impl ExtendedControlField {
    /// The octet.
    pub closed spec fn value(&self) -> u8 {
        self.buffer[0]
    }

    /// A CTRLE holding `input`.
    pub fn new(input: u8) -> (c: Self)
        ensures
            c.value() == input,
    {
        ExtendedControlField { buffer: [input] }
    }

    /// A CTRLE from the first octet of `buf`, or 0 for an empty buffer.
    pub fn from_buffer(buf: &[u8]) -> (c: Self)
        ensures
            c.value() == (if buf@.len() == 0 {
                0
            } else {
                buf@[0]
            }),
    {
        let val = if buf.len() == 0 {
            0
        } else {
            buf[0]
        };
        ExtendedControlField { buffer: [val] }
    }

    /// The one-octet encoding.
    pub fn get_buffer(&self) -> (b: &[u8])
        ensures
            b@ == seq![self.value()],
    {
        let b = self.buffer.as_slice();
        assert(b@ =~= seq![self.value()]);
        b
    }

    /// The octet as two upper-case hex digits.
    pub fn to_hex_string(&self) -> (s: String)
        ensures
            s@ == hex2(self.value(), true),
    {
        let mut s = String::new();
        push_hex2(&mut s, self.buffer[0], true);
        s
    }

    /// The octet.
    pub fn to_number(&self) -> (n: u8)
        ensures
            n == self.value(),
    {
        self.buffer[0]
    }

    /// Bit 7: group (set) or individual (clear) destination.
    pub fn get_address_type(&self) -> (t: AddressType)
        ensures
            t == (if self.value() >= 128 {
                AddressType::Group
            } else {
                AddressType::Individual
            }),
    {
        if self.buffer[0] >= 128 {
            AddressType::Group
        } else {
            AddressType::Individual
        }
    }

    /// Writes bit 7.
    pub fn set_address_type(&mut self, addr_type: AddressType)
        ensures
            final(self).value() == (match addr_type {
                AddressType::Group => old(self).value() | 0x80,
                AddressType::Individual => old(self).value() & 0x7F,
            }),
    {
        match addr_type {
            AddressType::Group => {
                self.buffer[0] = self.buffer[0] | 0x80;
            },
            AddressType::Individual => {
                self.buffer[0] = self.buffer[0] & 0x7F;
            },
        }
    }

    /// Bits 6..4: the hop count.
    pub fn get_hop_count(&self) -> (h: u8)
        ensures
            h == (self.value() / 16) % 8,
    {
        (self.buffer[0] / 16) % 8
    }

    /// Writes a hop count up to 7 into bits 6..4; larger counts are refused
    /// and leave the octet unchanged.
    pub fn set_hop_count(&mut self, value: u8) -> (r: Result<(), &'static str>)
        ensures
            value > 7 ==> ((r matches Err(m) && m@ == "HopCount debe estar entre 0..7"@) && final(self).value() == old(self).value()),
            value <= 7 ==> (r is Ok && final(self).value() == (old(self).value() & 0x8F) | ((
            value & 0x07) << 4)),
    {
        if value > 7 {
            proof {
                reveal_strlit("HopCount debe estar entre 0..7");
            }
            return Err("HopCount debe estar entre 0..7");
        }
        self.buffer[0] = (self.buffer[0] & 0x8F) | ((value & 0x07) << 4);
        Ok(())
    }

    /// Bits 3..0: the extended frame format.
    pub fn get_eff(&self) -> (e: ExtendedFrameFormat)
        ensures
            e == eff_of(self.value()),
    {
        ExtendedFrameFormat::from_u8(self.buffer[0] % 16)
    }

    /// Writes the code of `eff` into bits 3..0.
    pub fn set_eff(&mut self, eff: ExtendedFrameFormat)
        ensures
            final(self).value() == (old(self).value() / 16) * 16 + eff_code(eff),
    {
        let c = eff.code();
        self.buffer[0] = (self.buffer[0] / 16) * 16 + c;
    }

    /// Field-by-field description.
    pub fn describe(&self) -> (d: ExtendedControlFieldDescription)
        ensures
            d.obj@ == "ExtendedControlField"@,
            d.hex@ == seq!['0', 'x'] + hex2(self.value(), true),
            d.address_type@ == (if self.value() >= 128 {
                "GROUP(1)"@
            } else {
                "INDIVIDUAL(0)"@
            }),
            d.hop_count == (self.value() / 16) % 8,
            d.extended_frame_format@ == eff_name(eff_of(self.value())),
            d.buffer == self.value(),
    {
        let mut hex = String::new();
        crate::utils::text::push_char(&mut hex, '0');
        crate::utils::text::push_char(&mut hex, 'x');
        push_hex2(&mut hex, self.buffer[0], true);
        let address_type = match self.get_address_type() {
            AddressType::Group => "GROUP(1)",
            AddressType::Individual => "INDIVIDUAL(0)",
        };
        let eff = match self.get_eff() {
            ExtendedFrameFormat::PointToPointOrStandardGroupAddressed => "Point_To_Point_Or_Standard_Group_Addressed_L_Data_Extended_Frame",
            ExtendedFrameFormat::MulticastZoneAddressed11 => "Multicast_Zone_Addressed_11",
            ExtendedFrameFormat::MulticastZoneAddressed01 => "Multicast_Zone_Addressed_01",
            ExtendedFrameFormat::MulticastZoneAddressed10 => "Multicast_Zone_Addressed_10",
            ExtendedFrameFormat::MulticastZoneAddressed00 => "Multicast_Zone_Addressed_00",
        };
        ExtendedControlFieldDescription {
            obj: "ExtendedControlField",
            hex,
            address_type,
            hop_count: self.get_hop_count(),
            extended_frame_format: eff,
            buffer: self.buffer[0],
        }
    }
}

/// A frame format written into the CTRLE is read back, and a hop count
/// written into it is read back with the other fields kept.
pub proof fn lemma_ctrle_set_get(v: u8, e: ExtendedFrameFormat, h: u8)
    requires
        h <= 7,
    ensures
        eff_of(((v / 16) * 16 + eff_code(e)) as u8) == e,
        ((((v & 0x8F) | ((h & 0x07) << 4)) / 16) % 8) == h,
        ((v & 0x8F) | ((h & 0x07) << 4)) & 0x8F == v & 0x8F,
{
    assert(((((v & 0x8F) | ((h & 0x07) << 4)) / 16) % 8) == h && ((v & 0x8F) | ((h & 0x07) << 4))
        & 0x8F == v & 0x8F) by (bit_vector)
        requires
            h <= 7,
    ;
}

} // verus!
