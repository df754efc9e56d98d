//! Transport layer protocol control information (TPCI), the first octet
//! of a TPDU.
//!
//! Bit 7 data/control flag, bit 6 numbered flag, bits 5..2 sequence
//! number, bits 1..0 the top bits of the APCI.
use crate::utils::bits::{bit_set, get_bit, put_bit, with_bit};
use crate::utils::text::{hex2, hex_prefixed, string_of};
use vstd::prelude::*;

verus! {

/// A TPCI type code.
#[derive(Debug, Clone, Copy, PartialEq, Eq)]
pub struct Tpcitype(pub u8);

/// Codes of the TPCI types.
impl Tpcitype {
    /// Broadcast data (destination address 0).
    pub const T_DATA_BROADCAST_PDU: u8 = 0x00;
    /// Group data (destination address not 0).
    pub const T_DATA_GROUP_PDU: u8 = 0x00;
    /// Tagged group data.
    pub const T_DATA_TAG_GROUP_PDU: u8 = 0x04;
    /// Connectionless point-to-point data.
    pub const T_DATA_INDIVIDUAL_PDU: u8 = 0x00;
    /// Connection-oriented data.
    pub const T_DATA_CONNECTED_PDU: u8 = 0x40;
    /// Opens a transport connection.
    pub const T_CONNECT_PDU: u8 = 0x80;
    /// Closes a transport connection.
    pub const T_DISCONNECT_PDU: u8 = 0x81;
    /// Acknowledgement.
    pub const T_ACK_PDU: u8 = 0xC2;
    /// Negative acknowledgement.
    pub const T_NAK_PDU: u8 = 0xC3;
}

/// The TPCI octet.
#[derive(Debug, Clone, Copy, PartialEq, Eq)]
pub struct Tpci {
    buffer: [u8; 1],
}

/// Description of a TPCI.
#[derive(Debug, Clone)]
pub struct TpciDescription {
    pub obj: &'static str,
    pub buffer: Vec<u8>,
    pub hex: String,
    pub data_or_control_flag: &'static str,
    pub numbered: bool,
    pub sequence_number: u8,
    pub first_two_bits_from_apci: u8,
    pub tpci_type: String,
}

/// The PDU type named by a TPCI octet. A control octet that is not one of
/// the four control PDUs is looked up once more with its APCI bits cleared.
pub open spec fn tpci_type_name(value: u8, is_force: bool) -> Seq<char>
    decreases (if is_force {
        0int
    } else {
        1int
    }),
{
    if value == 0x80 {
        "T_CONNECT_PDU"@
    } else if value == 0x81 {
        "T_DISCONNECT_PDU"@
    } else if value == 0xC2 {
        "T_ACK_PDU"@
    } else if value == 0xC3 {
        "T_NAK_PDU"@
    } else if value & 0xC0 == 0x40 {
        "T_DATA_CONNECTED_PDU"@
    } else if value & 0x80 == 0x00 {
        if value & 0x04 == 0x04 {
            "T_Data_Tag_Group_PDU"@
        } else {
            "T_Data_Group_PDU"@
        }
    } else if !is_force {
        tpci_type_name(value & 0xFC, true)
    } else {
        "Unknown PDU"@
    }
}

impl Tpci {
    /// The octet.
    pub closed spec fn value(&self) -> u8 {
        self.buffer[0]
    }

    /// A TPCI holding `initial_value`.
    pub fn new(initial_value: u8) -> (t: Self)
        ensures
            t.value() == initial_value,
    {
        Tpci { buffer: [initial_value] }
    }

    /// The octet.
    pub fn get_value(&self) -> (v: u8)
        ensures
            v == self.value(),
    {
        self.buffer[0]
    }

    /// Stores the raw octet `value`.
    pub fn set_value(&mut self, value: u8)
        ensures
            final(self).value() == value,
    {
        self.buffer[0] = value;
    }

    /// Bit 7: control (set) or data (clear).
    pub fn get_data_control_flag(&self) -> (r: bool)
        ensures
            r == bit_set(self.value(), 7),
    {
        get_bit(self.buffer[0], 7)
    }

    /// Writes bit 7.
    pub fn set_data_control_flag(&mut self, flag: bool)
        ensures
            final(self).value() == with_bit(old(self).value(), 7, flag),
    {
        self.buffer[0] = put_bit(self.buffer[0], 7, flag);
    }

    /// Bit 6: numbered message.
    pub fn get_numbered_flag(&self) -> (r: bool)
        ensures
            r == bit_set(self.value(), 6),
    {
        get_bit(self.buffer[0], 6)
    }

    /// Writes bit 6.
    pub fn set_numbered_flag(&mut self, flag: bool)
        ensures
            final(self).value() == with_bit(old(self).value(), 6, flag),
    {
        self.buffer[0] = put_bit(self.buffer[0], 6, flag);
    }

    /// Bits 5..2: the sequence number.
    pub fn get_sequence_number(&self) -> (r: u8)
        ensures
            r == (self.value() >> 2) & 0x0F,
    {
        (self.buffer[0] >> 2) & 0x0F
    }

    /// Writes a sequence number below 16 into bits 5..2; larger numbers
    /// are refused and leave the octet unchanged.
    pub fn set_sequence_number(&mut self, seq: u8) -> (r: Result<(), &'static str>)
        ensures
            seq > 15 ==> (r is Err && final(self).value() == old(self).value()),
            seq <= 15 ==> (r is Ok && final(self).value() == (old(self).value() & 0xC3) | ((seq
                & 0x0F) << 2)),
    {
        if seq > 15 {
            return Err("El número de secuencia debe estar entre 0 y 15");
        }
        self.buffer[0] = (self.buffer[0] & 0xC3) | ((seq & 0x0F) << 2);
        Ok(())
    }

    /// Bits 1..0: the top bits of the APCI.
    pub fn get_first_2bits_of_apci(&self) -> (r: u8)
        ensures
            r == self.value() & 0x03,
    {
        self.buffer[0] & 0x03
    }

    /// Writes a value below 4 into bits 1..0; larger values are refused
    /// and leave the octet unchanged.
    pub fn set_first_2bits_of_apci(&mut self, val: u8) -> (r: Result<(), &'static str>)
        ensures
            val > 3 ==> (r is Err && final(self).value() == old(self).value()),
            val <= 3 ==> (r is Ok && final(self).value() == (old(self).value() & 0xFC) | (val
                & 0x03)),
    {
        if val > 3 {
            return Err("Los bits reservados deben estar entre 0 y 3");
        }
        self.buffer[0] = (self.buffer[0] & 0xFC) | (val & 0x03);
        Ok(())
    }

    /// The one-octet encoding.
    pub fn to_buffer(&self) -> (b: Vec<u8>)
        ensures
            b@ == seq![self.value()],
    {
        vec![self.buffer[0]]
    }

    /// `0x` and the octet in upper-case hex.
    pub fn to_hex(&self) -> (s: String)
        ensures
            s@ == seq!['0', 'x'] + hex2(self.value(), true),
    {
        hex_prefixed(self.buffer[0])
    }

    /// The PDU type named by `value`.
    pub fn map_tpci_type(&self, value: u8, is_force: bool) -> (s: &'static str)
        ensures
            s@ == tpci_type_name(value, is_force),
        decreases (if is_force {
        0int
    } else {
        1int
    }),
    {
        if value == 0x80 {
            "T_CONNECT_PDU"
        } else if value == 0x81 {
            "T_DISCONNECT_PDU"
        } else if value == 0xC2 {
            "T_ACK_PDU"
        } else if value == 0xC3 {
            "T_NAK_PDU"
        } else if (value & 0xC0) == 0x40 {
            "T_DATA_CONNECTED_PDU"
        } else if (value & 0x80) == 0x00 {
            if (value & 0x04) == 0x04 {
                "T_Data_Tag_Group_PDU"
            } else {
                "T_Data_Group_PDU"
            }
        } else if !is_force {
            self.map_tpci_type(value & 0xFC, true)
        } else {
            "Unknown PDU"
        }
    }

    /// Field-by-field description.
    pub fn describe(&self) -> (d: TpciDescription)
        ensures
            d.obj@ == "TPCI"@,
            d.buffer@ == seq![self.value()],
            d.hex@ == seq!['0', 'x'] + hex2(self.value(), true),
            d.data_or_control_flag@ == (if bit_set(self.value(), 7) {
                "Control"@
            } else {
                "Data"@
            }),
            d.numbered == bit_set(self.value(), 6),
            d.sequence_number == (self.value() >> 2) & 0x0F,
            d.first_two_bits_from_apci == self.value() & 0x03,
            d.tpci_type@ == tpci_type_name(self.value(), false),
    {
        let flag = if self.get_data_control_flag() {
            "Control"
        } else {
            "Data"
        };
        let name = self.map_tpci_type(self.buffer[0], false);
        TpciDescription {
            obj: "TPCI",
            buffer: self.to_buffer(),
            hex: self.to_hex(),
            data_or_control_flag: flag,
            numbered: self.get_numbered_flag(),
            sequence_number: self.get_sequence_number(),
            first_two_bits_from_apci: self.get_first_2bits_of_apci(),
            tpci_type: string_of(name),
        }
    }
}

/// A sequence number written into a TPCI octet is read back, and the flags
/// and APCI bits around it are kept.
pub proof fn lemma_tpci_sequence_number(v: u8, seq: u8)
    requires
        seq <= 15,
    ensures
        ((((v & 0xC3) | ((seq & 0x0F) << 2)) >> 2) & 0x0F) == seq,
        ((v & 0xC3) | ((seq & 0x0F) << 2)) & 0xC3 == v & 0xC3,
{
    assert(((((v & 0xC3) | ((seq & 0x0F) << 2)) >> 2) & 0x0F) == seq && ((v & 0xC3) | ((seq
        & 0x0F) << 2)) & 0xC3 == v & 0xC3) by (bit_vector)
        requires
            seq <= 15,
    ;
}

} // verus!
