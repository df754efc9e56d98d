//! Additional information fields of a cEMI message. Each one is a type
//! octet, a length octet and that many data octets.
use crate::errors::KnxError;
use crate::protocol::system_status::{Status, StatusDescription};
use crate::utils::bytes::{be16, be32, read_u16_be, read_u32_be, write_u16_be, write_u32_be};
use crate::utils::text::{hex2, push_char, push_hex2};
use vstd::prelude::*;

verus! {

/// Whether `b` is a field of type `t` whose data is exactly `n` octets.
pub open spec fn field_ok(b: Seq<u8>, t: u8, n: int) -> bool {
    b.len() >= 2 && b[0] == t && b.len() - 2 == b[1] && b[1] == n
}

/// The error every malformed field gives.
pub open spec fn invalid<T>() -> Result<T, KnxError> {
    Err(KnxError::InvalidParametersForDpt)
}

/// The data octets of a field of type `expected_type`, checked against the
/// length octet and, when given, the expected length.
fn parse_data_buffer(buffer: &[u8], expected_type: u8, expected_length: Option<usize>) -> (r:
    Result<&[u8], KnxError>)
    ensures
        (buffer@.len() >= 2 && buffer@[0] == expected_type && buffer@.len() - 2 == buffer@[1]
            && (expected_length matches Some(n) ==> buffer@[1] == n)) ==> (r matches Ok(d) && d@
            == buffer@.subrange(2, buffer@.len() as int)),
        !(buffer@.len() >= 2 && buffer@[0] == expected_type && buffer@.len() - 2 == buffer@[1]
            && (expected_length matches Some(n) ==> buffer@[1] == n)) ==> r == invalid::<&[u8]>(),
{
    if buffer.len() < 2 {
        return Err(KnxError::InvalidParametersForDpt);
    }
    let type_id = buffer[0];
    let length = buffer[1] as usize;
    if type_id != expected_type {
        return Err(KnxError::InvalidParametersForDpt);
    }
    let data = vstd::slice::slice_subrange(buffer, 2, buffer.len());
    if data.len() != length {
        return Err(KnxError::InvalidParametersForDpt);
    }
    if let Some(n) = expected_length {
        if length != n {
            return Err(KnxError::InvalidParametersForDpt);
        }
    }
    Ok(data)
}

// ------------------------------------------------------------------
// PL medium information (0x01)
// ------------------------------------------------------------------

/// Domain address of a powerline medium.
#[derive(Debug, Clone)]
pub struct PLMediumInfo {
    pub domain_address: [u8; 2],
}

/// Description of a PL medium field.
#[derive(Debug, Clone)]
pub struct PLMediumInfoDescription {
    pub obj: &'static str,
    pub type_id: u8,
    pub data_length: u8,
    pub domain_address: [u8; 2],
}

impl PLMediumInfo {
    pub const TYPE_ID: u8 = 0x01;
    pub const DATA_LENGTH: u8 = 0x02;

    /// A field holding `domain_address`.
    pub fn new(domain_address: [u8; 2]) -> (x: Self)
        ensures
            x.domain_address == domain_address,
    {
        PLMediumInfo { domain_address }
    }

    /// The field in `buffer`, which must hold exactly its four octets.
    pub fn from_buffer(buffer: &[u8]) -> (r: Result<Self, KnxError>)
        ensures
            field_ok(buffer@, 0x01, 2) ==> (r matches Ok(x) && x.domain_address@ == buffer@.subrange(
                2,
                4,
            )),
            !field_ok(buffer@, 0x01, 2) ==> r == invalid::<Self>(),
    {
        let data = parse_data_buffer(buffer, Self::TYPE_ID, Some(2))?;
        let domain = [data[0], data[1]];
        assert(domain@ =~= buffer@.subrange(2, 4));
        Ok(PLMediumInfo { domain_address: domain })
    }

    /// The four octets of the field.
    pub fn get_buffer(&self) -> (b: Vec<u8>)
        ensures
            b@ == seq![0x01u8, 0x02u8] + self.domain_address@,
    {
        let b = vec![Self::TYPE_ID, Self::DATA_LENGTH, self.domain_address[0], self.domain_address[1]];
        assert(b@ =~= seq![0x01u8, 0x02u8] + self.domain_address@);
        b
    }

    /// Description of the field.
    pub fn describe(&self) -> (d: PLMediumInfoDescription)
        ensures
            d.obj@ == "PLMediumInfo"@,
            d.type_id == 0x01 && d.data_length == 0x02,
            d.domain_address == self.domain_address,
    {
        PLMediumInfoDescription {
            obj: "PLMediumInfo",
            type_id: Self::TYPE_ID,
            data_length: Self::DATA_LENGTH,
            domain_address: self.domain_address,
        }
    }
}

// ------------------------------------------------------------------
// RF medium information (0x02)
// ------------------------------------------------------------------

/// RF medium information: the RF-info octet (bit 7 route last, bits 5..4
/// RSSI, bits 3..2 retransmitter RSSI, bit 1 battery, bit 0 unidirectional),
/// serial number or domain address, and link-layer frame number.
#[derive(Debug, Clone)]
pub struct RFMediumInformation {
    rf_info: u8,
    serial_number_or_doa: [u8; 6],
    lfn: u8,
}

/// Description of an RF medium field.
#[derive(Debug, Clone)]
pub struct RFMediumInformationDescription {
    pub obj: &'static str,
    pub type_id: u8,
    pub data_length: u8,
    pub rf_info: String,
    pub route_last_flag: bool,
    pub rssi: u8,
    pub retransmitter_rssi: u8,
    pub battery_state: &'static str,
    pub unidir_flag: &'static str,
    pub serial_number_or_doa: [u8; 6],
    pub lfn: u8,
}

impl RFMediumInformation {
    pub const TYPE_ID: u8 = 0x02;
    pub const DATA_LENGTH: u8 = 0x08;

    /// The RF-info octet.
    pub closed spec fn spec_rf_info(&self) -> u8 {
        self.rf_info
    }

    /// The serial number or domain address.
    pub closed spec fn spec_serial(&self) -> [u8; 6] {
        self.serial_number_or_doa
    }

    /// The link-layer frame number.
    pub closed spec fn spec_lfn(&self) -> u8 {
        self.lfn
    }

    /// The ten octets of the field.
    pub open spec fn bytes(&self) -> Seq<u8> {
        seq![0x02u8, 0x08u8, self.spec_rf_info()] + self.spec_serial()@ + seq![self.spec_lfn()]
    }

    /// A field from its parts.
    pub fn new(rf_info: u8, serial_number_or_doa: [u8; 6], lfn: u8) -> (x: Self)
        ensures
            x.spec_rf_info() == rf_info,
            x.spec_serial() == serial_number_or_doa,
            x.spec_lfn() == lfn,
    {
        RFMediumInformation { rf_info, serial_number_or_doa, lfn }
    }

    /// The field in `buffer`, which must hold exactly its ten octets.
    pub fn from_buffer(buffer: &[u8]) -> (r: Result<Self, KnxError>)
        ensures
            field_ok(buffer@, 0x02, 8) ==> (r matches Ok(x) && x.bytes() == buffer@),
            !field_ok(buffer@, 0x02, 8) ==> r == invalid::<Self>(),
    {
        let data = parse_data_buffer(buffer, Self::TYPE_ID, Some(8))?;
        let serial = [data[1], data[2], data[3], data[4], data[5], data[6]];
        let x = RFMediumInformation { rf_info: data[0], serial_number_or_doa: serial, lfn: data[7] };
        assert(x.bytes() =~= buffer@);
        Ok(x)
    }

    /// Bit 7 of the RF-info octet.
    pub fn get_route_last_flag(&self) -> (r: bool)
        ensures
            r == (self.spec_rf_info() & 0x80 != 0),
    {
        (self.rf_info & 0x80) != 0
    }

    /// Writes bit 7.
    pub fn set_route_last_flag(&mut self, value: bool)
        ensures
            final(self).spec_rf_info() == (if value {
                old(self).spec_rf_info() | 0x80
            } else {
                old(self).spec_rf_info() & 0x7F
            }),
            final(self).spec_serial() == old(self).spec_serial(),
            final(self).spec_lfn() == old(self).spec_lfn(),
    {
        self.rf_info = if value {
            self.rf_info | 0x80
        } else {
            self.rf_info & 0x7F
        };
    }

    /// Bits 5..4: the RSSI.
    pub fn get_rssi(&self) -> (r: u8)
        ensures
            r == (self.spec_rf_info() & 0x30) >> 4,
    {
        (self.rf_info & 0x30) >> 4
    }

    /// Writes the low two bits of `value` into bits 5..4.
    pub fn set_rssi(&mut self, value: u8)
        ensures
            final(self).spec_rf_info() == (old(self).spec_rf_info() & 0xCF) | ((value & 0x03) << 4),
            final(self).spec_serial() == old(self).spec_serial(),
            final(self).spec_lfn() == old(self).spec_lfn(),
    {
        self.rf_info = (self.rf_info & 0xCF) | ((value & 0x03) << 4);
    }

    /// Bits 3..2: the retransmitter RSSI.
    pub fn get_retransmitter_rssi(&self) -> (r: u8)
        ensures
            r == (self.spec_rf_info() & 0x0C) >> 2,
    {
        (self.rf_info & 0x0C) >> 2
    }

    /// Writes the low two bits of `value` into bits 3..2.
    pub fn set_retransmitter_rssi(&mut self, value: u8)
        ensures
            final(self).spec_rf_info() == (old(self).spec_rf_info() & 0xF3) | ((value & 0x03) << 2),
            final(self).spec_serial() == old(self).spec_serial(),
            final(self).spec_lfn() == old(self).spec_lfn(),
    {
        self.rf_info = (self.rf_info & 0xF3) | ((value & 0x03) << 2);
    }

    /// Bit 1: battery state.
    pub fn get_battery_state(&self) -> (r: bool)
        ensures
            r == (self.spec_rf_info() & 0x02 != 0),
    {
        (self.rf_info & 0x02) != 0
    }

    /// Writes bit 1.
    pub fn set_battery_state(&mut self, value: bool)
        ensures
            final(self).spec_rf_info() == (if value {
                old(self).spec_rf_info() | 0x02
            } else {
                old(self).spec_rf_info() & 0xFD
            }),
            final(self).spec_serial() == old(self).spec_serial(),
            final(self).spec_lfn() == old(self).spec_lfn(),
    {
        self.rf_info = if value {
            self.rf_info | 0x02
        } else {
            self.rf_info & 0xFD
        };
    }

    /// Bit 0: unidirectional device.
    pub fn get_unidir_flag(&self) -> (r: bool)
        ensures
            r == (self.spec_rf_info() & 0x01 != 0),
    {
        (self.rf_info & 0x01) != 0
    }

    /// Writes bit 0.
    pub fn set_unidir_flag(&mut self, value: bool)
        ensures
            final(self).spec_rf_info() == (if value {
                old(self).spec_rf_info() | 0x01
            } else {
                old(self).spec_rf_info() & 0xFE
            }),
            final(self).spec_serial() == old(self).spec_serial(),
            final(self).spec_lfn() == old(self).spec_lfn(),
    {
        self.rf_info = if value {
            self.rf_info | 0x01
        } else {
            self.rf_info & 0xFE
        };
    }

    /// The serial number or domain address.
    pub fn get_serial_number_or_doa(&self) -> (r: &[u8; 6])
        ensures
            *r == self.spec_serial(),
    {
        &self.serial_number_or_doa
    }

    /// Replaces the serial number or domain address.
    pub fn set_serial_number_or_doa(&mut self, val: [u8; 6])
        ensures
            final(self).spec_serial() == val,
            final(self).spec_rf_info() == old(self).spec_rf_info(),
            final(self).spec_lfn() == old(self).spec_lfn(),
    {
        self.serial_number_or_doa = val;
    }

    /// The link-layer frame number.
    pub fn get_lfn(&self) -> (r: u8)
        ensures
            r == self.spec_lfn(),
    {
        self.lfn
    }

    /// Replaces the link-layer frame number.
    pub fn set_lfn(&mut self, val: u8)
        ensures
            final(self).spec_lfn() == val,
            final(self).spec_rf_info() == old(self).spec_rf_info(),
            final(self).spec_serial() == old(self).spec_serial(),
    {
        self.lfn = val;
    }

    /// The ten octets of the field.
    pub fn get_buffer(&self) -> (b: Vec<u8>)
        ensures
            b@ == self.bytes(),
    {
        let mut b = vec![Self::TYPE_ID, Self::DATA_LENGTH, self.rf_info];
        b.extend_from_slice(self.serial_number_or_doa.as_slice());
        b.push(self.lfn);
        assert(b@ =~= self.bytes());
        b
    }

    /// Description of the field.
    pub fn describe(&self) -> (d: RFMediumInformationDescription)
        ensures
            d.obj@ == "RFMediumInformation"@,
            d.type_id == 0x02 && d.data_length == 0x08,
            d.rf_info@ == seq!['0', 'x'] + hex2(self.spec_rf_info(), false),
            d.route_last_flag == (self.spec_rf_info() & 0x80 != 0),
            d.rssi == (self.spec_rf_info() & 0x30) >> 4,
            d.retransmitter_rssi == (self.spec_rf_info() & 0x0C) >> 2,
            d.battery_state@ == (if self.spec_rf_info() & 0x02 != 0 {
                "Battery OK"@
            } else {
                "Battery Low"@
            }),
            d.unidir_flag@ == (if self.spec_rf_info() & 0x01 != 0 {
                "Unidirectional"@
            } else {
                "Bidirectional"@
            }),
            d.serial_number_or_doa == self.spec_serial(),
            d.lfn == self.spec_lfn(),
    {
        let mut rf = String::new();
        push_char(&mut rf, '0');
        push_char(&mut rf, 'x');
        push_hex2(&mut rf, self.rf_info, false);
        let battery = if self.get_battery_state() {
            "Battery OK"
        } else {
            "Battery Low"
        };
        let unidir = if self.get_unidir_flag() {
            "Unidirectional"
        } else {
            "Bidirectional"
        };
        RFMediumInformationDescription {
            obj: "RFMediumInformation",
            type_id: Self::TYPE_ID,
            data_length: Self::DATA_LENGTH,
            rf_info: rf,
            route_last_flag: self.get_route_last_flag(),
            rssi: self.get_rssi(),
            retransmitter_rssi: self.get_retransmitter_rssi(),
            battery_state: battery,
            unidir_flag: unidir,
            serial_number_or_doa: self.serial_number_or_doa,
            lfn: self.lfn,
        }
    }
}

// ------------------------------------------------------------------
// Extended relative timestamp (0x06)
// ------------------------------------------------------------------

/// A 32-bit relative timestamp.
#[derive(Debug, Clone)]
pub struct ExtendedRelativeTimestamp {
    pub timestamp: u32,
}

/// Description of an extended relative timestamp field.
#[derive(Debug, Clone)]
pub struct ExtendedRelativeTimestampDescription {
    pub obj: &'static str,
    pub type_id: u8,
    pub data_length: u8,
    pub timestamp: u32,
}

/// The four octets of a 32-bit value, most significant first.
pub open spec fn u32_bytes(v: u32) -> Seq<u8> {
    seq![(v / 16777216) as u8, ((v / 65536) % 256) as u8, ((v / 256) % 256) as u8, (v % 256) as u8]
}

/// The two octets of a 16-bit value, high first.
pub open spec fn be_bytes16(v: u16) -> Seq<u8> {
    seq![(v / 256) as u8, (v % 256) as u8]
}

impl ExtendedRelativeTimestamp {
    pub const TYPE_ID: u8 = 0x06;
    pub const DATA_LENGTH: u8 = 0x04;

    /// A field holding `timestamp`.
    pub fn new(timestamp: u32) -> (x: Self)
        ensures
            x.timestamp == timestamp,
    {
        ExtendedRelativeTimestamp { timestamp }
    }

    /// The field in `buffer`, which must hold exactly its six octets.
    pub fn from_buffer(buffer: &[u8]) -> (r: Result<Self, KnxError>)
        ensures
            field_ok(buffer@, 0x06, 4) ==> (r matches Ok(x) && x.timestamp == be32(
                buffer@[2],
                buffer@[3],
                buffer@[4],
                buffer@[5],
            )),
            !field_ok(buffer@, 0x06, 4) ==> r == invalid::<Self>(),
    {
        let data = parse_data_buffer(buffer, Self::TYPE_ID, Some(4))?;
        Ok(ExtendedRelativeTimestamp { timestamp: read_u32_be(data, 0) })
    }

    /// The six octets of the field.
    pub fn get_buffer(&self) -> (b: Vec<u8>)
        ensures
            b@ == seq![0x06u8, 0x04u8] + u32_bytes(self.timestamp),
    {
        let mut b = vec![Self::TYPE_ID, Self::DATA_LENGTH, 0, 0, 0, 0];
        write_u32_be(&mut b, 2, self.timestamp);
        assert(b@ =~= seq![0x06u8, 0x04u8] + u32_bytes(self.timestamp));
        b
    }

    /// Description of the field.
    pub fn describe(&self) -> (d: ExtendedRelativeTimestampDescription)
        ensures
            d.obj@ == "ExtendedRelativeTimestamp"@,
            d.type_id == 0x06 && d.data_length == 0x04,
            d.timestamp == self.timestamp,
    {
        ExtendedRelativeTimestampDescription {
            obj: "ExtendedRelativeTimestamp",
            type_id: Self::TYPE_ID,
            data_length: Self::DATA_LENGTH,
            timestamp: self.timestamp,
        }
    }
}

// ------------------------------------------------------------------
// BiBat information (0x07)
// ------------------------------------------------------------------

/// BiBat information: control octet (control value in bits 7..4) and
/// block number.
#[derive(Debug, Clone)]
pub struct BiBatInformation {
    pub bibat_ctrl: u8,
    pub bibat_block: u8,
}

/// Description of a BiBat field.
#[derive(Debug, Clone)]
pub struct BiBatInformationDescription {
    pub obj: &'static str,
    pub type_id: u8,
    pub data_length: u8,
    pub bibat_ctrl: u8,
    pub bibat_block: u8,
}

impl BiBatInformation {
    pub const TYPE_ID: u8 = 0x07;
    pub const DATA_LENGTH: u8 = 0x02;

    /// The control octet.
    pub closed spec fn spec_ctrl(&self) -> u8 {
        self.bibat_ctrl
    }

    /// A field with control value `bibat_ctrl` (low four bits, moved into
    /// bits 7..4) and block `bibat_block`.
    pub fn new(bibat_ctrl: u8, bibat_block: u8) -> (x: Self)
        ensures
            x.spec_ctrl() == (bibat_ctrl % 16) * 16,
            x.bibat_block == bibat_block,
    {
        BiBatInformation { bibat_ctrl: (bibat_ctrl % 16) * 16, bibat_block }
    }

    /// The field in `buffer`, which must hold exactly its four octets.
    pub fn from_buffer(buffer: &[u8]) -> (r: Result<Self, KnxError>)
        ensures
            field_ok(buffer@, 0x07, 2) ==> (r matches Ok(x) && x.spec_ctrl() == buffer@[2]
                && x.bibat_block == buffer@[3]),
            !field_ok(buffer@, 0x07, 2) ==> r == invalid::<Self>(),
    {
        let data = parse_data_buffer(buffer, Self::TYPE_ID, Some(2))?;
        Ok(BiBatInformation { bibat_ctrl: data[0], bibat_block: data[1] })
    }

    /// Bits 7..4 of the control octet.
    pub fn get_bibat_ctrl(&self) -> (r: u8)
        ensures
            r == self.spec_ctrl() / 16,
    {
        self.bibat_ctrl / 16
    }

    /// Writes the low four bits of `value` into bits 7..4.
    pub fn set_bibat_ctrl(&mut self, value: u8)
        ensures
            final(self).spec_ctrl() == old(self).spec_ctrl() % 16 + (value % 16) * 16,
            final(self).bibat_block == old(self).bibat_block,
    {
        self.bibat_ctrl = self.bibat_ctrl % 16 + (value % 16) * 16;
    }

    /// The four octets of the field.
    pub fn get_buffer(&self) -> (b: Vec<u8>)
        ensures
            b@ == seq![0x07u8, 0x02u8, self.spec_ctrl(), self.bibat_block],
    {
        vec![Self::TYPE_ID, Self::DATA_LENGTH, self.bibat_ctrl, self.bibat_block]
    }

    /// Description of the field.
    pub fn describe(&self) -> (d: BiBatInformationDescription)
        ensures
            d.obj@ == "BiBatInformation"@,
            d.type_id == 0x07 && d.data_length == 0x02,
            d.bibat_ctrl == self.spec_ctrl() / 16,
            d.bibat_block == self.bibat_block,
    {
        BiBatInformationDescription {
            obj: "BiBatInformation",
            type_id: Self::TYPE_ID,
            data_length: Self::DATA_LENGTH,
            bibat_ctrl: self.get_bibat_ctrl(),
            bibat_block: self.bibat_block,
        }
    }
}

// ------------------------------------------------------------------
// RF multi information (0x08)
// ------------------------------------------------------------------

/// RF multi information: frequencies, call channels (fast in bits 7..4,
/// slow in bits 3..0) and physical acknowledge.
#[derive(Debug, Clone)]
pub struct RFMultiInformation {
    pub transmission_frequency: u8,
    pub call_channel: u8,
    pub physical_acknowledge: u8,
    pub reception_frequency: u8,
}

/// Description of an RF multi field.
#[derive(Debug, Clone)]
pub struct RFMultiInformationDescription {
    pub obj: &'static str,
    pub type_id: u8,
    pub data_length: u8,
    pub transmission_frequency: u8,
    pub fast_call_channel: u8,
    pub slow_call_channel: u8,
    pub physical_acknowledge: u8,
    pub reception_frequency: u8,
}

impl RFMultiInformation {
    pub const TYPE_ID: u8 = 0x08;
    pub const DATA_LENGTH: u8 = 0x04;

    /// The call channel octet.
    pub closed spec fn spec_call_channel(&self) -> u8 {
        self.call_channel
    }

    /// A field from its parts; the channels keep their low four bits.
    pub fn new(
        transmission_frequency: u8,
        fast_call_channel: u8,
        slow_call_channel: u8,
        physical_acknowledge: u8,
        reception_frequency: u8,
    ) -> (x: Self)
        ensures
            x.transmission_frequency == transmission_frequency,
            x.spec_call_channel() == (fast_call_channel % 16) * 16 + slow_call_channel % 16,
            x.physical_acknowledge == physical_acknowledge,
            x.reception_frequency == reception_frequency,
    {
        RFMultiInformation {
            transmission_frequency,
            call_channel: (fast_call_channel % 16) * 16 + slow_call_channel % 16,
            physical_acknowledge,
            reception_frequency,
        }
    }

    /// The field in `buffer`, which must hold exactly its six octets.
    pub fn from_buffer(buffer: &[u8]) -> (r: Result<Self, KnxError>)
        ensures
            field_ok(buffer@, 0x08, 4) ==> (r matches Ok(x) && x.transmission_frequency
                == buffer@[2] && x.spec_call_channel() == buffer@[3] && x.physical_acknowledge
                == buffer@[4] && x.reception_frequency == buffer@[5]),
            !field_ok(buffer@, 0x08, 4) ==> r == invalid::<Self>(),
    {
        let data = parse_data_buffer(buffer, Self::TYPE_ID, Some(4))?;
        Ok(
            RFMultiInformation {
                transmission_frequency: data[0],
                call_channel: data[1],
                physical_acknowledge: data[2],
                reception_frequency: data[3],
            },
        )
    }

    /// Bits 7..4 of the call channel octet.
    pub fn get_fast_call_channel(&self) -> (r: u8)
        ensures
            r == self.spec_call_channel() / 16,
    {
        self.call_channel / 16
    }

    /// Writes the low four bits of `value` into bits 7..4.
    pub fn set_fast_call_channel(&mut self, value: u8)
        ensures
            final(self).spec_call_channel() == old(self).spec_call_channel() % 16 + (value % 16)
                * 16,
            final(self).transmission_frequency == old(self).transmission_frequency,
            final(self).physical_acknowledge == old(self).physical_acknowledge,
            final(self).reception_frequency == old(self).reception_frequency,
    {
        self.call_channel = self.call_channel % 16 + (value % 16) * 16;
    }

    /// Bits 3..0 of the call channel octet.
    pub fn get_slow_call_channel(&self) -> (r: u8)
        ensures
            r == self.spec_call_channel() % 16,
    {
        self.call_channel % 16
    }

    /// Writes the low four bits of `value` into bits 3..0.
    pub fn set_slow_call_channel(&mut self, value: u8)
        ensures
            final(self).spec_call_channel() == (old(self).spec_call_channel() / 16) * 16 + value
                % 16,
            final(self).transmission_frequency == old(self).transmission_frequency,
            final(self).physical_acknowledge == old(self).physical_acknowledge,
            final(self).reception_frequency == old(self).reception_frequency,
    {
        self.call_channel = (self.call_channel / 16) * 16 + value % 16;
    }

    /// The six octets of the field.
    pub fn get_buffer(&self) -> (b: Vec<u8>)
        ensures
            b@ == seq![
                0x08u8,
                0x04u8,
                self.transmission_frequency,
                self.spec_call_channel(),
                self.physical_acknowledge,
                self.reception_frequency,
            ],
    {
        vec![
            Self::TYPE_ID,
            Self::DATA_LENGTH,
            self.transmission_frequency,
            self.call_channel,
            self.physical_acknowledge,
            self.reception_frequency,
        ]
    }

    /// Description of the field.
    pub fn describe(&self) -> (d: RFMultiInformationDescription)
        ensures
            d.obj@ == "RFMultiInformation"@,
            d.type_id == 0x08 && d.data_length == 0x04,
            d.transmission_frequency == self.transmission_frequency,
            d.fast_call_channel == self.spec_call_channel() / 16,
            d.slow_call_channel == self.spec_call_channel() % 16,
            d.physical_acknowledge == self.physical_acknowledge,
            d.reception_frequency == self.reception_frequency,
    {
        RFMultiInformationDescription {
            obj: "RFMultiInformation",
            type_id: Self::TYPE_ID,
            data_length: Self::DATA_LENGTH,
            transmission_frequency: self.transmission_frequency,
            fast_call_channel: self.get_fast_call_channel(),
            slow_call_channel: self.get_slow_call_channel(),
            physical_acknowledge: self.physical_acknowledge,
            reception_frequency: self.reception_frequency,
        }
    }
}

// ------------------------------------------------------------------
// Preamble and postamble (0x09)
// ------------------------------------------------------------------

/// Preamble and postamble lengths.
#[derive(Debug, Clone)]
pub struct PreambleAndPostamble {
    pub preamble_length: u16,
    pub postamble_length: u8,
}

/// Description of a preamble/postamble field.
#[derive(Debug, Clone)]
pub struct PreambleAndPostambleDescription {
    pub obj: &'static str,
    pub type_id: u8,
    pub data_length: u8,
    pub preamble_length: u16,
    pub postamble_length: u8,
}

impl PreambleAndPostamble {
    pub const TYPE_ID: u8 = 0x09;
    pub const DATA_LENGTH: u8 = 0x03;

    /// A field from its parts.
    pub fn new(preamble_length: u16, postamble_length: u8) -> (x: Self)
        ensures
            x.preamble_length == preamble_length,
            x.postamble_length == postamble_length,
    {
        PreambleAndPostamble { preamble_length, postamble_length }
    }

    /// The field in `buffer`, which must hold exactly its five octets.
    pub fn from_buffer(buffer: &[u8]) -> (r: Result<Self, KnxError>)
        ensures
            field_ok(buffer@, 0x09, 3) ==> (r matches Ok(x) && x.preamble_length == be16(
                buffer@[2],
                buffer@[3],
            ) && x.postamble_length == buffer@[4]),
            !field_ok(buffer@, 0x09, 3) ==> r == invalid::<Self>(),
    {
        let data = parse_data_buffer(buffer, Self::TYPE_ID, Some(3))?;
        Ok(PreambleAndPostamble { preamble_length: read_u16_be(data, 0), postamble_length: data[2] })
    }

    /// The five octets of the field.
    pub fn get_buffer(&self) -> (b: Vec<u8>)
        ensures
            b@ == seq![0x09u8, 0x03u8] + be_bytes16(self.preamble_length) + seq![self.postamble_length],
    {
        let mut b = vec![Self::TYPE_ID, Self::DATA_LENGTH, 0, 0, self.postamble_length];
        write_u16_be(&mut b, 2, self.preamble_length);
        assert(b@ =~= seq![0x09u8, 0x03u8] + be_bytes16(self.preamble_length) + seq![
            self.postamble_length,
        ]);
        b
    }

    /// Description of the field.
    pub fn describe(&self) -> (d: PreambleAndPostambleDescription)
        ensures
            d.obj@ == "PreambleAndPostamble"@,
            d.type_id == 0x09 && d.data_length == 0x03,
            d.preamble_length == self.preamble_length,
            d.postamble_length == self.postamble_length,
    {
        PreambleAndPostambleDescription {
            obj: "PreambleAndPostamble",
            type_id: Self::TYPE_ID,
            data_length: Self::DATA_LENGTH,
            preamble_length: self.preamble_length,
            postamble_length: self.postamble_length,
        }
    }
}

// ------------------------------------------------------------------
// RF fast acknowledge information (0x0A)
// ------------------------------------------------------------------

/// One fast acknowledge: status and info octet.
#[derive(Debug, Clone, Copy, PartialEq, Eq, Structural)]
pub struct RfFastAck {
    pub status: u8,
    pub info: u8,
}

/// A list of fast acknowledges.
#[derive(Debug, Clone)]
pub struct RFFastACKInformation {
    fast_acks: Vec<RfFastAck>,
}

/// Description of a fast acknowledge field.
#[derive(Debug, Clone)]
pub struct RFFastACKInformationDescription {
    pub obj: &'static str,
    pub type_id: u8,
    pub data_length: u8,
    pub fast_acks: Vec<RfFastAck>,
}

/// The data octets of a list of fast acknowledges.
pub open spec fn fast_acks_bytes(a: Seq<RfFastAck>) -> Seq<u8>
    decreases a.len(),
{
    if a.len() == 0 {
        Seq::empty()
    } else {
        fast_acks_bytes(a.drop_last()) + seq![a.last().status, a.last().info]
    }
}

fn copy_acks(a: &Vec<RfFastAck>) -> (r: Vec<RfFastAck>)
    ensures
        r@ == a@,
{
    let mut r: Vec<RfFastAck> = Vec::new();
    let mut i: usize = 0;
    while i < a.len()
        invariant
            i <= a@.len(),
            r@ == a@.subrange(0, i as int),
        decreases a.len() - i,
    {
        r.push(a[i]);
        assert(a@.subrange(0, i as int + 1) =~= a@.subrange(0, i as int).push(a@[i as int]));
        i = i + 1;
    }
    assert(a@.subrange(0, a@.len() as int) =~= a@);
    r
}

impl RFFastACKInformation {
    pub const TYPE_ID: u8 = 0x0A;

    /// The fast acknowledges.
    pub closed spec fn acks(&self) -> Seq<RfFastAck> {
        self.fast_acks@
    }

    /// A field holding `acks`.
    pub fn new(acks: Vec<RfFastAck>) -> (x: Self)
        ensures
            x.acks() == acks@,
    {
        RFFastACKInformation { fast_acks: acks }
    }

    /// The field in `buffer`: type 0x0A, a length octet equal to the number
    /// of data octets, and an even number of them.
    pub fn from_buffer(buffer: &[u8]) -> (r: Result<Self, KnxError>)
        ensures
            (buffer@.len() >= 2 && buffer@[0] == 0x0A && buffer@.len() - 2 == buffer@[1]
                && buffer@[1] % 2 == 0) ==> (r matches Ok(x) && x.acks().len() == buffer@[1] / 2
                && forall|k: int|
                0 <= k < x.acks().len() ==> (#[trigger] x.acks()[k]).status == buffer@[2 + 2 * k]
                    && x.acks()[k].info == buffer@[3 + 2 * k]),
            !(buffer@.len() >= 2 && buffer@[0] == 0x0A && buffer@.len() - 2 == buffer@[1]
                && buffer@[1] % 2 == 0) ==> r == invalid::<Self>(),
    {
        if buffer.len() < 2 {
            return Err(KnxError::InvalidParametersForDpt);
        }
        let length = buffer[1] as usize;
        if buffer[0] != Self::TYPE_ID {
            return Err(KnxError::InvalidParametersForDpt);
        }
        if buffer.len() - 2 != length || length % 2 != 0 {
            return Err(KnxError::InvalidParametersForDpt);
        }
        let mut acks: Vec<RfFastAck> = Vec::new();
        let n = length / 2;
        let mut k: usize = 0;
        while k < n
            invariant
                n == buffer@[1] / 2,
                buffer@.len() - 2 == buffer@[1],
                buffer@[1] % 2 == 0,
                k <= n,
                acks@.len() == k,
                forall|j: int|
                    0 <= j < k ==> (#[trigger] acks@[j]).status == buffer@[2 + 2 * j] && acks@[j].info
                        == buffer@[3 + 2 * j],
            decreases n - k,
        {
            acks.push(RfFastAck { status: buffer[2 + 2 * k], info: buffer[3 + 2 * k] });
            k = k + 1;
        }
        Ok(RFFastACKInformation { fast_acks: acks })
    }

    /// A copy of the fast acknowledges.
    pub fn get_fast_acks(&self) -> (r: Vec<RfFastAck>)
        ensures
            r@ == self.acks(),
    {
        copy_acks(&self.fast_acks)
    }

    /// Replaces the fast acknowledges.
    pub fn set_fast_acks(&mut self, acks: Vec<RfFastAck>)
        ensures
            final(self).acks() == acks@,
    {
        self.fast_acks = acks;
    }

    /// Appends a fast acknowledge.
    pub fn add_fast_ack(&mut self, ack: RfFastAck)
        ensures
            final(self).acks() == old(self).acks().push(ack),
    {
        self.fast_acks.push(ack);
    }

    /// Number of data octets: two per acknowledge.
    pub fn get_data_length(&self) -> (n: usize)
        requires
            self.acks().len() * 2 <= usize::MAX,
        ensures
            n == self.acks().len() * 2,
    {
        self.fast_acks.len() * 2
    }

    /// The octets of the field; the length octet keeps the low eight bits
    /// of the data length.
    pub fn get_buffer(&self) -> (b: Vec<u8>)
        requires
            self.acks().len() * 2 <= usize::MAX,
        ensures
            b@ == seq![0x0Au8, ((self.acks().len() * 2) % 256) as u8] + fast_acks_bytes(self.acks()),
    {
        let data_len = self.get_data_length();
        let mut b = vec![Self::TYPE_ID, (data_len % 256) as u8];
        let ghost start = b@;
        let mut i: usize = 0;
        while i < self.fast_acks.len()
            invariant
                i <= self.acks().len(),
                self.acks() == self.fast_acks@,
                b@ == start + fast_acks_bytes(self.acks().subrange(0, i as int)),
            decreases self.fast_acks.len() - i,
        {
            b.push(self.fast_acks[i].status);
            b.push(self.fast_acks[i].info);
            assert(self.acks().subrange(0, i as int + 1).drop_last() =~= self.acks().subrange(0, i as int));
            assert(b@ =~= start + fast_acks_bytes(self.acks().subrange(0, i as int + 1)));
            i = i + 1;
        }
        assert(self.acks().subrange(0, self.acks().len() as int) =~= self.acks());
        b
    }

    /// Description of the field.
    pub fn describe(&self) -> (d: RFFastACKInformationDescription)
        requires
            self.acks().len() * 2 <= usize::MAX,
        ensures
            d.obj@ == "RFFastACKInformation"@,
            d.type_id == 0x0A,
            d.data_length == ((self.acks().len() * 2) % 256) as u8,
            d.fast_acks@ == self.acks(),
    {
        let n = self.get_data_length();
        RFFastACKInformationDescription {
            obj: "RFFastACKInformation",
            type_id: Self::TYPE_ID,
            data_length: (n % 256) as u8,
            fast_acks: self.get_fast_acks(),
        }
    }
}

// ------------------------------------------------------------------
// Manufacturer specific data (0xFE)
// ------------------------------------------------------------------

/// Manufacturer specific data: manufacturer, subfunction and data.
#[derive(Debug, Clone)]
pub struct ManufacturerSpecificData {
    pub manufacturer_id: u16,
    pub subfunction: u8,
    pub data: Vec<u8>,
}

/// Description of a manufacturer specific field.
#[derive(Debug, Clone)]
pub struct ManufacturerSpecificDataDescription {
    pub obj: &'static str,
    pub type_id: u8,
    pub data_length: u8,
    pub manufacturer_id: u16,
    pub subfunction: u8,
    pub data: Vec<u8>,
}

impl ManufacturerSpecificData {
    pub const TYPE_ID: u8 = 0xFE;
    pub const MIN_DATA_LENGTH: u8 = 3;

    /// The data after the subfunction.
    pub closed spec fn spec_data(&self) -> Seq<u8> {
        self.data@
    }

    /// A field from its parts.
    pub fn new(manufacturer_id: u16, subfunction: u8, data: Vec<u8>) -> (x: Self)
        ensures
            x.manufacturer_id == manufacturer_id,
            x.subfunction == subfunction,
            x.spec_data() == data@,
    {
        ManufacturerSpecificData { manufacturer_id, subfunction, data }
    }

    /// The field in `buffer`: type 0xFE, a length octet equal to the number
    /// of data octets, and at least three of them.
    pub fn from_buffer(buffer: &[u8]) -> (r: Result<Self, KnxError>)
        ensures
            (buffer@.len() >= 2 && buffer@[0] == 0xFE && buffer@.len() - 2 == buffer@[1]
                && buffer@[1] >= 3) ==> (r matches Ok(x) && x.manufacturer_id == be16(
                buffer@[2],
                buffer@[3],
            ) && x.subfunction == buffer@[4] && x.spec_data() == buffer@.subrange(
                5,
                buffer@.len() as int,
            )),
            !(buffer@.len() >= 2 && buffer@[0] == 0xFE && buffer@.len() - 2 == buffer@[1]
                && buffer@[1] >= 3) ==> r == invalid::<Self>(),
    {
        if buffer.len() < 2 {
            return Err(KnxError::InvalidParametersForDpt);
        }
        let length = buffer[1] as usize;
        if buffer[0] != Self::TYPE_ID {
            return Err(KnxError::InvalidParametersForDpt);
        }
        if buffer.len() - 2 != length || length < 3 {
            return Err(KnxError::InvalidParametersForDpt);
        }
        let rest = vstd::slice::slice_subrange(buffer, 5, buffer.len());
        Ok(
            ManufacturerSpecificData {
                manufacturer_id: read_u16_be(buffer, 2),
                subfunction: buffer[4],
                data: vstd::slice::slice_to_vec(rest),
            },
        )
    }

    /// The data after the subfunction.
    pub fn get_data(&self) -> (d: &[u8])
        ensures
            d@ == self.spec_data(),
    {
        self.data.as_slice()
    }

    /// Replaces the data.
    pub fn set_data(&mut self, val: Vec<u8>)
        ensures
            final(self).spec_data() == val@,
            final(self).manufacturer_id == old(self).manufacturer_id,
            final(self).subfunction == old(self).subfunction,
    {
        self.data = val;
    }

    /// Number of data octets: manufacturer, subfunction and data.
    pub fn get_data_length(&self) -> (n: usize)
        requires
            self.spec_data().len() + 3 <= usize::MAX,
        ensures
            n == 3 + self.spec_data().len(),
    {
        3 + self.data.len()
    }

    /// The octets of the field; the length octet keeps the low eight bits
    /// of the data length.
    pub fn get_buffer(&self) -> (b: Vec<u8>)
        requires
            self.spec_data().len() + 3 <= usize::MAX,
        ensures
            b@ == seq![0xFEu8, ((3 + self.spec_data().len()) % 256) as u8] + be_bytes16(
                self.manufacturer_id,
            ) + seq![self.subfunction] + self.spec_data(),
    {
        let n = self.get_data_length();
        let mut b = vec![Self::TYPE_ID, (n % 256) as u8, 0, 0, self.subfunction];
        write_u16_be(&mut b, 2, self.manufacturer_id);
        b.extend_from_slice(self.data.as_slice());
        assert(b@ =~= seq![0xFEu8, ((3 + self.spec_data().len()) % 256) as u8] + be_bytes16(
            self.manufacturer_id,
        ) + seq![self.subfunction] + self.spec_data());
        b
    }

    /// Description of the field.
    pub fn describe(&self) -> (d: ManufacturerSpecificDataDescription)
        requires
            self.spec_data().len() + 3 <= usize::MAX,
        ensures
            d.obj@ == "ManufacturerSpecificData"@,
            d.type_id == 0xFE,
            d.data_length == ((3 + self.spec_data().len()) % 256) as u8,
            d.manufacturer_id == self.manufacturer_id,
            d.subfunction == self.subfunction,
            d.data@ == self.spec_data(),
    {
        let n = self.get_data_length();
        ManufacturerSpecificDataDescription {
            obj: "ManufacturerSpecificData",
            type_id: Self::TYPE_ID,
            data_length: (n % 256) as u8,
            manufacturer_id: self.manufacturer_id,
            subfunction: self.subfunction,
            data: vstd::slice::slice_to_vec(self.data.as_slice()),
        }
    }
}

// ------------------------------------------------------------------
// Busmonitor status (0x03)
// ------------------------------------------------------------------

/// The busmonitor status octet.
#[derive(Debug, Clone, Copy, PartialEq, Eq)]
pub struct BusmonitorStatusInfo {
    pub status: Status,
}

/// Description of a busmonitor status field.
#[derive(Debug, Clone)]
pub struct BusmonitorStatusInfoDescription {
    pub obj: &'static str,
    pub type_id: u8,
    pub data_length: u8,
    pub status: StatusDescription,
}

impl BusmonitorStatusInfo {
    pub const TYPE_ID: u8 = 0x03;
    pub const DATA_LENGTH: u8 = 0x01;

    /// A field holding `status`.
    pub fn new(status: Status) -> (x: Self)
        ensures
            x.status == status,
    {
        BusmonitorStatusInfo { status }
    }

    /// The field in `buffer`, which must hold exactly its three octets.
    pub fn from_buffer(buffer: &[u8]) -> (r: Result<Self, KnxError>)
        ensures
            field_ok(buffer@, 0x03, 1) ==> (r matches Ok(x) && x.status.value() == buffer@[2]),
            !field_ok(buffer@, 0x03, 1) ==> r == invalid::<Self>(),
    {
        let data = parse_data_buffer(buffer, Self::TYPE_ID, Some(1))?;
        Ok(BusmonitorStatusInfo { status: Status::from_byte(data[0]) })
    }

    /// The three octets of the field.
    pub fn get_buffer(&self) -> (b: Vec<u8>)
        ensures
            b@ == seq![0x03u8, 0x01u8, self.status.value()],
    {
        vec![Self::TYPE_ID, Self::DATA_LENGTH, self.status.get_value()]
    }

    /// Description of the field.
    pub fn describe(&self) -> (d: BusmonitorStatusInfoDescription)
        ensures
            d.obj@ == "BusmonitorStatusInfo"@,
            d.type_id == 0x03 && d.data_length == 0x01,
            d.status.value == self.status.value(),
    {
        BusmonitorStatusInfoDescription {
            obj: "BusmonitorStatusInfo",
            type_id: Self::TYPE_ID,
            data_length: Self::DATA_LENGTH,
            status: self.status.describe(),
        }
    }
}

// ------------------------------------------------------------------
// Relative timestamp (0x04) and time delay until sending (0x05)
// ------------------------------------------------------------------

/// A 16-bit relative timestamp.
#[derive(Debug, Clone)]
pub struct TimestampRelative {
    pub timestamp: u16,
}

/// Description of a relative timestamp field.
#[derive(Debug, Clone)]
pub struct TimestampRelativeDescription {
    pub obj: &'static str,
    pub type_id: u8,
    pub data_length: u8,
    pub timestamp: u16,
}

impl TimestampRelative {
    pub const TYPE_ID: u8 = 0x04;
    pub const DATA_LENGTH: u8 = 0x02;

    /// A field holding `timestamp`.
    pub fn new(timestamp: u16) -> (x: Self)
        ensures
            x.timestamp == timestamp,
    {
        TimestampRelative { timestamp }
    }

    /// The field in `buffer`, which must hold exactly its four octets.
    pub fn from_buffer(buffer: &[u8]) -> (r: Result<Self, KnxError>)
        ensures
            field_ok(buffer@, 0x04, 2) ==> (r matches Ok(x) && x.timestamp == be16(
                buffer@[2],
                buffer@[3],
            )),
            !field_ok(buffer@, 0x04, 2) ==> r == invalid::<Self>(),
    {
        let data = parse_data_buffer(buffer, Self::TYPE_ID, Some(2))?;
        Ok(TimestampRelative { timestamp: read_u16_be(data, 0) })
    }

    /// The four octets of the field.
    pub fn get_buffer(&self) -> (b: Vec<u8>)
        ensures
            b@ == seq![0x04u8, 0x02u8] + be_bytes16(self.timestamp),
    {
        let mut b = vec![Self::TYPE_ID, Self::DATA_LENGTH, 0, 0];
        write_u16_be(&mut b, 2, self.timestamp);
        assert(b@ =~= seq![0x04u8, 0x02u8] + be_bytes16(self.timestamp));
        b
    }

    /// Description of the field.
    pub fn describe(&self) -> (d: TimestampRelativeDescription)
        ensures
            d.obj@ == "TimestampRelative"@,
            d.type_id == 0x04 && d.data_length == 0x02,
            d.timestamp == self.timestamp,
    {
        TimestampRelativeDescription {
            obj: "TimestampRelative",
            type_id: Self::TYPE_ID,
            data_length: Self::DATA_LENGTH,
            timestamp: self.timestamp,
        }
    }
}

/// The delay before a frame is sent.
#[derive(Debug, Clone)]
pub struct TimeDelayUntilSending {
    pub delay: u16,
}

/// Description of a time delay field.
#[derive(Debug, Clone)]
pub struct TimeDelayUntilSendingDescription {
    pub obj: &'static str,
    pub type_id: u8,
    pub data_length: u8,
    pub delay: u16,
}

impl TimeDelayUntilSending {
    pub const TYPE_ID: u8 = 0x05;
    pub const DATA_LENGTH: u8 = 0x02;

    /// A field holding `delay`.
    pub fn new(delay: u16) -> (x: Self)
        ensures
            x.delay == delay,
    {
        TimeDelayUntilSending { delay }
    }

    /// The field in `buffer`, which must hold exactly its four octets.
    pub fn from_buffer(buffer: &[u8]) -> (r: Result<Self, KnxError>)
        ensures
            field_ok(buffer@, 0x05, 2) ==> (r matches Ok(x) && x.delay == be16(buffer@[2], buffer@[3])),
            !field_ok(buffer@, 0x05, 2) ==> r == invalid::<Self>(),
    {
        let data = parse_data_buffer(buffer, Self::TYPE_ID, Some(2))?;
        Ok(TimeDelayUntilSending { delay: read_u16_be(data, 0) })
    }

    /// The four octets of the field.
    pub fn get_buffer(&self) -> (b: Vec<u8>)
        ensures
            b@ == seq![0x05u8, 0x02u8] + be_bytes16(self.delay),
    {
        let mut b = vec![Self::TYPE_ID, Self::DATA_LENGTH, 0, 0];
        write_u16_be(&mut b, 2, self.delay);
        assert(b@ =~= seq![0x05u8, 0x02u8] + be_bytes16(self.delay));
        b
    }

    /// Description of the field.
    pub fn describe(&self) -> (d: TimeDelayUntilSendingDescription)
        ensures
            d.obj@ == "TimeDelayUntilSending"@,
            d.type_id == 0x05 && d.data_length == 0x02,
            d.delay == self.delay,
    {
        TimeDelayUntilSendingDescription {
            obj: "TimeDelayUntilSending",
            type_id: Self::TYPE_ID,
            data_length: Self::DATA_LENGTH,
            delay: self.delay,
        }
    }
}

// ------------------------------------------------------------------
// Any additional information field
// ------------------------------------------------------------------

/// One additional information field.
#[derive(Debug, Clone)]
pub enum AddInfo {
    PLMediumInfo(PLMediumInfo),
    RFMediumInformation(RFMediumInformation),
    BusmonitorStatusInfo(BusmonitorStatusInfo),
    TimestampRelative(TimestampRelative),
    TimeDelayUntilSending(TimeDelayUntilSending),
    ExtendedRelativeTimestamp(ExtendedRelativeTimestamp),
    BiBatInformation(BiBatInformation),
    RFMultiInformation(RFMultiInformation),
    PreambleAndPostamble(PreambleAndPostamble),
    RFFastACKInformation(RFFastACKInformation),
    ManufacturerSpecificData(ManufacturerSpecificData),
}

/// The type octet of a field.
pub open spec fn add_info_type(a: AddInfo) -> u8 {
    match a {
        AddInfo::PLMediumInfo(_) => 0x01,
        AddInfo::RFMediumInformation(_) => 0x02,
        AddInfo::BusmonitorStatusInfo(_) => 0x03,
        AddInfo::TimestampRelative(_) => 0x04,
        AddInfo::TimeDelayUntilSending(_) => 0x05,
        AddInfo::ExtendedRelativeTimestamp(_) => 0x06,
        AddInfo::BiBatInformation(_) => 0x07,
        AddInfo::RFMultiInformation(_) => 0x08,
        AddInfo::PreambleAndPostamble(_) => 0x09,
        AddInfo::RFFastACKInformation(_) => 0x0A,
        AddInfo::ManufacturerSpecificData(_) => 0xFE,
    }
}

/// Whether the lists of a field are short enough for its length arithmetic.
pub open spec fn add_info_fits(a: AddInfo) -> bool {
    match a {
        AddInfo::RFFastACKInformation(x) => x.acks().len() * 2 <= usize::MAX,
        AddInfo::ManufacturerSpecificData(x) => x.spec_data().len() + 3 <= usize::MAX,
        _ => true,
    }
}

/// The octets of a field.
pub open spec fn add_info_bytes(a: AddInfo) -> Seq<u8> {
    match a {
        AddInfo::PLMediumInfo(x) => seq![0x01u8, 0x02u8] + x.domain_address@,
        AddInfo::RFMediumInformation(x) => x.bytes(),
        AddInfo::BusmonitorStatusInfo(x) => seq![0x03u8, 0x01u8, x.status.value()],
        AddInfo::TimestampRelative(x) => seq![0x04u8, 0x02u8] + be_bytes16(x.timestamp),
        AddInfo::TimeDelayUntilSending(x) => seq![0x05u8, 0x02u8] + be_bytes16(x.delay),
        AddInfo::ExtendedRelativeTimestamp(x) => seq![0x06u8, 0x04u8] + u32_bytes(x.timestamp),
        AddInfo::BiBatInformation(x) => seq![0x07u8, 0x02u8, x.spec_ctrl(), x.bibat_block],
        AddInfo::RFMultiInformation(x) => seq![
            0x08u8,
            0x04u8,
            x.transmission_frequency,
            x.spec_call_channel(),
            x.physical_acknowledge,
            x.reception_frequency,
        ],
        AddInfo::PreambleAndPostamble(x) => seq![0x09u8, 0x03u8] + be_bytes16(x.preamble_length)
            + seq![x.postamble_length],
        AddInfo::RFFastACKInformation(x) => seq![0x0Au8, ((x.acks().len() * 2) % 256) as u8]
            + fast_acks_bytes(x.acks()),
        AddInfo::ManufacturerSpecificData(x) => seq![
            0xFEu8,
            ((3 + x.spec_data().len()) % 256) as u8,
        ] + be_bytes16(x.manufacturer_id) + seq![x.subfunction] + x.spec_data(),
    }
}

/// Whether `b` holds exactly one field that `AddInfo::from_buffer` reads.
pub open spec fn add_info_parse_ok(b: Seq<u8>) -> bool {
    b.len() >= 2 && {
        let t = b[0];
        if t == 0x01 {
            field_ok(b, 0x01, 2)
        } else if t == 0x02 {
            field_ok(b, 0x02, 8)
        } else if t == 0x03 {
            field_ok(b, 0x03, 1)
        } else if t == 0x04 {
            field_ok(b, 0x04, 2)
        } else if t == 0x05 {
            field_ok(b, 0x05, 2)
        } else if t == 0x06 {
            field_ok(b, 0x06, 4)
        } else if t == 0x07 {
            field_ok(b, 0x07, 2)
        } else if t == 0x08 {
            field_ok(b, 0x08, 4)
        } else if t == 0x09 {
            field_ok(b, 0x09, 3)
        } else if t == 0x0A {
            b.len() - 2 == b[1] && b[1] % 2 == 0
        } else if t == 0xFE {
            b.len() - 2 == b[1] && b[1] >= 3
        } else {
            false
        }
    }
}

/// Whether `a` is the field read from `b` (for `b` with `add_info_parse_ok`):
/// its octets are `b`.
pub open spec fn add_info_parsed(b: Seq<u8>, a: AddInfo) -> bool {
    add_info_type(a) == b[0] && add_info_fits(a) && add_info_bytes(a) == b
}

impl AddInfo {
    /// The type octet of the field.
    pub fn get_type_id(&self) -> (t: u8)
        ensures
            t == add_info_type(*self),
    {
        match self {
            AddInfo::PLMediumInfo(_) => PLMediumInfo::TYPE_ID,
            AddInfo::RFMediumInformation(_) => RFMediumInformation::TYPE_ID,
            AddInfo::BusmonitorStatusInfo(_) => BusmonitorStatusInfo::TYPE_ID,
            AddInfo::TimestampRelative(_) => TimestampRelative::TYPE_ID,
            AddInfo::TimeDelayUntilSending(_) => TimeDelayUntilSending::TYPE_ID,
            AddInfo::ExtendedRelativeTimestamp(_) => ExtendedRelativeTimestamp::TYPE_ID,
            AddInfo::BiBatInformation(_) => BiBatInformation::TYPE_ID,
            AddInfo::RFMultiInformation(_) => RFMultiInformation::TYPE_ID,
            AddInfo::PreambleAndPostamble(_) => PreambleAndPostamble::TYPE_ID,
            AddInfo::RFFastACKInformation(_) => RFFastACKInformation::TYPE_ID,
            AddInfo::ManufacturerSpecificData(_) => ManufacturerSpecificData::TYPE_ID,
        }
    }

    /// The octets of the field.
    pub fn get_buffer(&self) -> (b: Vec<u8>)
        requires
            add_info_fits(*self),
        ensures
            b@ == add_info_bytes(*self),
    {
        match self {
            AddInfo::PLMediumInfo(x) => x.get_buffer(),
            AddInfo::RFMediumInformation(x) => x.get_buffer(),
            AddInfo::BusmonitorStatusInfo(x) => x.get_buffer(),
            AddInfo::TimestampRelative(x) => x.get_buffer(),
            AddInfo::TimeDelayUntilSending(x) => x.get_buffer(),
            AddInfo::ExtendedRelativeTimestamp(x) => x.get_buffer(),
            AddInfo::BiBatInformation(x) => x.get_buffer(),
            AddInfo::RFMultiInformation(x) => x.get_buffer(),
            AddInfo::PreambleAndPostamble(x) => x.get_buffer(),
            AddInfo::RFFastACKInformation(x) => x.get_buffer(),
            AddInfo::ManufacturerSpecificData(x) => x.get_buffer(),
        }
    }

    /// Number of octets of the field.
    pub fn total_length(&self) -> (n: usize)
        requires
            add_info_fits(*self),
        ensures
            n == add_info_bytes(*self).len(),
    {
        self.get_buffer().len()
    }

    /// The single field that `buffer` holds.
    pub fn from_buffer(buffer: &[u8]) -> (r: Result<Self, KnxError>)
        ensures
            add_info_parse_ok(buffer@) ==> (r matches Ok(a) && add_info_parsed(buffer@, a)),
            !add_info_parse_ok(buffer@) ==> r == invalid::<Self>(),
    {
        if buffer.len() < 2 {
            return Err(KnxError::InvalidParametersForDpt);
        }
        let t = buffer[0];
        if t == 0x01 {
            let x = PLMediumInfo::from_buffer(buffer)?;
            assert(add_info_bytes(AddInfo::PLMediumInfo(x)) =~= buffer@);
            Ok(AddInfo::PLMediumInfo(x))
        } else if t == 0x02 {
            Ok(AddInfo::RFMediumInformation(RFMediumInformation::from_buffer(buffer)?))
        } else if t == 0x03 {
            let x = BusmonitorStatusInfo::from_buffer(buffer)?;
            assert(add_info_bytes(AddInfo::BusmonitorStatusInfo(x)) =~= buffer@);
            Ok(AddInfo::BusmonitorStatusInfo(x))
        } else if t == 0x04 {
            let x = TimestampRelative::from_buffer(buffer)?;
            assert(add_info_bytes(AddInfo::TimestampRelative(x)) =~= buffer@);
            Ok(AddInfo::TimestampRelative(x))
        } else if t == 0x05 {
            let x = TimeDelayUntilSending::from_buffer(buffer)?;
            assert(add_info_bytes(AddInfo::TimeDelayUntilSending(x)) =~= buffer@);
            Ok(AddInfo::TimeDelayUntilSending(x))
        } else if t == 0x06 {
            let x = ExtendedRelativeTimestamp::from_buffer(buffer)?;
            proof {
                lemma_u32_bytes(buffer@[2], buffer@[3], buffer@[4], buffer@[5]);
            }
            assert(add_info_bytes(AddInfo::ExtendedRelativeTimestamp(x)) =~= buffer@);
            Ok(AddInfo::ExtendedRelativeTimestamp(x))
        } else if t == 0x07 {
            let x = BiBatInformation::from_buffer(buffer)?;
            assert(add_info_bytes(AddInfo::BiBatInformation(x)) =~= buffer@);
            Ok(AddInfo::BiBatInformation(x))
        } else if t == 0x08 {
            let x = RFMultiInformation::from_buffer(buffer)?;
            assert(add_info_bytes(AddInfo::RFMultiInformation(x)) =~= buffer@);
            Ok(AddInfo::RFMultiInformation(x))
        } else if t == 0x09 {
            let x = PreambleAndPostamble::from_buffer(buffer)?;
            assert(add_info_bytes(AddInfo::PreambleAndPostamble(x)) =~= buffer@);
            Ok(AddInfo::PreambleAndPostamble(x))
        } else if t == 0x0A {
            let x = RFFastACKInformation::from_buffer(buffer)?;
            proof {
                lemma_fast_acks_bytes(x.acks(), buffer@.subrange(2, buffer@.len() as int));
            }
            assert(add_info_bytes(AddInfo::RFFastACKInformation(x)) =~= buffer@);
            Ok(AddInfo::RFFastACKInformation(x))
        } else if t == 0xFE {
            let x = ManufacturerSpecificData::from_buffer(buffer)?;
            assert(add_info_bytes(AddInfo::ManufacturerSpecificData(x)) =~= buffer@);
            Ok(AddInfo::ManufacturerSpecificData(x))
        } else {
            Err(KnxError::InvalidParametersForDpt)
        }
    }
}

/// Four octets read as a 32-bit value are written back as the same octets.
proof fn lemma_u32_bytes(b0: u8, b1: u8, b2: u8, b3: u8)
    ensures
        u32_bytes(be32(b0, b1, b2, b3) as u32) == seq![b0, b1, b2, b3],
{
    let v = be32(b0, b1, b2, b3);
    assert(v / 16777216 == b0);
    assert((v / 65536) % 256 == b1);
    assert((v / 256) % 256 == b2);
    assert(v % 256 == b3);
    assert(u32_bytes(v as u32) =~= seq![b0, b1, b2, b3]);
}

/// Fast acknowledges read pairwise from `d` are written back as `d`.
proof fn lemma_fast_acks_bytes(a: Seq<RfFastAck>, d: Seq<u8>)
    requires
        d.len() == 2 * a.len(),
        forall|k: int| 0 <= k < a.len() ==> (#[trigger] a[k]).status == d[2 * k] && a[k].info == d[2 * k + 1],
    ensures
        fast_acks_bytes(a) == d,
    decreases a.len(),
{
    if a.len() > 0 {
        let n = a.len() - 1;
        assert forall|k: int| 0 <= k < a.drop_last().len() implies (#[trigger] a.drop_last()[k]).status
            == d.subrange(0, 2 * n)[2 * k] && a.drop_last()[k].info == d.subrange(0, 2 * n)[2 * k + 1] by {
            assert(a.drop_last()[k] == a[k]);
        }
        lemma_fast_acks_bytes(a.drop_last(), d.subrange(0, 2 * n));
        assert(a[n as int].status == d[2 * n]);
        assert(d =~= d.subrange(0, 2 * n) + seq![a.last().status, a.last().info]);
    } else {
        assert(d =~= Seq::<u8>::empty());
    }
}

/// Every field is read back from its octets: the field read from
/// `add_info_bytes(a)` has exactly the octets of `a`, and its fields are
/// those of `a` (a fast acknowledge list is kept below 128 entries and
/// manufacturer data below 253 octets, so that the length octet is exact).
pub proof fn lemma_add_info_round_trip(a: AddInfo)
    requires
        add_info_fits(a),
        a matches AddInfo::RFFastACKInformation(x) ==> x.acks().len() * 2 <= 255,
        a matches AddInfo::ManufacturerSpecificData(x) ==> x.spec_data().len() + 3 <= 255,
    ensures
        add_info_parse_ok(add_info_bytes(a)),
        add_info_parsed(add_info_bytes(a), a),
{
    match a {
        AddInfo::RFFastACKInformation(x) => {
            lemma_fast_acks_len(x.acks());
        },
        _ => {},
    }
}

proof fn lemma_fast_acks_len(a: Seq<RfFastAck>)
    ensures
        fast_acks_bytes(a).len() == 2 * a.len(),
    decreases a.len(),
{
    if a.len() > 0 {
        lemma_fast_acks_len(a.drop_last());
    }
}

} // verus!
