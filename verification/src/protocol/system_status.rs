//! The system status octet of a device and the status octet of a
//! busmonitor indication.
use crate::errors::KnxError;
use crate::utils::bits::{bit_set, get_bit, put_bit, with_bit};
use vstd::prelude::*;

verus! {

/// Flags of a system status octet.
#[derive(Debug, Clone, Default)]
pub struct SystemStatusValues {
    pub prog: bool,
    pub llm: bool,
    pub tle: bool,
    pub ale: bool,
    pub se: bool,
    pub ue: bool,
    pub dm: bool,
    pub parity: bool,
}

/// System status octet: bit 1 link layer mode, 2 transport layer, 3
/// application layer, 4 serial interface, 5 user program, 7 parity.
pub struct SystemStatus {
    value: u8,
}

/// Description of a system status octet.
#[derive(Debug, Clone)]
pub struct SystemStatusDescription {
    pub obj: &'static str,
    pub prog: bool,
    pub llm: &'static str,
    pub tle: bool,
    pub ale: bool,
    pub se: bool,
    pub ue: bool,
    pub dm: bool,
    pub parity: &'static str,
    pub value: u8,
}

/// `w` when `b` holds, else 0.
pub open spec fn flag(b: bool, w: u8) -> u8 {
    if b {
        w
    } else {
        0
    }
}

/// The octet that the flags of `v` give.
pub open spec fn system_status_byte(v: SystemStatusValues) -> u8 {
    (flag(v.llm, 2) + flag(v.tle, 4) + flag(v.ale, 8) + flag(v.se, 16) + flag(v.ue, 32) + flag(
        v.parity,
        128,
    )) as u8
}

fn flag_exec(b: bool, w: u8) -> (r: u8)
    ensures
        r == flag(b, w),
{
    if b {
        w
    } else {
        0
    }
}

impl SystemStatus {
    /// The octet.
    pub closed spec fn value(&self) -> u8 {
        self.value
    }

    /// A status from its flags; the programming-mode and device-mode flags
    /// cannot be set this way.
    pub fn new(values: SystemStatusValues) -> (r: Result<Self, KnxError>)
        ensures
            (values.prog || values.dm) ==> r == Err::<Self, KnxError>(
                KnxError::InvalidParametersForDpt,
            ),
            !(values.prog || values.dm) ==> (r matches Ok(s) && s.value() == system_status_byte(
                values,
            )),
    {
        if values.prog {
            return Err(KnxError::InvalidParametersForDpt);
        }
        if values.dm {
            return Err(KnxError::InvalidParametersForDpt);
        }
        let v: u8 = flag_exec(values.llm, 2) + flag_exec(values.tle, 4) + flag_exec(values.ale, 8)
            + flag_exec(values.se, 16) + flag_exec(values.ue, 32) + flag_exec(values.parity, 128);
        Ok(SystemStatus { value: v })
    }

    /// The octet.
    pub fn get_value(&self) -> (r: u8)
        ensures
            r == self.value(),
    {
        self.value
    }

    /// Replaces the octet.
    pub fn set_value(&mut self, new_value: u8)
        ensures
            final(self).value() == new_value,
    {
        self.value = new_value;
    }

    /// Programming mode is never reported.
    pub fn get_prog(&self) -> (r: bool)
        ensures
            !r,
    {
        false
    }

    /// Device mode is never reported.
    pub fn get_dm(&self) -> (r: bool)
        ensures
            !r,
    {
        false
    }

    /// Bit 1: link layer (busmonitor) mode; set means disabled.
    pub fn get_llm(&self) -> (r: bool)
        ensures
            r == bit_set(self.value(), 1),
    {
        get_bit(self.value, 1)
    }

    /// Writes bit 1.
    pub fn set_llm(&mut self, enable: bool)
        ensures
            final(self).value() == with_bit(old(self).value(), 1, enable),
    {
        self.value = put_bit(self.value, 1, enable);
    }

    /// Bit 2: transport layer enabled.
    pub fn get_tle(&self) -> (r: bool)
        ensures
            r == bit_set(self.value(), 2),
    {
        get_bit(self.value, 2)
    }

    /// Writes bit 2.
    pub fn set_tle(&mut self, enable: bool)
        ensures
            final(self).value() == with_bit(old(self).value(), 2, enable),
    {
        self.value = put_bit(self.value, 2, enable);
    }

    /// Bit 3: application layer enabled.
    pub fn get_ale(&self) -> (r: bool)
        ensures
            r == bit_set(self.value(), 3),
    {
        get_bit(self.value, 3)
    }

    /// Writes bit 3.
    pub fn set_ale(&mut self, enable: bool)
        ensures
            final(self).value() == with_bit(old(self).value(), 3, enable),
    {
        self.value = put_bit(self.value, 3, enable);
    }

    /// Bit 4: serial interface enabled.
    pub fn get_se(&self) -> (r: bool)
        ensures
            r == bit_set(self.value(), 4),
    {
        get_bit(self.value, 4)
    }

    /// Writes bit 4.
    pub fn set_se(&mut self, enable: bool)
        ensures
            final(self).value() == with_bit(old(self).value(), 4, enable),
    {
        self.value = put_bit(self.value, 4, enable);
    }

    /// Bit 5: user program enabled.
    pub fn get_ue(&self) -> (r: bool)
        ensures
            r == bit_set(self.value(), 5),
    {
        get_bit(self.value, 5)
    }

    /// Writes bit 5.
    pub fn set_ue(&mut self, enable: bool)
        ensures
            final(self).value() == with_bit(old(self).value(), 5, enable),
    {
        self.value = put_bit(self.value, 5, enable);
    }

    /// Bit 7: even parity.
    pub fn get_parity(&self) -> (r: bool)
        ensures
            r == bit_set(self.value(), 7),
    {
        get_bit(self.value, 7)
    }

    /// Writes bit 7.
    pub fn set_parity(&mut self, enable: bool)
        ensures
            final(self).value() == with_bit(old(self).value(), 7, enable),
    {
        self.value = put_bit(self.value, 7, enable);
    }

    /// A status holding `byte`.
    pub fn from_byte(byte: u8) -> (s: Self)
        ensures
            s.value() == byte,
    {
        SystemStatus { value: byte }
    }

    /// Flag-by-flag description.
    pub fn describe(&self) -> (d: SystemStatusDescription)
        ensures
            d.obj@ == "SystemStatus"@,
            !d.prog && !d.dm,
            d.llm@ == (if bit_set(self.value(), 1) {
                "disabled"@
            } else {
                "enabled"@
            }),
            d.tle == bit_set(self.value(), 2),
            d.ale == bit_set(self.value(), 3),
            d.se == bit_set(self.value(), 4),
            d.ue == bit_set(self.value(), 5),
            d.parity@ == (if bit_set(self.value(), 7) {
                "even parity"@
            } else {
                "disabled"@
            }),
            d.value == self.value(),
    {
        let llm = if self.get_llm() {
            "disabled"
        } else {
            "enabled"
        };
        let parity = if self.get_parity() {
            "even parity"
        } else {
            "disabled"
        };
        SystemStatusDescription {
            obj: "SystemStatus",
            prog: self.get_prog(),
            llm,
            tle: self.get_tle(),
            ale: self.get_ale(),
            se: self.get_se(),
            ue: self.get_ue(),
            dm: self.get_dm(),
            parity,
            value: self.value,
        }
    }
}

/// The flags a system status is built from are read back by its getters.
pub proof fn lemma_system_status_flags(v: SystemStatusValues)
    ensures
        bit_set(system_status_byte(v), 1) == v.llm,
        bit_set(system_status_byte(v), 2) == v.tle,
        bit_set(system_status_byte(v), 3) == v.ale,
        bit_set(system_status_byte(v), 4) == v.se,
        bit_set(system_status_byte(v), 5) == v.ue,
        bit_set(system_status_byte(v), 7) == v.parity,
{
    let b = system_status_byte(v);
    let (a1, a2, a3, a4, a5, a7) = (
        flag(v.llm, 2),
        flag(v.tle, 4),
        flag(v.ale, 8),
        flag(v.se, 16),
        flag(v.ue, 32),
        flag(v.parity, 128),
    );
    assert(b == (a1 + a2 + a3 + a4 + a5 + a7) as u8);
    lemma_six_flags(a1, a2, a3, a4, a5, a7, b);
}

proof fn lemma_six_flags(a1: u8, a2: u8, a3: u8, a4: u8, a5: u8, a7: u8, b: u8)
    by (bit_vector)
    requires
        a1 == 0 || a1 == 2,
        a2 == 0 || a2 == 4,
        a3 == 0 || a3 == 8,
        a4 == 0 || a4 == 16,
        a5 == 0 || a5 == 32,
        a7 == 0 || a7 == 128,
        b == (a1 + a2 + a3 + a4 + a5 + a7) as u8,
    ensures
        ((b >> 1u8) & 1 == 1) == (a1 == 2),
        ((b >> 2u8) & 1 == 1) == (a2 == 4),
        ((b >> 3u8) & 1 == 1) == (a3 == 8),
        ((b >> 4u8) & 1 == 1) == (a4 == 16),
        ((b >> 5u8) & 1 == 1) == (a5 == 32),
        ((b >> 7u8) & 1 == 1) == (a7 == 128),
{
}

/// Flags of a busmonitor status octet.
#[derive(Debug, Clone, Copy, Default, PartialEq, Eq)]
pub struct StatusValues {
    pub frame_error: bool,
    pub bit_error: bool,
    pub parity_error: bool,
    pub overflow: bool,
    pub lost: bool,
    pub sequence_number: u8,
}

/// Busmonitor status octet: bit 7 frame error, 6 bit error, 5 parity
/// error, 4 overflow, 3 lost, bits 2..0 sequence number.
#[derive(Debug, Clone, Copy, PartialEq, Eq)]
pub struct Status {
    value: u8,
}

/// Description of a busmonitor status octet.
#[derive(Debug, Clone)]
pub struct StatusDescription {
    pub obj: &'static str,
    pub frame_error: bool,
    pub bit_error: bool,
    pub parity_error: bool,
    pub overflow: bool,
    pub lost: bool,
    pub sequence_number: u8,
    pub value: u8,
}

/// The octet that the flags of `v` give (sequence number below 8).
pub open spec fn status_byte(v: StatusValues) -> u8 {
    (flag(v.frame_error, 128) + flag(v.bit_error, 64) + flag(v.parity_error, 32) + flag(
        v.overflow,
        16,
    ) + flag(v.lost, 8) + v.sequence_number) as u8
}

impl Status {
    /// The octet.
    pub closed spec fn value(&self) -> u8 {
        self.value
    }

    /// A status from its flags; the sequence number must be below 8.
    pub fn new(values: StatusValues) -> (r: Result<Self, KnxError>)
        ensures
            values.sequence_number > 7 ==> r == Err::<Self, KnxError>(
                KnxError::InvalidParametersForDpt,
            ),
            values.sequence_number <= 7 ==> (r matches Ok(s) && s.value() == status_byte(values)),
    {
        if values.sequence_number > 7 {
            return Err(KnxError::InvalidParametersForDpt);
        }
        let v: u8 = flag_exec(values.frame_error, 128) + flag_exec(values.bit_error, 64)
            + flag_exec(values.parity_error, 32) + flag_exec(values.overflow, 16) + flag_exec(
            values.lost,
            8,
        ) + values.sequence_number;
        Ok(Status { value: v })
    }

    /// The octet.
    pub fn get_value(&self) -> (r: u8)
        ensures
            r == self.value(),
    {
        self.value
    }

    /// Replaces the octet.
    pub fn set_value(&mut self, new_value: u8)
        ensures
            final(self).value() == new_value,
    {
        self.value = new_value;
    }

    /// Bit 7: frame error.
    pub fn get_frame_error(&self) -> (r: bool)
        ensures
            r == bit_set(self.value(), 7),
    {
        get_bit(self.value, 7)
    }

    /// Writes bit 7.
    pub fn set_frame_error(&mut self, val: bool)
        ensures
            final(self).value() == with_bit(old(self).value(), 7, val),
    {
        self.value = put_bit(self.value, 7, val);
    }

    /// Bit 6: bit error.
    pub fn get_bit_error(&self) -> (r: bool)
        ensures
            r == bit_set(self.value(), 6),
    {
        get_bit(self.value, 6)
    }

    /// Writes bit 6.
    pub fn set_bit_error(&mut self, val: bool)
        ensures
            final(self).value() == with_bit(old(self).value(), 6, val),
    {
        self.value = put_bit(self.value, 6, val);
    }

    /// Bit 5: parity error.
    pub fn get_parity_error(&self) -> (r: bool)
        ensures
            r == bit_set(self.value(), 5),
    {
        get_bit(self.value, 5)
    }

    /// Writes bit 5.
    pub fn set_parity_error(&mut self, val: bool)
        ensures
            final(self).value() == with_bit(old(self).value(), 5, val),
    {
        self.value = put_bit(self.value, 5, val);
    }

    /// Bit 4: overflow.
    pub fn get_overflow(&self) -> (r: bool)
        ensures
            r == bit_set(self.value(), 4),
    {
        get_bit(self.value, 4)
    }

    /// Writes bit 4.
    pub fn set_overflow(&mut self, val: bool)
        ensures
            final(self).value() == with_bit(old(self).value(), 4, val),
    {
        self.value = put_bit(self.value, 4, val);
    }

    /// Bit 3: a frame was lost.
    pub fn get_lost(&self) -> (r: bool)
        ensures
            r == bit_set(self.value(), 3),
    {
        get_bit(self.value, 3)
    }

    /// Writes bit 3.
    pub fn set_lost(&mut self, val: bool)
        ensures
            final(self).value() == with_bit(old(self).value(), 3, val),
    {
        self.value = put_bit(self.value, 3, val);
    }

    /// Bits 2..0: the sequence number.
    pub fn get_sequence_number(&self) -> (r: u8)
        ensures
            r == self.value() & 0x07,
    {
        self.value & 0x07
    }

    /// Writes the low three bits of `val` into bits 2..0.
    pub fn set_sequence_number(&mut self, val: u8)
        ensures
            final(self).value() == (old(self).value() & 0xF8) | (val & 0x07),
    {
        self.value = (self.value & 0xF8) | (val & 0x07);
    }

    /// A status holding `byte`.
    pub fn from_byte(byte: u8) -> (s: Self)
        ensures
            s.value() == byte,
    {
        Status { value: byte }
    }

    /// Flag-by-flag description.
    pub fn describe(&self) -> (d: StatusDescription)
        ensures
            d.obj@ == "Status"@,
            d.frame_error == bit_set(self.value(), 7),
            d.bit_error == bit_set(self.value(), 6),
            d.parity_error == bit_set(self.value(), 5),
            d.overflow == bit_set(self.value(), 4),
            d.lost == bit_set(self.value(), 3),
            d.sequence_number == self.value() & 0x07,
            d.value == self.value(),
    {
        StatusDescription {
            obj: "Status",
            frame_error: self.get_frame_error(),
            bit_error: self.get_bit_error(),
            parity_error: self.get_parity_error(),
            overflow: self.get_overflow(),
            lost: self.get_lost(),
            sequence_number: self.get_sequence_number(),
            value: self.value,
        }
    }
}

/// The flags a busmonitor status is built from are read back by its
/// getters.
pub proof fn lemma_status_flags(v: StatusValues)
    requires
        v.sequence_number <= 7,
    ensures
        bit_set(status_byte(v), 7) == v.frame_error,
        bit_set(status_byte(v), 6) == v.bit_error,
        bit_set(status_byte(v), 5) == v.parity_error,
        bit_set(status_byte(v), 4) == v.overflow,
        bit_set(status_byte(v), 3) == v.lost,
        status_byte(v) & 0x07 == v.sequence_number,
{
    let (a7, a6, a5, a4, a3, s) = (
        flag(v.frame_error, 128),
        flag(v.bit_error, 64),
        flag(v.parity_error, 32),
        flag(v.overflow, 16),
        flag(v.lost, 8),
        v.sequence_number,
    );
    lemma_status_bits(a7, a6, a5, a4, a3, s, status_byte(v));
}

proof fn lemma_status_bits(a7: u8, a6: u8, a5: u8, a4: u8, a3: u8, s: u8, b: u8)
    by (bit_vector)
    requires
        a7 == 0 || a7 == 128,
        a6 == 0 || a6 == 64,
        a5 == 0 || a5 == 32,
        a4 == 0 || a4 == 16,
        a3 == 0 || a3 == 8,
        s <= 7,
        b == (a7 + a6 + a5 + a4 + a3 + s) as u8,
    ensures
        ((b >> 7u8) & 1 == 1) == (a7 == 128),
        ((b >> 6u8) & 1 == 1) == (a6 == 64),
        ((b >> 5u8) & 1 == 1) == (a5 == 32),
        ((b >> 4u8) & 1 == 1) == (a4 == 16),
        ((b >> 3u8) & 1 == 1) == (a3 == 8),
        b & 0x07 == s,
{
}

} // verus!
