//! Control field 1 of an `L_Data` frame (one octet).
//!
//! Bit 7 frame type, bit 5 repeat, bit 4 system broadcast, bits 3..2
//! priority, bit 1 acknowledge request, bit 0 confirm.
use crate::utils::text::{hex2, push_char, push_hex2};
use vstd::prelude::*;

verus! {

/// Transmission priority of a frame.
#[derive(Debug, Clone, Copy, PartialEq, Eq, Structural)]
pub enum Priority {
    System,
    Normal,
    Urgent,
    Low,
}

/// The priority coded by the two low bits of `v`.
pub open spec fn priority_spec(v: u8) -> Priority {
    if v % 4 == 0 {
        Priority::System
    } else if v % 4 == 1 {
        Priority::Normal
    } else if v % 4 == 2 {
        Priority::Urgent
    } else {
        Priority::Low
    }
}

/// The two-bit code of a priority.
pub open spec fn priority_code(p: Priority) -> u8 {
    match p {
        Priority::System => 0,
        Priority::Normal => 1,
        Priority::Urgent => 2,
        Priority::Low => 3,
    }
}

impl Priority {
    /// The priority coded by the two low bits of `value`.
    pub fn from_u8(value: u8) -> (p: Priority)
        ensures
            p == priority_spec(value),
    {
        let v = value & 0x03;
        assert(v == value % 4) by (bit_vector)
            requires
                v == value & 0x03,
        ;
        match v {
            0 => Priority::System,
            1 => Priority::Normal,
            2 => Priority::Urgent,
            _ => Priority::Low,
        }
    }

    /// The two-bit code of this priority.
    pub fn code(&self) -> (c: u8)
        ensures
            c == priority_code(*self),
    {
        match self {
            Priority::System => 0,
            Priority::Normal => 1,
            Priority::Urgent => 2,
            Priority::Low => 3,
        }
    }
}

/// Frame format selected by bit 7.
#[derive(Debug, Clone, Copy, PartialEq, Eq, Structural)]
pub enum FrameType {
    Extended,
    Standard,
}

/// Control field 1.
#[derive(Debug, Clone, Copy, PartialEq, Eq)]
pub struct ControlField {
    buffer: [u8; 1],
}

/// Field-by-field description of a control field.
#[derive(Debug, Clone)]
pub struct ControlFieldDescription {
    pub obj: &'static str,
    pub hex: String,
    pub frame_type: &'static str,
    pub priority: &'static str,
    pub confirm: &'static str,
}

/// Name of a priority in descriptions.
pub open spec fn priority_name(p: Priority) -> Seq<char> {
    match p {
        Priority::System => "System"@,
        Priority::Normal => "Normal"@,
        Priority::Urgent => "Urgent"@,
        Priority::Low => "Low"@,
    }
}

/// Whether `d` describes control field `c` (see `ControlField::describe`).
pub open spec fn described_as(c: ControlField, d: ControlFieldDescription) -> bool {
    &&& d.obj@ == "ControlField"@
    &&& d.hex@ == seq!['0', 'x'] + hex2(c.value(), false)
    &&& d.frame_type@ == (if c.value() & 0x80 == 0x80 {
        "Data"@
    } else {
        "Extended"@
    })
    &&& d.priority@ == priority_name(priority_spec((c.value() >> 2) & 0x03))
    &&& d.confirm@ == (if c.value() & 0x01 == 0x01 {
        "Confirm"@
    } else {
        "NoConfirm"@
    })
}

impl ControlField {
    /// The octet of the field.
    pub closed spec fn value(&self) -> u8 {
        self.buffer[0]
    }

    /// A control field holding `initial_value`.
    pub fn new(initial_value: u8) -> (c: Self)
        ensures
            c.value() == initial_value,
    {
        ControlField { buffer: [initial_value] }
    }

    /// Bit 7: standard frame when set, extended otherwise.
    pub fn get_frame_type(&self) -> (t: FrameType)
        ensures
            t == (if self.value() & 0x80 == 0x80 {
                FrameType::Standard
            } else {
                FrameType::Extended
            }),
    {
        if (self.buffer[0] & 0x80) == 0x80 {
            FrameType::Standard
        } else {
            FrameType::Extended
        }
    }

    /// Sets bit 7 for a standard frame, clears it for an extended one.
    pub fn set_frame_type(&mut self, is_standard: bool)
        ensures
            final(self).value() == (if is_standard {
                old(self).value() | 0x80
            } else {
                old(self).value() & 0x7F
            }),
    {
        if is_standard {
            self.buffer[0] = self.buffer[0] | 0x80;
        } else {
            self.buffer[0] = self.buffer[0] & 0x7F;
        }
    }

    /// Bit 5: set means "do not repeat".
    pub fn get_repeat(&self) -> (r: bool)
        ensures
            r == (self.value() & 0x20 == 0x20),
    {
        (self.buffer[0] & 0x20) == 0x20
    }

    /// Sets or clears bit 5.
    pub fn set_repeat(&mut self, do_not_repeat: bool)
        ensures
            final(self).value() == (if do_not_repeat {
                old(self).value() | 0x20
            } else {
                old(self).value() & 0xDF
            }),
    {
        if do_not_repeat {
            self.buffer[0] = self.buffer[0] | 0x20;
        } else {
            self.buffer[0] = self.buffer[0] & 0xDF;
        }
    }

    /// Bit 4: set means broadcast, clear means system broadcast.
    pub fn get_system_broadcast(&self) -> (r: bool)
        ensures
            r == (self.value() & 0x10 == 0x10),
    {
        (self.buffer[0] & 0x10) == 0x10
    }

    /// Sets or clears bit 4.
    pub fn set_system_broadcast(&mut self, is_broadcast: bool)
        ensures
            final(self).value() == (if is_broadcast {
                old(self).value() | 0x10
            } else {
                old(self).value() & 0xEF
            }),
    {
        if is_broadcast {
            self.buffer[0] = self.buffer[0] | 0x10;
        } else {
            self.buffer[0] = self.buffer[0] & 0xEF;
        }
    }

    /// Bits 3..2: the priority.
    pub fn get_priority(&self) -> (p: Priority)
        ensures
            p == priority_spec((self.value() >> 2) & 0x03),
    {
        Priority::from_u8((self.buffer[0] >> 2) & 0x03)
    }

    /// Writes the priority into bits 3..2, keeping the other bits.
    pub fn set_priority(&mut self, priority: Priority)
        ensures
            final(self).value() == (old(self).value() & 0xF3) | ((priority_code(priority) & 0x03)
                << 2),
    {
        let c = priority.code();
        self.buffer[0] = (self.buffer[0] & 0xF3) | ((c & 0x03) << 2);
    }

    /// Bit 1: acknowledge requested.
    pub fn get_ack_request(&self) -> (r: bool)
        ensures
            r == (self.value() & 0x02 == 0x02),
    {
        (self.buffer[0] & 0x02) == 0x02
    }

    /// Sets or clears bit 1.
    pub fn set_ack_request(&mut self, requested: bool)
        ensures
            final(self).value() == (if requested {
                old(self).value() | 0x02
            } else {
                old(self).value() & 0xFD
            }),
    {
        if requested {
            self.buffer[0] = self.buffer[0] | 0x02;
        } else {
            self.buffer[0] = self.buffer[0] & 0xFD;
        }
    }

    /// Bit 0: error in the confirmation.
    pub fn get_confirm(&self) -> (r: bool)
        ensures
            r == (self.value() & 0x01 == 0x01),
    {
        (self.buffer[0] & 0x01) == 0x01
    }

    /// Sets or clears bit 0.
    pub fn set_confirm(&mut self, has_error: bool)
        ensures
            final(self).value() == (if has_error {
                old(self).value() | 0x01
            } else {
                old(self).value() & 0xFE
            }),
    {
        if has_error {
            self.buffer[0] = self.buffer[0] | 0x01;
        } else {
            self.buffer[0] = self.buffer[0] & 0xFE;
        }
    }

    /// The one-octet encoding.
    pub fn get_buffer(&self) -> (b: &[u8])
        ensures
            b@ == seq![self.value()],
    {
        let b = self.buffer.as_slice();
        assert(b@ =~= seq![self.value()]);
        b
    }

    /// Description: the octet in lower-case hex, the frame type (`Data`
    /// for a standard frame, `Extended` otherwise), the priority and the
    /// confirmation (`NoConfirm`, or `Confirm` when the confirm bit is set).
    pub fn describe(&self) -> (d: ControlFieldDescription)
        ensures
            described_as(*self, d),
    {
        let frame_type = match self.get_frame_type() {
            FrameType::Standard => "Data",
            FrameType::Extended => "Extended",
        };
        let priority = match self.get_priority() {
            Priority::System => "System",
            Priority::Normal => "Normal",
            Priority::Urgent => "Urgent",
            Priority::Low => "Low",
        };
        let confirm = if self.get_confirm() {
            "Confirm"
        } else {
            "NoConfirm"
        };
        proof {
            reveal_strlit("ControlField");
            reveal_strlit("Data");
            reveal_strlit("Extended");
            reveal_strlit("System");
            reveal_strlit("Normal");
            reveal_strlit("Urgent");
            reveal_strlit("Low");
            reveal_strlit("Confirm");
            reveal_strlit("NoConfirm");
        }
        let mut hex = String::new();
        push_char(&mut hex, '0');
        push_char(&mut hex, 'x');
        push_hex2(&mut hex, self.buffer[0], false);
        assert(hex@ =~= seq!['0', 'x'] + hex2(self.value(), false));
        ControlFieldDescription { obj: "ControlField", hex, frame_type, priority, confirm }
    }
}

/// Facts on single bits of an octet.
proof fn lemma_control_bits()
    by (bit_vector)
    ensures
        forall|v: u8, m: u8|
            (m == 0x80 || m == 0x20 || m == 0x10 || m == 0x02 || m == 0x01) ==> #[trigger] ((v
                | m) & m) == m,
        forall|v: u8| #[trigger] ((v & 0x7F) & 0x80) == 0,
        forall|v: u8| #[trigger] ((v & 0xDF) & 0x20) == 0,
        forall|v: u8| #[trigger] ((v & 0xEF) & 0x10) == 0,
        forall|v: u8| #[trigger] ((v & 0xFD) & 0x02) == 0,
        forall|v: u8| #[trigger] ((v & 0xFE) & 0x01) == 0,
        forall|v: u8, c: u8|
            c < 4 ==> #[trigger] ((((v & 0xF3) | ((c & 0x03) << 2)) >> 2) & 0x03) == c,
{
}

/// Each setter of a control field is read back by its getter: a frame
/// type, repeat flag, broadcast flag, priority, acknowledge flag or
/// confirm flag written into an octet is the one read from it.
pub proof fn lemma_control_field_set_get(v: u8, b: bool, p: Priority)
    ensures
        ((if b {
            v | 0x80
        } else {
            v & 0x7F
        }) & 0x80 == 0x80) == b,
        ((if b {
            v | 0x20
        } else {
            v & 0xDF
        }) & 0x20 == 0x20) == b,
        ((if b {
            v | 0x10
        } else {
            v & 0xEF
        }) & 0x10 == 0x10) == b,
        ((if b {
            v | 0x02
        } else {
            v & 0xFD
        }) & 0x02 == 0x02) == b,
        ((if b {
            v | 0x01
        } else {
            v & 0xFE
        }) & 0x01 == 0x01) == b,
        priority_spec(((((v & 0xF3) | ((priority_code(p) & 0x03) << 2)) >> 2) & 0x03)) == p,
{
    lemma_control_bits();
    assert(((v | 0x80) & 0x80) == 0x80);
    assert(((v & 0x7F) & 0x80) == 0);
    assert(((v | 0x20) & 0x20) == 0x20);
    assert(((v & 0xDF) & 0x20) == 0);
    assert(((v | 0x10) & 0x10) == 0x10);
    assert(((v & 0xEF) & 0x10) == 0);
    assert(((v | 0x02) & 0x02) == 0x02);
    assert(((v & 0xFD) & 0x02) == 0);
    assert(((v | 0x01) & 0x01) == 0x01);
    assert(((v & 0xFE) & 0x01) == 0);
    let c = priority_code(p);
    assert(((((v & 0xF3) | ((c & 0x03) << 2)) >> 2) & 0x03) == c);
}

} // verus!
