//! Device descriptor type 0 (mask version): medium, firmware type and
//! firmware version of a device.
use vstd::prelude::*;

verus! {

/// A 16-bit device descriptor of type 0.
#[derive(Debug, Clone, Copy, PartialEq, Eq)]
pub struct DeviceDescriptorType0 {
    value: u16,
}

/// Mask versions of known device families.
impl DeviceDescriptorType0 {
    pub const TP1_BCU_1_SYSTEM_1_V0: u16 = 0x0010;
    pub const TP1_BCU_1_SYSTEM_1_V1: u16 = 0x0011;
    pub const TP1_BCU_1_SYSTEM_1_V2: u16 = 0x0012;
    pub const TP1_BCU_1_SYSTEM_1_V3: u16 = 0x0013;
    pub const TP1_BCU_2_SYSTEM_2_V0: u16 = 0x0020;
    pub const TP1_BCU_2_SYSTEM_2_V1: u16 = 0x0021;
    pub const TP1_BCU_2_SYSTEM_2_V5: u16 = 0x0025;
    pub const TP1_SYSTEM_300: u16 = 0x0300;
    pub const TP1_USB_INTERFACE_V1: u16 = 0x0310;
    pub const TP1_USB_INTERFACE_V2: u16 = 0x0311;
    pub const TP1_BIM_M112_V0: u16 = 0x0700;
    pub const TP1_BIM_M112_V1: u16 = 0x0701;
    pub const TP1_BIM_M112_V5: u16 = 0x0705;
    pub const TP1_SYSTEM_B: u16 = 0x07B0;
    pub const TP1_IR_DECODER_V0: u16 = 0x0810;
    pub const TP1_IR_DECODER_V1: u16 = 0x0811;
    pub const TP1_COUPLER_1_0: u16 = 0x0910;
    pub const TP1_COUPLER_1_1: u16 = 0x0911;
    pub const TP1_COUPLER_1_2: u16 = 0x0912;
    pub const KNXNET_IP_ROUTER: u16 = 0x091A;
    pub const TP1_NONE_FD: u16 = 0x0AFD;
    pub const TP1_NONE_FE: u16 = 0x0AFE;
    pub const PL110_BCU_1_V2: u16 = 0x1012;
    pub const PL110_BCU_1_V3: u16 = 0x1013;
    pub const PL110_USB_INTERFACE_V1: u16 = 0x1310;
    pub const PL110_USB_INTERFACE_V2: u16 = 0x1311;
    pub const PL110_SYSTEM_B: u16 = 0x17B0;
    pub const TP1_PL110_MEDIA_COUPLER: u16 = 0x1900;
    pub const RF_BI_DIRECTIONAL_DEVICES: u16 = 0x2010;
    pub const RF_UNI_DIRECTIONAL_DEVICES: u16 = 0x2110;
    pub const RF_USB_INTERFACE_V2: u16 = 0x2311;
    pub const TP0_BCU_1_V2: u16 = 0x3012;
    pub const PL132_BCU_1_V2: u16 = 0x4012;
    pub const KNX_IP_SYSTEM_7: u16 = 0x5705;
    pub const KNX_IP_SYSTEM_B: u16 = 0x57B0;
}

impl DeviceDescriptorType0 {
    /// The 16-bit descriptor.
    pub closed spec fn spec_value(&self) -> u16 {
        self.value
    }

    /// A descriptor holding `value`.
    pub fn new(value: u16) -> (d: Self)
        ensures
            d.spec_value() == value,
    {
        DeviceDescriptorType0 { value }
    }

    /// The 16-bit descriptor.
    pub fn value(&self) -> (v: u16)
        ensures
            v == self.spec_value(),
    {
        self.value
    }

    /// The high octet: medium and firmware type.
    pub fn mask_type(&self) -> (r: u8)
        ensures
            r == self.spec_value() / 256,
    {
        (self.value / 256) as u8
    }

    /// Bits 15..12: the medium.
    pub fn medium_type(&self) -> (r: u8)
        ensures
            r == self.spec_value() / 4096,
    {
        (self.value / 4096) as u8
    }

    /// Bits 11..8: the firmware type.
    pub fn firmware_type(&self) -> (r: u8)
        ensures
            r == (self.spec_value() / 256) % 16,
    {
        ((self.value / 256) % 16) as u8
    }

    /// The low octet: the firmware version.
    pub fn firmware_version(&self) -> (r: u8)
        ensures
            r == self.spec_value() % 256,
    {
        (self.value % 256) as u8
    }

    /// Bits 7..4: the version.
    pub fn version(&self) -> (r: u8)
        ensures
            r == (self.spec_value() / 16) % 16,
    {
        ((self.value / 16) % 16) as u8
    }

    /// Bits 3..0: the subcode.
    pub fn subcode(&self) -> (r: u8)
        ensures
            r == self.spec_value() % 16,
    {
        (self.value % 16) as u8
    }
}

/// The parts of a descriptor make it up again: medium, firmware type,
/// version and subcode are its four nibbles, high first.
pub proof fn lemma_descriptor_nibbles(v: u16)
    ensures
        v == (v / 4096) * 4096 + ((v / 256) % 16) * 256 + ((v / 16) % 16) * 16 + v % 16,
        v / 256 == (v / 4096) * 16 + (v / 256) % 16,
{
}

} // verus!
