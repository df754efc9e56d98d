//! Application layer protocol data unit: TPCI and APCI octets followed by
//! the data, which for short data sits in the low six bits of the APCI.
use crate::errors::KnxError;
use crate::protocol::layers::interfaces::apci::{
    apci_code, apci_pack, Apci, ApciDescription, ApciEnum,
};
use crate::protocol::layers::interfaces::tpci::{Tpci, TpciDescription};
use crate::utils::knx_helper::{data_length_spec, KnxHelper};
use vstd::prelude::*;

verus! {

/// An APDU.
#[derive(Debug, Clone, PartialEq, Eq)]
pub struct Apdu {
    pub tpci: Tpci,
    pub apci: Apci,
    pub data: Vec<u8>,
    pub is_short: bool,
}

/// Description of an APDU.
#[derive(Debug, Clone)]
pub struct ApduDescription {
    pub obj: &'static str,
    pub layer: &'static str,
    pub tpci: TpciDescription,
    pub apci: ApciDescription,
    pub data: Vec<u8>,
}

/// The first octet: TPCI bits 7..2 and the top two APCI bits.
pub open spec fn apdu_first_octet(tpci: u8, apci: u16) -> u8 {
    (tpci & 0xFC) | (apci_pack(apci).0 & 0x03)
}

/// The octets of a unit with TPCI `tpci`, APCI `apci`, data `data` and
/// short-data flag `is_short`. A control TPCI is sent alone.
pub open spec fn pdu_bytes(tpci: u8, apci: u16, data: Seq<u8>, is_short: bool) -> Seq<u8> {
    if tpci & 0x80 != 0 {
        seq![tpci]
    } else if data.len() == 0 {
        seq![apdu_first_octet(tpci, apci)]
    } else if is_short {
        seq![apdu_first_octet(tpci, apci), ((apci_pack(apci).1 / 64) * 64 + data[0] % 64) as u8]
    } else {
        seq![apdu_first_octet(tpci, apci), apci_pack(apci).1] + data
    }
}

/// Whether some service has the ten-bit code `v`.
pub open spec fn known_apci(v: u16) -> bool {
    exists|e: ApciEnum| apci_code(e) == v
}

/// The APCI value read from `b`: the full ten bits when data follows or
/// they name a service, else the top four bits (short data).
pub open spec fn apdu_apci_value(b: Seq<u8>) -> u16 {
    let hi = (b[0] % 4) as int;
    let b1 = if b.len() > 1 {
        b[1]
    } else {
        0u8
    };
    let full = (hi * 256 + b1) as u16;
    let short = (hi * 256 + (b1 & 0xC0)) as u16;
    if b.len() > 2 || known_apci(full) {
        full
    } else {
        short
    }
}

/// The data and short flag read from `b`.
pub open spec fn apdu_data(b: Seq<u8>) -> (Seq<u8>, bool) {
    let hi = (b[0] % 4) as int;
    let b1 = if b.len() > 1 {
        b[1]
    } else {
        0u8
    };
    let full = (hi * 256 + b1) as u16;
    let short = (hi * 256 + (b1 & 0xC0)) as u16;
    if b.len() > 2 {
        (b.subrange(2, b.len() as int), false)
    } else if known_apci(full) && full != short {
        (Seq::empty(), false)
    } else if b.len() == 2 {
        (seq![b1 & 0x3F], true)
    } else {
        (Seq::empty(), false)
    }
}

/// Whether `a` is the APDU read from the non-empty octets `b`.
pub open spec fn apdu_parsed(b: Seq<u8>, a: Apdu) -> bool {
    &&& a.tpci.value() == b[0]
    &&& a.apci.value() == apdu_apci_value(b)
    &&& a.data@ == apdu_data(b).0
    &&& a.is_short == apdu_data(b).1
}

/// A data unit of at least two octets is written back as read, unless its
/// two octets name a service whose low six bits are not zero and no data
/// follows (such a unit is read without data and written as one octet).
pub proof fn lemma_apdu_round_trip(b: Seq<u8>, a: Apdu)
    requires
        b.len() >= 2,
        b[0] & 0x80 == 0,
        apdu_parsed(b, a),
        !(b.len() == 2 && known_apci(((b[0] % 4) as int * 256 + b[1]) as u16) && b[1] & 0x3F != 0),
    ensures
        pdu_bytes(a.tpci.value(), a.apci.value(), a.data@, a.is_short) == b,
{
    let b0 = b[0];
    let b1 = b[1];
    let hi: u16 = (b0 % 4) as u16;
    let full: u16 = (hi * 256 + b1) as u16;
    let short: u16 = (hi * 256 + (b1 & 0xC0)) as u16;
    assert(full & 0x03FF == full && ((full >> 8) & 0x03) as u8 == b0 % 4 && (full & 0xFF) as u8 == b1) by (bit_vector)
        requires
            full == hi * 256 + b1,
            hi == b0 % 4,
    ;
    assert(((short >> 8) & 0x03) as u8 == b0 % 4 && (short & 0xFF) as u8 == b1 & 0xC0) by (bit_vector)
        requires
            short == hi * 256 + (b1 & 0xC0),
            hi == b0 % 4,
    ;
    assert((b0 & 0xFC) | ((b0 % 4) & 0x03) == b0) by (bit_vector);
    assert(((b1 & 0xC0) / 64) * 64 + (b1 & 0x3F) % 64 == b1) by (bit_vector);
    assert((full == short) == (b1 & 0x3F == 0)) by (bit_vector)
        requires
            full == hi * 256 + b1,
            short == hi * 256 + (b1 & 0xC0),
            hi < 4,
    ;
    assert(apdu_first_octet(b0, full) == b0);
    assert(apdu_first_octet(b0, short) == b0);
    if b.len() > 2 {
        assert(seq![b0, b1] + b.subrange(2, b.len() as int) =~= b);
    } else {
        assert(seq![b0, b1] =~= b);
    }
}

impl Apdu {
    /// An APDU from its parts.
    pub fn new(tpci: Tpci, apci: Apci, data: Vec<u8>, is_short: bool) -> (a: Self)
        ensures
            a.tpci == tpci,
            a.apci == apci,
            a.data@ == data@,
            a.is_short == is_short,
    {
        Apdu { tpci, apci, data, is_short }
    }

    /// Number of octets after the first: none without data, one for
    /// short data, else the data and the APCI low octet.
    pub fn get_length(&self) -> (n: usize)
        requires
            self.data@.len() + 2 <= usize::MAX,
        ensures
            n == data_length_spec(self.data@.len(), self.is_short),
    {
        KnxHelper::get_data_length(self.data.as_slice(), self.is_short)
    }

    /// The octets of the unit.
    pub fn to_buffer(&self) -> (b: Vec<u8>)
        requires
            self.data@.len() + 2 <= usize::MAX,
        ensures
            b@ == pdu_bytes(self.tpci.value(), self.apci.value(), self.data@, self.is_short),
    {
        build_pdu(self.tpci, self.apci, self.data.as_slice(), self.data.as_slice(), self.is_short)
    }

    /// The APDU held by `buffer` (not empty); the TPCI keeps the APCI bits.
    pub fn from_buffer(buffer: &[u8]) -> (r: Result<Self, KnxError>)
        ensures
            buffer@.len() == 0 ==> r == Err::<Self, KnxError>(KnxError::InvalidParametersForDpt),
            buffer@.len() > 0 ==> (r matches Ok(a) && apdu_parsed(buffer@, a)),
    {
        if buffer.len() == 0 {
            return Err(KnxError::InvalidParametersForDpt);
        }
        let byte0 = buffer[0];
        let byte1: u8 = if buffer.len() > 1 {
            buffer[1]
        } else {
            0
        };
        let tpci = Tpci::new(byte0);
        let hi: u16 = (byte0 % 4) as u16;
        let full: u16 = hi * 256 + byte1 as u16;
        let short: u16 = hi * 256 + (byte1 & 0xC0) as u16;
        assert(full & 0x03FF == full && full < 1024) by (bit_vector)
            requires
                full == hi * 256 + byte1 as u16,
                hi < 4,
        ;
        assert(short & 0x03FF == short) by (bit_vector)
            requires
                short == hi * 256 + (byte1 & 0xC0) as u16,
                hi < 4,
        ;
        let has_full = ApciEnum::from_u16(full).is_some();
        assert(has_full == known_apci(full));
        let value = if buffer.len() > 2 || has_full {
            full
        } else {
            short
        };
        let apci = Apci::new(value);
        let (data, is_short) = if buffer.len() > 2 {
            (vstd::slice::slice_to_vec(vstd::slice::slice_subrange(buffer, 2, buffer.len())), false)
        } else if has_full && full != short {
            (Vec::new(), false)
        } else if buffer.len() == 2 {
            (vec![byte1 & 0x3F], true)
        } else {
            (Vec::new(), false)
        };
        assert(data@ =~= apdu_data(buffer@).0);
        Ok(Apdu { tpci, apci, data, is_short })
    }

    /// Description of the unit.
    pub fn describe(&self) -> (d: ApduDescription)
        ensures
            d.obj@ == "APDU"@,
            d.layer@ == "Application Layer (APDU)"@,
            d.tpci.tpci_type@ == crate::protocol::layers::interfaces::tpci::tpci_type_name(
                self.tpci.value(),
                false,
            ),
            d.apci.command@ == crate::protocol::layers::interfaces::apci::apci_command_text(
                self.apci.value(),
            ),
            d.data@ == self.data@,
    {
        ApduDescription {
            obj: "APDU",
            layer: "Application Layer (APDU)",
            tpci: self.tpci.describe(),
            apci: self.apci.describe(),
            data: vstd::slice::slice_to_vec(self.data.as_slice()),
        }
    }
}

/// Builds the octets of a unit whose length is taken from `len_data` and
/// whose data octets come from `data` (the two are the same for an APDU).
pub fn build_pdu(tpci: Tpci, apci: Apci, len_data: &[u8], data: &[u8], is_short: bool) -> (b: Vec<
    u8,
>)
    requires
        len_data@.len() + 2 <= usize::MAX,
        data@ == len_data@,
    ensures
        b@ == pdu_bytes(tpci.value(), apci.value(), data@, is_short),
{
    let mut t = Tpci::new(tpci.get_value());
    if t.get_data_control_flag() {
        let v = t.get_value();
        assert((v >> 7) & 1 == 1 ==> v & 0x80 != 0) by (bit_vector);
        return vec![v];
    }
    let ghost v0 = t.value();
    assert(!((v0 >> 7) & 1 == 1) ==> v0 & 0x80 == 0) by (bit_vector);
    let len = KnxHelper::get_data_length(len_data, is_short);
    let mut buffer: Vec<u8> = Vec::new();
    let total = 1 + len;
    let mut i: usize = 0;
    while i < total
        invariant
            i <= total,
            buffer@.len() == i,
            forall|k: int| 0 <= k < i ==> buffer@[k] == 0,
        decreases total - i,
    {
        buffer.push(0);
        i = i + 1;
    }
    let (p0, p1) = apci.pack_number();
    let ghost av = apci.value();
    assert(p0 <= 3) by (bit_vector)
        requires
            p0 == ((av >> 8) & 0x03) as u8,
    ;
    let _ = t.set_first_2bits_of_apci(p0);
    buffer.set(0, t.get_value());
    if buffer.len() > 1 {
        buffer.set(1, p1);
    }
    KnxHelper::write_data(&mut buffer, data, 1, is_short);
    proof {
        let e = pdu_bytes(tpci.value(), apci.value(), data@, is_short);
        if data@.len() == 0 {
            assert(buffer@ =~= e);
        } else if is_short {
            assert(buffer@ =~= e);
        } else {
            assert(buffer@ =~= e);
        }
    }
    buffer
}

} // verus!
