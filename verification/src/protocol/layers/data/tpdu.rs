//! Transport layer protocol data unit: the TPCI with the APDU it carries.
use crate::errors::KnxError;
use crate::protocol::layers::data::apdu::{
    apdu_apci_value, apdu_data, apdu_first_octet, known_apci, lemma_apdu_round_trip, pdu_bytes, Apdu, ApduDescription,
};
use crate::protocol::layers::interfaces::apci::apci_pack;
use crate::protocol::layers::interfaces::tpci::{Tpci, TpciDescription};
use crate::utils::knx_helper::{data_length_spec, write_data_spec, KnxHelper};
use vstd::prelude::*;

verus! {

/// A TPDU.
#[derive(Debug, Clone, PartialEq, Eq)]
pub struct Tpdu {
    pub tpci: Tpci,
    pub apdu: Apdu,
    pub data: Vec<u8>,
}

/// Description of a TPDU.
#[derive(Debug, Clone)]
pub struct TpduDescription {
    pub obj: &'static str,
    pub layer: &'static str,
    pub tpci: TpciDescription,
    pub apdu: ApduDescription,
}

/// Whether `to_buffer` can lay out the unit: a control TPCI, or APDU data
/// (so that the APCI low octet has a place) that leaves room for the
/// unit's own data.
pub open spec fn tpdu_fits(t: Tpdu) -> bool {
    &&& t.apdu.data@.len() + 2 <= usize::MAX
    &&& (t.tpci.value() & 0x80 != 0 || (t.apdu.data@.len() > 0 && (t.data@.len() == 0
        || t.apdu.is_short || t.data@.len() <= t.apdu.data@.len())))
}

/// The octets of a TPDU: the first octet and the APCI low octet, sized by
/// the APDU data, then the unit's data written in.
pub open spec fn tpdu_bytes(t: Tpdu) -> Seq<u8> {
    let tv = t.tpci.value();
    let av = t.apdu.apci.value();
    if tv & 0x80 != 0 {
        seq![tv]
    } else {
        let len = data_length_spec(t.apdu.data@.len(), t.apdu.is_short);
        let base = seq![apdu_first_octet(tv, av), apci_pack(av).1] + Seq::new(
            (len - 1) as nat,
            |i: int| 0u8,
        );
        write_data_spec(base, t.data@, 1, t.apdu.is_short)
    }
}

/// Whether `t` is the TPDU read from the non-empty octets `b`.
pub open spec fn tpdu_parsed(b: Seq<u8>, t: Tpdu) -> bool {
    &&& t.tpci.value() == b[0]
    &&& t.apdu.tpci.value() == b[0]
    &&& t.apdu.apci.value() == apdu_apci_value(b)
    &&& t.apdu.data@ == apdu_data(b).0
    &&& t.apdu.is_short == apdu_data(b).1
    &&& t.data@ == apdu_data(b).0
}

/// Whether the octets `b` of a unit are written back as read: a control
/// unit of one octet, or a data unit of at least two octets that
/// `lemma_apdu_round_trip` covers.
pub open spec fn tpdu_round_trips(b: Seq<u8>) -> bool {
    ||| (b.len() == 1 && b[0] & 0x80 != 0)
    ||| (b.len() >= 2 && b[0] & 0x80 == 0 && !(b.len() == 2 && known_apci(((b[0] % 4) as int * 256 + b[1]) as u16)
        && b[1] & 0x3F != 0))
}

/// A unit read from octets that round-trip is laid out again as those
/// octets.
pub proof fn lemma_tpdu_round_trip(b: Seq<u8>, t: Tpdu)
    requires
        tpdu_round_trips(b),
        tpdu_parsed(b, t),
        b.len() <= usize::MAX,
    ensures
        tpdu_fits(t),
        tpdu_bytes(t) == b,
        data_length_spec(t.apdu.data@.len(), t.apdu.is_short) == b.len() - 1,
{
    if b.len() >= 2 {
        lemma_apdu_round_trip(b, t.apdu);
        let tv = t.tpci.value();
        let av = t.apdu.apci.value();
        let len = data_length_spec(t.apdu.data@.len(), t.apdu.is_short);
        let base = seq![apdu_first_octet(tv, av), apci_pack(av).1] + Seq::new((len - 1) as nat, |i: int| 0u8);
        if b.len() > 2 {
            assert(t.apdu.data@ == b.subrange(2, b.len() as int));
            assert(write_data_spec(base, t.data@, 1, false) =~= pdu_bytes(tv, av, t.apdu.data@, false));
        } else {
            assert(t.apdu.is_short);
            assert(base =~= seq![apdu_first_octet(tv, av), apci_pack(av).1]);
            assert(write_data_spec(base, t.data@, 1, true) =~= pdu_bytes(tv, av, t.apdu.data@, true));
        }
    }
}

/// Whether two TPDUs hold the same values.
pub open spec fn tpdu_same(a: Tpdu, b: Tpdu) -> bool {
    &&& a.tpci == b.tpci
    &&& a.apdu.tpci == b.apdu.tpci
    &&& a.apdu.apci == b.apdu.apci
    &&& a.apdu.data@ == b.apdu.data@
    &&& a.apdu.is_short == b.apdu.is_short
    &&& a.data@ == b.data@
}

/// A copy of a TPDU.
pub fn copy_tpdu(t: &Tpdu) -> (r: Tpdu)
    ensures
        tpdu_same(r, *t),
{
    Tpdu {
        tpci: t.tpci,
        apdu: Apdu {
            tpci: t.apdu.tpci,
            apci: t.apdu.apci,
            data: vstd::slice::slice_to_vec(t.apdu.data.as_slice()),
            is_short: t.apdu.is_short,
        },
        data: vstd::slice::slice_to_vec(t.data.as_slice()),
    }
}

impl Tpdu {
    /// A TPDU from its parts.
    pub fn new(tpci: Tpci, apdu: Apdu, data: Vec<u8>) -> (t: Self)
        ensures
            t.tpci == tpci,
            t.apdu == apdu,
            t.data@ == data@,
    {
        Tpdu { tpci, apdu, data }
    }

    /// Number of octets of the unit.
    pub fn get_length(&self) -> (n: usize)
        requires
            tpdu_fits(*self),
        ensures
            n == tpdu_bytes(*self).len(),
    {
        self.to_buffer().len()
    }

    /// The octets of the unit.
    pub fn to_buffer(&self) -> (b: Vec<u8>)
        requires
            tpdu_fits(*self),
        ensures
            b@ == tpdu_bytes(*self),
    {
        let mut t = Tpci::new(self.tpci.get_value());
        if t.get_data_control_flag() {
            let v = t.get_value();
            assert((v >> 7) & 1 == 1 ==> v & 0x80 != 0) by (bit_vector);
            return vec![v];
        }
        let ghost v0 = t.value();
        assert(!((v0 >> 7) & 1 == 1) ==> v0 & 0x80 == 0) by (bit_vector);
        let len = self.apdu.get_length();
        let total = 1 + len;
        let mut buffer: Vec<u8> = Vec::new();
        let mut i: usize = 0;
        while i < total
            invariant
                i <= total,
                buffer@.len() == i,
                forall|k: int| 0 <= k < i ==> buffer@[k] == 0,
            decreases total - i,
        {
            buffer.push(0);
            i = i + 1;
        }
        let (p0, p1) = self.apdu.apci.pack_number();
        let ghost av = self.apdu.apci.value();
        assert(p0 <= 3) by (bit_vector)
            requires
                p0 == ((av >> 8) & 0x03) as u8,
        ;
        let _ = t.set_first_2bits_of_apci(p0);
        buffer.set(1, p1);
        buffer.set(0, t.get_value());
        let ghost base = buffer@;
        assert(base =~= seq![apdu_first_octet(v0, av), apci_pack(av).1] + Seq::new(
            (len - 1) as nat,
            |i: int| 0u8,
        ));
        KnxHelper::write_data(&mut buffer, self.data.as_slice(), 1, self.apdu.is_short);
        buffer
    }

    /// Description of the unit.
    pub fn describe(&self) -> (d: TpduDescription)
        ensures
            d.obj@ == "TPDU"@,
            d.layer@ == "Transport Layer (TPDU)"@,
            d.apdu.data@ == self.apdu.data@,
    {
        TpduDescription {
            obj: "TPDU",
            layer: "Transport Layer (TPDU)",
            tpci: self.tpci.describe(),
            apdu: self.apdu.describe(),
        }
    }

    /// The TPDU held by `buffer` (not empty); its data is the APDU's data.
    pub fn from_buffer(buffer: &[u8]) -> (r: Result<Self, KnxError>)
        ensures
            buffer@.len() == 0 ==> r == Err::<Self, KnxError>(KnxError::InvalidParametersForDpt),
            buffer@.len() > 0 ==> (r matches Ok(t) && tpdu_parsed(buffer@, t)),
    {
        if buffer.len() == 0 {
            return Err(KnxError::InvalidParametersForDpt);
        }
        let tpci = Tpci::new(buffer[0]);
        let apdu = Apdu::from_buffer(buffer)?;
        let data = vstd::slice::slice_to_vec(apdu.data.as_slice());
        Ok(Tpdu { tpci, apdu, data })
    }
}

} // verus!
