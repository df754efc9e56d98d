//! KNX USB interfaces: the HID report and KNX USB transfer framing, the
//! EMI type negotiation and the handling of reports read from the device.
//! The HID device is opened, read and written by the caller.
use crate::errors::KnxError;
use crate::protocol::cemi::{cemi_bytes, cemi_fits, Cemi};
use crate::protocol::cemi_adapter::{cemi_convertible, emi_of_cemi, CemiAdapter};
use crate::protocol::emi::{emi_bytes, emi_fits, Emi};
use crate::utils::text::{contains_seq, lowercase, lowercase_chars, str_contains, string_of};
use vstd::prelude::*;

verus! {

/// Vendor identifiers of known KNX USB interfaces (Zennio, ABB/Busch-Jaeger,
/// MDT, Siemens, Weinzierl/Siemens, Weinzierl, MCS).
pub const KNX_USB_VENDOR_IDS: [u16; 7] = [0x28c2, 0x145c, 0x10a6, 0x135e, 0x0e77, 0x147b, 0x16d0];

/// Whether `vid` is one of `KNX_USB_VENDOR_IDS`.
pub open spec fn is_knx_vendor_spec(vid: u16) -> bool {
    vid == 0x28c2 || vid == 0x145c || vid == 0x10a6 || vid == 0x135e || vid == 0x0e77 || vid
        == 0x147b || vid == 0x16d0
}

/// States of a USB connection.
#[derive(Debug, Clone, Copy, PartialEq, Eq, Hash, Structural)]
pub enum KnxUsbState {
    Disconnected,
    Connecting,
    Connected,
    Faulted,
}

/// The EMI flavour a device speaks.
#[derive(Debug, Clone, Copy, PartialEq, Eq, Structural)]
pub enum EmiType {
    Emi1,
    Emi2,
    CEmi,
}

/// The identifier of an EMI type in transfers.
pub open spec fn emi_type_code(t: EmiType) -> u8 {
    match t {
        EmiType::Emi1 => 0x01,
        EmiType::Emi2 => 0x02,
        EmiType::CEmi => 0x03,
    }
}

impl EmiType {
    /// The type of an identifier; unknown identifiers mean cEMI.
    pub fn from_u8(v: u8) -> (t: Self)
        ensures
            t == (if v == 1 {
                EmiType::Emi1
            } else if v == 2 {
                EmiType::Emi2
            } else {
                EmiType::CEmi
            }),
    {
        match v {
            0x01 => EmiType::Emi1,
            0x02 => EmiType::Emi2,
            _ => EmiType::CEmi,
        }
    }

    /// The identifier of the type.
    pub fn code(&self) -> (c: u8)
        ensures
            c == emi_type_code(*self),
    {
        match self {
            EmiType::Emi1 => 0x01,
            EmiType::Emi2 => 0x02,
            EmiType::CEmi => 0x03,
        }
    }
}

/// Options of a USB connection: a device path, or vendor and product to
/// look for.
#[derive(Debug, Clone)]
pub struct KnxUsbOptions {
    pub path: Option<String>,
    pub vendor_id: Option<u16>,
    pub product_id: Option<u16>,
    pub individual_address: String,
}

/// Events of a USB connection.
#[derive(Debug, Clone)]
pub enum UsbEvent {
    Connected,
    Disconnected,
    Error(String),
    Indication(Cemi),
    RawIndication(Vec<u8>),
    Send(Vec<u8>),
    BusConnected,
    BusDisconnected,
    EmiDiscovery(u8),
    IndicationEmi(Cemi),
}

/// The state of a USB connection.
pub struct KnxUsbConnection {
    pub options: KnxUsbOptions,
    pub state: KnxUsbState,
    pub supported_emi_type: EmiType,
    pub bus_connected: bool,
}

/// A KNX USB transfer: the eight-octet header (version 0, header length 8,
/// body length, protocol, EMI identifier, manufacturer 0) and the body.
pub open spec fn usb_transfer(protocol_id: u8, emi_id: u8, data: Seq<u8>) -> Seq<u8> {
    seq![0u8, 8u8, ((data.len() / 256) % 256) as u8, (data.len() % 256) as u8, protocol_id, emi_id, 0u8, 0u8]
        + data
}

/// A 64-octet HID report carrying `data` in one packet (report 1, sequence
/// 1, single-packet type, body length), padded with zeros; empty when the
/// body exceeds 61 octets.
pub open spec fn hid_report(data: Seq<u8>) -> Seq<u8> {
    if data.len() > 61 {
        Seq::empty()
    } else {
        Seq::new(64, |i: int| if i == 0 { 1u8 } else if i == 1 { 0x13u8 } else if i == 2 { data.len() as u8 } else if i < 3 + data.len() { data[i - 3] } else { 0u8 })
    }
}

/// The transfer in a HID report, as (protocol, EMI identifier, payload):
/// report 1, a single packet, and a transfer header of eight octets whose
/// body fits in the packet.
pub open spec fn hid_data_spec(d: Seq<u8>) -> Option<(u8, u8, Seq<u8>)> {
    if d.len() < 3 || d[0] != 1 || d[1] % 16 != 3 || 3 + d[2] > d.len() {
        None
    } else {
        let body = d.subrange(3, 3 + d[2]);
        if body.len() < 8 {
            None
        } else {
            let pl = body[2] * 256 + body[3];
            if body[1] != 8 || body.len() < 8 + pl {
                None
            } else {
                Some((body[4], body[5], body.subrange(8, 8 + pl)))
            }
        }
    }
}

/// The EMI type a discovery bitmask offers: EMI2 before EMI1, else cEMI.
pub open spec fn emi_of_bitmask(b: u8) -> EmiType {
    if b & 0x02 != 0 {
        EmiType::Emi2
    } else if b & 0x01 != 0 {
        EmiType::Emi1
    } else {
        EmiType::CEmi
    }
}

/// The first twelve octets of the bus state report.
pub open spec fn bus_state_prefix() -> Seq<u8> {
    seq![0x01u8, 0x13, 0x0a, 0x00, 0x08, 0x00, 0x02, 0x0f, 0x04, 0x00, 0x00, 0x03]
}

/// What a report read from the device carries.
#[derive(Debug, Clone)]
pub enum UsbReport {
    /// The bus is (or is not) connected.
    BusState(bool),
    /// The answer to the EMI type discovery.
    Discovery(EmiType),
    /// A frame of the negotiated EMI type.
    Frame(Vec<u8>),
    /// Anything else.
    Ignored,
}

/// Whether `vid` is a known KNX vendor.
pub fn is_knx_vendor(vid: u16) -> (r: bool)
    ensures
        r == is_knx_vendor_spec(vid),
{
    let mut i: usize = 0;
    while i < 7
        invariant
            i <= 7,
            forall|j: int| 0 <= j < i ==> KNX_USB_VENDOR_IDS@[j] != vid,
            KNX_USB_VENDOR_IDS@ == seq![0x28c2u16, 0x145c, 0x10a6, 0x135e, 0x0e77, 0x147b, 0x16d0],
        decreases 7 - i,
    {
        if KNX_USB_VENDOR_IDS[i] == vid {
            return true;
        }
        i = i + 1;
    }
    false
}

/// Whether a lower-case product name contains "knx".
pub fn names_knx(lowered: &str) -> (r: bool)
    ensures
        r == contains_seq(lowered@, "knx"@),
{
    str_contains(lowered, "knx")
}

/// Whether a HID device is the interface to use: with a vendor and a
/// product given, exactly that device; otherwise a known KNX vendor or a
/// product name that contains "knx" in lower case.
pub fn device_matches(options: &KnxUsbOptions, vid: u16, pid: u16, product: Option<&str>) -> (r: bool)
    ensures
        (options.vendor_id matches Some(v) && options.product_id matches Some(p)) ==> r == (vid
            == options.vendor_id->0 && pid == options.product_id->0),
        !(options.vendor_id is Some && options.product_id is Some) ==> r == (is_knx_vendor_spec(vid)
            || (product matches Some(s) && contains_seq(lowercase_chars(s@), "knx"@))),
{
    match (options.vendor_id, options.product_id) {
        (Some(v), Some(p)) => {
            return vid == v && pid == p;
        },
        _ => {},
    }
    if is_knx_vendor(vid) {
        return true;
    }
    match product {
        Some(s) => {
            let l = lowercase(s);
            names_knx(l.as_str())
        },
        None => false,
    }
}

impl KnxUsbConnection {
    /// A connection that is not open yet, speaking cEMI until negotiated.
    pub fn new(options: KnxUsbOptions) -> (c: Self)
        ensures
            c.state == KnxUsbState::Disconnected,
            c.supported_emi_type == EmiType::CEmi,
            !c.bus_connected,
    {
        KnxUsbConnection { options, state: KnxUsbState::Disconnected, supported_emi_type: EmiType::CEmi, bus_connected: false }
    }

    /// A KNX USB transfer.
    pub fn build_usb_transfer(protocol_id: u8, emi_id: u8, data: &[u8]) -> (r: Vec<u8>)
        ensures
            r@ == usb_transfer(protocol_id, emi_id, data@),
    {
        let n = data.len();
        let mut r: Vec<u8> = vec![0u8, 8u8, ((n / 256) % 256) as u8, (n % 256) as u8, protocol_id, emi_id, 0u8, 0u8];
        let mut i: usize = 0;
        while i < n
            invariant
                n == data@.len(),
                i <= n,
                r@ == seq![0u8, 8u8, ((n / 256) % 256) as u8, (n % 256) as u8, protocol_id, emi_id, 0u8, 0u8]
                    + data@.subrange(0, i as int),
            decreases n - i,
        {
            r.push(data[i]);
            assert(r@ =~= seq![0u8, 8u8, ((n / 256) % 256) as u8, (n % 256) as u8, protocol_id, emi_id, 0u8, 0u8]
                + data@.subrange(0, i + 1));
            i = i + 1;
        }
        assert(data@.subrange(0, n as int) =~= data@);
        r
    }

    /// A single-packet HID report; empty when the body does not fit.
    pub fn build_hid_report(data: &[u8]) -> (r: Vec<u8>)
        ensures
            r@ == hid_report(data@),
    {
        let n = data.len();
        if n > 61 {
            return Vec::new();
        }
        let mut r: Vec<u8> = Vec::new();
        let mut i: usize = 0;
        while i < 64
            invariant
                n == data@.len(),
                n <= 61,
                i <= 64,
                r@.len() == i,
                forall|j: int| 0 <= j < i ==> #[trigger] r@[j] == hid_report(data@)[j],
            decreases 64 - i,
        {
            let b: u8 = if i == 0 {
                1
            } else if i == 1 {
                0x13
            } else if i == 2 {
                n as u8
            } else if i < 3 + n {
                data[i - 3]
            } else {
                0
            };
            r.push(b);
            i = i + 1;
        }
        assert(r@ =~= hid_report(data@));
        r
    }

    /// The EMI type a discovery bitmask offers.
    pub fn parse_emi_bitmask(bitmask: u8) -> (t: EmiType)
        ensures
            t == emi_of_bitmask(bitmask),
    {
        if bitmask & 0x02 != 0 {
            EmiType::Emi2
        } else if bitmask & 0x01 != 0 {
            EmiType::Emi1
        } else {
            EmiType::CEmi
        }
    }

    /// The transfer in a HID report.
    pub fn parse_hid_data(data: &[u8]) -> (r: Option<(u8, u8, Vec<u8>)>)
        ensures
            match hid_data_spec(data@) {
                Some((p, e, pl)) => r matches Some((p2, e2, v)) && p2 == p && e2 == e && v@ == pl,
                None => r is None,
            },
    {
        let n = data.len();
        if n < 3 || data[0] != 0x01 {
            return None;
        }
        if data[1] % 16 != 3 {
            return None;
        }
        let bl = data[2] as usize;
        if 3 + bl > n {
            return None;
        }
        if bl < 8 {
            return None;
        }
        let hl = data[4] as usize;
        let pl = (data[5] as usize) * 256 + data[6] as usize;
        let protocol_id = data[7];
        let emi_id = data[8];
        if hl != 8 || bl < hl + pl {
            return None;
        }
        let mut payload: Vec<u8> = Vec::new();
        let mut i: usize = 0;
        while i < pl
            invariant
                n == data@.len(),
                11 + pl <= n,
                i <= pl,
                payload@ == data@.subrange(11, 11 + i),
            decreases pl - i,
        {
            payload.push(data[11 + i]);
            assert(payload@ =~= data@.subrange(11, 11 + i + 1));
            i = i + 1;
        }
        proof {
            let body = data@.subrange(3, 3 + bl);
            assert(body.subrange(8, 8 + pl) =~= data@.subrange(11, 11 + pl));
        }
        Some((protocol_id, emi_id, payload))
    }

    /// The first step of opening: `false` when already connected (nothing
    /// to do), else the connection is connecting.
    pub fn begin_connect(&mut self) -> (go: bool)
        ensures
            old(self).state == KnxUsbState::Connected ==> !go && final(self).state == old(self).state,
            old(self).state != KnxUsbState::Connected ==> go && final(self).state
                == KnxUsbState::Connecting,
    {
        if self.state == KnxUsbState::Connected {
            return false;
        }
        self.state = KnxUsbState::Connecting;
        true
    }

    /// The report that asks the device for its EMI types.
    pub fn discovery_query() -> (r: Vec<u8>)
        ensures
            r@ == hid_report(usb_transfer(0x0f, 0x01, seq![0x01u8])),
    {
        let body = vec![0x01u8];
        assert(body@ =~= seq![0x01u8]);
        let t = Self::build_usb_transfer(0x0f, 0x01, body.as_slice());
        Self::build_hid_report(t.as_slice())
    }

    /// Records the negotiated EMI type (cEMI when discovery gave none) and
    /// returns the reports to write: the activation of the type, then for
    /// cEMI the reset and the switch to the data link layer.
    pub fn apply_negotiated(&mut self, discovered: Option<EmiType>) -> (r: Vec<Vec<u8>>)
        ensures
            final(self).supported_emi_type == (match discovered {
                Some(t) => t,
                None => EmiType::CEmi,
            }),
            r@.len() >= 1,
            r@[0]@ == hid_report(usb_transfer(0x0f, 0x03, seq![0x05u8, emi_type_code(final(self).supported_emi_type)])),
            final(self).supported_emi_type == EmiType::CEmi ==> r@.len() == 3 && r@[1]@ == hid_report(
                usb_transfer(0x01, 0x03, seq![0xf1u8]),
            ) && r@[2]@ == hid_report(usb_transfer(0x01, 0x03, seq![0xf6u8, 0x00, 0x08, 0x01, 0x34, 0x10, 0x01, 0x00])),
            final(self).supported_emi_type != EmiType::CEmi ==> r@.len() == 1,
            final(self).state == old(self).state,
    {
        let t = match discovered {
            Some(t) => t,
            None => EmiType::CEmi,
        };
        self.supported_emi_type = t;
        let mut out: Vec<Vec<u8>> = Vec::new();
        let act = vec![0x05u8, t.code()];
        assert(act@ =~= seq![0x05u8, emi_type_code(t)]);
        let tr = Self::build_usb_transfer(0x0f, 0x03, act.as_slice());
        out.push(Self::build_hid_report(tr.as_slice()));
        if t == EmiType::CEmi {
            let reset = vec![0xf1u8];
            assert(reset@ =~= seq![0xf1u8]);
            let tr2 = Self::build_usb_transfer(0x01, 0x03, reset.as_slice());
            out.push(Self::build_hid_report(tr2.as_slice()));
            let comm = vec![0xf6u8, 0x00, 0x08, 0x01, 0x34, 0x10, 0x01, 0x00];
            assert(comm@ =~= seq![0xf6u8, 0x00, 0x08, 0x01, 0x34, 0x10, 0x01, 0x00]);
            let tr3 = Self::build_usb_transfer(0x01, 0x03, comm.as_slice());
            out.push(Self::build_hid_report(tr3.as_slice()));
        }
        out
    }

    /// The end of opening: the connection is connected.
    pub fn finish_connect(&mut self) -> (e: UsbEvent)
        ensures
            final(self).state == KnxUsbState::Connected,
            e is Connected,
    {
        self.state = KnxUsbState::Connected;
        UsbEvent::Connected
    }

    /// What a report read from the device carries: the bus state report,
    /// the discovery answer, or a frame of the negotiated type.
    pub fn classify_report(&self, data: &[u8]) -> (r: UsbReport)
        ensures
            (data@.len() >= 13 && data@.subrange(0, 12) == bus_state_prefix()) ==> (r matches UsbReport::BusState(c) && c == (data@[12] % 2 == 1)),
            !(data@.len() >= 13 && data@.subrange(0, 12) == bus_state_prefix()) ==> match hid_data_spec(data@) {
                Some((p, e, pl)) => if p == 0x0f && e == 0x02 && pl.len() >= 3 && pl[0] == 1 {
                    r matches UsbReport::Discovery(t) && t == emi_of_bitmask(pl[2])
                } else if p == 0x01 && e == emi_type_code(self.supported_emi_type) && pl.len() > 0 {
                    r matches UsbReport::Frame(f) && f@ == pl
                } else {
                    r is Ignored
                },
                None => r is Ignored,
            },
    {
        let n = data.len();
        if n >= 13 {
            let mut same = true;
            let prefix: [u8; 12] = [0x01, 0x13, 0x0a, 0x00, 0x08, 0x00, 0x02, 0x0f, 0x04, 0x00, 0x00, 0x03];
            assert(prefix@ =~= bus_state_prefix());
            let mut i: usize = 0;
            while i < 12
                invariant
                    n == data@.len(),
                    n >= 13,
                    i <= 12,
                    prefix@ == bus_state_prefix(),
                    same == (forall|j: int| 0 <= j < i ==> data@[j] == prefix@[j]),
                decreases 12 - i,
            {
                if data[i] != prefix[i] {
                    same = false;
                }
                i = i + 1;
            }
            if same {
                assert(data@.subrange(0, 12) =~= bus_state_prefix());
                return UsbReport::BusState(data[12] % 2 == 1);
            }
            assert(data@.subrange(0, 12) != bus_state_prefix()) by {
                let j = choose|j: int| 0 <= j < 12 && data@[j] != prefix@[j];
                assert(data@.subrange(0, 12)[j] != bus_state_prefix()[j]);
            }
        }
        match Self::parse_hid_data(data) {
            Some((p, e, pl)) => {
                if p == 0x0f && e == 0x02 && pl.len() >= 3 && pl[0] == 1 {
                    UsbReport::Discovery(Self::parse_emi_bitmask(pl[2]))
                } else if p == 0x01 && e == self.supported_emi_type.code() && pl.len() > 0 {
                    UsbReport::Frame(pl)
                } else {
                    UsbReport::Ignored
                }
            },
            None => UsbReport::Ignored,
        }
    }

    /// A new bus state: the event to emit when it changed.
    pub fn set_bus_state(&mut self, connected: bool) -> (e: Option<UsbEvent>)
        ensures
            final(self).bus_connected == connected,
            connected == old(self).bus_connected ==> e is None,
            connected != old(self).bus_connected ==> (if connected {
                e matches Some(UsbEvent::BusConnected)
            } else {
                e matches Some(UsbEvent::BusDisconnected)
            }),
            final(self).state == old(self).state,
    {
        let old_state = self.bus_connected;
        self.bus_connected = connected;
        if old_state == connected {
            None
        } else if connected {
            Some(UsbEvent::BusConnected)
        } else {
            Some(UsbEvent::BusDisconnected)
        }
    }

    /// The HID report that sends a cEMI message: the frame itself on a cEMI
    /// device, its EMI form otherwise. Refused when not connected, when the
    /// frame has no EMI form, or when it does not fit in one report.
    pub fn send_report(&self, cemi: &Cemi) -> (r: Result<Vec<u8>, KnxError>)
        requires
            cemi_fits(*cemi),
            cemi_convertible(*cemi) || !(cemi is LDataReq || cemi is LDataCon || cemi is LDataInd),
        ensures
            self.state != KnxUsbState::Connected ==> r == Err::<Vec<u8>, KnxError>(KnxError::InvalidParametersForDpt),
            self.state == KnxUsbState::Connected && self.supported_emi_type == EmiType::CEmi ==> {
                let rep = hid_report(usb_transfer(0x01, 0x03, cemi_bytes(*cemi)));
                &&& rep.len() == 0 ==> r == Err::<Vec<u8>, KnxError>(KnxError::InvalidParametersForDpt)
                &&& rep.len() > 0 ==> (r matches Ok(v) && v@ == rep)
            },
            self.state == KnxUsbState::Connected && self.supported_emi_type != EmiType::CEmi ==> {
                &&& !cemi_convertible(*cemi) ==> r == Err::<Vec<u8>, KnxError>(KnxError::InvalidParametersForDpt)
                &&& cemi_convertible(*cemi) ==> (r is Err <==> exists|e: Emi| emi_of_cemi(*cemi, e)
                    && hid_report(usb_transfer(0x01, emi_type_code(self.supported_emi_type), emi_bytes(e))).len() == 0)
                &&& r matches Ok(v) ==> exists|e: Emi| emi_of_cemi(*cemi, e) && v@ == hid_report(
                    usb_transfer(0x01, emi_type_code(self.supported_emi_type), emi_bytes(e)),
                )
            },
    {
        if self.state != KnxUsbState::Connected {
            return Err(KnxError::InvalidParametersForDpt);
        }
        let frame = if self.supported_emi_type == EmiType::CEmi {
            cemi.to_buffer()
        } else {
            match CemiAdapter::cemi_to_emi(cemi) {
                Ok(e) => {
                    proof {
                        lemma_converted_emi_fits(*cemi, e);
                    }
                    e.to_buffer()
                },
                Err(_) => {
                    return Err(KnxError::InvalidParametersForDpt);
                },
            }
        };
        let t = Self::build_usb_transfer(0x01, self.supported_emi_type.code(), frame.as_slice());
        let rep = Self::build_hid_report(t.as_slice());
        if rep.len() == 0 {
            return Err(KnxError::InvalidParametersForDpt);
        }
        Ok(rep)
    }

    /// Closes the connection: `None` when it was closed already, else the
    /// event to emit; the bus counts as disconnected.
    pub fn disconnect(&mut self) -> (e: Option<UsbEvent>)
        ensures
            old(self).state == KnxUsbState::Disconnected ==> e is None && final(self).state == old(self).state
                && final(self).bus_connected == old(self).bus_connected,
            old(self).state != KnxUsbState::Disconnected ==> (e matches Some(UsbEvent::Disconnected))
                && final(self).state == KnxUsbState::Disconnected && !final(self).bus_connected,
    {
        if self.state == KnxUsbState::Disconnected {
            return None;
        }
        self.state = KnxUsbState::Disconnected;
        self.bus_connected = false;
        Some(UsbEvent::Disconnected)
    }

    /// The name of the state.
    pub fn connection_state(&self) -> (s: String)
        ensures
            s@ == usb_state_name(self.state),
    {
        match self.state {
            KnxUsbState::Disconnected => string_of("DISCONNECTED"),
            KnxUsbState::Connecting => string_of("CONNECTING"),
            KnxUsbState::Connected => string_of("CONNECTED"),
            KnxUsbState::Faulted => string_of("FAULTED"),
        }
    }

    /// Whether the device is connected.
    pub fn is_connected(&self) -> (r: bool)
        ensures
            r == (self.state == KnxUsbState::Connected),
    {
        self.state == KnxUsbState::Connected
    }

    /// The configured individual address.
    pub fn individual_address(&self) -> (s: String)
        ensures
            s@ == self.options.individual_address@,
    {
        string_of(self.options.individual_address.as_str())
    }
}

/// The name of a state.
pub open spec fn usb_state_name(s: KnxUsbState) -> Seq<char> {
    match s {
        KnxUsbState::Disconnected => "DISCONNECTED"@,
        KnxUsbState::Connecting => "CONNECTING"@,
        KnxUsbState::Connected => "CONNECTED"@,
        KnxUsbState::Faulted => "FAULTED"@,
    }
}

/// The EMI form of a convertible cEMI frame can be laid out.
pub proof fn lemma_converted_emi_fits(c: Cemi, e: Emi)
    requires
        cemi_convertible(c),
        emi_of_cemi(c, e),
    ensures
        emi_fits(e),
{
}

} // verus!
