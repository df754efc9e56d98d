//! A KNXnet/IP server (gateway): discovery answers, the tunnelling and
//! device management connections of its clients, routing with paced
//! multicast and flow control. Every received datagram goes through
//! `KnxNetIpServer::handle_message`, which updates the server state and
//! returns what to send and emit; the socket, the timers and the event
//! channels belong to the caller.
use crate::connection::clock::instant_now;
use crate::connection::tunnel_connection::{
    ack_overdue, endpoint_text, sat_add, tunnel_frame, validation, RequestAction, TunnelConnection,
};
use crate::connection::tunneling::{build_frame, frame_of};
use crate::errors::KnxError;
use crate::protocol::cemi::{cemi_bytes, cemi_parse_ok, cemi_parsed, Cemi, LBusmon, MPropWithPayload};
use crate::protocol::device_descriptor_type::DeviceDescriptorType0;
use crate::protocol::knxnetip_enum::{
    AllowedSupportedServiceFamilies, ConnectionType, HostProtocolCode, KnxLayer, KnxMedium,
    KnxNetIpServiceType,
};
use crate::protocol::knxnetip_header::KnxNetIpHeader;
use crate::protocol::knxnetip_structures::{
    hpai_bytes, push_all, Crd, Cri, DeviceInformationDib, Dib, ExtendedDeviceInformationDib, Hpai,
    IpConfigDib, IpCurrentConfigDib, RoutingBusy, RoutingLostMessage, StatusTunnelingSlot,
    SupportedService, SupportedServicesDib, TunnelSlot, TunnellingInfoDib,
};
use crate::protocol::knxnetip_enum::{description_type_of, host_protocol_of, knx_medium_of, DescriptionType};
use crate::protocol::knxnetip_header::parse_header_spec;
use crate::protocol::knxnetip_structures::{dib_parse_ok, dib_parsed, dib_payload, parse_cri, until_nul, utf8_lossy_chars};
use crate::utils::bytes::be16;
use crate::utils::ip::{is_unspecified, parse_ipv4, parse_ipv4_spec};
use crate::utils::knx_helper::{address_from_string_spec, address_text, KnxHelper};
use crate::utils::text::{
    all_digits, chars_of, chars_to_string, contains_char, dec_str, push_char, split_chars, split_spec, string_of,
};
use std::time::Instant;
use vstd::prelude::*;

verus! {

/// Events of the server.
#[derive(Debug, Clone)]
pub enum ServerEvent {
    Connected,
    Disconnected,
    Error(String),
    Indication(Cemi),
    RawIndication(Vec<u8>),
    Send(Cemi),
    QueueOverflow,
    DisconnectedClient(u8),
    RoutingBusy(bool),
    RoutingReady,
    RoutingLostMessage(RoutingLostMessage),
    RoutingSystemBroadcast(Vec<u8>),
}

/// States of the server.
#[derive(Debug, Clone, Copy, PartialEq, Eq, Hash, Structural)]
pub enum KnxServerState {
    Stopped,
    Starting,
    Running,
    Faulted,
}

/// Events that move the server between states.
#[derive(Debug, Clone, Copy, PartialEq, Eq, Hash, Structural)]
pub enum KnxServerEvent {
    Start,
    Stop,
    Running,
    Error,
}

/// Options of the server.
#[derive(Debug, Clone)]
pub struct KnxNetIpServerOptions {
    pub ip: String,
    pub port: u16,
    pub local_ip: String,
    pub individual_address: String,
    pub friendly_name: String,
    pub mac_address: String,
    pub routing_delay: u16,
    pub client_addrs: Option<String>,
    pub serial_number: Option<Vec<u8>>,
    pub use_all_interfaces: bool,
    pub is_routing: bool,
    pub max_pending_requests_per_client: u32,
    pub ignore_acktimeout: bool,
}

/// A device found by discovery.
#[derive(Debug, Clone)]
pub struct KnxDiscoveredDevice {
    pub ip: [u8; 4],
    pub port: u16,
    pub knx_medium: KnxMedium,
    pub device_status: u8,
    pub individual_address: u16,
    pub project_installation_id: u16,
    pub serial_number: [u8; 6],
    pub routing_multicast_address: [u8; 4],
    pub mac_address: [u8; 6],
    pub friendly_name: String,
}

/// The multicast queue and its flow control.
pub struct MulticastPacing {
    pub msg_queue: Vec<Vec<u8>>,
    pub is_routing_busy: bool,
    pub last_sent_time: u64,
    pub busy_counter: u32,
    pub last_busy_time: u64,
}

/// What the server asks of the caller.
#[derive(Debug, Clone)]
pub enum ServerAction {
    /// Send a datagram to an address and port.
    SendTo(Vec<u8>, [u8; 4], u16),
    /// Send a datagram to an address given as `a.b.c.d:port`.
    SendToEndpoint(Vec<u8>, String),
    /// Send a datagram to the multicast group.
    SendMulticast(Vec<u8>),
    /// Emit an event.
    Emit(ServerEvent),
    /// A received cEMI frame, with its octets, for the subscribers.
    Indicate(Cemi, Vec<u8>),
    /// Wake the multicast sender.
    NotifyPacing,
    /// After this many milliseconds, call `routing_ready`.
    ScheduleRoutingReady(u64),
    /// After this many milliseconds, start calling `decay_busy_counter`
    /// every five milliseconds until it answers `false`.
    ScheduleBusyDecay(u64),
}

/// The server.
pub struct KnxNetIpServer {
    pub options: KnxNetIpServerOptions,
    pub state: KnxServerState,
    pub clients: Vec<TunnelConnection>,
    pub server_ia_int: u16,
    pub max_tunnel_connections: u8,
    pub client_addrs_start_int: u16,
    pub pacing: MulticastPacing,
    pub ignore_acktimeout: bool,
    pub origin: Instant,
}

// ------------------------------------------------------------------
// Small helpers
// ------------------------------------------------------------------

/// Whether `c` is a hexadecimal digit.
pub open spec fn is_hex_digit(c: char) -> bool {
    ('0' <= c && c <= '9') || ('a' <= c && c <= 'f') || ('A' <= c && c <= 'F')
}

/// The value of a hexadecimal digit.
pub open spec fn hex_value(c: char) -> int {
    if '0' <= c && c <= '9' {
        c as int - 48
    } else if 'a' <= c && c <= 'f' {
        c as int - 87
    } else {
        c as int - 55
    }
}

/// The value of a string of hexadecimal digits.
pub open spec fn hex_digits_value(s: Seq<char>) -> int
    decreases s.len(),
{
    if s.len() == 0 {
        0
    } else {
        hex_digits_value(s.drop_last()) * 16 + hex_value(s.last())
    }
}

/// What `u8::from_str_radix(s, 16)` returns: an optional `+`, then one or
/// more hexadecimal digits worth at most 255.
pub open spec fn parse_hex_u8_spec(s: Seq<char>) -> Option<int> {
    let d = sign_stripped(s);
    if d.len() > 0 && all_hex(d) && hex_digits_value(d) <= 255 {
        Some(hex_digits_value(d))
    } else {
        None
    }
}

/// `s` without a leading `+`.
pub open spec fn sign_stripped(s: Seq<char>) -> Seq<char> {
    if s.len() > 0 && s[0] == '+' {
        s.drop_first()
    } else {
        s
    }
}

/// Whether every character of `d` is a hexadecimal digit.
pub open spec fn all_hex(d: Seq<char>) -> bool {
    forall|i: int| 0 <= i < d.len() ==> is_hex_digit(#[trigger] d[i])
}

proof fn lemma_hex_value_nonneg(s: Seq<char>)
    requires
        forall|i: int| 0 <= i < s.len() ==> is_hex_digit(#[trigger] s[i]),
    ensures
        hex_digits_value(s) >= 0,
    decreases s.len(),
{
    if s.len() > 0 {
        assert forall|i: int| 0 <= i < s.drop_last().len() implies is_hex_digit(
            #[trigger] s.drop_last()[i],
        ) by {
            assert(s.drop_last()[i] == s[i]);
        }
        lemma_hex_value_nonneg(s.drop_last());
        assert(is_hex_digit(s[s.len() - 1]));
    }
}

/// `u8::from_str_radix(s, 16)`.
pub fn parse_hex_u8(s: &[char]) -> (r: Option<u8>)
    ensures
        match parse_hex_u8_spec(s@) {
            Some(v) => r matches Some(x) && x as int == v,
            None => r is None,
        },
{
    let start: usize = if s.len() > 0 && s[0] == '+' {
        1
    } else {
        0
    };
    let ghost d = sign_stripped(s@);
    assert(d =~= s@.subrange(start as int, s@.len() as int));
    if start >= s.len() {
        return None;
    }
    let mut acc: u32 = 0;
    let mut i: usize = start;
    while i < s.len()
        invariant
            start <= i <= s@.len(),
            start < s@.len(),
            d =~= s@.subrange(start as int, s@.len() as int),
            d == sign_stripped(s@),
            forall|j: int| start <= j < i ==> is_hex_digit(#[trigger] s@[j]),
            acc <= 255,
            acc == hex_digits_value(s@.subrange(start as int, i as int)),
        decreases s.len() - i,
    {
        let c = s[i];
        let ghost pre = s@.subrange(start as int, i as int);
        let ghost nxt = s@.subrange(start as int, i as int + 1);
        assert(nxt.drop_last() =~= pre);
        let v: u32 = if '0' <= c && c <= '9' {
            (c as u32) - 48
        } else if 'a' <= c && c <= 'f' {
            (c as u32) - 87
        } else if 'A' <= c && c <= 'F' {
            (c as u32) - 55
        } else {
            assert(d[i - start] == c);
            assert(!is_hex_digit(d[i - start]));
            assert(!all_hex(d));
            return None;
        };
        assert(nxt.last() == c);
        assert(v == hex_value(c));
        assert(is_hex_digit(c));
        let next = acc * 16 + v;
        assert(next == hex_digits_value(nxt));
        if next > 255 {
            proof {
                assert forall|j: int| 0 <= j < nxt.len() implies is_hex_digit(#[trigger] nxt[j]) by {
                    assert(nxt[j] == s@[start + j]);
                }
                assert(d.subrange(0, i - start + 1) =~= nxt);
                assert forall|j: int| 0 <= j < i - start + 1 implies is_hex_digit(#[trigger] d[j]) by {
                    assert(d[j] == nxt[j]);
                }
                lemma_hex_prefix_grows(d, (i - start + 1) as int);
                assert(!(all_hex(d) && hex_digits_value(d) <= 255));
            }
            return None;
        }
        acc = next;
        i = i + 1;
    }
    assert(s@.subrange(start as int, i as int) =~= d);
    assert(all_hex(d));
    Some(acc as u8)
}

proof fn lemma_hex_prefix_grows(d: Seq<char>, k: int)
    requires
        0 < k <= d.len(),
        forall|i: int| 0 <= i < k ==> is_hex_digit(#[trigger] d[i]),
        hex_digits_value(d.subrange(0, k)) > 255,
    ensures
        !(all_hex(d) && hex_digits_value(d) <= 255),
    decreases d.len() - k,
{
    if k < d.len() {
        if all_hex(d) {
            let p = d.subrange(0, k + 1);
            assert(p.drop_last() =~= d.subrange(0, k));
            assert(is_hex_digit(d[k]));
            assert forall|i: int| 0 <= i < k + 1 implies is_hex_digit(#[trigger] d[i]) by {}
            lemma_hex_prefix_grows(d, k + 1);
        }
    } else {
        assert(d.subrange(0, k) =~= d);
    }
}

/// The parts of a MAC address text, `-` read as `:`.
pub open spec fn mac_parts(s: Seq<char>) -> Seq<Seq<char>> {
    split_spec(Seq::new(s.len(), |i: int| if s[i] == '-' { ':' } else { s[i] }), ':')
}

/// The six octets a MAC address text spells.
pub open spec fn parse_mac_spec(s: Seq<char>) -> Option<Seq<u8>> {
    let p = mac_parts(s);
    if p.len() == 6 && (forall|i: int| 0 <= i < 6 ==> parse_hex_u8_spec(#[trigger] p[i]) is Some) {
        Some(Seq::new(6, |i: int| parse_hex_u8_spec(p[i])->0 as u8))
    } else {
        None
    }
}

/// Reads a MAC address `00:11:22:33:44:55` (or with `-`).
pub fn parse_mac(mac_str: &str) -> (r: Result<[u8; 6], KnxError>)
    ensures
        match parse_mac_spec(mac_str@) {
            Some(m) => r matches Ok(x) && x@ == m,
            None => r == Err::<[u8; 6], KnxError>(KnxError::InvalidParametersForDpt),
        },
{
    let cs = chars_of(mac_str);
    let mut cleaned: Vec<char> = Vec::new();
    let n = cs.len();
    let mut i: usize = 0;
    while i < n
        invariant
            n == cs@.len(),
            cs@ == mac_str@,
            i <= n,
            cleaned@ == Seq::new(i as nat, |k: int| if cs@[k] == '-' { ':' } else { cs@[k] }),
        decreases n - i,
    {
        let c = if cs[i] == '-' {
            ':'
        } else {
            cs[i]
        };
        cleaned.push(c);
        assert(cleaned@ =~= Seq::new((i + 1) as nat, |k: int| if cs@[k] == '-' { ':' } else { cs@[k] }));
        i = i + 1;
    }
    let parts = split_chars(cleaned.as_slice(), ':');
    assert(parts@.len() == mac_parts(mac_str@).len());
    if parts.len() != 6 {
        return Err(KnxError::InvalidParametersForDpt);
    }
    let mut mac: [u8; 6] = [0u8; 6];
    let mut k: usize = 0;
    while k < 6
        invariant
            parts@.len() == 6,
            forall|j: int| 0 <= j < 6 ==> #[trigger] parts@[j]@ == mac_parts(mac_str@)[j],
            k <= 6,
            forall|j: int| 0 <= j < k ==> parse_hex_u8_spec(#[trigger] mac_parts(mac_str@)[j]) is Some
                && mac@[j] as int == parse_hex_u8_spec(mac_parts(mac_str@)[j])->0,
        decreases 6 - k,
    {
        match parse_hex_u8(parts[k].as_slice()) {
            Some(v) => {
                mac[k] = v;
            },
            None => {
                assert(parse_hex_u8_spec(mac_parts(mac_str@)[k as int]) is None);
                return Err(KnxError::InvalidParametersForDpt);
            },
        }
        k = k + 1;
    }
    assert(mac@ =~= parse_mac_spec(mac_str@)->0);
    Ok(mac)
}

/// The inverted exclusive or of all octets.
pub open spec fn xor_seq(s: Seq<u8>) -> u8
    decreases s.len(),
{
    if s.len() == 0 {
        0
    } else {
        xor_seq(s.drop_last()) ^ s.last()
    }
}

/// Whether a cEMI message code is one of link-layer data or raw frames.
pub open spec fn is_busmon_convertible(code: u8) -> bool {
    code == 0x29 || code == 0x2d || code == 0x2e || code == 0x11 || code == 0x10
}

/// Whether a frame can be handed to `convert_data_ind_to_busmon_ind`: not
/// empty, and with its additional information length when it is a data
/// or raw frame.
pub open spec fn busmon_input_ok(b: Seq<u8>) -> bool {
    b.len() >= 1 && (is_busmon_convertible(b[0]) ==> b.len() >= 2)
}

/// The link-layer frame that a bus monitor would see for a cEMI data
/// frame: control field, source, destination, the second control field's
/// high nibble with the length, the TPDU and the check octet.
pub open spec fn busmon_lpdu(c: Seq<u8>) -> Seq<u8> {
    let base = 2 + c[1];
    let body = seq![c[base]] + c.subrange(base + 2, base + 4) + c.subrange(base + 4, base + 6)
        + seq![((c[base + 1] & 0xF0) | (((c[base + 6] + 1) % 256) as u8)) as u8] + c.subrange(base + 7, c.len() as int);
    body.push(!xor_seq(body))
}

/// Converts a cEMI data frame into a bus monitor indication; other frames,
/// and frames too short for their header, are passed unchanged.
pub fn convert_data_ind_to_busmon_ind(cemi_buffer: &[u8]) -> (r: Vec<u8>)
    requires
        busmon_input_ok(cemi_buffer@),
    ensures
        !is_busmon_convertible(cemi_buffer@[0]) ==> r@ == cemi_buffer@,
        is_busmon_convertible(cemi_buffer@[0]) && 2 + cemi_buffer@[1] + 7 > cemi_buffer@.len() ==> r@ == cemi_buffer@,
        is_busmon_convertible(cemi_buffer@[0]) && 2 + cemi_buffer@[1] + 7 <= cemi_buffer@.len() ==> r@
            == seq![0x2Bu8, 0u8] + busmon_lpdu(cemi_buffer@),
{
    let n = cemi_buffer.len();
    let code = cemi_buffer[0];
    if !(code == 0x29 || code == 0x2d || code == 0x2e || code == 0x11 || code == 0x10) {
        return copy_bytes(cemi_buffer);
    }
    let base = 2 + cemi_buffer[1] as usize;
    if base + 7 > n {
        return copy_bytes(cemi_buffer);
    }
    let mut lpdu: Vec<u8> = Vec::new();
    lpdu.push(cemi_buffer[base]);
    lpdu.push(cemi_buffer[base + 2]);
    lpdu.push(cemi_buffer[base + 3]);
    lpdu.push(cemi_buffer[base + 4]);
    lpdu.push(cemi_buffer[base + 5]);
    let dl = cemi_buffer[base + 6];
    let lenbits: u8 = if dl == 255 {
        0
    } else {
        dl + 1
    };
    lpdu.push((cemi_buffer[base + 1] & 0xF0) | lenbits);
    let mut i = base + 7;
    while i < n
        invariant
            n == cemi_buffer@.len(),
            base + 7 <= i <= n,
            lpdu@ == seq![cemi_buffer@[base as int]] + cemi_buffer@.subrange(base + 2, base + 4)
                + cemi_buffer@.subrange(base + 4, base + 6) + seq![((cemi_buffer@[base + 1] & 0xF0) | lenbits) as u8]
                + cemi_buffer@.subrange(base + 7, i as int),
        decreases n - i,
    {
        lpdu.push(cemi_buffer[i]);
        proof {
            assert(lpdu@ =~= seq![cemi_buffer@[base as int]] + cemi_buffer@.subrange(base + 2, base + 4)
                + cemi_buffer@.subrange(base + 4, base + 6) + seq![((cemi_buffer@[base + 1] & 0xF0) | lenbits) as u8]
                + cemi_buffer@.subrange(base + 7, i + 1));
        }
        i = i + 1;
    }
    let m = lpdu.len();
    let mut x: u8 = 0;
    let mut j: usize = 0;
    while j < m
        invariant
            m == lpdu@.len(),
            j <= m,
            x == xor_seq(lpdu@.subrange(0, j as int)),
        decreases m - j,
    {
        assert(lpdu@.subrange(0, j + 1).drop_last() =~= lpdu@.subrange(0, j as int));
        x = x ^ lpdu[j];
        j = j + 1;
    }
    assert(lpdu@.subrange(0, m as int) =~= lpdu@);
    let ghost body = lpdu@;
    lpdu.push(!x);
    assert((((dl as int) + 1) % 256) as u8 == lenbits);
    assert(body =~= seq![cemi_buffer@[base as int]] + cemi_buffer@.subrange(base + 2, base + 4)
        + cemi_buffer@.subrange(base + 4, base + 6) + seq![((cemi_buffer@[base + 1] & 0xF0) | (((cemi_buffer@[base + 6] + 1) % 256) as u8)) as u8]
        + cemi_buffer@.subrange(base + 7, n as int));
    let c = Cemi::LBusmonInd(LBusmon { additional_info: Vec::new(), data: lpdu });
    let out = c.to_buffer();
    assert(out@ =~= seq![0x2Bu8, 0u8] + busmon_lpdu(cemi_buffer@));
    out
}

fn copy_bytes(b: &[u8]) -> (r: Vec<u8>)
    ensures
        r@ == b@,
{
    let n = b.len();
    let mut r: Vec<u8> = Vec::new();
    let mut i: usize = 0;
    while i < n
        invariant
            n == b@.len(),
            i <= n,
            r@ == b@.subrange(0, i as int),
        decreases n - i,
    {
        r.push(b[i]);
        assert(r@ =~= b@.subrange(0, i + 1));
        i = i + 1;
    }
    assert(b@.subrange(0, n as int) =~= b@);
    r
}


// ------------------------------------------------------------------
// Options and identification
// ------------------------------------------------------------------

/// The serial number derived from a MAC address and the port: the MAC with
/// the port's high octet xored into its first octet and the low octet into
/// its second.
pub open spec fn serial_from_mac(mac: Seq<u8>, port: u16) -> Seq<u8> {
    mac.update(0, mac[0] ^ ((port / 256) as u8)).update(1, mac[1] ^ ((port % 256) as u8))
}

/// The individual address of an address text as a 16-bit number, or
/// `default` when the text is not an address.
pub open spec fn ia_number(t: Seq<char>, default: u16) -> u16 {
    match address_from_string_spec(t) {
        Some((hi, lo)) => (hi * 256 + lo) as u16,
        None => default,
    }
}

fn ia_number_exec(t: &str, default: u16) -> (r: u16)
    ensures
        r == ia_number(t@, default),
{
    match KnxHelper::get_address_from_string(t) {
        Ok(b) => (b[0] as u16) * 256 + b[1] as u16,
        Err(_) => default,
    }
}

/// The status word of a tunnelling slot: authorised, and usable or free.
pub open spec fn slot_status(present: bool) -> u16 {
    if present {
        0xFFFE
    } else {
        0xFFFB
    }
}

/// Whether some client holds channel `ch`.
pub open spec fn has_channel(cs: Seq<TunnelConnection>, ch: u8) -> bool {
    exists|i: int| 0 <= i < cs.len() && cs[i].channel_id == ch
}

/// The first channel from 1 to `max` that no client holds, 0 when all are
/// taken.
pub open spec fn first_free_channel(cs: Seq<TunnelConnection>, max: u8) -> u8 {
    if exists|c: u8| 1 <= c <= max && !has_channel(cs, c) {
        choose|c: u8| 1 <= c <= max && !has_channel(cs, c) && (forall|d: u8| 1 <= d < c ==> has_channel(cs, d))
    } else {
        0
    }
}

impl KnxNetIpServer {
    /// Options with their defaults: the routing multicast group
    /// 224.0.23.12, port 3671, the detected local address (else
    /// 127.0.0.1), a serial number made from the MAC address and the port
    /// (else zeros), and the friendly name "KNX.ts".
    pub fn options_with_defaults(options: KnxNetIpServerOptions, detected_local_ip: Option<[u8; 4]>) -> (o: KnxNetIpServerOptions)
        ensures
            o.ip@ == (if options.ip@.len() == 0 { "224.0.23.12"@ } else { options.ip@ }),
            o.port == (if options.port == 0 { 3671 } else { options.port }),
            o.local_ip@ == (if options.local_ip@.len() == 0 {
                match detected_local_ip {
                    Some(a) => crate::utils::ip::ipv4_text(a@),
                    None => "127.0.0.1"@,
                }
            } else {
                options.local_ip@
            }),
            o.friendly_name@ == (if options.friendly_name@.len() == 0 { "KNX.ts"@ } else { options.friendly_name@ }),
            o.serial_number matches Some(sn) && sn@ == (match options.serial_number {
                Some(v) => v@,
                None => match parse_mac_spec(options.mac_address@) {
                    Some(m) => serial_from_mac(m, o.port),
                    None => seq![0u8, 0u8, 0u8, 0u8, 0u8, 0u8],
                },
            }),
            o.individual_address@ == options.individual_address@,
            o.client_addrs == options.client_addrs,
            o.mac_address@ == options.mac_address@,
            o.routing_delay == options.routing_delay,
            o.is_routing == options.is_routing,
            o.max_pending_requests_per_client == options.max_pending_requests_per_client,
            o.ignore_acktimeout == options.ignore_acktimeout,
    {
        let mut o = options;
        if o.ip.as_str().unicode_len() == 0 {
            o.ip = string_of("224.0.23.12");
        }
        if o.port == 0 {
            o.port = 3671;
        }
        if o.local_ip.as_str().unicode_len() == 0 {
            o.local_ip = match detected_local_ip {
                Some(a) => crate::utils::ip::ipv4_string(&a),
                None => string_of("127.0.0.1"),
            };
        }
        if o.serial_number.is_none() {
            match parse_mac(o.mac_address.as_str()) {
                Ok(mac) => {
                    let mut serial: Vec<u8> = Vec::new();
                    let mut i: usize = 0;
                    while i < 6
                        invariant
                            i <= 6,
                            serial@ == mac@.subrange(0, i as int),
                        decreases 6 - i,
                    {
                        serial.push(mac[i]);
                        assert(serial@ =~= mac@.subrange(0, i + 1));
                        i = i + 1;
                    }
                    let p = o.port;
                    let b0 = serial[0] ^ ((p / 256) as u8);
                    serial.set(0, b0);
                    let b1 = serial[1] ^ ((p % 256) as u8);
                    serial.set(1, b1);
                    assert(serial@ =~= serial_from_mac(mac@, p));
                    o.serial_number = Some(serial);
                },
                Err(_) => {
                    let z = vec![0u8, 0u8, 0u8, 0u8, 0u8, 0u8];
                    assert(z@ =~= seq![0u8, 0u8, 0u8, 0u8, 0u8, 0u8]);
                    o.serial_number = Some(z);
                },
            }
        }
        if o.friendly_name.as_str().unicode_len() == 0 {
            o.friendly_name = string_of("KNX.ts");
        }
        o
    }

    /// A stopped server. The individual address of the server (0x0FFF when
    /// it is not an address) is followed by the client addresses, 15 of
    /// them, unless `client_addrs` says `start:count`.
    pub fn new(options: KnxNetIpServerOptions, detected_local_ip: Option<[u8; 4]>) -> (s: Self)
        requires
            ia_number(options.individual_address@, 0x0FFF) < 0xFFFF,
        ensures
            s.state == KnxServerState::Stopped,
            s.clients@.len() == 0,
            s.server_ia_int == ia_number(options.individual_address@, 0x0FFF),
            s.options.individual_address@ == options.individual_address@,
            s.pacing.msg_queue@.len() == 0,
            !s.pacing.is_routing_busy,
            s.pacing.busy_counter == 0,
            s.ignore_acktimeout == options.ignore_acktimeout,
            options.client_addrs is None ==> s.max_tunnel_connections == 15 && s.client_addrs_start_int
                == s.server_ia_int + 1,
    {
        let o = Self::options_with_defaults(options, detected_local_ip);
        let server_ia_int = ia_number_exec(o.individual_address.as_str(), 0x0FFF);
        let mut max_tunnel_connections: u8 = 15;
        let mut client_addrs_start_int: u16 = server_ia_int + 1;
        match &o.client_addrs {
            Some(ca) => {
                let cs = chars_of(ca.as_str());
                let parts = split_chars(cs.as_slice(), ':');
                if parts.len() == 2 {
                    let first: String = chars_to_string(&parts[0]);
                    match KnxHelper::get_address_from_string(first.as_str()) {
                        Ok(b) => {
                            client_addrs_start_int = (b[0] as u16) * 256 + b[1] as u16;
                        },
                        Err(_) => {},
                    }
                    match crate::utils::text::parse_u32(parts[1].as_slice()) {
                        Some(v) => {
                            if v <= 255 {
                                max_tunnel_connections = v as u8;
                            }
                        },
                        None => {},
                    }
                }
            },
            None => {},
        }
        let ignore = o.ignore_acktimeout;
        KnxNetIpServer {
            options: o,
            state: KnxServerState::Stopped,
            clients: Vec::new(),
            server_ia_int,
            max_tunnel_connections,
            client_addrs_start_int,
            pacing: MulticastPacing {
                msg_queue: Vec::new(),
                is_routing_busy: false,
                last_sent_time: 0,
                busy_counter: 0,
                last_busy_time: 0,
            },
            ignore_acktimeout: ignore,
            origin: instant_now(),
        }
    }

    /// NAT traversal of a client HPAI: 0.0.0.0:0 is replaced by the
    /// sender's address (refused when the sender is not IPv4); an HPAI with
    /// only one of the two zero is refused.
    pub fn resolve_route_back(hpai: &mut Hpai, rinfo_ip: Option<[u8; 4]>, rinfo_port: u16) -> (ok: bool)
        ensures
            ({
                let zero_ip = old(hpai).ip_address@ == seq![0u8, 0u8, 0u8, 0u8];
                let zero_port = old(hpai).port == 0;
                &&& (zero_ip && zero_port) ==> (match rinfo_ip {
                    Some(a) => ok && final(hpai).ip_address == a && final(hpai).port == rinfo_port
                        && final(hpai).host_protocol == old(hpai).host_protocol,
                    None => !ok && *final(hpai) == *old(hpai),
                })
                &&& (zero_ip != zero_port) ==> !ok && *final(hpai) == *old(hpai)
                &&& (!zero_ip && !zero_port) ==> ok && *final(hpai) == *old(hpai)
            }),
    {
        let zero_ip = is_unspecified(&hpai.ip_address);
        let zero_port = hpai.port == 0;
        if zero_ip && zero_port {
            match rinfo_ip {
                Some(a) => {
                    hpai.ip_address = a;
                    hpai.port = rinfo_port;
                    true
                },
                None => false,
            }
        } else if zero_ip || zero_port {
            false
        } else {
            true
        }
    }

    /// The address the server answers from: its configured local address
    /// (127.0.0.1 when that is not an address); for 0.0.0.0, the address
    /// routing to the client, else the default route's, when known.
    pub fn effective_local_ip(&self, routed: Option<[u8; 4]>, fallback: Option<[u8; 4]>) -> (a: [u8; 4])
        ensures
            ({
                let conf = match parse_ipv4_spec(self.options.local_ip@) {
                    Some(x) => x,
                    None => seq![127u8, 0u8, 0u8, 1u8],
                };
                a@ == (if conf == seq![0u8, 0u8, 0u8, 0u8] {
                    match routed {
                        Some(r) => r@,
                        None => match fallback {
                            Some(f) => f@,
                            None => conf,
                        },
                    }
                } else {
                    conf
                })
            }),
    {
        let conf = match parse_ipv4(self.options.local_ip.as_str()) {
            Some(x) => x,
            None => {
                let d = [127u8, 0u8, 0u8, 1u8];
                assert(d@ =~= seq![127u8, 0u8, 0u8, 1u8]);
                d
            },
        };
        if is_unspecified(&conf) {
            match routed {
                Some(r) => r,
                None => match fallback {
                    Some(f) => f,
                    None => conf,
                },
            }
        } else {
            conf
        }
    }

    /// Whether a client holds channel `ch`: its position.
    pub fn find_client(&self, ch: u8) -> (r: Option<usize>)
        ensures
            match r {
                Some(i) => i < self.clients@.len() && self.clients@[i as int].channel_id == ch && (forall|j: int| 0 <= j < i ==> self.clients@[j].channel_id != ch),
                None => !has_channel(self.clients@, ch),
            },
    {
        let n = self.clients.len();
        let mut i: usize = 0;
        while i < n
            invariant
                n == self.clients@.len(),
                i <= n,
                forall|j: int| 0 <= j < i ==> self.clients@[j].channel_id != ch,
            decreases n - i,
        {
            if self.clients[i].channel_id == ch {
                return Some(i);
            }
            i = i + 1;
        }
        None
    }

    /// The first free channel from 1 to the maximum, 0 when all are taken.
    pub fn free_channel(&self) -> (c: u8)
        ensures
            c == first_free_channel(self.clients@, self.max_tunnel_connections),
            c != 0 ==> 1 <= c <= self.max_tunnel_connections && !has_channel(self.clients@, c),
    {
        let max = self.max_tunnel_connections;
        let mut i: u8 = 1;
        while i <= max
            invariant
                1 <= i,
                i <= max + 1,
                max == self.max_tunnel_connections,
                forall|d: u8| 1 <= d < i ==> has_channel(self.clients@, d),
            decreases max + 1 - i,
        {
            match self.find_client(i) {
                None => {
                    proof {
                        assert(forall|d: u8| 1 <= d < i ==> has_channel(self.clients@, d));
                        let w = choose|c: u8| 1 <= c <= max && !has_channel(self.clients@, c) && (forall|d: u8| 1 <= d < c ==> has_channel(self.clients@, d));
                        assert(1 <= i <= max && !has_channel(self.clients@, i) && (forall|d: u8| 1 <= d < i ==> has_channel(self.clients@, d)));
                        if w < i {
                            assert(has_channel(self.clients@, w));
                        } else if w > i {
                            assert(has_channel(self.clients@, i));
                        }
                    }
                    return i;
                },
                Some(_) => {},
            }
            if i == 255 {
                proof {
                    assert(forall|d: u8| 1 <= d <= max ==> has_channel(self.clients@, d));
                }
                return 0;
            }
            i = i + 1;
        }
        0
    }

    /// The identification blocks of a search or description response:
    /// device information and supported services (core, device management,
    /// tunnelling and routing, version 1); for anything but a plain search
    /// response also the extended device information, the IP configuration
    /// of `effective_local_ip` (netmask 255.255.255.0, manual assignment),
    /// and the tunnelling slots with their addresses.
    pub fn get_identification_dibs(&self, service_type: KnxNetIpServiceType, effective_local_ip: [u8; 4]) -> (r: Vec<Dib>)
        ensures
            service_type == KnxNetIpServiceType::SearchResponse ==> r@.len() == 2,
            service_type != KnxNetIpServiceType::SearchResponse ==> r@.len() == 6,
            r@[0] matches Dib::DeviceInfo(d) && d.individual_address == ia_number(self.options.individual_address@, 0)
                && d.friendly_name@ == self.options.friendly_name@ && d.knx_medium == KnxMedium::KnxIp,
            r@[1] matches Dib::SupportedServices(s) && s.services@.len() == 4,
            forall|i: int| 0 <= i < r@.len() ==> crate::protocol::knxnetip_structures::dib_sizes_fit(#[trigger] r@[i]),
            service_type != KnxNetIpServiceType::SearchResponse ==> (r@[5] matches Dib::TunnellingInfo(t) && t.slots@.len() == self.max_tunnel_connections
                && forall|i: int| 0 <= i < t.slots@.len() ==> (#[trigger] t.slots@[i]).status.spec_value() == slot_status(has_channel(self.clients@, (i + 1) as u8))),
    {
        let individual_address = ia_number_exec(self.options.individual_address.as_str(), 0);
        let mut serial_number: [u8; 6] = [0u8; 6];
        match &self.options.serial_number {
            Some(sn) => {
                let lim = if sn.len() < 6 {
                    sn.len()
                } else {
                    6
                };
                let mut i: usize = 0;
                while i < lim
                    invariant
                        lim <= 6,
                        lim <= sn@.len(),
                        i <= lim,
                    decreases lim - i,
                {
                    serial_number[i] = sn[i];
                    i = i + 1;
                }
            },
            None => {},
        }
        let mac_address = match parse_mac(self.options.mac_address.as_str()) {
            Ok(m) => m,
            Err(_) => [0u8; 6],
        };
        let routing_multicast_address = match parse_ipv4(self.options.ip.as_str()) {
            Some(a) => a,
            None => [224u8, 0u8, 23u8, 12u8],
        };
        let dev_info = DeviceInformationDib {
            knx_medium: KnxMedium::KnxIp,
            device_status: 0,
            individual_address,
            project_installation_id: 0,
            serial_number,
            routing_multicast_address,
            mac_address,
            friendly_name: string_of(self.options.friendly_name.as_str()),
        };
        let mut services: Vec<SupportedService> = Vec::new();
        services.push(SupportedService { family: AllowedSupportedServiceFamilies::Core.code(), version: 1 });
        services.push(SupportedService { family: AllowedSupportedServiceFamilies::DeviceManagement.code(), version: 1 });
        services.push(SupportedService { family: AllowedSupportedServiceFamilies::Tunnelling.code(), version: 1 });
        services.push(SupportedService { family: AllowedSupportedServiceFamilies::Routing.code(), version: 1 });
        let supp_svc = SupportedServicesDib { services };
        let mut out: Vec<Dib> = Vec::new();
        out.push(Dib::DeviceInfo(dev_info));
        out.push(Dib::SupportedServices(supp_svc));
        if service_type == KnxNetIpServiceType::SearchResponse {
            return out;
        }
        let ext = ExtendedDeviceInformationDib {
            medium_status: false,
            maximal_local_apdu_length: 254,
            device_descriptor_type0: DeviceDescriptorType0::new(DeviceDescriptorType0::KNXNET_IP_ROUTER),
        };
        let mask: [u8; 4] = [255u8, 255u8, 255u8, 0u8];
        let ip_config = IpConfigDib {
            ip_address: effective_local_ip,
            subnet_mask: mask,
            default_gateway: [0u8; 4],
            ip_capabilities: 0x01,
            ip_assignment_method: 0x02,
        };
        let ip_current = IpCurrentConfigDib {
            ip_address: effective_local_ip,
            subnet_mask: mask,
            default_gateway: [0u8; 4],
            dhcp_server: [0u8; 4],
            ip_assignment_method: 0x02,
        };
        let mut slots: Vec<TunnelSlot> = Vec::new();
        let max = self.max_tunnel_connections as u16;
        let mut k: u16 = 1;
        while k <= max
            invariant
                1 <= k,
                k <= max + 1,
                max == self.max_tunnel_connections,
                slots@.len() == k - 1,
                forall|k: int| 0 <= k < slots@.len() ==> (#[trigger] slots@[k]).status.spec_value() == slot_status(has_channel(self.clients@, (k + 1) as u8)),
            decreases max + 1 - k,
        {
            let i = k as u8;
            let found = self.find_client(i);
            let mut status = StatusTunnelingSlot::default();
            status.set_authorised(true);
            status.set_usable(found.is_some());
            status.set_free(found.is_none());
            let address: u16 = match found {
                Some(k) => self.clients[k].knx_address,
                None => self.client_addrs_start_int.wrapping_add((i as u16) - 1),
            };
            proof {
                if found is Some {
                    assert(has_channel(self.clients@, i));
                }
            }
            slots.push(TunnelSlot { address, status });
            k = k + 1;
        }
        let tinfo = TunnellingInfoDib { apdu_length: 254, slots };
        out.push(Dib::ExtendedDeviceInfo(ext));
        out.push(Dib::IpConfig(ip_config));
        out.push(Dib::IpCurrentConfig(ip_current));
        out.push(Dib::TunnellingInfo(tinfo));
        out
    }
}



// ------------------------------------------------------------------
// Multicast pacing and flow control
// ------------------------------------------------------------------

/// The routing indication frame carrying a cEMI frame.
pub open spec fn routing_frame(cemi: Seq<u8>) -> Seq<u8> {
    frame_of(KnxNetIpServiceType::RoutingIndication, cemi)
}

/// The ROUTING_LOST_MESSAGE frame for `count` lost frames.
pub open spec fn lost_frame(count: u16) -> Seq<u8> {
    frame_of(
        KnxNetIpServiceType::RoutingLostMessage,
        crate::protocol::knxnetip_structures::routing_lost_bytes(RoutingLostMessage { device_state: 0, lost_messages: count }),
    )
}

/// The ROUTING_BUSY frame asking to wait `wait` milliseconds.
pub open spec fn busy_frame(wait: u16) -> Seq<u8> {
    frame_of(
        KnxNetIpServiceType::RoutingBusy,
        crate::protocol::knxnetip_structures::routing_busy_bytes(RoutingBusy { device_state: 0, wait_time: wait, routing_busy_control: 0 }),
    )
}

fn lost_message(count: u16) -> (r: Vec<u8>)
    ensures
        r@ == lost_frame(count),
{
    let b = RoutingLostMessage::new(0, count).to_buffer();
    build_frame(KnxNetIpServiceType::RoutingLostMessage, b.as_slice())
}

fn busy_message(wait: u16) -> (r: Vec<u8>)
    ensures
        r@ == busy_frame(wait),
{
    let b = RoutingBusy::new(0, wait, 0).to_buffer();
    build_frame(KnxNetIpServiceType::RoutingBusy, b.as_slice())
}

impl KnxNetIpServer {
    /// Queues a cEMI frame for multicast. With 100 frames waiting, the frame
    /// is lost: a lost-message notice goes out and the overflow is
    /// reported. From 15 frames on, routing busy is announced (waiting
    /// `routing_delay` per queued frame, at most 100 ms) and the routing
    /// ready call is scheduled. The sender is woken unless busy.
    pub fn enqueue_packet(&mut self, cemi_bytes: &[u8]) -> (r: Vec<ServerAction>)
        ensures
            old(self).pacing.msg_queue@.len() >= 100 ==> {
                &&& final(self).pacing.msg_queue@ == old(self).pacing.msg_queue@
                &&& r@.len() == 2
                &&& r@[0] matches ServerAction::SendMulticast(p) && p@ == lost_frame(1)
                &&& r@[1] matches ServerAction::Emit(ServerEvent::QueueOverflow)
            },
            old(self).pacing.msg_queue@.len() < 100 ==> {
                &&& final(self).pacing.msg_queue@.len() == old(self).pacing.msg_queue@.len() + 1
                &&& final(self).pacing.msg_queue@.last()@ == routing_frame(cemi_bytes@)
                &&& final(self).pacing.msg_queue@.drop_last() == old(self).pacing.msg_queue@
                &&& (final(self).pacing.msg_queue@.len() >= 15 && !old(self).pacing.is_routing_busy) ==> {
                    let wait = if old(self).options.routing_delay * final(self).pacing.msg_queue@.len() > 100 {
                        100
                    } else {
                        old(self).options.routing_delay * final(self).pacing.msg_queue@.len()
                    };
                    &&& final(self).pacing.is_routing_busy
                    &&& r@.len() == 3
                    &&& r@[0] matches ServerAction::SendMulticast(p) && p@ == busy_frame(wait as u16)
                    &&& r@[1] matches ServerAction::Emit(ServerEvent::RoutingBusy(true))
                    &&& r@[2] matches ServerAction::ScheduleRoutingReady(w) && w == wait
                }
                &&& !(final(self).pacing.msg_queue@.len() >= 15 && !old(self).pacing.is_routing_busy) ==> {
                    &&& final(self).pacing.is_routing_busy == old(self).pacing.is_routing_busy
                    &&& old(self).pacing.is_routing_busy ==> r@.len() == 0
                    &&& !old(self).pacing.is_routing_busy ==> r@.len() == 1 && r@[0] is NotifyPacing
                }
            },
            final(self).clients@ == old(self).clients@,
            final(self).options == old(self).options,
    {
        let mut out: Vec<ServerAction> = Vec::new();
        let packet = build_frame(KnxNetIpServiceType::RoutingIndication, cemi_bytes);
        if self.pacing.msg_queue.len() >= 100 {
            out.push(ServerAction::SendMulticast(lost_message(1)));
            out.push(ServerAction::Emit(ServerEvent::QueueOverflow));
            return out;
        }
        self.pacing.msg_queue.push(packet);
        assert(self.pacing.msg_queue@.drop_last() =~= old(self).pacing.msg_queue@);
        let len = self.pacing.msg_queue.len();
        if len >= 15 && !self.pacing.is_routing_busy {
            let delay = self.options.routing_delay as u64;
            assert(delay * (len as u64) <= 65535 * 100) by (nonlinear_arith)
                requires
                    delay <= 65535,
                    len <= 100,
            ;
            let prod = delay * (len as u64);
            let wait: u64 = if prod > 100 {
                100
            } else {
                prod
            };
            out.push(ServerAction::SendMulticast(busy_message(wait as u16)));
            self.pacing.is_routing_busy = true;
            out.push(ServerAction::Emit(ServerEvent::RoutingBusy(true)));
            out.push(ServerAction::ScheduleRoutingReady(wait));
            return out;
        }
        if !self.pacing.is_routing_busy {
            out.push(ServerAction::NotifyPacing);
        }
        out
    }

    /// The end of a busy period: routing is ready again.
    pub fn routing_ready(&mut self) -> (r: Vec<ServerAction>)
        ensures
            !final(self).pacing.is_routing_busy,
            r@.len() == 3,
            r@[0] matches ServerAction::Emit(ServerEvent::RoutingBusy(false)),
            r@[1] matches ServerAction::Emit(ServerEvent::RoutingReady),
            r@[2] is NotifyPacing,
            final(self).pacing.msg_queue@ == old(self).pacing.msg_queue@,
    {
        self.pacing.is_routing_busy = false;
        let mut out: Vec<ServerAction> = Vec::new();
        out.push(ServerAction::Emit(ServerEvent::RoutingBusy(false)));
        out.push(ServerAction::Emit(ServerEvent::RoutingReady));
        out.push(ServerAction::NotifyPacing);
        out
    }

    /// The next multicast frame at time `now`, unless routing is busy or
    /// the queue is empty, with the time to wait before sending it so that
    /// frames are `routing_delay` apart.
    pub fn next_paced_packet(&mut self, now: u64) -> (r: Option<(Vec<u8>, u64)>)
        ensures
            (old(self).pacing.is_routing_busy || old(self).pacing.msg_queue@.len() == 0) ==> r is None
                && final(self).pacing.msg_queue@ == old(self).pacing.msg_queue@,
            !(old(self).pacing.is_routing_busy || old(self).pacing.msg_queue@.len() == 0) ==> {
                let elapsed = if now >= old(self).pacing.last_sent_time { now - old(self).pacing.last_sent_time } else { 0 };
                &&& r matches Some((p, w)) && p@ == old(self).pacing.msg_queue@[0]@ && w == (if elapsed
                    < old(self).options.routing_delay { old(self).options.routing_delay - elapsed } else { 0 })
                &&& final(self).pacing.msg_queue@ == old(self).pacing.msg_queue@.drop_first()
            },
    {
        if self.pacing.is_routing_busy || self.pacing.msg_queue.len() == 0 {
            return None;
        }
        let p = self.pacing.msg_queue.remove(0);
        assert(self.pacing.msg_queue@ =~= old(self).pacing.msg_queue@.drop_first());
        let delay = self.options.routing_delay as u64;
        let elapsed = if now >= self.pacing.last_sent_time {
            now - self.pacing.last_sent_time
        } else {
            0
        };
        let wait = if elapsed < delay {
            delay - elapsed
        } else {
            0
        };
        Some((p, wait))
    }

    /// Records that a multicast frame went out at time `now`.
    pub fn mark_sent(&mut self, now: u64)
        ensures
            final(self).pacing.last_sent_time == now,
            final(self).pacing.msg_queue@ == old(self).pacing.msg_queue@,
    {
        self.pacing.last_sent_time = now;
    }

    /// A ROUTING_BUSY from another router at time `now`. A notice more than
    /// 10 ms after the previous one counts (the count decays later); a
    /// notice that addresses all routers makes this one wait its wait time
    /// plus a random share (from `pseudo_rand`) that grows with the count.
    pub fn handle_routing_busy(&mut self, busy: RoutingBusy, now: u64, pseudo_rand: u32) -> (r: Vec<ServerAction>)
        ensures
            routing_busy_outcome(*old(self), *final(self), r, busy, now, pseudo_rand),
    {
        let mut out: Vec<ServerAction> = Vec::new();
        let elapsed = if now >= self.pacing.last_busy_time {
            now - self.pacing.last_busy_time
        } else {
            0
        };
        if elapsed > 10 {
            self.pacing.busy_counter = self.pacing.busy_counter.saturating_add(1);
            out.push(ServerAction::ScheduleBusyDecay((self.pacing.busy_counter as u64) * 100));
        }
        self.pacing.last_busy_time = now;
        if busy.routing_busy_control == 0 {
            let c = self.pacing.busy_counter as u64;
            let rr = (pseudo_rand % 100) as u64;
            assert(rr * c * 50 <= 100 * 4294967295 * 50) by (nonlinear_arith)
                requires
                    rr < 100,
                    c <= 4294967295,
            ;
            let extra: u64 = if c > 0 {
                rr * c * 50 / 100
            } else {
                0
            };
            let wait = (busy.wait_time as u64) + extra;
            self.pacing.is_routing_busy = true;
            out.push(ServerAction::Emit(ServerEvent::RoutingBusy(true)));
            out.push(ServerAction::ScheduleRoutingReady(wait));
        }
        out
    }

    /// One step of the decay of the busy count: `false` once it is zero.
    pub fn decay_busy_counter(&mut self) -> (r: bool)
        ensures
            old(self).pacing.busy_counter > 0 ==> r && final(self).pacing.busy_counter == old(self).pacing.busy_counter - 1,
            old(self).pacing.busy_counter == 0 ==> !r && final(self).pacing.busy_counter == 0,
    {
        if self.pacing.busy_counter > 0 {
            self.pacing.busy_counter = self.pacing.busy_counter - 1;
            true
        } else {
            false
        }
    }
}


// ------------------------------------------------------------------
// Message handling
// ------------------------------------------------------------------

/// The body of a frame: the octets after the six-octet header.
pub open spec fn body_of(msg: Seq<u8>) -> Seq<u8> {
    msg.subrange(6, msg.len() as int)
}

/// The service type a frame's header names, when it names one.
pub open spec fn service_of(msg: Seq<u8>) -> Option<KnxNetIpServiceType> {
    match crate::protocol::knxnetip_header::parse_header_spec(msg) {
        Some(h) => Some(h.service_type),
        None => None,
    }
}

/// The connection response that refuses with `status`.
pub open spec fn connect_refusal(status: u8) -> Seq<u8> {
    crate::protocol::knxnetip_header::header_bytes(KnxNetIpHeader { service_type: KnxNetIpServiceType::ConnectResponse, total_length: 8 }) + seq![0u8, status]
}

/// The position of the first client on channel `ch`.
pub open spec fn is_first_client(cs: Seq<TunnelConnection>, ch: u8, i: int) -> bool {
    0 <= i < cs.len() && cs[i].channel_id == ch && forall|j: int| 0 <= j < i ==> cs[j].channel_id != ch
}

/// The position of the client on channel `ch` (the first one).
pub open spec fn client_index(cs: Seq<TunnelConnection>, ch: u8) -> int {
    choose|i: int| is_first_client(cs, ch, i)
}

proof fn lemma_client_index(cs: Seq<TunnelConnection>, ch: u8, i: int)
    requires
        is_first_client(cs, ch, i),
    ensures
        client_index(cs, ch) == i,
        is_first_client(cs, ch, client_index(cs, ch)),
{
    let k = client_index(cs, ch);
    assert(is_first_client(cs, ch, k));
    if k < i {
        assert(cs[k].channel_id != ch);
    } else if k > i {
        assert(cs[i].channel_id != ch);
    }
}

/// Whether an acknowledgement with sequence number `seq` answers the frame
/// that client `c` waits on.
pub open spec fn ack_answers(c: TunnelConnection, seq: u8) -> bool {
    c.pending_ack matches Some(a) && a.seq == seq
}

/// The frame client `c` sends after an acknowledgement with sequence
/// number `seq`: its first queued frame, once it no longer waits on one.
pub open spec fn next_after_ack(c: TunnelConnection, seq: u8) -> Option<Seq<u8>> {
    if (ack_answers(c, seq) || !c.is_sending) && c.queue@.len() > 0 {
        Some(c.queue@[0].packet@)
    } else {
        None
    }
}

/// The frame client `c` sends after `frame` was offered to its queue: its
/// first queued frame when it waits on none; `frame` itself when the queue
/// was empty.
pub open spec fn next_after_enqueue(c: TunnelConnection, frame: Seq<u8>) -> Option<Seq<u8>> {
    if c.is_sending {
        None
    } else if c.queue@.len() > 0 {
        Some(c.queue@[0].packet@)
    } else {
        Some(frame)
    }
}

/// What a bus monitor client is handed for the cEMI frame `c`: its bus
/// monitor form where `convert_data_ind_to_busmon_ind` gives one, else the
/// frame itself.
pub open spec fn busmon_form(c: Seq<u8>) -> Seq<u8> {
    if is_busmon_convertible(c[0]) && 2 + c[1] + 7 <= c.len() {
        seq![0x2Bu8, 0u8] + busmon_lpdu(c)
    } else {
        c
    }
}

/// The frame client `c` sends when the cEMI frame `cemi` is forwarded to
/// the clients, skipping the client whose address text is `skip`.
pub open spec fn forward_send(c: TunnelConnection, cemi: Seq<u8>, skip: Seq<char>) -> Option<Seq<u8>> {
    if skip == c.knx_address_str@ {
        None
    } else {
        let payload = if c.knx_layer == KnxLayer::BusmonitorLayer { busmon_form(cemi) } else { cemi };
        next_after_enqueue(c, tunnel_frame(KnxNetIpServiceType::TunnellingRequest, c.channel_id, c.sno, payload))
    }
}

/// The frames (with the address each goes to) that forwarding `cemi` to
/// the clients `cs` sends, in the order of the clients.
pub open spec fn forward_sends(cs: Seq<TunnelConnection>, cemi: Seq<u8>, skip: Seq<char>) -> Seq<(Seq<u8>, Seq<char>)>
    decreases cs.len(),
{
    if cs.len() == 0 {
        Seq::empty()
    } else {
        let c = cs.last();
        forward_sends(cs.drop_last(), cemi, skip) + match forward_send(c, cemi, skip) {
            Some(p) => seq![(p, endpoint_text(c.data_hpai))],
            None => Seq::empty(),
        }
    }
}

/// Whether the actions `r` are the sends `f`, one by one.
pub open spec fn sends_are(r: Seq<ServerAction>, f: Seq<(Seq<u8>, Seq<char>)>) -> bool {
    &&& r.len() == f.len()
    &&& forall|k: int| 0 <= k < r.len() ==> (#[trigger] r[k] matches ServerAction::SendToEndpoint(p, e) && p@ == f[k].0 && e@ == f[k].1)
}

/// The cEMI octets answering the property read request `b`: a read
/// confirmation with the request's property header, carrying the address
/// `ia` for property 1 of the device object (object type 0) when `ia` is an
/// address, and no data otherwise.
pub open spec fn prop_read_answer(b: Seq<u8>, ia: Seq<char>) -> Seq<u8> {
    let data = if b[1] == 0 && b[2] == 0 && b[4] == 1 {
        match address_from_string_spec(ia) {
            Some((hi, lo)) => seq![hi, lo],
            None => Seq::empty(),
        }
    } else {
        Seq::empty()
    };
    seq![0xFBu8] + b.subrange(1, 7) + data
}

proof fn lemma_prop_read_answer(b: Seq<u8>, req: crate::protocol::cemi::MProp, data: Seq<u8>, ia: Seq<char>)
    requires
        b.len() >= 7,
        b[0] == 0xFC,
        cemi_parsed(b, Cemi::MPropReadReq(req)),
        data == (if req.interface_object_type == 0 && req.property_id == 1 {
            match address_from_string_spec(ia) {
                Some((hi, lo)) => seq![hi, lo],
                None => Seq::empty(),
            }
        } else {
            Seq::<u8>::empty()
        }),
    ensures
        seq![0xFBu8] + crate::protocol::cemi::prop_header(req.interface_object_type, req.object_instance, req.property_id)
            + crate::protocol::cemi::word(crate::protocol::cemi::prop_word(req.number_of_elements, req.start_index)) + data
            == prop_read_answer(b, ia),
{
    let b1 = b[1];
    let b2 = b[2];
    let b5 = b[5];
    let b6 = b[6];
    let iot = req.interface_object_type;
    assert(iot == b1 as u16 * 256 + b2 as u16);
    assert((iot / 256) as u8 == b1 && (iot % 256) as u8 == b2) by (bit_vector)
        requires
            iot == b1 as u16 * 256 + b2 as u16,
    ;
    assert(iot == 0 <==> (b1 == 0 && b2 == 0));
    let w: u16 = (b5 as u16 * 256 + b6 as u16) as u16;
    let noe = req.number_of_elements;
    let st = req.start_index;
    assert(st == w % 4096 && noe == w / 4096);
    assert(((st % 4096) + (noe % 16) * 4096) as u16 == w && (w / 256) as u8 == b5 && (w % 256) as u8 == b6) by (bit_vector)
        requires
            w == b5 as u16 * 256 + b6 as u16,
            st == w % 4096,
            noe as u16 == w / 4096,
    ;
    assert(seq![0xFBu8] + crate::protocol::cemi::prop_header(iot, req.object_instance, req.property_id)
        + crate::protocol::cemi::word(crate::protocol::cemi::prop_word(noe, st)) =~= seq![0xFBu8] + b.subrange(1, 7));
}

/// Whether client `c` is a connection with address `addr` from the host
/// `ip`.
pub open spec fn is_stale(c: TunnelConnection, addr: u16, ip: Seq<u8>) -> bool {
    c.knx_address == addr && c.control_hpai.ip_address@ == ip
}

/// Whether client `k` is the first one with address `addr` from `ip`.
pub open spec fn is_first_stale(cs: Seq<TunnelConnection>, addr: u16, ip: Seq<u8>, k: int) -> bool {
    0 <= k < cs.len() && is_stale(cs[k], addr, ip) && forall|j: int| 0 <= j < k ==> !is_stale(#[trigger] cs[j], addr, ip)
}

/// The first client with address `addr` from `ip`, if any.
pub open spec fn stale_index(cs: Seq<TunnelConnection>, addr: u16, ip: Seq<u8>) -> Option<int> {
    if exists|k: int| is_first_stale(cs, addr, ip, k) {
        Some(choose|k: int| is_first_stale(cs, addr, ip, k))
    } else {
        None
    }
}

proof fn lemma_stale_index(cs: Seq<TunnelConnection>, addr: u16, ip: Seq<u8>, k: int)
    requires
        is_first_stale(cs, addr, ip, k),
    ensures
        stale_index(cs, addr, ip) == Some(k),
{
    let m = choose|m: int| is_first_stale(cs, addr, ip, m);
    assert(is_first_stale(cs, addr, ip, m));
    if m < k {
        assert(!is_stale(cs[m], addr, ip));
    } else if m > k {
        assert(!is_stale(cs[k], addr, ip));
    }
}

/// A CONNECT_RESPONSE accepting a connection on channel `ch`, with the
/// server's HPAI and the connection response data `crd`.
pub open spec fn connect_response(ch: u8, server: Hpai, crd: Seq<u8>) -> Seq<u8> {
    frame_of(KnxNetIpServiceType::ConnectResponse, seq![ch, 0u8] + hpai_bytes(server) + crd)
}

/// What a connect request with body `b` from `rinfo_ip`:`rinfo_port` does
/// to server `s`: `cs` are the clients afterwards, `r` the answer. Control
/// and data HPAIs must be readable and the CRI too, else the request is an
/// error; a request whose HPAIs give no address to answer to is dropped.
/// Otherwise a connection of the requested (non-zero) address from the
/// same host is dropped first and reported, and the answer goes to the
/// control address: no free channel gives E_NO_MORE_CONNECTIONS, a device
/// management connection is accepted with address 0, a tunnel with the
/// requested address or the channel's own from the configured range unless
/// a client has it (E_NO_MORE_UNIQUE_CONNECTIONS), other connection types
/// give E_CONNECTION_TYPE. An accepted connection is added last, on the
/// free channel, with the resolved HPAIs.
pub open spec fn connect_outcome(
    s: KnxNetIpServer,
    cs: Seq<TunnelConnection>,
    r: Result<Vec<ServerAction>, KnxError>,
    b: Seq<u8>,
    rinfo_ip: Option<[u8; 4]>,
    rinfo_port: u16,
    server_ip: [u8; 4],
) -> bool {
    let dp = b.subrange(8, 16);
    let cri = parse_cri(b.subrange(16, b.len() as int));
    if !(hpai_ok(b) && hpai_ok(dp)) {
        r == Err::<Vec<ServerAction>, KnxError>(KnxError::InvalidParametersForDpt) && cs == s.clients@
    } else if route_back(b, rinfo_ip, rinfo_port) is None || route_back(dp, rinfo_ip, rinfo_port) is None {
        r matches Ok(a) && a@.len() == 0 && cs == s.clients@
    } else if cri is None {
        r == Err::<Vec<ServerAction>, KnxError>(KnxError::InvalidParametersForDpt) && cs == s.clients@
    } else {
        let (cip, cport) = route_back(b, rinfo_ip, rinfo_port)->0;
        let (dip, dport) = route_back(dp, rinfo_ip, rinfo_port)->0;
        r matches Ok(a) && connect_accept(s, cs, a@, cri->0, cip, cport, dip, dport, server_ip)
    }
}

/// The answer `a` and the clients `cs` afterwards of a connect request
/// with CRI `c` whose answers go to `cip`:`cport` and data to
/// `dip`:`dport` (see `connect_outcome`).
pub open spec fn connect_accept(
    s: KnxNetIpServer,
    cs: Seq<TunnelConnection>,
    a: Seq<ServerAction>,
    c: Cri,
    cip: Seq<u8>,
    cport: u16,
    dip: Seq<u8>,
    dport: u16,
    server_ip: [u8; 4],
) -> bool {
    let stale = stale_of(s.clients@, c, cip);
    let cs1 = without_stale(s.clients@, c, cip);
    let ch = first_free_channel(cs1, s.max_tunnel_connections);
    let server = Hpai { host_protocol: HostProtocolCode::Ipv4Udp, ip_address: server_ip, port: s.options.port };
    &&& a.len() == if stale is Some { 2int } else { 1int }
    &&& stale matches Some(k) ==> a[0] == ServerAction::Emit(ServerEvent::DisconnectedClient(s.clients@[k].channel_id))
    &&& a.last() matches ServerAction::SendTo(p, ip, port) && p@ == connect_answer(cs1, c, ch, s.client_addrs_start_int, server)
        && ip@ == cip && port == cport
    &&& match accepted_as(cs1, c, ch, s.client_addrs_start_int) {
        None => cs == cs1,
        Some(x) => {
            &&& cs.len() == cs1.len() + 1
            &&& cs.drop_last() == cs1
            &&& cs.last().channel_id == ch
            &&& cs.last().knx_address == x
            &&& cs.last().control_hpai.ip_address@ == cip && cs.last().control_hpai.port == cport
            &&& cs.last().data_hpai.ip_address@ == dip && cs.last().data_hpai.port == dport
        },
    }
}

/// The client a connect request with CRI `c` from host `cip` replaces: the
/// first one with the requested (non-zero) address from that host.
pub open spec fn stale_of(cs: Seq<TunnelConnection>, c: Cri, cip: Seq<u8>) -> Option<int> {
    match c.individual_address {
        Some(x) => if x != 0 {
            stale_index(cs, x, cip)
        } else {
            None
        },
        None => None,
    }
}

/// The clients without the one a connect request replaces.
pub open spec fn without_stale(cs: Seq<TunnelConnection>, c: Cri, cip: Seq<u8>) -> Seq<TunnelConnection> {
    match stale_of(cs, c, cip) {
        Some(k) => cs.remove(k),
        None => cs,
    }
}

/// The address a tunnel on channel `ch` asks for: the requested one, or for
/// none (or 0) the channel's own from the range starting at `start`.
pub open spec fn tunnel_address(c: Cri, ch: u8, start: u16) -> u16 {
    let want: u16 = match c.individual_address {
        Some(x) => x,
        None => 0,
    };
    if want == 0 {
        start.wrapping_add(ch as u16).wrapping_sub(1u16)
    } else {
        want
    }
}

/// Whether a client has address `addr`.
pub open spec fn address_taken(cs: Seq<TunnelConnection>, addr: u16) -> bool {
    exists|j: int| 0 <= j < cs.len() && #[trigger] cs[j].knx_address == addr
}

/// The address a new connection gets, when the request is accepted.
pub open spec fn accepted_as(cs: Seq<TunnelConnection>, c: Cri, ch: u8, start: u16) -> Option<u16> {
    if ch == 0 {
        None
    } else if c.connection_type == ConnectionType::DeviceMgmtConnection {
        Some(0u16)
    } else if c.connection_type == ConnectionType::TunnelConnection && !address_taken(cs, tunnel_address(c, ch, start)) {
        Some(tunnel_address(c, ch, start))
    } else {
        None
    }
}

/// The CONNECT_RESPONSE for a request with CRI `c` on free channel `ch`
/// (0: none) given clients `cs`.
pub open spec fn connect_answer(cs: Seq<TunnelConnection>, c: Cri, ch: u8, start: u16, server: Hpai) -> Seq<u8> {
    if ch == 0 {
        connect_refusal(0x24)
    } else if c.connection_type == ConnectionType::DeviceMgmtConnection {
        connect_response(ch, server, seq![2u8, 0x03u8])
    } else if c.connection_type == ConnectionType::TunnelConnection {
        if address_taken(cs, tunnel_address(c, ch, start)) {
            connect_refusal(0x25)
        } else {
            connect_response(ch, server, crate::protocol::knxnetip_structures::crd_bytes(
                Crd { connection_type: ConnectionType::TunnelConnection, knx_address: tunnel_address(c, ch, start) },
            ))
        }
    } else {
        connect_refusal(0x22)
    }
}

/// Whether `d` are identification blocks of server `s` for a response of
/// type `service_type`: device information (address, name, KNXnet/IP
/// medium) and the four supported service families; for other than a plain
/// search response also the further blocks, the sixth being the tunnelling
/// slots, one per channel, each free or taken.
pub open spec fn identification_dibs(s: KnxNetIpServer, service_type: KnxNetIpServiceType, d: Seq<Dib>) -> bool {
    &&& service_type == KnxNetIpServiceType::SearchResponse ==> d.len() == 2
    &&& service_type != KnxNetIpServiceType::SearchResponse ==> d.len() == 6
    &&& d[0] matches Dib::DeviceInfo(x) && x.individual_address == ia_number(s.options.individual_address@, 0)
        && x.friendly_name@ == s.options.friendly_name@ && x.knx_medium == KnxMedium::KnxIp
    &&& d[1] matches Dib::SupportedServices(v) && v.services@.len() == 4
    &&& service_type != KnxNetIpServiceType::SearchResponse ==> (d[5] matches Dib::TunnellingInfo(t) && t.slots@.len() == s.max_tunnel_connections
        && forall|i: int| 0 <= i < t.slots@.len() ==> (#[trigger] t.slots@[i]).status.spec_value() == slot_status(has_channel(s.clients@, (i + 1) as u8)))
}

/// Whether `p` is an identification response of server `s` of type
/// `response_type`, from `server_ip`, with the server HPAI when `with_hpai`.
pub open spec fn identification_frame(
    s: KnxNetIpServer,
    response_type: KnxNetIpServiceType,
    with_hpai: bool,
    server_ip: [u8; 4],
    p: Seq<u8>,
) -> bool {
    exists|d: Seq<Dib>| identification_dibs(s, response_type, d) && p == frame_of(
        response_type,
        (if with_hpai { hpai_bytes(server_hpai_spec(server_ip, s.options.port)) } else { Seq::empty() }) + dibs_bytes(d),
    )
}

/// The response type to a search or description request of type
/// `service`, and whether it carries the server HPAI.
pub open spec fn search_answer_type(service: KnxNetIpServiceType) -> (KnxNetIpServiceType, bool) {
    if service == KnxNetIpServiceType::SearchRequestExtended {
        (KnxNetIpServiceType::SearchResponseExtended, true)
    } else if service == KnxNetIpServiceType::SearchRequest {
        (KnxNetIpServiceType::SearchResponse, true)
    } else {
        (KnxNetIpServiceType::DescriptionResponse, false)
    }
}

/// What `handle_search` does: `s` is the server before, `t` after, `r` the result.
pub open spec fn search_outcome(s: KnxNetIpServer, r: Result<Vec<ServerAction>, KnxError>, b: Seq<u8>, service: KnxNetIpServiceType, rinfo_ip: Option<[u8; 4]>, rinfo_port: u16, server_ip: [u8; 4]) -> bool {
    &&& (r is Err <==> !(b.len() >= 8 && crate::protocol::knxnetip_enum::host_protocol_of(b[1]) is Some))
    &&& (r matches Ok(a) ==> a@.len() <= 1)
    &&& (r is Err ==> r == Err::<Vec<ServerAction>, KnxError>(KnxError::InvalidParametersForDpt))
    &&& (hpai_ok(b) ==> (r matches Ok(a) && match route_back(b, rinfo_ip, rinfo_port) {
        None => a@.len() == 0,
        Some((ip, port)) => a@.len() == 1 && (a@[0] matches ServerAction::SendTo(p, i, pt) && i@ == ip && pt == port
            && identification_frame(s, search_answer_type(service).0, search_answer_type(service).1, server_ip, p@)),
    }))
}

/// What `handle_connect_request` does: `s` is the server before, `t` after, `r` the result.
pub open spec fn connect_request_outcome(s: KnxNetIpServer, t: KnxNetIpServer, r: Result<Vec<ServerAction>, KnxError>, b: Seq<u8>, rinfo_ip: Option<[u8; 4]>, rinfo_port: u16, server_ip: [u8; 4]) -> bool {
    &&& (connect_outcome(s, t.clients@, r, b, rinfo_ip, rinfo_port, server_ip))
    &&& (r matches Ok(a) ==> a@.len() <= 2)
    &&& (r matches Ok(a) ==> t.clients@.len() <= s.clients@.len() + 1)
    &&& (r matches Ok(a) && t.clients@.len() == s.clients@.len() + 1 ==> ({
        let c = t.clients@.last();
        &&& 1 <= c.channel_id <= s.max_tunnel_connections
        &&& forall|j: int| 0 <= j < t.clients@.len() - 1 ==> t.clients@[j].channel_id != c.channel_id
        &&& c.sno == 0 && c.rno == 0
    }))
    &&& (r is Err ==> t.clients@ == s.clients@)
}

/// What `handle_connection_state` does: `s` is the server before, `t` after, `r` the result.
pub open spec fn connection_state_outcome(s: KnxNetIpServer, t: KnxNetIpServer, r: Result<Vec<ServerAction>, KnxError>, b: Seq<u8>, rinfo_ip: Option<[u8; 4]>, rinfo_port: u16, now: u64) -> bool {
    &&& (t.clients@.len() == s.clients@.len())
    &&& (r matches Ok(a) ==> a@.len() <= 1)
    &&& (r matches Ok(a) ==> (a@.len() == 1 ==> (a@[0] matches ServerAction::SendTo(p, _, _) && p@ == status_frame(
        KnxNetIpServiceType::ConnectionstateResponse,
        b[0],
        if has_channel(s.clients@, b[0]) { 0u8 } else { 0x21u8 },
    ))))
    &&& (({
        let h = b.subrange(2, b.len() as int);
        &&& !hpai_ok(h) ==> r == Err::<Vec<ServerAction>, KnxError>(KnxError::InvalidParametersForDpt)
            && t.clients@ == s.clients@
        &&& hpai_ok(h) ==> (r matches Ok(a) && match route_back(h, rinfo_ip, rinfo_port) {
            None => a@.len() == 0 && t.clients@ == s.clients@,
            Some((ip, port)) => a@.len() == 1 && (a@[0] matches ServerAction::SendTo(_, i, pt) && i@ == ip && pt == port),
        })
        &&& (hpai_ok(h) && route_back(h, rinfo_ip, rinfo_port) is Some && has_channel(s.clients@, b[0])) ==> {
            let i = client_index(s.clients@, b[0]);
            &&& t.clients@[i].heartbeat_deadline == sat_add(now, s.clients@[i].heartbeat_timeout)
            &&& t.clients@[i].same_identity(s.clients@[i])
            &&& t.clients@[i].same_delivery(s.clients@[i])
            &&& forall|j: int| 0 <= j < s.clients@.len() && j != i ==> t.clients@[j] == s.clients@[j]
        }
        &&& !has_channel(s.clients@, b[0]) ==> t.clients@ == s.clients@
    }))
}

/// What `handle_disconnect` does: `s` is the server before, `t` after, `r` the result.
pub open spec fn disconnect_outcome(s: KnxNetIpServer, t: KnxNetIpServer, r: Result<Vec<ServerAction>, KnxError>, b: Seq<u8>, rinfo_ip: Option<[u8; 4]>, rinfo_port: u16) -> bool {
    &&& (r matches Ok(a) ==> (a@.len() == 2 ==> t.clients@.len() + 1 == s.clients@.len()
        && (a@[0] matches ServerAction::Emit(ServerEvent::DisconnectedClient(c)) && c == b[0])))
    &&& (r matches Ok(a) ==> (a@.len() == 2 <==> has_channel(s.clients@, b[0]) && a@.len() > 0))
    &&& (r matches Ok(a) ==> a@.len() <= 2)
    &&& (r matches Ok(a) ==> (a@.len() > 0 ==> (a@.last() matches ServerAction::SendTo(p, _, _) && p@ == status_frame(
        KnxNetIpServiceType::DisconnectResponse,
        b[0],
        0,
    ))))
    &&& (({
        let h = b.subrange(2, b.len() as int);
        &&& !hpai_ok(h) ==> r == Err::<Vec<ServerAction>, KnxError>(KnxError::InvalidParametersForDpt)
            && t.clients@ == s.clients@
        &&& hpai_ok(h) ==> (r matches Ok(a) && match route_back(h, rinfo_ip, rinfo_port) {
            None => a@.len() == 0 && t.clients@ == s.clients@,
            Some((ip, port)) => a@.len() >= 1 && (a@.last() matches ServerAction::SendTo(_, i, pt) && i@ == ip && pt == port)
                && (has_channel(s.clients@, b[0]) ==> t.clients@ == s.clients@.remove(
                    client_index(s.clients@, b[0]),
                ))
                && (!has_channel(s.clients@, b[0]) ==> t.clients@ == s.clients@),
        })
    }))
}

/// What `handle_client_ack` does: `s` is the server before, `t` after, `r` the result.
pub open spec fn client_ack_outcome(s: KnxNetIpServer, t: KnxNetIpServer, r: Vec<ServerAction>, b: Seq<u8>, now: u64) -> bool {
    &&& (t.clients@.len() == s.clients@.len())
    &&& (r@.len() <= 1)
    &&& (!has_channel(s.clients@, b[1]) ==> r@.len() == 0 && t.clients@ == s.clients@)
    &&& (has_channel(s.clients@, b[1]) ==> ({
        let i = client_index(s.clients@, b[1]);
        let c0 = s.clients@[i];
        &&& match next_after_ack(c0, b[2]) {
            Some(p) => r@.len() == 1 && (r@[0] matches ServerAction::SendToEndpoint(q, e) && q@ == p
                && e@ == endpoint_text(c0.data_hpai)),
            None => r@.len() == 0,
        }
        &&& t.clients@[i].heartbeat_deadline == sat_add(now, c0.heartbeat_timeout)
        &&& t.clients@[i].same_identity(c0)
        &&& forall|j: int| 0 <= j < s.clients@.len() && j != i ==> t.clients@[j] == s.clients@[j]
    }))
}

/// What `handle_tunnelling_request` does: `s` is the server before, `t` after, `r` the result.
pub open spec fn tunnelling_outcome(s: KnxNetIpServer, t: KnxNetIpServer, r: Vec<ServerAction>, b: Seq<u8>, server_ip: [u8; 4], now: u64) -> bool {
    &&& (!has_channel(s.clients@, b[1]) ==> r@.len() == 0 && t.clients@ == s.clients@)
    &&& (has_channel(s.clients@, b[1]) ==> ({
        let ch = b[1];
        let seq = b[2];
        let i = choose|i: int| is_first_client(s.clients@, ch, i);
        let c0 = s.clients@[i];
        let v = validation(c0.rno, seq).0;
        &&& rx_count_after(c0, now) > 100 ==> {
            &&& r@.len() == 2
            &&& r@[0] == ServerAction::Emit(ServerEvent::DisconnectedClient(ch))
            &&& r@[1] matches ServerAction::SendToEndpoint(p, e) && p@ == disconnect_frame(
                ch,
                (Hpai { host_protocol: HostProtocolCode::Ipv4Udp, ip_address: server_ip, port: s.options.port }),
            ) && e@ == endpoint_text(c0.control_hpai)
            &&& t.clients@.len() == s.clients@.len() - 1
        }
        &&& rx_count_after(c0, now) <= 100 && v.action != RequestAction::Discard ==> {
            &&& r@.len() >= 1
            &&& r@[0] matches ServerAction::SendToEndpoint(p, e) && p@ == ack_of(KnxNetIpServiceType::TunnellingAck, ch, seq, 0)
                && e@ == endpoint_text(c0.data_hpai)
        }
        &&& rx_count_after(c0, now) <= 100 && v.action == RequestAction::RetransmitAck ==> r@.len() == 1
        &&& rx_count_after(c0, now) <= 100 && v.action == RequestAction::Discard ==> r@.len() == 0
        &&& rx_count_after(c0, now) <= 100 && v.action == RequestAction::Process ==> {
            let tail = r@.subrange(1, r@.len() as int);
            tunnel_outcome(s.pacing, t.pacing, tail,
                b.subrange(b[0] as int, b.len() as int), c0.knx_layer, c0.knx_address)
        }
        &&& (rx_count_after(c0, now) <= 100 && v.action == RequestAction::Process && c0.knx_layer != KnxLayer::BusmonitorLayer
            && (b[b[0] as int] == 0x11 || b[b[0] as int] == 0x10)) ==> confirmation_offered(
            c0,
            t.clients@[i],
            ch,
            filled_cemi(b.subrange(b[0] as int, b.len() as int), c0.knx_address),
        )
    }))
}

/// What `handle_device_configuration` does: `s` is the server before, `t` after, `r` the result.
pub open spec fn device_configuration_outcome(s: KnxNetIpServer, t: KnxNetIpServer, r: Vec<ServerAction>, b: Seq<u8>, now: u64) -> bool {
    &&& (!has_channel(s.clients@, b[1]) ==> r@.len() == 0 && t.clients@ == s.clients@)
    &&& (t.clients@.len() == s.clients@.len())
    &&& (has_channel(s.clients@, b[1]) ==> ({
        let ch = b[1];
        let seq = b[2];
        let i = client_index(s.clients@, ch);
        let c0 = s.clients@[i];
        let v = validation(c0.rno, seq);
        let cm = b.subrange(b[0] as int, b.len() as int);
        let answers = cemi_parse_ok(cm) && cm[0] == 0xFC;
        let answer = tunnel_frame(
            KnxNetIpServiceType::DeviceConfigurationRequest,
            ch,
            c0.sno,
            prop_read_answer(cm, s.options.individual_address@),
        );
        &&& v.0.action == RequestAction::Discard ==> r@.len() == 0
        &&& v.0.action != RequestAction::Discard ==> r@.len() >= 1 && (r@[0] matches ServerAction::SendToEndpoint(p, e)
            && p@ == ack_of(KnxNetIpServiceType::DeviceConfigurationAck, ch, seq, 0) && e@ == endpoint_text(c0.data_hpai))
        &&& v.0.action == RequestAction::RetransmitAck ==> r@.len() == 1
        &&& (v.0.action == RequestAction::Process && !answers) ==> r@.len() == 1
        &&& (v.0.action == RequestAction::Process && answers) ==> match next_after_enqueue(c0, answer) {
            Some(p) => r@.len() == 2 && (r@[1] matches ServerAction::SendToEndpoint(q, e) && q@ == p
                && e@ == endpoint_text(c0.data_hpai)),
            None => r@.len() == 1,
        }
        &&& t.clients@[i].rno == v.1
        &&& t.clients@[i].same_identity(c0)
        &&& forall|j: int| 0 <= j < s.clients@.len() && j != i ==> t.clients@[j] == s.clients@[j]
    }))
}

/// What `handle_routing_indication` does: `s` is the server before, `t` after, `r` the result.
pub open spec fn routing_indication_outcome(s: KnxNetIpServer, t: KnxNetIpServer, r: Vec<ServerAction>, m: Seq<u8>, now: u64) -> bool {
    &&& (({
        let b = body_of(m);
        let ai = b[1] as int;
        let echo = b.len() >= 6 + ai && b[4 + ai] * 256 + b[5 + ai] == s.server_ia_int;
        &&& echo ==> r@.len() == 0 && t.clients@ == s.clients@
        &&& (!echo && !cemi_parse_ok(b)) ==> r@.len() == 0 && t.clients@ == s.clients@
        &&& (!echo && cemi_parse_ok(b)) ==> {
            &&& r@.len() >= 1
            &&& r@[0] matches ServerAction::Indicate(c, f) && f@ == b && cemi_parsed(b, c)
            &&& sends_are(r@.subrange(1, r@.len() as int), forward_sends(s.clients@, b, Seq::empty()))
        }
    }))
    &&& (t.clients@.len() == s.clients@.len())
}

/// What `handle_routing_busy` does: `s` is the server before, `t` after, `r` the result.
pub open spec fn routing_busy_outcome(s: KnxNetIpServer, t: KnxNetIpServer, r: Vec<ServerAction>, busy: RoutingBusy, now: u64, pseudo_rand: u32) -> bool {
    &&& (({
        let elapsed = if now >= s.pacing.last_busy_time { now - s.pacing.last_busy_time } else { 0 };
        let counted = elapsed > 10;
        let count = if counted { if s.pacing.busy_counter == u32::MAX { u32::MAX as int } else { s.pacing.busy_counter + 1 } } else { s.pacing.busy_counter as int };
        let extra = if count > 0 { ((pseudo_rand % 100) * count * 50) / 100 } else { 0 };
        &&& t.pacing.busy_counter == count
        &&& t.pacing.last_busy_time == now
        &&& counted ==> r@.len() >= 1 && (r@[0] matches ServerAction::ScheduleBusyDecay(d) && d == count * 100)
        &&& busy.routing_busy_control == 0 ==> {
            &&& t.pacing.is_routing_busy
            &&& r@.len() == (if counted { 3int } else { 2 })
            &&& r@[r@.len() - 2] matches ServerAction::Emit(ServerEvent::RoutingBusy(true))
            &&& (r@[r@.len() - 1] matches ServerAction::ScheduleRoutingReady(w) && w == busy.wait_time + extra)
        }
        &&& busy.routing_busy_control != 0 ==> r@.len() == (if counted { 1int } else { 0 })
            && t.pacing.is_routing_busy == s.pacing.is_routing_busy
    }))
    &&& (t.pacing.msg_queue@ == s.pacing.msg_queue@)
}

/// What `handle_lost_message` does: `s` is the server before, `r` the result.
pub open spec fn lost_message_outcome(s: KnxNetIpServer, r: Vec<ServerAction>, b: Seq<u8>) -> bool {
    &&& (b.len() < 4 ==> r@.len() == 0)
    &&& (b.len() >= 4 ==> r@.len() == 2)
    &&& (b.len() >= 4 ==> ({
        let lost = RoutingLostMessage { device_state: b[1], lost_messages: be16(b[2], b[3]) as u16 };
        &&& r@[0] == ServerAction::Emit(ServerEvent::RoutingLostMessage(lost))
        &&& r@[1] matches ServerAction::Indicate(Cemi::LBusmonInd(m), raw) && raw@ == b
            && m.additional_info@.len() == 0
            && m.data@ == crate::protocol::knxnetip_structures::routing_lost_bytes(lost)
    }))
}

/// What handling the datagram `m` (not an echo) does, by its service
/// type: the outcome of the handler for that type on the body of `m` (the
/// whole datagram for a routing indication); a routing busy notice whose
/// body cannot be read is ignored.
pub open spec fn dispatched(
    s: KnxNetIpServer,
    t: KnxNetIpServer,
    r: Result<Vec<ServerAction>, KnxError>,
    m: Seq<u8>,
    rinfo_ip: Option<[u8; 4]>,
    rinfo_port: u16,
    server_ip: [u8; 4],
    now: u64,
    pseudo_rand: u32,
) -> bool {
    let b = body_of(m);
    match service_of(m) {
        Some(st) => if st == KnxNetIpServiceType::SearchRequest || st == KnxNetIpServiceType::SearchRequestExtended
            || st == KnxNetIpServiceType::DescriptionRequest {
            search_outcome(s, r, b, st, rinfo_ip, rinfo_port, server_ip) && t == s
        } else if st == KnxNetIpServiceType::ConnectRequest {
            connect_request_outcome(s, t, r, b, rinfo_ip, rinfo_port, server_ip)
        } else if st == KnxNetIpServiceType::ConnectionstateRequest {
            connection_state_outcome(s, t, r, b, rinfo_ip, rinfo_port, now)
        } else if st == KnxNetIpServiceType::DisconnectRequest {
            disconnect_outcome(s, t, r, b, rinfo_ip, rinfo_port)
        } else if st == KnxNetIpServiceType::TunnellingRequest {
            r matches Ok(v) && tunnelling_outcome(s, t, v, b, server_ip, now)
        } else if st == KnxNetIpServiceType::TunnellingAck || st == KnxNetIpServiceType::DeviceConfigurationAck {
            r matches Ok(v) && client_ack_outcome(s, t, v, b, now)
        } else if st == KnxNetIpServiceType::DeviceConfigurationRequest {
            r matches Ok(v) && device_configuration_outcome(s, t, v, b, now)
        } else if st == KnxNetIpServiceType::RoutingIndication {
            r matches Ok(v) && routing_indication_outcome(s, t, v, m, now)
        } else if st == KnxNetIpServiceType::RoutingBusy {
            if b.len() < 6 {
                r matches Ok(v) && v@.len() == 0 && t == s
            } else {
                r matches Ok(v) && routing_busy_outcome(
                    s,
                    t,
                    v,
                    RoutingBusy { device_state: b[1], wait_time: be16(b[2], b[3]) as u16, routing_busy_control: be16(b[4], b[5]) as u16 },
                    now,
                    pseudo_rand,
                )
            }
        } else if st == KnxNetIpServiceType::RoutingLostMessage {
            r matches Ok(v) && lost_message_outcome(s, v, b) && t == s
        } else {
            r matches Ok(v) && v@.len() == 0 && t == s
        },
        None => true,
    }
}

/// The source address text of a cEMI data frame (L_Data.req, .con or
/// .ind), empty for any other frame.
pub open spec fn raw_source(b: Seq<u8>) -> Seq<char> {
    if b[0] == 0x11 || b[0] == 0x2E || b[0] == 0x29 {
        let base = 2 + b[1];
        address_text(b[base + 2], b[base + 3], false, false)
    } else {
        Seq::empty()
    }
}

/// Whether an HPAI can be read from the start of `b`.
pub open spec fn hpai_ok(b: Seq<u8>) -> bool {
    b.len() >= 8 && host_protocol_of(b[1]) is Some
}

/// The address (IP octets, port) answers go to for the HPAI at the start
/// of `b` received from `rinfo_ip`:`rinfo_port`: the HPAI's own, the
/// sender's for 0.0.0.0:0, none when only one of the two is zero or the
/// sender is not known.
pub open spec fn route_back(b: Seq<u8>, rinfo_ip: Option<[u8; 4]>, rinfo_port: u16) -> Option<(Seq<u8>, u16)> {
    let ip = b.subrange(2, 6);
    let port = be16(b[6], b[7]) as u16;
    let zero_ip = ip == seq![0u8, 0u8, 0u8, 0u8];
    let zero_port = port == 0;
    if zero_ip && zero_port {
        match rinfo_ip {
            Some(a) => Some((a@, rinfo_port)),
            None => None,
        }
    } else if zero_ip || zero_port {
        None
    } else {
        Some((ip, port))
    }
}

/// The request count of a client after one more request at time `now`: a
/// second after the previous count started, counting starts over.
pub open spec fn rx_count_after(c: TunnelConnection, now: u64) -> int {
    let base = if now >= c.last_rx_time + 1000 { 0 } else { c.rx_count as int };
    if base + 1 > u32::MAX { u32::MAX as int } else { base + 1 }
}

/// The cEMI frame of a tunnelling request with an empty source address of
/// an L_Data.req replaced by the client's address `addr`.
pub open spec fn filled_cemi(c: Seq<u8>, addr: u16) -> Seq<u8> {
    let off = 2 + c[1] + 2;
    if c[0] == 0x11 && off + 1 < c.len() && c[off] == 0 && c[off + 1] == 0 {
        c.update(off, (addr / 256) as u8).update(off + 1, (addr % 256) as u8)
    } else {
        c
    }
}

/// Whether `conf` confirms the tunnelled request `req`: the same frame with
/// the confirmation message code (request code + 0x1D) and the confirm
/// bit (bit 0 of control field 1) cleared, every other bit as sent.
pub open spec fn is_confirmation(conf: Seq<u8>, req: Seq<u8>) -> bool {
    let k = 2 + req[1];
    &&& conf.len() == req.len()
    &&& conf[0] == req[0] + 0x1D
    &&& conf[k] % 2 == 0
    &&& conf[k] / 2 == req[k] / 2
    &&& forall|j: int| 0 < j < req.len() && j != k ==> #[trigger] conf[j] == req[j]
}

/// The last frame handed to client `c` for delivery: the last queued one,
/// or, with an empty queue, the one waiting for its acknowledgement.
pub open spec fn offered_last(c: TunnelConnection) -> Seq<u8> {
    if c.queue@.len() > 0 {
        c.queue@.last().packet@
    } else {
        c.pending_ack->0.packet@
    }
}

/// Whether client `c1`, which was `c0` on channel `ch`, was handed the
/// confirmation of the tunnelled request `req` (numbered with `c0`'s
/// sequence number), when `c0`'s queue had room.
pub open spec fn confirmation_offered(c0: TunnelConnection, c1: TunnelConnection, ch: u8, req: Seq<u8>) -> bool {
    !(c0.max_queue_size > 0 && c0.queue@.len() >= c0.max_queue_size) ==> exists|conf: Seq<u8>|
        #![trigger is_confirmation(conf, req)]
        is_confirmation(conf, req) && offered_last(c1) == tunnel_frame(KnxNetIpServiceType::TunnellingRequest, ch, c0.sno, conf)
}

/// The frame routed for a tunnelled cEMI frame: an L_Data.req goes out as
/// L_Data.ind, an L_Raw.req as L_Raw.ind, anything else as it is.
pub open spec fn routed_cemi(c: Seq<u8>) -> Seq<u8> {
    if c[0] == 0x11 {
        c.update(0, 0x29u8)
    } else if c[0] == 0x10 {
        c.update(0, 0x2du8)
    } else {
        c
    }
}

/// What a processed tunnelling request carrying `cemi`, from a client with
/// layer `layer` and address `addr`, answers (`r`, after the
/// acknowledgement) and does to the multicast queue: nothing for a data or
/// raw request of a bus monitor client; else the filled-in frame is
/// indicated first when it parses, and its routed form is queued when the
/// queue has room.
pub open spec fn tunnel_outcome(
    before: MulticastPacing,
    after: MulticastPacing,
    r: Seq<ServerAction>,
    cemi: Seq<u8>,
    layer: KnxLayer,
    addr: u16,
) -> bool {
    if layer == KnxLayer::BusmonitorLayer && (cemi[0] == 0x11 || cemi[0] == 0x10) {
        r.len() == 0 && after == before
    } else {
        let f = filled_cemi(cemi, addr);
        &&& cemi_parse_ok(f) ==> (r.len() >= 1 && (r[0] matches ServerAction::Indicate(c, b) && b@ == f && cemi_parsed(f, c)))
        &&& before.msg_queue@.len() < 100 ==> {
            &&& after.msg_queue@.len() == before.msg_queue@.len() + 1
            &&& after.msg_queue@.last()@ == routing_frame(routed_cemi(f))
            &&& after.msg_queue@.drop_last() == before.msg_queue@
        }
    }
}

/// Whether a tunnelling request to channel `ch` with sequence number `seq`
/// at time `now` is processed: the client exists, is not flooding (more
/// than 100 requests in a second) and `seq` is expected.
pub open spec fn processes(cs: Seq<TunnelConnection>, ch: u8, seq: u8, now: u64) -> bool {
    exists|i: int| is_first_client(cs, ch, i) && rx_count_after(cs[i], now) <= 100 && seq == cs[i].rno
}

/// The inputs on which the message handling of the server fails by
/// indexing past the end of the datagram: frames of known services whose
/// body is shorter than their fixed part, tunnelling requests whose
/// connection header runs past the body, and processed tunnelling requests
/// whose cEMI frame is shorter than its own header.
pub open spec fn message_panics(s: KnxNetIpServer, msg: Seq<u8>, now: u64) -> bool {
    let b = body_of(msg);
    &&& msg.len() >= 6
    &&& service_of(msg) is Some
    &&& match service_of(msg)->0 {
        KnxNetIpServiceType::ConnectRequest => b.len() < 16,
        KnxNetIpServiceType::ConnectionstateRequest | KnxNetIpServiceType::DisconnectRequest => b.len() < 2,
        KnxNetIpServiceType::TunnellingAck | KnxNetIpServiceType::DeviceConfigurationAck => b.len() < 4,
        KnxNetIpServiceType::RoutingIndication => b.len() < 2,
        KnxNetIpServiceType::DeviceConfigurationRequest => b.len() < 3 || b[0] > b.len(),
        KnxNetIpServiceType::TunnellingRequest => b.len() < 3 || b[0] > b.len() || (processes(s.clients@, b[1], b[2], now) && {
            let c = b.subrange(b[0] as int, b.len() as int);
            let layer = s.clients@[choose|i: int| is_first_client(s.clients@, b[1], i)].knx_layer;
            c.len() < 2 || ((c[0] == 0x11 || c[0] == 0x10) && layer != KnxLayer::BusmonitorLayer && 2 + c[1] >= c.len())
        }),
        _ => false,
    }
}

fn tail_bytes(b: &[u8], from: usize) -> (r: Vec<u8>)
    requires
        from <= b@.len(),
    ensures
        r@ == b@.subrange(from as int, b@.len() as int),
{
    let n = b.len();
    let mut r: Vec<u8> = Vec::new();
    let mut i = from;
    while i < n
        invariant
            n == b@.len(),
            from <= i <= n,
            r@ == b@.subrange(from as int, i as int),
        decreases n - i,
    {
        r.push(b[i]);
        assert(r@ =~= b@.subrange(from as int, i + 1));
        i = i + 1;
    }
    r
}

fn range_bytes(b: &[u8], from: usize, to: usize) -> (r: Vec<u8>)
    requires
        from <= to <= b@.len(),
    ensures
        r@ == b@.subrange(from as int, to as int),
{
    let mut r: Vec<u8> = Vec::new();
    let mut i = from;
    while i < to
        invariant
            from <= i <= to <= b@.len(),
            r@ == b@.subrange(from as int, i as int),
        decreases to - i,
    {
        r.push(b[i]);
        assert(r@ =~= b@.subrange(from as int, i + 1));
        i = i + 1;
    }
    r
}

impl KnxNetIpServer {
    /// Whether `handle_message` would index past the end of `msg` at time
    /// `now`; such a datagram must not be handed to it.
    pub fn message_would_panic(&self, msg: &[u8], now: u64) -> (r: bool)
        ensures
            r == message_panics(*self, msg@, now),
    {
        let n = msg.len();
        if n < 6 {
            return false;
        }
        let st = match KnxNetIpHeader::from_buffer(msg) {
            Ok(h) => h.service_type,
            Err(_) => {
                return false;
            },
        };
        let bl = n - 6;
        assert(body_of(msg@).len() == bl);
        match st {
            KnxNetIpServiceType::ConnectRequest => bl < 16,
            KnxNetIpServiceType::ConnectionstateRequest | KnxNetIpServiceType::DisconnectRequest => bl < 2,
            KnxNetIpServiceType::TunnellingAck | KnxNetIpServiceType::DeviceConfigurationAck => bl < 4,
            KnxNetIpServiceType::RoutingIndication => bl < 2,
            KnxNetIpServiceType::DeviceConfigurationRequest => bl < 3 || (msg[6] as usize) > bl,
            KnxNetIpServiceType::TunnellingRequest => {
                if bl < 3 || (msg[6] as usize) > bl {
                    return true;
                }
                let ch = msg[7];
                let seq = msg[8];
                match self.find_client(ch) {
                    Some(i) => {
                        let c = &self.clients[i];
                        let base: u64 = if c.last_rx_time <= u64::MAX - 1000 && now >= c.last_rx_time + 1000 {
                            0
                        } else {
                            c.rx_count as u64
                        };
                        proof {
                            assert(is_first_client(self.clients@, ch, i as int));
                            assert forall|k: int| is_first_client(self.clients@, ch, k) implies k == i by {
                                if k < i {
                                    assert(self.clients@[k].channel_id != ch);
                                } else if k > i {
                                    assert(self.clients@[i as int].channel_id != ch);
                                }
                            }
                        }
                        let processed = base + 1 <= 100 && seq == c.rno;
                        if !processed {
                            return false;
                        }
                        let hl = msg[6] as usize;
                        let cl = bl - hl;
                        if cl < 2 {
                            return true;
                        }
                        let c0 = msg[6 + hl];
                        let c1 = msg[7 + hl];
                        (c0 == 0x11 || c0 == 0x10) && c.knx_layer != KnxLayer::BusmonitorLayer && 2 + (c1 as usize) >= cl
                    },
                    None => false,
                }
            },
            _ => false,
        }
    }
}


/// The server's HPAI for answers: UDP, the effective local address, the
/// configured port.
pub open spec fn server_hpai_spec(ip: [u8; 4], port: u16) -> Hpai {
    Hpai { host_protocol: HostProtocolCode::Ipv4Udp, ip_address: ip, port }
}

/// The frame a server sends to close channel `ch`.
pub open spec fn disconnect_frame(ch: u8, server: Hpai) -> Seq<u8> {
    frame_of(KnxNetIpServiceType::DisconnectRequest, seq![ch, 0u8] + hpai_bytes(server))
}

/// A two-octet answer (channel, status) of `service`.
pub open spec fn status_frame(service: KnxNetIpServiceType, ch: u8, status: u8) -> Seq<u8> {
    frame_of(service, seq![ch, status])
}

/// An acknowledgement of `service` (connection header and status).
pub open spec fn ack_of(service: KnxNetIpServiceType, ch: u8, seq: u8, status: u8) -> Seq<u8> {
    frame_of(service, seq![4u8, ch, seq, status])
}

fn status_message(service: KnxNetIpServiceType, ch: u8, status: u8) -> (r: Vec<u8>)
    ensures
        r@ == status_frame(service, ch, status),
{
    let b = vec![ch, status];
    assert(b@ =~= seq![ch, status]);
    build_frame(service, b.as_slice())
}

fn ack_message(service: KnxNetIpServiceType, ch: u8, seq: u8, status: u8) -> (r: Vec<u8>)
    ensures
        r@ == ack_of(service, ch, seq, status),
{
    let b = vec![4u8, ch, seq, status];
    assert(b@ =~= seq![4u8, ch, seq, status]);
    build_frame(service, b.as_slice())
}

fn disconnect_message(ch: u8, server: &Hpai) -> (r: Vec<u8>)
    ensures
        r@ == disconnect_frame(ch, *server),
{
    let mut b = vec![ch, 0u8];
    let hb = server.to_buffer();
    push_all(&mut b, hb.as_slice());
    assert(b@ =~= seq![ch, 0u8] + hpai_bytes(*server));
    build_frame(KnxNetIpServiceType::DisconnectRequest, b.as_slice())
}

/// The octets of a list of blocks, one after the other.
pub open spec fn dibs_bytes(d: Seq<Dib>) -> Seq<u8>
    decreases d.len(),
{
    if d.len() == 0 {
        Seq::empty()
    } else {
        dibs_bytes(d.drop_last()) + crate::protocol::knxnetip_structures::dib_bytes(d.last())
    }
}

fn push_dibs(buf: &mut Vec<u8>, dibs: &Vec<Dib>)
    requires
        forall|i: int| 0 <= i < dibs@.len() ==> crate::protocol::knxnetip_structures::dib_sizes_fit(#[trigger] dibs@[i]),
    ensures
        final(buf)@ == old(buf)@ + dibs_bytes(dibs@),
{
    let n = dibs.len();
    let mut i: usize = 0;
    while i < n
        invariant
            n == dibs@.len(),
            i <= n,
            forall|k: int| 0 <= k < dibs@.len() ==> crate::protocol::knxnetip_structures::dib_sizes_fit(#[trigger] dibs@[k]),
            buf@ == old(buf)@ + dibs_bytes(dibs@.subrange(0, i as int)),
        decreases n - i,
    {
        let b = dibs[i].to_buffer();
        push_all(buf, b.as_slice());
        proof {
            let sub = dibs@.subrange(0, i + 1);
            assert(sub.drop_last() =~= dibs@.subrange(0, i as int));
            assert(sub.last() == dibs@[i as int]);
        }
        assert(buf@ =~= old(buf)@ + dibs_bytes(dibs@.subrange(0, i + 1)));
        i = i + 1;
    }
    assert(dibs@.subrange(0, n as int) =~= dibs@);
}

impl KnxNetIpServer {
    /// The answer to a search request (extended or not) or a description
    /// request from `client`: the response frame with the server HPAI (not
    /// for descriptions) and the identification blocks.
    pub fn identification_response(&self, response_type: KnxNetIpServiceType, with_hpai: bool, server_ip: [u8; 4]) -> (r: Vec<u8>)
        ensures
            exists|d: Seq<Dib>| r@ == frame_of(
                response_type,
                (if with_hpai { hpai_bytes(server_hpai_spec(server_ip, self.options.port)) } else { Seq::empty() }) + dibs_bytes(d),
            ),
            identification_frame(*self, response_type, with_hpai, server_ip, r@),
    {
        let hpai = Hpai::new(HostProtocolCode::Ipv4Udp, server_ip, self.options.port);
        let dibs = self.get_identification_dibs(response_type, server_ip);
        let mut body: Vec<u8> = Vec::new();
        if with_hpai {
            let hb = hpai.to_buffer();
            push_all(&mut body, hb.as_slice());
        }
        let ghost start = body@;
        push_dibs(&mut body, &dibs);
        let r = build_frame(response_type, body.as_slice());
        assert(body@ == (if with_hpai { hpai_bytes(server_hpai_spec(server_ip, self.options.port)) } else { Seq::empty() }) + dibs_bytes(dibs@));
        assert(identification_dibs(*self, response_type, dibs@));
        r
    }

    /// A search or description request: the answer goes to the client's
    /// HPAI (route back resolved); an unresolvable HPAI gets no answer.
    pub fn handle_search(&self, body: &[u8], service: KnxNetIpServiceType, rinfo_ip: Option<[u8; 4]>, rinfo_port: u16, server_ip: [u8; 4]) -> (r: Result<Vec<ServerAction>, KnxError>)
        ensures
            search_outcome(*self, r, body@, service, rinfo_ip, rinfo_port, server_ip),
    {
        let mut client = match Hpai::from_buffer(body) {
            Ok(h) => h,
            Err(e) => {
                return Err(e);
            },
        };
        let mut out: Vec<ServerAction> = Vec::new();
        if !Self::resolve_route_back(&mut client, rinfo_ip, rinfo_port) {
            return Ok(out);
        }
        let (rt, with_hpai) = if service == KnxNetIpServiceType::SearchRequestExtended {
            (KnxNetIpServiceType::SearchResponseExtended, true)
        } else if service == KnxNetIpServiceType::SearchRequest {
            (KnxNetIpServiceType::SearchResponse, true)
        } else {
            (KnxNetIpServiceType::DescriptionResponse, false)
        };
        let packet = self.identification_response(rt, with_hpai, server_ip);
        out.push(ServerAction::SendTo(packet, client.ip_address, client.port));
        Ok(out)
    }

    /// A connect request. A client already connected with the requested
    /// address from the same host is dropped first. The first free channel
    /// takes the new connection: device management connections get address
    /// 0, tunnels the requested address or the slot's own, refused when
    /// another client has it. Refusals carry E_NO_MORE_CONNECTIONS,
    /// E_NO_MORE_UNIQUE_CONNECTIONS or E_CONNECTION_TYPE.
    #[verifier::rlimit(50)]
    pub fn handle_connect_request(&mut self, body: &[u8], rinfo_ip: Option<[u8; 4]>, rinfo_port: u16, server_ip: [u8; 4], now: u64) -> (r: Result<Vec<ServerAction>, KnxError>)
        requires
            body@.len() >= 16,
        ensures
            connect_request_outcome(*old(self), *final(self), r, body@, rinfo_ip, rinfo_port, server_ip),
    {
        let mut control = match Hpai::from_buffer(body) {
            Ok(h) => h,
            Err(e) => {
                return Err(e);
            },
        };
        let data_part = range_bytes(body, 8, 16);
        let mut data = match Hpai::from_buffer(data_part.as_slice()) {
            Ok(h) => h,
            Err(e) => {
                return Err(e);
            },
        };
        let mut out: Vec<ServerAction> = Vec::new();
        if !Self::resolve_route_back(&mut control, rinfo_ip, rinfo_port) {
            return Ok(out);
        }
        if !Self::resolve_route_back(&mut data, rinfo_ip, rinfo_port) {
            return Ok(out);
        }
        let cri_part = tail_bytes(body, 16);
        let cri = match Cri::from_buffer(cri_part.as_slice()) {
            Ok(c) => c,
            Err(e) => {
                return Err(e);
            },
        };
        proof {
            assert(body@.subrange(16, body@.len() as int) == cri_part@);
        }
        let out = self.connect_with(control, data, cri, server_ip, now);
        Ok(out)
    }

    /// The part of `handle_connect_request` after the request was read: the
    /// CRI `cri`, answers to `control`, data to `data`.
    #[verifier::rlimit(100)]
    fn connect_with(&mut self, control: Hpai, data: Hpai, cri: Cri, server_ip: [u8; 4], now: u64) -> (a: Vec<ServerAction>)
        ensures
            connect_accept(*old(self), final(self).clients@, a@, cri, control.ip_address@, control.port, data.ip_address@, data.port, server_ip),
            a@.len() <= 2,
            final(self).clients@.len() <= old(self).clients@.len() + 1,
            final(self).clients@.len() == old(self).clients@.len() + 1 ==> ({
                let c = final(self).clients@.last();
                &&& 1 <= c.channel_id <= old(self).max_tunnel_connections
                &&& forall|j: int| 0 <= j < final(self).clients@.len() - 1 ==> final(self).clients@[j].channel_id != c.channel_id
                &&& c.sno == 0 && c.rno == 0
            }),
    {
        let mut out: Vec<ServerAction> = Vec::new();
        let server_hpai = Hpai::new(HostProtocolCode::Ipv4Udp, server_ip, self.options.port);
        // a stale connection of the same address from the same host goes first
        match cri.individual_address {
            Some(addr) => {
                if addr != 0 {
                    let n = self.clients.len();
                    let mut i: usize = 0;
                    let mut found: Option<usize> = None;
                    while i < n && found.is_none()
                        invariant
                            n == self.clients@.len(),
                            self.clients@ == old(self).clients@,
                            i <= n,
                            found is None ==> forall|j: int| 0 <= j < i ==> !is_stale(#[trigger] self.clients@[j], addr, control.ip_address@),
                            found matches Some(k) ==> is_first_stale(self.clients@, addr, control.ip_address@, k as int),
                        decreases n - i + (if found is None { 1int } else { 0int }),
                    {
                        if self.clients[i].knx_address == addr && crate::utils::ip::ip_eq(&self.clients[i].control_hpai.ip_address, &control.ip_address) {
                            found = Some(i);
                        } else {
                            i = i + 1;
                        }
                    }
                    proof {
                        match found {
                            Some(k) => {
                                lemma_stale_index(self.clients@, addr, control.ip_address@, k as int);
                            },
                            None => {
                                assert(!exists|k: int| is_first_stale(self.clients@, addr, control.ip_address@, k));
                            },
                        }
                    }
                    match found {
                        Some(k) => {
                            let mut stale = self.clients.remove(k);
                            stale.close();
                            out.push(ServerAction::Emit(ServerEvent::DisconnectedClient(stale.channel_id)));
                        },
                        None => {},
                    }
                }
            },
            None => {},
        }
        let ghost cs1 = self.clients@;
        let ghost out1 = out@;
        assert(cs1 == without_stale(old(self).clients@, cri, control.ip_address@));
        assert(out1.len() == if stale_of(old(self).clients@, cri, control.ip_address@) is Some { 1int } else { 0int });
        let channel_id = self.free_channel();
        let layer = match KnxLayer::from_u8(cri.knx_layer) {
            Some(l) => l,
            None => KnxLayer::LinkLayer,
        };
        let status: u8;
        if channel_id == 0 {
            status = 0x24;
        } else if cri.connection_type == ConnectionType::DeviceMgmtConnection {
            let conn = TunnelConnection::new_at(channel_id, Hpai::new(control.host_protocol, control.ip_address, control.port), Hpai::new(data.host_protocol, data.ip_address, data.port), 0, string_of("0.0.0"), layer, 120_000, 1_000, 100, self.origin, now);
            self.clients.push(conn);
            assert(self.clients@.drop_last() =~= cs1);
            let mut res_body = vec![channel_id, 0u8];
            let hb = server_hpai.to_buffer();
            push_all(&mut res_body, hb.as_slice());
            res_body.push(0x02);
            res_body.push(ConnectionType::DeviceMgmtConnection.code());
            assert(res_body@ =~= seq![channel_id, 0u8] + hpai_bytes(server_hpai) + seq![2u8, 0x03u8]);
            let packet = build_frame(KnxNetIpServiceType::ConnectResponse, res_body.as_slice());
            out.push(ServerAction::SendTo(packet, control.ip_address, control.port));
            return out;
        } else if cri.connection_type == ConnectionType::TunnelConnection {
            let mut knx_addr: u16 = match cri.individual_address {
                Some(a) => a,
                None => 0,
            };
            if knx_addr == 0 {
                knx_addr = self.client_addrs_start_int.wrapping_add(channel_id as u16).wrapping_sub(1);
            }
            assert(knx_addr == tunnel_address(cri, channel_id, old(self).client_addrs_start_int));
            let n = self.clients.len();
            let mut taken = false;
            let mut i: usize = 0;
            while i < n
                invariant
                    n == self.clients@.len(),
                    i <= n,
                    self.clients@ == cs1,
                    taken == exists|j: int| 0 <= j < i && #[trigger] self.clients@[j].knx_address == knx_addr,
                decreases n - i,
            {
                if self.clients[i].knx_address == knx_addr {
                    taken = true;
                }
                proof {
                    if !taken {
                        assert forall|j: int| 0 <= j < i + 1 implies #[trigger] self.clients@[j].knx_address != knx_addr by {
                            if j < i {
                                assert(!(0 <= j < i && self.clients@[j].knx_address == knx_addr));
                            }
                        }
                    } else if self.clients@[i as int].knx_address != knx_addr {
                        let w = choose|j: int| 0 <= j < i && #[trigger] self.clients@[j].knx_address == knx_addr;
                        assert(0 <= w < i + 1 && self.clients@[w].knx_address == knx_addr);
                    }
                }
                i = i + 1;
            }
            assert(taken == address_taken(cs1, knx_addr));
            if !taken {
                let addr_str = match KnxHelper::get_address_from_number(knx_addr, ".", false) {
                    Ok(t) => t,
                    Err(_) => string_of("0.0.0"),
                };
                let conn = TunnelConnection::new_at(channel_id, Hpai::new(control.host_protocol, control.ip_address, control.port), Hpai::new(data.host_protocol, data.ip_address, data.port), knx_addr, addr_str, layer, 120_000, 1_000, 100, self.origin, now);
                self.clients.push(conn);
                assert(self.clients@.drop_last() =~= cs1);
                let crd = Crd::new(ConnectionType::TunnelConnection, knx_addr);
                let mut res_body = vec![channel_id, 0u8];
                let hb = server_hpai.to_buffer();
                push_all(&mut res_body, hb.as_slice());
                let cb = crd.to_buffer();
                push_all(&mut res_body, cb.as_slice());
                let packet = build_frame(KnxNetIpServiceType::ConnectResponse, res_body.as_slice());
                out.push(ServerAction::SendTo(packet, control.ip_address, control.port));
                return out;
            }
            status = 0x25;
        } else {
            status = 0x22;
        }
        let hdr = KnxNetIpHeader::new(KnxNetIpServiceType::ConnectResponse, 8);
        let mut packet = hdr.to_buffer();
        packet.push(0);
        packet.push(status);
        assert(packet@ =~= connect_refusal(status));
        out.push(ServerAction::SendTo(packet, control.ip_address, control.port));
        out
    }
}


impl KnxNetIpServer {
    /// A connection state request for channel `body[0]`: answered with
    /// E_NO_ERROR (restarting the client's heartbeat) or E_CONNECTION_ID.
    pub fn handle_connection_state(&mut self, body: &[u8], rinfo_ip: Option<[u8; 4]>, rinfo_port: u16, now: u64) -> (r: Result<Vec<ServerAction>, KnxError>)
        requires
            body@.len() >= 2,
        ensures
            connection_state_outcome(*old(self), *final(self), r, body@, rinfo_ip, rinfo_port, now),
    {
        let ch = body[0];
        let tail = tail_bytes(body, 2);
        let mut control = match Hpai::from_buffer(tail.as_slice()) {
            Ok(h) => h,
            Err(e) => {
                return Err(e);
            },
        };
        let mut out: Vec<ServerAction> = Vec::new();
        if !Self::resolve_route_back(&mut control, rinfo_ip, rinfo_port) {
            return Ok(out);
        }
        let status: u8 = match self.find_client(ch) {
            Some(i) => {
                proof {
                    lemma_client_index(old(self).clients@, ch, i as int);
                }
                let mut c = self.clients.remove(i);
                c.reset_heartbeat_at(now);
                self.clients.insert(i, c);
                assert(self.clients@ =~= old(self).clients@.update(i as int, c));
                0
            },
            None => 0x21,
        };
        out.push(ServerAction::SendTo(status_message(KnxNetIpServiceType::ConnectionstateResponse, ch, status), control.ip_address, control.port));
        Ok(out)
    }

    /// A disconnect request for channel `body[0]`: the client, if any, is
    /// dropped (and reported), and the request is answered with E_NO_ERROR.
    pub fn handle_disconnect(&mut self, body: &[u8], rinfo_ip: Option<[u8; 4]>, rinfo_port: u16) -> (r: Result<Vec<ServerAction>, KnxError>)
        requires
            body@.len() >= 2,
        ensures
            disconnect_outcome(*old(self), *final(self), r, body@, rinfo_ip, rinfo_port),
    {
        let ch = body[0];
        let tail = tail_bytes(body, 2);
        let mut control = match Hpai::from_buffer(tail.as_slice()) {
            Ok(h) => h,
            Err(e) => {
                return Err(e);
            },
        };
        let mut out: Vec<ServerAction> = Vec::new();
        if !Self::resolve_route_back(&mut control, rinfo_ip, rinfo_port) {
            return Ok(out);
        }
        match self.find_client(ch) {
            Some(i) => {
                proof {
                    lemma_client_index(old(self).clients@, ch, i as int);
                }
                let mut c = self.clients.remove(i);
                c.close();
                out.push(ServerAction::Emit(ServerEvent::DisconnectedClient(ch)));
            },
            None => {},
        }
        out.push(ServerAction::SendTo(status_message(KnxNetIpServiceType::DisconnectResponse, ch, 0), control.ip_address, control.port));
        Ok(out)
    }

    /// An acknowledgement from a client (tunnelling or device
    /// configuration): handed to its connection, whose next queued frame is
    /// then sent.
    pub fn handle_client_ack(&mut self, body: &[u8], now: u64) -> (r: Vec<ServerAction>)
        requires
            body@.len() >= 4,
        ensures
            client_ack_outcome(*old(self), *final(self), r, body@, now),
    {
        let mut out: Vec<ServerAction> = Vec::new();
        match self.find_client(body[1]) {
            Some(i) => {
                proof {
                    lemma_client_index(old(self).clients@, body@[1], i as int);
                }
                let mut c = self.clients.remove(i);
                let _ = c.handle_ack_at(body[2], body[3], now);
                match c.process_queue_at(now) {
                    Some(p) => {
                        out.push(ServerAction::SendToEndpoint(p, c.data_endpoint()));
                    },
                    None => {},
                }
                self.clients.insert(i, c);
                assert(self.clients@ =~= old(self).clients@.update(i as int, c));
            },
            None => {},
        }
        out
    }

    /// What follows the acknowledgement of a processed tunnelling request
    /// carrying the cEMI frame `cemi`, from a client on channel `ch` with
    /// layer `layer` and address `addr`: bus monitor clients cannot send
    /// data or raw requests; otherwise an empty source address of an
    /// L_Data.req becomes the client's, the frame is indicated and routed
    /// (requests as indications), and data and raw requests are confirmed
    /// to the client (confirmation code, confirm bit cleared).
    #[verifier::rlimit(80)]
    fn tunnelled_frame(&mut self, cemi: Vec<u8>, layer: KnxLayer, addr: u16, ch: u8, now: u64) -> (r: Vec<ServerAction>)
        requires
            cemi@.len() >= 2,
            !((cemi@[0] == 0x11 || cemi@[0] == 0x10) && layer != KnxLayer::BusmonitorLayer && 2 + cemi@[1] >= cemi@.len()),
        ensures
            tunnel_outcome(old(self).pacing, final(self).pacing, r@, cemi@, layer, addr),
            final(self).clients@.len() == old(self).clients@.len(),
            forall|j: int| 0 <= j < old(self).clients@.len() ==> #[trigger] final(self).clients@[j].channel_id == old(self).clients@[j].channel_id,
            ((cemi@[0] == 0x11 || cemi@[0] == 0x10) && layer != KnxLayer::BusmonitorLayer && has_channel(old(self).clients@, ch)) ==> confirmation_offered(
                old(self).clients@[client_index(old(self).clients@, ch)],
                final(self).clients@[client_index(old(self).clients@, ch)],
                ch,
                filled_cemi(cemi@, addr),
            ),
    {
        let mut out: Vec<ServerAction> = Vec::new();
        let mut cemi = cemi;
        let ghost c0 = cemi@;
        let msg_code = cemi[0];
        let add_info_len = cemi[1] as usize;
        if layer == KnxLayer::BusmonitorLayer && (msg_code == 0x11 || msg_code == 0x10) {
            return out;
        }
        if msg_code == 0x11 {
            let off = 2 + add_info_len + 2;
            if off + 1 < cemi.len() {
                if cemi[off] == 0 && cemi[off + 1] == 0 {
                    cemi.set(off, (addr / 256) as u8);
                    cemi.set(off + 1, (addr % 256) as u8);
                }
            }
        }
        assert(cemi@ =~= filled_cemi(c0, addr));
        match Cemi::from_buffer(cemi.as_slice()) {
            Ok(parsed) => {
                out.push(ServerAction::Indicate(parsed, cemi.clone()));
            },
            Err(_) => {},
        }
        let ghost indicated = out@;
        let mut routing = cemi.clone();
        if msg_code == 0x11 {
            routing.set(0, 0x29);
        } else if msg_code == 0x10 {
            routing.set(0, 0x2d);
        }
        assert(routing@ =~= routed_cemi(filled_cemi(c0, addr)));
        let mut more = self.enqueue_packet(routing.as_slice());
        out.append(&mut more);
        assert(out@.subrange(0, indicated.len() as int) =~= indicated);
        let ghost queued = self.pacing;
        if msg_code == 0x11 || msg_code == 0x10 {
            let mut con = cemi.clone();
            con.set(0, msg_code + 0x1D);
            let k = 2 + add_info_len;
            let cleared = con[k] & 0xFE;
            let ghost orig = cemi@[k as int];
            assert(cleared % 2 == 0 && cleared / 2 == orig / 2) by (bit_vector)
                requires
                    cleared == orig & 0xFE,
            ;
            con.set(k, cleared);
            assert(is_confirmation(con@, filled_cemi(c0, addr)));
            match self.find_client(ch) {
                Some(i) => {
                    proof {
                        lemma_client_index(old(self).clients@, ch, i as int);
                    }
                    let mut cc = self.clients.remove(i);
                    let ghost cc0 = cc;
                    let _ = cc.enqueue(con.as_slice(), KnxNetIpServiceType::TunnellingRequest);
                    match cc.process_queue_at(now) {
                        Some(p) => {
                            out.push(ServerAction::SendToEndpoint(p, cc.data_endpoint()));
                        },
                        None => {},
                    }
                    self.clients.insert(i, cc);
                    assert(self.clients@ =~= old(self).clients@.update(i as int, cc));
                    proof {
                        if !(cc0.max_queue_size > 0 && cc0.queue@.len() >= cc0.max_queue_size) {
                            assert(offered_last(cc) == tunnel_frame(KnxNetIpServiceType::TunnellingRequest, ch, cc0.sno, con@));
                            assert(is_confirmation(con@, filled_cemi(c0, addr)));
                        }
                    }
                },
                None => {},
            }
        }
        assert(out@.subrange(0, indicated.len() as int) =~= indicated);
        out
    }

    /// A tunnelling request from a client. A client sending more than 100
    /// requests in a second is dropped and told so. Otherwise the sequence
    /// number decides: repeated requests are acknowledged again, unexpected
    /// ones dropped, expected ones acknowledged and processed as
    /// `tunnelled_frame` describes.
    #[verifier::rlimit(80)]
    pub fn handle_tunnelling_request(&mut self, body: &[u8], server_ip: [u8; 4], now: u64) -> (r: Vec<ServerAction>)
        requires
            body@.len() >= 3,
            body@[0] <= body@.len(),
            processes(old(self).clients@, body@[1], body@[2], now) ==> ({
                let c = body@.subrange(body@[0] as int, body@.len() as int);
                let layer = old(self).clients@[choose|i: int| is_first_client(old(self).clients@, body@[1], i)].knx_layer;
                c.len() >= 2 && !((c[0] == 0x11 || c[0] == 0x10) && layer != KnxLayer::BusmonitorLayer && 2 + c[1] >= c.len())
            }),
        ensures
            tunnelling_outcome(*old(self), *final(self), r, body@, server_ip, now),
    {
        let mut out: Vec<ServerAction> = Vec::new();
        let header_len = body[0] as usize;
        let ch = body[1];
        let seq = body[2];
        let idx = match self.find_client(ch) {
            Some(i) => i,
            None => {
                return out;
            },
        };
        proof {
            assert(is_first_client(old(self).clients@, ch, idx as int));
            assert forall|k: int| is_first_client(old(self).clients@, ch, k) implies k == idx by {
                if k < idx {
                    assert(old(self).clients@[k].channel_id != ch);
                } else if k > idx {
                    assert(old(self).clients@[idx as int].channel_id != ch);
                }
            }
        }
        let mut c = self.clients.remove(idx);
        let ghost c0 = c;
        if c.last_rx_time <= u64::MAX - 1000 && now >= c.last_rx_time + 1000 {
            c.rx_count = 0;
            c.last_rx_time = now;
        }
        c.rx_count = c.rx_count.saturating_add(1);
        if c.rx_count > 100 {
            let ep = c.control_endpoint();
            c.close();
            out.push(ServerAction::Emit(ServerEvent::DisconnectedClient(ch)));
            let server_hpai = Hpai::new(HostProtocolCode::Ipv4Udp, server_ip, self.options.port);
            out.push(ServerAction::SendToEndpoint(disconnect_message(ch, &server_hpai), ep));
            return out;
        }
        let v = c.validate_request_at(seq, now);
        let knx_layer = c.knx_layer;
        let knx_address = c.knx_address;
        let data_ep = c.data_endpoint();
        self.clients.insert(idx, c);
        if v.action == RequestAction::RetransmitAck {
            out.push(ServerAction::SendToEndpoint(ack_message(KnxNetIpServiceType::TunnellingAck, ch, seq, v.status), data_ep));
            return out;
        }
        if v.action == RequestAction::Discard {
            return out;
        }
        assert(processes(old(self).clients@, ch, seq, now));
        out.push(ServerAction::SendToEndpoint(ack_message(KnxNetIpServiceType::TunnellingAck, ch, seq, v.status), data_ep));
        let ghost acked = out@;
        let cemi = tail_bytes(body, header_len);
        let ghost mid = self.clients@;
        proof {
            assert(mid =~= old(self).clients@.update(idx as int, c));
            assert(is_first_client(mid, ch, idx as int)) by {
                assert forall|j: int| 0 <= j < idx implies mid[j].channel_id != ch by {
                    assert(mid[j] == old(self).clients@[j]);
                }
            }
            lemma_client_index(mid, ch, idx as int);
            assert(has_channel(mid, ch));
        }
        let mut more = self.tunnelled_frame(cemi, knx_layer, knx_address, ch, now);
        let ghost rest = more@;
        out.append(&mut more);
        assert(out@.subrange(1, out@.len() as int) =~= rest);
        out
    }
}


impl KnxNetIpServer {
    /// A device configuration request. Sequence numbers are handled as for
    /// tunnelling; an expected request is acknowledged, and a property
    /// read is answered with a read confirmation, which carries the
    /// server's individual address for the device object's property 1 and
    /// no data otherwise.
    #[verifier::rlimit(60)]
    pub fn handle_device_configuration(&mut self, body: &[u8], now: u64) -> (r: Vec<ServerAction>)
        requires
            body@.len() >= 3,
            body@[0] <= body@.len(),
        ensures
            device_configuration_outcome(*old(self), *final(self), r, body@, now),
    {
        let mut out: Vec<ServerAction> = Vec::new();
        let header_len = body[0] as usize;
        let ch = body[1];
        let seq = body[2];
        let idx = match self.find_client(ch) {
            Some(i) => i,
            None => {
                return out;
            },
        };
        proof {
            lemma_client_index(old(self).clients@, ch, idx as int);
        }
        let mut c = self.clients.remove(idx);
        let v = c.validate_request_at(seq, now);
        let data_ep = c.data_endpoint();
        self.clients.insert(idx, c);
        assert(self.clients@ =~= old(self).clients@.update(idx as int, c));
        let ghost mid = self.clients@;
        if v.action == RequestAction::RetransmitAck {
            out.push(ServerAction::SendToEndpoint(ack_message(KnxNetIpServiceType::DeviceConfigurationAck, ch, seq, v.status), data_ep));
            return out;
        }
        if v.action == RequestAction::Discard {
            return out;
        }
        out.push(ServerAction::SendToEndpoint(ack_message(KnxNetIpServiceType::DeviceConfigurationAck, ch, seq, 0), data_ep));
        let cemi = tail_bytes(body, header_len);
        let ghost cm = cemi@;
        match Cemi::from_buffer(cemi.as_slice()) {
            Ok(Cemi::MPropReadReq(req)) => {
                let mut data: Vec<u8> = Vec::new();
                if req.interface_object_type == 0 && req.property_id == 1 {
                    match KnxHelper::get_address_from_string(self.options.individual_address.as_str()) {
                        Ok(a) => {
                            data.push(a[0]);
                            data.push(a[1]);
                            assert(data@ =~= a@);
                        },
                        Err(_) => {},
                    }
                }
                let ghost d = data@;
                let res = Cemi::MPropReadCon(MPropWithPayload {
                    interface_object_type: req.interface_object_type,
                    object_instance: req.object_instance,
                    property_id: req.property_id,
                    number_of_elements: req.number_of_elements,
                    start_index: req.start_index,
                    data,
                });
                let bytes = res.to_buffer();
                proof {
                    lemma_prop_read_answer(cm, req, d, old(self).options.individual_address@);
                    assert(bytes@ == prop_read_answer(cm, old(self).options.individual_address@));
                }
                match self.find_client(ch) {
                    Some(i) => {
                        proof {
                            lemma_client_index(mid, ch, idx as int);
                            lemma_client_index(mid, ch, i as int);
                        }
                        let mut cc = self.clients.remove(i);
                        let _ = cc.enqueue(bytes.as_slice(), KnxNetIpServiceType::DeviceConfigurationRequest);
                        match cc.process_queue_at(now) {
                            Some(p) => {
                                out.push(ServerAction::SendToEndpoint(p, cc.data_endpoint()));
                            },
                            None => {},
                        }
                        self.clients.insert(i, cc);
                        assert(self.clients@ =~= mid.update(i as int, cc));
                    },
                    None => {
                        assert(mid[idx as int].channel_id == ch);
                    },
                }
            },
            _ => {},
        }
        out
    }

    /// Hands a cEMI frame to every client (bus monitor clients get its bus
    /// monitor form), except the client whose address is `skip`, and
    /// sends each client's next queued frame.
    pub fn forward_to_clients(&mut self, cemi: &[u8], skip: &str, now: u64) -> (r: Vec<ServerAction>)
        requires
            busmon_input_ok(cemi@),
        ensures
            final(self).clients@.len() == old(self).clients@.len(),
            r@.len() <= old(self).clients@.len(),
            sends_are(r@, forward_sends(old(self).clients@, cemi@, skip@)),
            forall|j: int| 0 <= j < old(self).clients@.len() ==> #[trigger] final(self).clients@[j].same_identity(old(self).clients@[j]),
            final(self).pacing == old(self).pacing,
            final(self).options == old(self).options,
    {
        let mut out: Vec<ServerAction> = Vec::new();
        let busmon = convert_data_ind_to_busmon_ind(cemi);
        assert(busmon@ == busmon_form(cemi@));
        let n = self.clients.len();
        let mut i: usize = 0;
        while i < n
            invariant
                n == self.clients@.len(),
                n == old(self).clients@.len(),
                i <= n,
                out@.len() <= i,
                busmon@ == busmon_form(cemi@),
                self.pacing == old(self).pacing,
                self.options == old(self).options,
                sends_are(out@, forward_sends(old(self).clients@.subrange(0, i as int), cemi@, skip@)),
                forall|j: int| i <= j < n ==> self.clients@[j] == old(self).clients@[j],
                forall|j: int| 0 <= j < i ==> #[trigger] self.clients@[j].same_identity(old(self).clients@[j]),
            decreases n - i,
        {
            proof {
                assert(old(self).clients@.subrange(0, i as int + 1).drop_last() =~= old(self).clients@.subrange(0, i as int));
            }
            let ghost out0 = out@;
            let ghost clients0 = self.clients@;
            let mut c = self.clients.remove(i);
            let ghost c0 = c;
            if !crate::utils::text::str_eq(skip, c.knx_address_str.as_str()) {
                if c.knx_layer == KnxLayer::BusmonitorLayer {
                    let _ = c.enqueue(busmon.as_slice(), KnxNetIpServiceType::TunnellingRequest);
                } else {
                    let _ = c.enqueue(cemi, KnxNetIpServiceType::TunnellingRequest);
                }
                match c.process_queue_at(now) {
                    Some(p) => {
                        out.push(ServerAction::SendToEndpoint(p, c.data_endpoint()));
                    },
                    None => {},
                }
            }
            self.clients.insert(i, c);
            proof {
                assert(self.clients@ =~= clients0.update(i as int, c));
                assert(c0 == old(self).clients@[i as int]);
                assert(old(self).clients@.subrange(0, i as int + 1).last() == c0);
                let f = forward_sends(old(self).clients@.subrange(0, i as int + 1), cemi@, skip@);
                assert forall|k: int| 0 <= k < out@.len() implies (#[trigger] out@[k] matches ServerAction::SendToEndpoint(p, e) && p@ == f[k].0 && e@ == f[k].1) by {
                    if k < out0.len() {
                        assert(out@[k] == out0[k]);
                    }
                }
            }
            i = i + 1;
        }
        assert(old(self).clients@.subrange(0, n as int) =~= old(self).clients@);
        out
    }

    /// A routing indication from the multicast group. Frames from the
    /// server's own address are echoes and dropped; others are indicated
    /// and forwarded to the clients.
    pub fn handle_routing_indication(&mut self, msg: &[u8], now: u64) -> (r: Vec<ServerAction>)
        requires
            msg@.len() >= 8,
        ensures
            routing_indication_outcome(*old(self), *final(self), r, msg@, now),
    {
        let mut out: Vec<ServerAction> = Vec::new();
        let n = msg.len();
        let ai = msg[7] as usize;
        if n - 6 >= 6 + ai {
            let src = (msg[10 + ai] as u16) * 256 + msg[11 + ai] as u16;
            if src == self.server_ia_int {
                return out;
            }
        }
        let cemi = tail_bytes(msg, 6);
        assert(cemi@ == body_of(msg@));
        match Cemi::from_buffer(cemi.as_slice()) {
            Ok(parsed) => {
                out.push(ServerAction::Indicate(parsed, cemi.clone()));
                let ghost first = out@;
                let none = "";
                proof {
                    reveal_strlit("");
                    assert(none@ =~= Seq::<char>::empty());
                }
                let mut more = self.forward_to_clients(cemi.as_slice(), none, now);
                let ghost rest = more@;
                out.append(&mut more);
                assert(out@.subrange(1, out@.len() as int) =~= rest);
                assert(out@[0] == first[0]);
            },
            Err(_) => {},
        }
        out
    }

    /// A lost message notice from another router: indicated as a bus
    /// monitor frame carrying the notice.
    pub fn handle_lost_message(&self, body: &[u8]) -> (r: Vec<ServerAction>)
        ensures
            lost_message_outcome(*self, r, body@),
    {
        let mut out: Vec<ServerAction> = Vec::new();
        match RoutingLostMessage::from_buffer(body) {
            Ok(lost) => {
                let data = lost.to_buffer();
                let cemi = Cemi::LBusmonInd(LBusmon { additional_info: Vec::new(), data });
                out.push(ServerAction::Emit(ServerEvent::RoutingLostMessage(lost)));
                let raw = copy_bytes(body);
                out.push(ServerAction::Indicate(cemi, raw));
            },
            Err(_) => {},
        }
        out
    }

    /// Handles a datagram from `rinfo` (its IPv4 address, `None` for IPv6,
    /// and port) at time `now`. `server_ip` is the address the server
    /// answers from (see `effective_local_ip`), `pseudo_rand` a random
    /// number for routing flow control. Datagrams shorter than a header or
    /// with an invalid header are errors; datagrams from the server's own
    /// address and port are echoes and ignored.
    pub fn handle_message(&mut self, msg: &[u8], rinfo_ip: Option<[u8; 4]>, rinfo_port: u16, server_ip: [u8; 4], now: u64, pseudo_rand: u32) -> (r: Result<Vec<ServerAction>, KnxError>)
        requires
            !message_panics(*old(self), msg@, now),
        ensures
            msg@.len() < 6 ==> r == Err::<Vec<ServerAction>, KnxError>(KnxError::InvalidParametersForDpt),
            msg@.len() >= 6 && service_of(msg@) is None ==> r == Err::<Vec<ServerAction>, KnxError>(KnxError::InvalidParametersForDpt),
            ({
                let conf = match parse_ipv4_spec(old(self).options.local_ip@) {
                    Some(x) => x,
                    None => seq![127u8, 0u8, 0u8, 1u8],
                };
                &&& (msg@.len() >= 6 && service_of(msg@) is Some && (rinfo_ip matches Some(a) && a@ == conf) && rinfo_port == old(self).options.port)
                    ==> (r matches Ok(v) && v@.len() == 0 && final(self).clients@ == old(self).clients@)
                &&& (msg@.len() >= 6 && (service_of(msg@) matches Some(st) && !served(st)) && !((rinfo_ip matches Some(a) && a@ == conf) && rinfo_port == old(self).options.port))
                    ==> (r matches Ok(v) && v@.len() == 0 && final(self).clients@ == old(self).clients@)
                &&& (msg@.len() >= 6 && !((rinfo_ip matches Some(a) && a@ == conf) && rinfo_port == old(self).options.port))
                    ==> dispatched(*old(self), *final(self), r, msg@, rinfo_ip, rinfo_port, server_ip, now, pseudo_rand)
            }),
    {
        if msg.len() < 6 {
            return Err(KnxError::InvalidParametersForDpt);
        }
        let header = match KnxNetIpHeader::from_buffer(msg) {
            Ok(h) => h,
            Err(e) => {
                return Err(e);
            },
        };
        let local = match parse_ipv4(self.options.local_ip.as_str()) {
            Some(x) => x,
            None => {
                let d = [127u8, 0u8, 0u8, 1u8];
                assert(d@ =~= seq![127u8, 0u8, 0u8, 1u8]);
                d
            },
        };
        match rinfo_ip {
            Some(a) => {
                if crate::utils::ip::ip_eq(&a, &local) && rinfo_port == self.options.port {
                    return Ok(Vec::new());
                }
            },
            None => {},
        }
        let body = tail_bytes(msg, 6);
        assert(body@ == body_of(msg@));
        let st = header.service_type;
        if st == KnxNetIpServiceType::SearchRequest || st == KnxNetIpServiceType::SearchRequestExtended
            || st == KnxNetIpServiceType::DescriptionRequest {
            self.handle_search(body.as_slice(), st, rinfo_ip, rinfo_port, server_ip)
        } else if st == KnxNetIpServiceType::ConnectRequest {
            self.handle_connect_request(body.as_slice(), rinfo_ip, rinfo_port, server_ip, now)
        } else if st == KnxNetIpServiceType::ConnectionstateRequest {
            self.handle_connection_state(body.as_slice(), rinfo_ip, rinfo_port, now)
        } else if st == KnxNetIpServiceType::DisconnectRequest {
            self.handle_disconnect(body.as_slice(), rinfo_ip, rinfo_port)
        } else if st == KnxNetIpServiceType::TunnellingRequest {
            Ok(self.handle_tunnelling_request(body.as_slice(), server_ip, now))
        } else if st == KnxNetIpServiceType::TunnellingAck || st == KnxNetIpServiceType::DeviceConfigurationAck {
            Ok(self.handle_client_ack(body.as_slice(), now))
        } else if st == KnxNetIpServiceType::DeviceConfigurationRequest {
            Ok(self.handle_device_configuration(body.as_slice(), now))
        } else if st == KnxNetIpServiceType::RoutingIndication {
            Ok(self.handle_routing_indication(msg, now))
        } else if st == KnxNetIpServiceType::RoutingBusy {
            match RoutingBusy::from_buffer(body.as_slice()) {
                Ok(busy) => Ok(self.handle_routing_busy(busy, now, pseudo_rand)),
                Err(_) => Ok(Vec::new()),
            }
        } else if st == KnxNetIpServiceType::RoutingLostMessage {
            Ok(self.handle_lost_message(body.as_slice()))
        } else {
            Ok(Vec::new())
        }
    }
}


/// The name of a server state.
pub open spec fn server_state_name(s: KnxServerState) -> Seq<char> {
    match s {
        KnxServerState::Stopped => "STOPPED"@,
        KnxServerState::Starting => "STARTING"@,
        KnxServerState::Running => "RUNNING"@,
        KnxServerState::Faulted => "FAULTED"@,
    }
}

/// The body of a search response after its header, for a packet of at
/// least 14 octets with a valid header of a (extended) search response
/// whose control endpoint reads.
pub open spec fn search_body(packet: Seq<u8>) -> Option<Seq<u8>> {
    if packet.len() >= 14 && (parse_header_spec(packet) matches Some(h) && (h.service_type
        == KnxNetIpServiceType::SearchResponse || h.service_type
        == KnxNetIpServiceType::SearchResponseExtended)) && host_protocol_of(packet[7]) is Some {
        Some(packet.subrange(6, packet.len() as int))
    } else {
        None
    }
}

/// The block that starts at `o`, as long as its length octet says.
pub open spec fn block_at(body: Seq<u8>, o: int) -> Seq<u8> {
    body.subrange(o, o + body[o])
}

/// The place of the last device information block in the chain of blocks
/// of `body` from `offset`, or `found` where there is none after it. The
/// chain ends at an empty block or one that overruns the body.
pub open spec fn last_device_info(body: Seq<u8>, offset: int, found: Option<int>) -> Option<int>
    decreases body.len() - offset,
{
    if offset < 0 || offset >= body.len() {
        found
    } else {
        let dl = body[offset] as int;
        if dl == 0 || dl > body.len() - offset {
            found
        } else {
            let blk = body.subrange(offset, offset + dl);
            let f = if dib_parse_ok(blk) && description_type_of(blk[1]) == Some(DescriptionType::DeviceInfo) {
                Some(offset)
            } else {
                found
            };
            last_device_info(body, offset + dl, f)
        }
    }
}

/// The control endpoint of a search response body as `a.b.c.d:port`.
pub open spec fn endpoint_of(body: Seq<u8>) -> Seq<char> {
    dec_str(body[2] as nat) + seq!['.'] + dec_str(body[3] as nat) + seq!['.'] + dec_str(body[4] as nat)
        + seq!['.'] + dec_str(body[5] as nat) + seq![':'] + dec_str(be16(body[6], body[7]) as nat)
}

/// Whether `dev` is the device that block `blk` of a search response body
/// describes: its address is the sender's, or the endpoint's without one;
/// its serial number is derived from its name.
pub open spec fn found_device(dev: KnxDiscoveredDevice, blk: Seq<u8>, body: Seq<u8>, sender: Option<[u8; 4]>) -> bool {
    let p = dib_payload(blk);
    &&& dev.ip@ == (match sender {
        Some(a) => a@,
        None => body.subrange(2, 6),
    })
    &&& dev.port == be16(body[6], body[7])
    &&& Some(dev.knx_medium) == knx_medium_of(p[2])
    &&& dev.device_status == p[3]
    &&& dev.individual_address == be16(p[4], p[5])
    &&& dev.project_installation_id == be16(p[6], p[7])
    &&& dev.routing_multicast_address@ == p.subrange(14, 18)
    &&& dev.mac_address@ == p.subrange(18, 24)
    &&& dev.friendly_name@ == utf8_lossy_chars(until_nul(p.subrange(24, p.len() as int)))
    &&& dev.serial_number@ == name_serial(vstd::utf8::encode_utf8(dev.friendly_name@))
}

/// The services the server answers; others are ignored.
pub open spec fn served(st: KnxNetIpServiceType) -> bool {
    ||| st == KnxNetIpServiceType::SearchRequest
    ||| st == KnxNetIpServiceType::SearchRequestExtended
    ||| st == KnxNetIpServiceType::DescriptionRequest
    ||| st == KnxNetIpServiceType::ConnectRequest
    ||| st == KnxNetIpServiceType::ConnectionstateRequest
    ||| st == KnxNetIpServiceType::DisconnectRequest
    ||| st == KnxNetIpServiceType::TunnellingRequest
    ||| st == KnxNetIpServiceType::TunnellingAck
    ||| st == KnxNetIpServiceType::DeviceConfigurationAck
    ||| st == KnxNetIpServiceType::DeviceConfigurationRequest
    ||| st == KnxNetIpServiceType::RoutingIndication
    ||| st == KnxNetIpServiceType::RoutingBusy
    ||| st == KnxNetIpServiceType::RoutingLostMessage
}

/// Whether the periodic check drops client `c` at `now`: its heartbeat
/// period ran out, or its frame timed out a second time and ACK timeouts
/// are not ignored.
pub open spec fn client_dropped(c: TunnelConnection, now: u64, ignore: bool) -> bool {
    ||| now >= c.heartbeat_deadline
    ||| (ack_overdue(c.pending_ack, now) && c.pending_ack->0.is_retransmission && !ignore)
}

/// What an action sends or reports, as values: a datagram to an address
/// given as text, a dropped client, or anything else.
pub enum ActionView {
    Send(Seq<u8>, Seq<char>),
    Disconnected(u8),
    Other,
}

/// The view of one action.
pub open spec fn action_view(a: ServerAction) -> ActionView {
    match a {
        ServerAction::SendToEndpoint(p, e) => ActionView::Send(p@, e@),
        ServerAction::Emit(ServerEvent::DisconnectedClient(ch)) => ActionView::Disconnected(ch),
        _ => ActionView::Other,
    }
}

/// The views of a list of actions.
pub open spec fn actions_view(r: Seq<ServerAction>) -> Seq<ActionView> {
    r.map_values(|a: ServerAction| action_view(a))
}

/// The DISCONNECT_REQUEST for channel `ch` from the server at `ip`:`port`.
pub open spec fn check_disconnect_frame(ch: u8, ip: Seq<u8>, port: u16) -> Seq<u8> {
    frame_of(
        KnxNetIpServiceType::DisconnectRequest,
        seq![ch, 0u8] + seq![8u8, 0x01u8] + ip + crate::protocol::knxnetip_structures::u16_bytes(port),
    )
}

/// What the periodic check does for client `c` at `now`, the server being
/// at `ip`:`port`: a dropped client is reported and sent a disconnect
/// request; otherwise an overdue frame sent once is sent again, and then
/// the first queued frame is sent when none waits for its acknowledgement.
pub open spec fn client_check(c: TunnelConnection, now: u64, ignore: bool, ip: Seq<u8>, port: u16) -> Seq<ActionView> {
    if client_dropped(c, now, ignore) {
        seq![
            ActionView::Disconnected(c.channel_id),
            ActionView::Send(check_disconnect_frame(c.channel_id, ip, port), endpoint_text(c.control_hpai)),
        ]
    } else {
        let resend: Seq<ActionView> = if ack_overdue(c.pending_ack, now) && !c.pending_ack->0.is_retransmission {
            seq![ActionView::Send(c.pending_ack->0.packet@, endpoint_text(c.data_hpai))]
        } else {
            Seq::empty()
        };
        let next: Seq<ActionView> = if c.is_sending || c.queue@.len() == 0 {
            Seq::empty()
        } else {
            seq![ActionView::Send(c.queue@[0].packet@, endpoint_text(c.data_hpai))]
        };
        resend + next
    }
}

/// What the periodic check does for the clients `cs`, in their order.
pub open spec fn check_all(cs: Seq<TunnelConnection>, now: u64, ignore: bool, ip: Seq<u8>, port: u16) -> Seq<ActionView>
    decreases cs.len(),
{
    if cs.len() == 0 {
        Seq::empty()
    } else {
        check_all(cs.drop_last(), now, ignore, ip, port) + client_check(cs.last(), now, ignore, ip, port)
    }
}

/// The clients the check keeps, in their order.
pub open spec fn kept_clients(cs: Seq<TunnelConnection>, now: u64, ignore: bool) -> Seq<TunnelConnection>
    decreases cs.len(),
{
    if cs.len() == 0 {
        Seq::empty()
    } else {
        let w = kept_clients(cs.drop_last(), now, ignore);
        if client_dropped(cs.last(), now, ignore) {
            w
        } else {
            w.push(cs.last())
        }
    }
}

/// Whether `c1` is kept client `c0` after the check at `now`: an overdue
/// frame sent once is marked as sent again, with a new deadline; then,
/// when no frame waits for its acknowledgement, the first queued frame
/// leaves the queue and waits, sent once, until `now` plus the
/// retransmission timeout.
pub open spec fn checked_client(c0: TunnelConnection, c1: TunnelConnection, now: u64) -> bool {
    let resent = ack_overdue(c0.pending_ack, now) && !c0.pending_ack->0.is_retransmission;
    &&& c1.same_identity(c0)
    &&& c1.sno == c0.sno && c1.rno == c0.rno
    &&& c1.heartbeat_deadline == c0.heartbeat_deadline
    &&& if c0.is_sending || c0.queue@.len() == 0 {
        &&& c1.queue@ == c0.queue@
        &&& c1.is_sending == c0.is_sending
        &&& if resent {
            c1.pending_ack matches Some(b) && b.packet@ == c0.pending_ack->0.packet@ && b.seq == c0.pending_ack->0.seq
                && b.is_retransmission && b.deadline == sat_add(now, c0.retransmit_timeout)
        } else {
            c1.pending_ack == c0.pending_ack
        }
    } else {
        &&& c1.is_sending
        &&& c1.queue@ == c0.queue@.drop_first()
        &&& c1.pending_ack matches Some(b) && b.packet@ == c0.queue@[0].packet@ && b.seq == c0.queue@[0].seq
            && !b.is_retransmission && b.deadline == sat_add(now, c0.retransmit_timeout)
    }
}

/// The address the server's disconnect requests name: its configured
/// local address, 127.0.0.1 when that is not an address.
pub open spec fn check_ip(s: KnxNetIpServer) -> Seq<u8> {
    match parse_ipv4_spec(s.options.local_ip@) {
        Some(x) => x,
        None => seq![127u8, 0u8, 0u8, 1u8],
    }
}

/// The channels of a list of clients.
pub open spec fn channels(cs: Seq<TunnelConnection>) -> Seq<u8> {
    cs.map_values(|c: TunnelConnection| c.channel_id)
}

/// The channels of the clients the check keeps, in their order.
pub open spec fn kept_channels(cs: Seq<TunnelConnection>, now: u64, ignore: bool) -> Seq<u8>
    decreases cs.len(),
{
    if cs.len() == 0 {
        Seq::empty()
    } else {
        let w = kept_channels(cs.drop_last(), now, ignore);
        if client_dropped(cs.last(), now, ignore) {
            w
        } else {
            w.push(cs.last().channel_id)
        }
    }
}

/// The channels of the clients the check drops, in their order.
pub open spec fn dropped_channels(cs: Seq<TunnelConnection>, now: u64, ignore: bool) -> Seq<u8>
    decreases cs.len(),
{
    if cs.len() == 0 {
        Seq::empty()
    } else {
        let w = dropped_channels(cs.drop_last(), now, ignore);
        if client_dropped(cs.last(), now, ignore) {
            w.push(cs.last().channel_id)
        } else {
            w
        }
    }
}

/// Whether the actions report that the client on channel `ch` left.
pub open spec fn emits_disconnect(r: Seq<ServerAction>, ch: u8) -> bool {
    exists|j: int| #![trigger r[j]] 0 <= j < r.len() && (r[j] matches ServerAction::Emit(ServerEvent::DisconnectedClient(x)) && x == ch)
}

/// The serial number discovery reports for a device: each octet of the
/// friendly name xored into position (octet mod 6).
pub open spec fn name_serial(name: Seq<u8>) -> Seq<u8>
    decreases name.len(),
{
    if name.len() == 0 {
        seq![0u8, 0u8, 0u8, 0u8, 0u8, 0u8]
    } else {
        let prev = name_serial(name.drop_last());
        let x = name.last();
        prev.update((x % 6) as int, prev[(x % 6) as int] ^ x)
    }
}

impl KnxNetIpServer {
    /// The HPAI the server answers with.
    pub fn get_hpai(&self, routed: Option<[u8; 4]>, fallback: Option<[u8; 4]>) -> (h: Hpai)
        ensures
            h.host_protocol == HostProtocolCode::Ipv4Udp,
            h.port == self.options.port,
    {
        let ip = self.effective_local_ip(routed, fallback);
        Hpai::new(HostProtocolCode::Ipv4Udp, ip, self.options.port)
    }

    /// Sends a cEMI frame from the application: it is reported, handed to
    /// every client but the one it comes from, and, when routing, queued
    /// for multicast (data and raw requests as indications).
    pub fn send_raw(&mut self, cemi_bytes: &[u8], now: u64) -> (r: Result<Vec<ServerAction>, KnxError>)
        ensures
            !crate::protocol::cemi::cemi_parse_ok(cemi_bytes@) ==> r == Err::<Vec<ServerAction>, KnxError>(KnxError::InvalidParametersForDpt),
            crate::protocol::cemi::cemi_parse_ok(cemi_bytes@) ==> (r matches Ok(a) && a@.len() >= 1 && a@[0] matches ServerAction::Emit(ServerEvent::Send(_))),
            final(self).clients@.len() == old(self).clients@.len(),
            crate::protocol::cemi::cemi_parse_ok(cemi_bytes@) ==> ({
                let b = cemi_bytes@;
                let fwd = forward_sends(old(self).clients@, b, raw_source(b));
                &&& r matches Ok(a) && {
                    &&& (a@[0] matches ServerAction::Emit(ServerEvent::Send(c)) && cemi_parsed(b, c))
                    &&& sends_are(a@.subrange(1, 1 + fwd.len() as int), fwd)
                    &&& !old(self).options.is_routing ==> a@.len() == 1 + fwd.len() && final(self).pacing == old(self).pacing
                    &&& (old(self).options.is_routing && old(self).pacing.msg_queue@.len() < 100) ==> {
                        &&& final(self).pacing.msg_queue@.len() == old(self).pacing.msg_queue@.len() + 1
                        &&& final(self).pacing.msg_queue@.last()@ == routing_frame(routed_cemi(b))
                        &&& final(self).pacing.msg_queue@.drop_last() == old(self).pacing.msg_queue@
                    }
                    &&& (old(self).options.is_routing && old(self).pacing.msg_queue@.len() >= 100) ==> {
                        &&& a@.len() == 3 + fwd.len()
                        &&& a@[1 + fwd.len() as int] matches ServerAction::SendMulticast(p) && p@ == lost_frame(1)
                        &&& a@[2 + fwd.len() as int] matches ServerAction::Emit(ServerEvent::QueueOverflow)
                    }
                }
            }),
    {
        let cemi = match Cemi::from_buffer(cemi_bytes) {
            Ok(c) => c,
            Err(e) => {
                return Err(e);
            },
        };
        let src = match &cemi {
            Cemi::LDataReq(ld) | Cemi::LDataCon(ld) | Cemi::LDataInd(ld) => string_of(ld.source_address.as_str()),
            _ => String::new(),
        };
        assert(src@ == raw_source(cemi_bytes@));
        let mut out: Vec<ServerAction> = Vec::new();
        out.push(ServerAction::Emit(ServerEvent::Send(cemi)));
        let ghost first = out@;
        let mut fwd = self.forward_to_clients(cemi_bytes, src.as_str(), now);
        let ghost sent = fwd@;
        out.append(&mut fwd);
        assert(out@.subrange(1, 1 + sent.len() as int) =~= sent);
        let ghost before = out@;
        if self.options.is_routing {
            let mut routing = copy_bytes(cemi_bytes);
            let code = routing[0];
            if code == 0x11 {
                routing.set(0, 0x29);
            } else if code == 0x10 {
                routing.set(0, 0x2d);
            }
            assert(routing@ =~= routed_cemi(cemi_bytes@));
            let mut more = self.enqueue_packet(routing.as_slice());
            let ghost extra = more@;
            out.append(&mut more);
            assert(out@ =~= before + extra);
            assert(out@.subrange(1, 1 + sent.len() as int) =~= sent);
        }
        Ok(out)
    }

    /// The periodic check at time `now`: clients whose heartbeat ran out
    /// are dropped and told so; a frame whose acknowledgement is overdue is
    /// sent again once, and a second timeout drops the client unless ACK
    /// timeouts are ignored; then each client's next queued frame is sent.
    pub fn check_clients(&mut self, now: u64) -> (r: Vec<ServerAction>)
        ensures
            channels(final(self).clients@) == kept_channels(old(self).clients@, now, old(self).ignore_acktimeout),
            forall|i: int| 0 <= i < final(self).clients@.len() ==> now < (#[trigger] final(self).clients@[i]).heartbeat_deadline,
            forall|k: int| 0 <= k < dropped_channels(old(self).clients@, now, old(self).ignore_acktimeout).len()
                ==> #[trigger] emits_disconnect(r@, dropped_channels(old(self).clients@, now, old(self).ignore_acktimeout)[k]),
            final(self).ignore_acktimeout == old(self).ignore_acktimeout,
            final(self).options == old(self).options,
            actions_view(r@) == check_all(old(self).clients@, now, old(self).ignore_acktimeout, check_ip(*old(self)), old(self).options.port),
            final(self).clients@.len() == kept_clients(old(self).clients@, now, old(self).ignore_acktimeout).len(),
            forall|i: int| 0 <= i < final(self).clients@.len() ==> checked_client(
                #[trigger] kept_clients(old(self).clients@, now, old(self).ignore_acktimeout)[i],
                final(self).clients@[i],
                now,
            ),
    {
        let mut out: Vec<ServerAction> = Vec::new();
        let local = match parse_ipv4(self.options.local_ip.as_str()) {
            Some(x) => x,
            None => {
                let d = [127u8, 0u8, 0u8, 1u8];
                assert(d@ =~= seq![127u8, 0u8, 0u8, 1u8]);
                d
            },
        };
        assert(local@ == check_ip(*old(self)));
        let server_hpai = Hpai::new(HostProtocolCode::Ipv4Udp, local, self.options.port);
        let mut kept: Vec<TunnelConnection> = Vec::new();
        let ghost all = self.clients@;
        let ghost ignore = self.ignore_acktimeout;
        let ghost mut done: int = 0;
        assert(all.take(0) =~= Seq::<TunnelConnection>::empty());
        while self.clients.len() > 0
            invariant
                0 <= done <= all.len(),
                self.clients@ == all.subrange(done, all.len() as int),
                self.ignore_acktimeout == ignore,
                self.options == old(self).options,
                channels(kept@) == kept_channels(all.take(done), now, ignore),
                forall|i: int| 0 <= i < kept@.len() ==> now < (#[trigger] kept@[i]).heartbeat_deadline,
                forall|k: int| 0 <= k < dropped_channels(all.take(done), now, ignore).len()
                    ==> #[trigger] emits_disconnect(out@, dropped_channels(all.take(done), now, ignore)[k]),
                all == old(self).clients@,
                ignore == old(self).ignore_acktimeout,
                server_hpai.host_protocol == HostProtocolCode::Ipv4Udp,
                server_hpai.ip_address@ == check_ip(*old(self)),
                server_hpai.port == old(self).options.port,
                actions_view(out@) == check_all(all.take(done), now, ignore, check_ip(*old(self)), old(self).options.port),
                kept@.len() == kept_clients(all.take(done), now, ignore).len(),
                forall|i: int| 0 <= i < kept@.len() ==> checked_client(#[trigger] kept_clients(all.take(done), now, ignore)[i], kept@[i], now),
            decreases self.clients@.len(),
        {
            let ghost before = out@;
            assert(self.clients@[0] == all[done]);
            assert(all.take(done + 1).drop_last() =~= all.take(done));
            assert(all.take(done + 1).last() == all[done]);
            let mut c = self.clients.remove(0);
            let ghost c0 = c;
            let mut drop = false;
            if c.is_heartbeat_expired_at(now) {
                drop = true;
            } else if c.is_ack_timeout_at(now) {
                if c.pending_ack_is_retransmission() == Some(true) {
                    if !self.ignore_acktimeout {
                        drop = true;
                    }
                } else {
                    match c.retransmit_at(now) {
                        Some(p) => {
                            out.push(ServerAction::SendToEndpoint(p, c.data_endpoint()));
                        },
                        None => {},
                    }
                }
            }
            let ghost mid = out@;
            let ghost c1 = c;
            proof {
                let resent = ack_overdue(c0.pending_ack, now) && !c0.pending_ack->0.is_retransmission;
                if !drop {
                    if resent {
                        assert(actions_view(mid) =~= actions_view(before).push(ActionView::Send(c0.pending_ack->0.packet@, endpoint_text(c0.data_hpai))));
                    } else {
                        assert(mid == before);
                        assert(c1 == c0);
                    }
                }
            }
            if !drop {
                match c.process_queue_at(now) {
                    Some(p) => {
                        out.push(ServerAction::SendToEndpoint(p, c.data_endpoint()));
                    },
                    None => {},
                }
            }
            proof {
                if !drop {
                    let resend: Seq<ActionView> = if ack_overdue(c0.pending_ack, now) && !c0.pending_ack->0.is_retransmission {
                        seq![ActionView::Send(c0.pending_ack->0.packet@, endpoint_text(c0.data_hpai))]
                    } else {
                        Seq::empty()
                    };
                    assert(actions_view(mid) =~= actions_view(before) + resend);
                    if c0.is_sending || c0.queue@.len() == 0 {
                        assert(out@ == mid);
                    } else {
                        assert(actions_view(out@) =~= actions_view(mid).push(ActionView::Send(c0.queue@[0].packet@, endpoint_text(c0.data_hpai))));
                    }
                    assert(actions_view(out@) =~= actions_view(before) + client_check(c0, now, ignore, check_ip(*old(self)), old(self).options.port));
                    assert(checked_client(c0, c, now));
                }
            }
            assert(drop == client_dropped(c0, now, ignore));
            if drop {
                let ch = c.channel_id;
                let ep = c.control_endpoint();
                c.close();
                out.push(ServerAction::Emit(ServerEvent::DisconnectedClient(ch)));
                let dm = disconnect_message(ch, &server_hpai);
                assert(dm@ =~= check_disconnect_frame(ch, check_ip(*old(self)), old(self).options.port)) by {
                    assert(seq![ch, 0u8] + crate::protocol::knxnetip_structures::hpai_bytes(server_hpai) =~= seq![ch, 0u8] + seq![8u8, 0x01u8]
                        + check_ip(*old(self)) + crate::protocol::knxnetip_structures::u16_bytes(old(self).options.port));
                }
                out.push(ServerAction::SendToEndpoint(dm, ep));
                proof {
                    assert(mid == before);
                    assert(actions_view(out@) =~= actions_view(before) + client_check(c0, now, ignore, check_ip(*old(self)), old(self).options.port));
                    assert(kept_clients(all.take(done + 1), now, ignore) == kept_clients(all.take(done), now, ignore));
                    let d = dropped_channels(all.take(done + 1), now, ignore);
                    let dp = dropped_channels(all.take(done), now, ignore);
                    assert(d == dp.push(ch));
                    assert forall|k: int| 0 <= k < d.len() implies #[trigger] emits_disconnect(out@, d[k]) by {
                        if k < d.len() - 1 {
                            assert(d[k] == dp[k]);
                            assert(emits_disconnect(before, dp[k]));
                            let j = choose|j: int| #![trigger before[j]] 0 <= j < before.len() && (before[j] matches ServerAction::Emit(ServerEvent::DisconnectedClient(x)) && x == d[k]);
                            assert(out@[j] == before[j]);
                        } else {
                            assert(out@[before.len() as int] matches ServerAction::Emit(ServerEvent::DisconnectedClient(x)) && x == ch);
                        }
                    }
                }
            } else {
                let ghost kept_before = kept@;
                kept.push(c);
                assert(channels(kept@) =~= channels(kept_before).push(c0.channel_id));
                proof {
                    let kc = kept_clients(all.take(done + 1), now, ignore);
                    assert(kc == kept_clients(all.take(done), now, ignore).push(c0));
                    assert forall|i: int| 0 <= i < kept@.len() implies checked_client(#[trigger] kc[i], kept@[i], now) by {
                        if i < kept_before.len() {
                            assert(kc[i] == kept_clients(all.take(done), now, ignore)[i]);
                            assert(kept@[i] == kept_before[i]);
                        }
                    }
                }
                proof {
                    let d = dropped_channels(all.take(done + 1), now, ignore);
                    let dp = dropped_channels(all.take(done), now, ignore);
                    assert(d == dp);
                    assert forall|k: int| 0 <= k < d.len() implies #[trigger] emits_disconnect(out@, d[k]) by {
                        assert(emits_disconnect(before, dp[k]));
                        let j = choose|j: int| #![trigger before[j]] 0 <= j < before.len() && (before[j] matches ServerAction::Emit(ServerEvent::DisconnectedClient(x)) && x == d[k]);
                        assert(out@[j] == before[j]);
                    }
                }
            }
            proof {
                done = done + 1;
            }
        }
        assert(all.take(done) =~= all);
        self.clients = kept;
        out
    }

    /// The start of the server: `false` when it runs already, else it is
    /// starting.
    pub fn begin_start(&mut self) -> (go: bool)
        ensures
            old(self).state == KnxServerState::Running ==> !go && final(self).state == old(self).state,
            old(self).state != KnxServerState::Running ==> go && final(self).state == KnxServerState::Starting,
            final(self).clients@ == old(self).clients@,
    {
        if self.state == KnxServerState::Running {
            return false;
        }
        self.state = KnxServerState::Starting;
        true
    }

    /// The socket could not join the multicast group on any interface.
    pub fn fail_start(&mut self)
        ensures
            final(self).state == KnxServerState::Faulted,
            final(self).clients@ == old(self).clients@,
    {
        self.state = KnxServerState::Faulted;
    }

    /// The server runs.
    pub fn finish_start(&mut self) -> (e: ServerEvent)
        ensures
            final(self).state == KnxServerState::Running,
            e is Connected,
            final(self).clients@ == old(self).clients@,
    {
        self.state = KnxServerState::Running;
        ServerEvent::Connected
    }

    /// Stops the server: all clients and queued multicast frames are
    /// dropped. `None` when it was stopped already.
    pub fn stop(&mut self) -> (e: Option<ServerEvent>)
        ensures
            old(self).state == KnxServerState::Stopped ==> e is None && final(self).clients@ == old(self).clients@,
            old(self).state != KnxServerState::Stopped ==> (e matches Some(ServerEvent::Disconnected))
                && final(self).state == KnxServerState::Stopped && final(self).clients@.len() == 0
                && final(self).pacing.msg_queue@.len() == 0,
    {
        if self.state == KnxServerState::Stopped {
            return None;
        }
        self.state = KnxServerState::Stopped;
        self.clients.clear();
        self.pacing.msg_queue.clear();
        Some(ServerEvent::Disconnected)
    }

    /// The name of the state.
    pub fn connection_state(&self) -> (s: String)
        ensures
            s@ == server_state_name(self.state),
    {
        match self.state {
            KnxServerState::Stopped => string_of("STOPPED"),
            KnxServerState::Starting => string_of("STARTING"),
            KnxServerState::Running => string_of("RUNNING"),
            KnxServerState::Faulted => string_of("FAULTED"),
        }
    }

    /// Whether the server runs.
    pub fn is_connected(&self) -> (r: bool)
        ensures
            r == (self.state == KnxServerState::Running),
    {
        self.state == KnxServerState::Running
    }

    /// The server's individual address.
    pub fn individual_address(&self) -> (s: String)
        ensures
            s@ == self.options.individual_address@,
    {
        string_of(self.options.individual_address.as_str())
    }

    /// The search request (extended or not) a discovery sends from `hpai`.
    pub fn search_request(extended: bool, hpai: &Hpai) -> (r: Vec<u8>)
        ensures
            r@ == frame_of(if extended { KnxNetIpServiceType::SearchRequestExtended } else { KnxNetIpServiceType::SearchRequest }, hpai_bytes(*hpai)),
    {
        let b = hpai.to_buffer();
        build_frame(if extended { KnxNetIpServiceType::SearchRequestExtended } else { KnxNetIpServiceType::SearchRequest }, b.as_slice())
    }

    /// A datagram received during discovery: a search response (extended
    /// or not) whose blocks include device information gives the device,
    /// keyed by its HPAI text; its address is the sender's when IPv4.
    pub fn parse_search_response(packet: &[u8], sender: Option<[u8; 4]>) -> (r: Option<(String, KnxDiscoveredDevice)>)
        ensures
            match search_body(packet@) {
                None => r is None,
                Some(body) => match last_device_info(body, 8, None) {
                    None => r is None,
                    Some(o) => r matches Some((key, dev)) && key@ == endpoint_of(body)
                        && found_device(dev, block_at(body, o), body, sender),
                },
            },
    {
        if packet.len() < 14 {
            return None;
        }
        let header = match KnxNetIpHeader::from_buffer(packet) {
            Ok(h) => h,
            Err(_) => {
                return None;
            },
        };
        if header.service_type != KnxNetIpServiceType::SearchResponse && header.service_type != KnxNetIpServiceType::SearchResponseExtended {
            return None;
        }
        let body = tail_bytes(packet, 6);
        let hp = range_bytes(body.as_slice(), 0, 8);
        let hpai = match Hpai::from_buffer(hp.as_slice()) {
            Ok(h) => h,
            Err(_) => {
                return None;
            },
        };
        let n = body.len();
        let mut offset: usize = 8;
        let mut info: Option<DeviceInformationDib> = None;
        let ghost mut info_off: Option<int> = None;
        while offset < n
            invariant
                n == body@.len(),
                8 <= offset <= n,
                last_device_info(body@, 8, None) == last_device_info(body@, offset as int, info_off),
                info is Some <==> info_off is Some,
                info matches Some(x) ==> 0 <= info_off->0 && dib_parsed(block_at(body@, info_off->0), Dib::DeviceInfo(x))
                    && block_at(body@, info_off->0).len() >= 2,
            ensures
                last_device_info(body@, 8, None) == info_off,
                info is Some <==> info_off is Some,
                info matches Some(x) ==> 0 <= info_off->0 && dib_parsed(block_at(body@, info_off->0), Dib::DeviceInfo(x))
                    && block_at(body@, info_off->0).len() >= 2,
            decreases n - offset,
        {
            let dl = body[offset] as usize;
            if dl == 0 || dl > n - offset {
                break;
            }
            let dib = range_bytes(body.as_slice(), offset, offset + dl);
            assert(dib@ == block_at(body@, offset as int));
            match Dib::from_buffer(dib.as_slice()) {
                Ok(Dib::DeviceInfo(d)) => {
                    proof {
                        info_off = Some(offset as int);
                    }
                    info = Some(d);
                },
                _ => {},
            }
            offset = offset + dl;
        }
        match info {
            Some(d) => {
                proof {
                    assert(body@ =~= packet@.subrange(6, packet@.len() as int));
                    assert(hp@ =~= body@.subrange(0, 8));
                    assert(hpai.ip_address@ =~= body@.subrange(2, 6));
                    assert(hpai.ip_address@[0] == body@[2]);
                    assert(hpai.ip_address@[1] == body@[3]);
                    assert(hpai.ip_address@[2] == body@[4]);
                    assert(hpai.ip_address@[3] == body@[5]);
                    assert(endpoint_text(hpai) == endpoint_of(body@));
                }
                let key = endpoint_string_of(&hpai);
                let ip = match sender {
                    Some(a) => a,
                    None => hpai.ip_address,
                };
                let serial = serial_of_name(d.friendly_name.as_str());
                Some((key, KnxDiscoveredDevice {
                    ip,
                    port: hpai.port,
                    knx_medium: d.knx_medium,
                    device_status: d.device_status,
                    individual_address: d.individual_address,
                    project_installation_id: d.project_installation_id,
                    serial_number: serial,
                    routing_multicast_address: d.routing_multicast_address,
                    mac_address: d.mac_address,
                    friendly_name: d.friendly_name,
                }))
            },
            None => None,
        }
    }
}

fn endpoint_string_of(h: &Hpai) -> (s: String)
    ensures
        s@ == endpoint_text(*h),
{
    crate::connection::tunnel_connection::endpoint_string(h)
}

/// The serial number discovery reports for a friendly name.
pub fn serial_of_name(name: &str) -> (r: [u8; 6])
    ensures
        r@ == name_serial(vstd::utf8::encode_utf8(name@)),
{
    let bytes = name.as_bytes();
    let n = bytes.len();
    let mut acc: [u8; 6] = [0u8; 6];
    let mut i: usize = 0;
    assert(acc@ =~= name_serial(bytes@.subrange(0, 0)));
    while i < n
        invariant
            n == bytes@.len(),
            i <= n,
            acc@ == name_serial(bytes@.subrange(0, i as int)),
        decreases n - i,
    {
        let x = bytes[i];
        let k = (x % 6) as usize;
        let v = acc[k] ^ x;
        acc[k] = v;
        proof {
            let sub = bytes@.subrange(0, i + 1);
            assert(sub.drop_last() =~= bytes@.subrange(0, i as int));
        }
        assert(acc@ =~= name_serial(bytes@.subrange(0, i + 1)));
        i = i + 1;
    }
    assert(bytes@.subrange(0, n as int) =~= bytes@);
    acc
}

} // verus!
