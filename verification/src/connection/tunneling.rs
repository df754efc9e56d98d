//! The client side of a KNXnet/IP tunnel: the connect request and the
//! reading of its response, the reconnection policy, and the session that
//! numbers outgoing frames, acknowledges incoming ones and watches the
//! heartbeat. Sockets and timers are driven by the caller, which hands
//! every received packet and every expired timer to the session and sends
//! what it returns.
use crate::errors::KnxError;
use crate::protocol::knxnetip_enum::{
    ConnectionType, HostProtocolCode, KnxNetIpServiceType, knx_net_ip_service_type_code,
};
use crate::protocol::knxnetip_header::{header_bytes, KnxNetIpHeader};
use crate::protocol::knxnetip_structures::{cri_bytes, hpai_bytes, parse_crd, push_all, Crd, Cri, Hpai};
use crate::utils::ip::{parse_ipv4, parse_ipv4_spec};
use crate::utils::knx_helper::{address_text, KnxHelper};
use crate::utils::text::{dec_str, string_of};
use crate::utils::bytes::be16;
use crate::connection::tunnel_connection::tunnel_frame;
use vstd::prelude::*;

verus! {

/// The transport of a tunnel.
#[derive(Debug, Clone, Copy, PartialEq, Eq, Structural)]
pub enum TransportProtocol {
    Udp,
    Tcp,
}

/// States of a tunnel client.
#[derive(Debug, Clone, Copy, PartialEq, Eq, Structural)]
pub enum TunnelState {
    Disconnected,
    Connecting,
    Connected,
    Reconnecting,
    Faulted,
}

/// Options of a tunnel client.
#[derive(Debug, Clone)]
pub struct TunnelingOptions {
    pub ip: String,
    pub port: u16,
    pub local_ip: Option<String>,
    pub local_port: u16,
    pub transport: TransportProtocol,
    pub connection_type: ConnectionType,
    pub use_route_back: bool,
    pub max_queue_size: usize,
    pub auto_reconnect: bool,
    pub max_reconnect_attempts: usize,
    pub reconnect_delay_ms: u64,
}

/// A tunnel client.
pub struct KnxTunneling {
    pub options: TunnelingOptions,
    pub state: TunnelState,
    pub individual_address: String,
    pub attempts: usize,
}

/// What to do after a failed connection attempt.
#[derive(Debug, Clone, Copy, PartialEq, Eq, Structural)]
pub enum ReconnectDecision {
    /// Try again after the delay, in milliseconds.
    Retry(u64),
    /// Stop trying.
    GiveUp,
}

/// What a response to the connect request says.
#[derive(Debug, Clone)]
pub enum ConnectOutcome {
    /// Not a connect response: send the request again.
    Ignored,
    /// The gateway refused with this status.
    Rejected(u8),
    /// The gateway accepted on this channel, with this individual address.
    Accepted(u8, String),
}

/// The host protocol a client announces: TCP or UDP after its transport.
pub open spec fn client_protocol(options: TunnelingOptions) -> HostProtocolCode {
    if options.transport == TransportProtocol::Tcp {
        HostProtocolCode::Ipv4Tcp
    } else {
        HostProtocolCode::Ipv4Udp
    }
}

/// The port a client announces: 0 with route back, else its local port.
pub open spec fn client_port(options: TunnelingOptions, local_port: u16) -> u16 {
    if options.use_route_back {
        0
    } else {
        local_port
    }
}

/// The address of the announced HPAI.
pub open spec fn client_ip_spec(options: TunnelingOptions) -> Seq<u8> {
    if options.use_route_back {
        seq![0u8, 0u8, 0u8, 0u8]
    } else {
        match options.local_ip {
            Some(t) => match parse_ipv4_spec(t@) {
                Some(a) => a,
                None => seq![0u8, 0u8, 0u8, 0u8],
            },
            None => seq![0u8, 0u8, 0u8, 0u8],
        }
    }
}

/// A frame of `service` whose body is `body`.
pub open spec fn frame_of(service: KnxNetIpServiceType, body: Seq<u8>) -> Seq<u8> {
    header_bytes(KnxNetIpHeader { service_type: service, total_length: ((6 + body.len()) % 65536) as u16 })
        + body
}

/// The acknowledgement frame for request `seq` on `channel`.
pub open spec fn ack_frame(service: KnxNetIpServiceType, channel: u8, seq: u8) -> Seq<u8> {
    header_bytes(KnxNetIpHeader { service_type: service, total_length: 10 }) + seq![4u8, channel, seq, 0u8]
}

/// A frame of `service` whose body is `body`.
pub fn build_frame(service: KnxNetIpServiceType, body: &[u8]) -> (r: Vec<u8>)
    ensures
        r@ == frame_of(service, body@),
{
    let l: u32 = (body.len() % 65536) as u32;
    let total = ((l + 6) % 65536) as u16;
    proof {
        vstd::arithmetic::div_mod::lemma_add_mod_noop(body@.len() as int, 6, 65536);
        vstd::arithmetic::div_mod::lemma_mod_twice(6, 65536);
    }
    let mut r = KnxNetIpHeader::new(service, total).to_buffer();
    push_all(&mut r, body);
    r
}

fn build_ack(service: KnxNetIpServiceType, channel: u8, seq: u8) -> (r: Vec<u8>)
    ensures
        r@ == ack_frame(service, channel, seq),
{
    let mut r = KnxNetIpHeader::new(service, 10).to_buffer();
    r.push(4);
    r.push(channel);
    r.push(seq);
    r.push(0);
    assert(r@ =~= ack_frame(service, channel, seq));
    r
}

impl KnxTunneling {
    /// A client that is not connected, with the default address 1.0.1.
    pub fn new(options: TunnelingOptions) -> (t: Self)
        ensures
            t.state == TunnelState::Disconnected,
            t.individual_address@ == "1.0.1"@,
            t.attempts == 0,
    {
        KnxTunneling { options, state: TunnelState::Disconnected, individual_address: string_of("1.0.1"), attempts: 0 }
    }

    /// The start of connecting: `false` when connected already, else the
    /// client is connecting.
    pub fn begin_connect(&mut self) -> (go: bool)
        ensures
            old(self).state == TunnelState::Connected ==> !go && final(self).state == old(self).state,
            old(self).state != TunnelState::Connected ==> go && final(self).state
                == TunnelState::Connecting,
            final(self).attempts == old(self).attempts,
    {
        if self.state == TunnelState::Connected {
            return false;
        }
        self.state = TunnelState::Connecting;
        true
    }

    /// After a failed attempt: with reconnection on and attempts left, count
    /// the attempt and retry after the delay; otherwise the client is
    /// faulted.
    pub fn on_connect_failure(&mut self) -> (d: ReconnectDecision)
        ensures
            (old(self).options.auto_reconnect && old(self).attempts
                < old(self).options.max_reconnect_attempts) ==> {
                &&& d == ReconnectDecision::Retry(old(self).options.reconnect_delay_ms)
                &&& final(self).attempts == old(self).attempts + 1
                &&& final(self).state == TunnelState::Reconnecting
            },
            !(old(self).options.auto_reconnect && old(self).attempts
                < old(self).options.max_reconnect_attempts) ==> {
                &&& d == ReconnectDecision::GiveUp
                &&& final(self).attempts == old(self).attempts
                &&& final(self).state == TunnelState::Faulted
            },
    {
        if self.options.auto_reconnect && self.attempts < self.options.max_reconnect_attempts {
            self.attempts = self.attempts + 1;
            self.state = TunnelState::Reconnecting;
            ReconnectDecision::Retry(self.options.reconnect_delay_ms)
        } else {
            self.state = TunnelState::Faulted;
            ReconnectDecision::GiveUp
        }
    }

    /// The HPAI the client announces, given the local port of its socket.
    pub fn client_hpai(&self, local_port: u16) -> (h: Hpai)
        ensures
            h.host_protocol == client_protocol(self.options),
            h.port == client_port(self.options, local_port),
            h.ip_address@ == client_ip_spec(self.options),
    {
        let protocol = if self.options.transport == TransportProtocol::Tcp {
            HostProtocolCode::Ipv4Tcp
        } else {
            HostProtocolCode::Ipv4Udp
        };
        if self.options.use_route_back {
            let h = Hpai::new(protocol, [0u8, 0u8, 0u8, 0u8], 0);
            assert(h.ip_address@ =~= seq![0u8, 0u8, 0u8, 0u8]);
            return h;
        }
        let ip = match &self.options.local_ip {
            Some(t) => match parse_ipv4(t.as_str()) {
                Some(a) => a,
                None => [0u8, 0u8, 0u8, 0u8],
            },
            None => [0u8, 0u8, 0u8, 0u8],
        };
        assert(ip@ == client_ip_spec(self.options));
        Hpai::new(protocol, ip, local_port)
    }

    /// The connect request: the client HPAI twice (control and data), then
    /// a CRI of the configured connection type on the link layer.
    pub fn connect_request(&self, local_port: u16) -> (r: Vec<u8>)
        ensures
            exists|h: Hpai| h.ip_address@ == client_ip_spec(self.options) && h.port
                == client_port(self.options, local_port) && h.host_protocol
                == client_protocol(self.options) && r@ == frame_of(
                KnxNetIpServiceType::ConnectRequest,
                hpai_bytes(h) + hpai_bytes(h) + cri_bytes(
                    Cri { connection_type: self.options.connection_type, knx_layer: 0x02, individual_address: None },
                ),
            ),
    {
        let h = self.client_hpai(local_port);
        let hb = h.to_buffer();
        let cri = Cri::new(self.options.connection_type, 0x02, None);
        let cb = cri.to_buffer();
        let mut body: Vec<u8> = Vec::new();
        push_all(&mut body, hb.as_slice());
        push_all(&mut body, hb.as_slice());
        push_all(&mut body, cb.as_slice());
        let r = build_frame(KnxNetIpServiceType::ConnectRequest, body.as_slice());
        assert(body@ =~= hpai_bytes(h) + hpai_bytes(h) + cri_bytes(cri));
        r
    }

    /// Reads the response to the connect request. A connect response with
    /// status 0 is accepted; its address is taken from the CRD after octet
    /// 16, or is 1.0.1.
    pub fn read_connect_response(buf: &[u8]) -> (r: ConnectOutcome)
        ensures
            buf@.len() < 8 || !(be16(buf@[2], buf@[3]) == knx_net_ip_service_type_code(
                KnxNetIpServiceType::ConnectResponse,
            ) && buf@[0] == 6 && buf@[1] == 0x10) ==> r is Ignored,
            (buf@.len() >= 8 && buf@[0] == 6 && buf@[1] == 0x10 && be16(buf@[2], buf@[3])
                == knx_net_ip_service_type_code(KnxNetIpServiceType::ConnectResponse)) ==> {
                &&& buf@[7] != 0 ==> (r matches ConnectOutcome::Rejected(s) && s == buf@[7])
                &&& buf@[7] == 0 ==> (r matches ConnectOutcome::Accepted(ch, ia) && ch == buf@[6]
                    && ia@ == (if buf@.len() >= 16 && parse_crd(buf@.subrange(16, buf@.len() as int)) is Some {
                    {
                        let a = parse_crd(buf@.subrange(16, buf@.len() as int))->0.knx_address;
                        address_text((a / 256) as u8, (a % 256) as u8, false, false)
                    }
                } else {
                    "1.0.1"@
                }))
            },
    {
        let n = buf.len();
        if n < 8 || buf[0] != 6 || buf[1] != 0x10 {
            return ConnectOutcome::Ignored;
        }
        let t = (buf[2] as u16) * 256 + buf[3] as u16;
        if t != KnxNetIpServiceType::ConnectResponse.code() {
            return ConnectOutcome::Ignored;
        }
        let channel = buf[6];
        let status = buf[7];
        if status != 0 {
            return ConnectOutcome::Rejected(status);
        }
        let mut ia = string_of("1.0.1");
        if n >= 16 {
            let mut rest: Vec<u8> = Vec::new();
            let mut i: usize = 16;
            while i < n
                invariant
                    n == buf@.len(),
                    16 <= i <= n,
                    rest@ == buf@.subrange(16, i as int),
                decreases n - i,
            {
                rest.push(buf[i]);
                assert(rest@ =~= buf@.subrange(16, i + 1));
                i = i + 1;
            }
            assert(rest@ == buf@.subrange(16, buf@.len() as int));
            match Crd::from_buffer(rest.as_slice()) {
                Ok(crd) => {
                    proof {
                        reveal_strlit(".");
                        reveal_strlit("/");
                        assert("."@[0] != "/"@[0]);
                    }
                    match KnxHelper::get_address_from_number(crd.knx_address, ".", false) {
                        Ok(t) => {
                            ia = t;
                        },
                        Err(_) => {},
                    }
                },
                Err(_) => {},
            }
        }
        ConnectOutcome::Accepted(channel, ia)
    }

    /// Records an accepted connection.
    pub fn on_connected(&mut self, individual_address: String)
        ensures
            final(self).state == TunnelState::Connected,
            final(self).individual_address@ == individual_address@,
    {
        self.state = TunnelState::Connected;
        self.individual_address = individual_address;
    }

    /// Whether a frame may be sent: only while connected.
    pub fn check_send(&self) -> (r: Result<(), KnxError>)
        ensures
            self.state == TunnelState::Connected ==> r is Ok,
            self.state != TunnelState::Connected ==> (r matches Err(KnxError::Protocol(m)) && m@
                == "Tunnel client is not connected"@),
    {
        if self.state != TunnelState::Connected {
            return Err(KnxError::Protocol(string_of("Tunnel client is not connected")));
        }
        Ok(())
    }

    /// Closes the client.
    pub fn disconnect(&mut self)
        ensures
            final(self).state == TunnelState::Disconnected,
    {
        self.state = TunnelState::Disconnected;
    }

    /// The name of the state.
    pub fn connection_state(&self) -> (s: String)
        ensures
            s@ == tunnel_state_name(self.state),
    {
        match self.state {
            TunnelState::Disconnected => string_of("DISCONNECTED"),
            TunnelState::Connecting => string_of("CONNECTING"),
            TunnelState::Connected => string_of("CONNECTED"),
            TunnelState::Reconnecting => string_of("RECONNECTING"),
            TunnelState::Faulted => string_of("FAULTED"),
        }
    }

    /// Whether the client is connected.
    pub fn is_connected(&self) -> (r: bool)
        ensures
            r == (self.state == TunnelState::Connected),
    {
        self.state == TunnelState::Connected
    }

    /// The individual address the gateway assigned.
    pub fn get_individual_address(&self) -> (s: String)
        ensures
            s@ == self.individual_address@,
    {
        string_of(self.individual_address.as_str())
    }
}

/// The name of a state.
pub open spec fn tunnel_state_name(s: TunnelState) -> Seq<char> {
    match s {
        TunnelState::Disconnected => "DISCONNECTED"@,
        TunnelState::Connecting => "CONNECTING"@,
        TunnelState::Connected => "CONNECTED"@,
        TunnelState::Reconnecting => "RECONNECTING"@,
        TunnelState::Faulted => "FAULTED"@,
    }
}

/// The frame waiting for its acknowledgement.
#[derive(Debug, Clone, Copy, PartialEq, Eq, Structural)]
pub struct ActiveSend {
    pub sent_at: u64,
    pub retries: u8,
}

/// What the session asks of the caller.
#[derive(Debug)]
pub enum SessionAction {
    /// Send this frame to the gateway.
    Send(Vec<u8>),
    /// The pending send is complete, with this outcome.
    Complete(Result<(), KnxError>),
    /// A cEMI frame arrived (its octets).
    Deliver(Vec<u8>),
    /// The session is over.
    End,
}

/// A step the session asks for, with its octets and texts: a protocol
/// failure carries its text.
pub enum StepSpec {
    Send(Seq<u8>),
    Done,
    ProtocolFailure(Seq<char>),
    OtherFailure(KnxError),
    Deliver(Seq<u8>),
    End,
}

/// A step as `StepSpec`.
pub open spec fn step_view(a: SessionAction) -> StepSpec {
    match a {
        SessionAction::Send(b) => StepSpec::Send(b@),
        SessionAction::Complete(Ok(())) => StepSpec::Done,
        SessionAction::Complete(Err(KnxError::Protocol(m))) => StepSpec::ProtocolFailure(m@),
        SessionAction::Complete(Err(e)) => StepSpec::OtherFailure(e),
        SessionAction::Deliver(b) => StepSpec::Deliver(b@),
        SessionAction::End => StepSpec::End,
    }
}

/// The steps of a list as `StepSpec`.
pub open spec fn session_steps(r: Seq<SessionAction>) -> Seq<StepSpec> {
    r.map_values(|a: SessionAction| step_view(a))
}

/// The next sequence number, wrapping after 255.
pub open spec fn next_seq(x: u8) -> u8 {
    if x == 255 {
        0
    } else {
        (x + 1) as u8
    }
}

/// The previous sequence number, wrapping before 0.
pub open spec fn prev_seq(x: u8) -> u8 {
    if x == 0 {
        255
    } else {
        (x - 1) as u8
    }
}

/// Whether `p` starts with a KNXnet/IP header of version 1.0.
pub open spec fn framed(p: Seq<u8>) -> bool {
    p.len() >= 6 && p[0] == 6 && p[1] == 0x10
}

/// Whether `p` acknowledges the session's pending frame.
pub open spec fn acks_pending(s: TunnelSession, p: Seq<u8>) -> bool {
    &&& framed(p)
    &&& (is_service(p, KnxNetIpServiceType::TunnellingAck) || is_service(p, KnxNetIpServiceType::DeviceConfigurationAck))
    &&& p.len() >= 10 && p[7] == s.channel_id && p[8] == s.seq_num
}

/// Whether `p` is a request of the gateway on the session's channel.
pub open spec fn request_on_channel(s: TunnelSession, p: Seq<u8>) -> bool {
    &&& framed(p)
    &&& (is_service(p, KnxNetIpServiceType::TunnellingRequest) || is_service(p, KnxNetIpServiceType::DeviceConfigurationRequest))
    &&& p.len() >= 10 && p[7] == s.channel_id
}

/// The acknowledgement service of a request.
pub open spec fn ack_service_of(p: Seq<u8>) -> KnxNetIpServiceType {
    if is_service(p, KnxNetIpServiceType::TunnellingRequest) {
        KnxNetIpServiceType::TunnellingAck
    } else {
        KnxNetIpServiceType::DeviceConfigurationAck
    }
}

/// What the session asks for on packet `p`: an acknowledgement of the
/// pending frame completes it (an error status also ends the session); a
/// request with the expected number is acknowledged and its cEMI frame
/// delivered, one with the previous number acknowledged again; an unknown
/// connection reported by a heartbeat answer ends the session; a heartbeat
/// of the gateway is answered; a disconnect ends the session.
pub open spec fn packet_steps(s: TunnelSession, p: Seq<u8>) -> Seq<StepSpec> {
    if !framed(p) {
        Seq::empty()
    } else if is_service(p, KnxNetIpServiceType::TunnellingAck) || is_service(p, KnxNetIpServiceType::DeviceConfigurationAck) {
        if acks_pending(s, p) {
            if p[9] == 0 {
                seq![StepSpec::Done]
            } else {
                seq![StepSpec::ProtocolFailure("ACK error status: "@ + dec_str(p[9] as nat)), StepSpec::End]
            }
        } else {
            Seq::empty()
        }
    } else if is_service(p, KnxNetIpServiceType::TunnellingRequest) || is_service(p, KnxNetIpServiceType::DeviceConfigurationRequest) {
        if request_on_channel(s, p) && p[8] == s.rx_seq_num {
            let ack = seq![StepSpec::Send(ack_frame(ack_service_of(p), s.channel_id, p[8]))];
            if p.len() - 6 > p[6] {
                ack.push(StepSpec::Deliver(p.subrange(6 + p[6], p.len() as int)))
            } else {
                ack
            }
        } else if request_on_channel(s, p) && p[8] == prev_seq(s.rx_seq_num) {
            seq![StepSpec::Send(ack_frame(ack_service_of(p), s.channel_id, p[8]))]
        } else {
            Seq::empty()
        }
    } else if is_service(p, KnxNetIpServiceType::ConnectionstateResponse) {
        if p.len() >= 8 && p[6] == s.channel_id && p[7] == 0x21 {
            seq![StepSpec::End]
        } else {
            Seq::empty()
        }
    } else if is_service(p, KnxNetIpServiceType::ConnectionstateRequest) {
        if p.len() >= 8 && p[6] == s.channel_id {
            seq![StepSpec::Send(frame_of(KnxNetIpServiceType::ConnectionstateResponse, seq![s.channel_id, 0u8]))]
        } else {
            Seq::empty()
        }
    } else if is_service(p, KnxNetIpServiceType::DisconnectRequest) || is_service(p, KnxNetIpServiceType::DisconnectResponse) {
        seq![StepSpec::End]
    } else {
        Seq::empty()
    }
}

/// The session after packet `p`: an acknowledgement of the pending frame
/// clears it and, when positive, advances the sequence number; a request
/// with the expected number advances the receive number; a positive
/// heartbeat answer clears the pending heartbeat and its failures.
pub open spec fn session_after(s: TunnelSession, p: Seq<u8>) -> TunnelSession {
    if acks_pending(s, p) {
        TunnelSession {
            active_send: None,
            seq_num: if p[9] == 0 { next_seq(s.seq_num) } else { s.seq_num },
            ..s
        }
    } else if request_on_channel(s, p) && p[8] == s.rx_seq_num {
        TunnelSession { rx_seq_num: next_seq(s.rx_seq_num), ..s }
    } else if framed(p) && is_service(p, KnxNetIpServiceType::ConnectionstateResponse) && p.len() >= 8
        && p[6] == s.channel_id && p[7] == 0 {
        TunnelSession { heartbeat_pending: false, heartbeat_failures: 0, ..s }
    } else {
        s
    }
}

/// An established tunnel.
pub struct TunnelSession {
    pub channel_id: u8,
    pub seq_num: u8,
    pub rx_seq_num: u8,
    pub hpai: Hpai,
    pub active_send: Option<ActiveSend>,
    pub last_sent_packet: Vec<u8>,
    pub heartbeat_pending: bool,
    pub last_heartbeat_sent: u64,
    pub heartbeat_failures: u32,
    /// When the periodic heartbeat last fell due.
    pub last_beat_tick: u64,
}

/// The connection state request of a session.
pub open spec fn heartbeat_frame(channel: u8, hpai: Hpai) -> Seq<u8> {
    frame_of(KnxNetIpServiceType::ConnectionstateRequest, seq![channel, 0u8] + hpai_bytes(hpai))
}

/// Whether the two octets at 2 and 3 of `p` give `service`.
pub open spec fn is_service(p: Seq<u8>, service: KnxNetIpServiceType) -> bool {
    be16(p[2], p[3]) == knx_net_ip_service_type_code(service)
}

impl TunnelSession {
    /// A session on `channel_id`, numbers zero, nothing pending.
    pub fn new(channel_id: u8, hpai: Hpai, now: u64) -> (s: Self)
        ensures
            s.channel_id == channel_id,
            s.seq_num == 0,
            s.rx_seq_num == 0,
            s.hpai == hpai,
            s.active_send is None,
            !s.heartbeat_pending,
            s.heartbeat_failures == 0,
            s.last_beat_tick == now,
    {
        TunnelSession {
            channel_id,
            seq_num: 0,
            rx_seq_num: 0,
            hpai,
            active_send: None,
            last_sent_packet: Vec::new(),
            heartbeat_pending: false,
            last_heartbeat_sent: now,
            heartbeat_failures: 0,
            last_beat_tick: now,
        }
    }

    /// Whether a new frame may be taken: none waits for its
    /// acknowledgement.
    pub fn can_send(&self) -> (r: bool)
        ensures
            r == (self.active_send is None),
    {
        self.active_send.is_none()
    }

    /// The tunnelling request carrying `cemi` with the current sequence
    /// number; it is kept for one retransmission. `sent` tells whether
    /// the caller could send it; when it could not, nothing is pending.
    pub fn send_cemi(&mut self, cemi: &[u8], now: u64) -> (r: Vec<u8>)
        ensures
            r@ == tunnel_frame(KnxNetIpServiceType::TunnellingRequest, old(self).channel_id, old(self).seq_num, cemi@),
            final(self).last_sent_packet@ == r@,
            final(self).active_send == Some(ActiveSend { sent_at: now, retries: 0 }),
            final(self).seq_num == old(self).seq_num,
            final(self).rx_seq_num == old(self).rx_seq_num,
            final(self).channel_id == old(self).channel_id,
    {
        let mut p = KnxNetIpHeader::new(KnxNetIpServiceType::TunnellingRequest, {
            let l: u32 = (cemi.len() % 65536) as u32;
            proof {
                vstd::arithmetic::div_mod::lemma_add_mod_noop(cemi@.len() as int, 10, 65536);
                vstd::arithmetic::div_mod::lemma_mod_twice(10, 65536);
            }
            ((l + 10) % 65536) as u16
        }).to_buffer();
        p.push(4);
        p.push(self.channel_id);
        p.push(self.seq_num);
        p.push(0);
        push_all(&mut p, cemi);
        assert(p@ =~= tunnel_frame(KnxNetIpServiceType::TunnellingRequest, self.channel_id, self.seq_num, cemi@));
        self.last_sent_packet = p.clone();
        self.active_send = Some(ActiveSend { sent_at: now, retries: 0 });
        p
    }

    /// The caller could not send the frame: the send fails at once.
    pub fn send_failed(&mut self) -> (a: SessionAction)
        ensures
            final(self).active_send is None,
            a matches SessionAction::Complete(Err(KnxError::Io(m))) && m@ == "Send raw failed"@,
    {
        self.active_send = None;
        SessionAction::Complete(Err(KnxError::Io(string_of("Send raw failed"))))
    }

    /// A packet from the gateway. Acknowledgements of the pending frame
    /// complete it (a non-zero status fails it and ends the session);
    /// requests with the expected number are acknowledged and delivered,
    /// the previous number is acknowledged again; the heartbeat answer
    /// clears the pending heartbeat (an unknown connection ends the
    /// session); heartbeats of the gateway are answered; a disconnect ends
    /// the session.
    #[verifier::rlimit(50)]
    pub fn on_packet(&mut self, pkt: &[u8]) -> (r: Vec<SessionAction>)
        ensures
            session_steps(r@) == packet_steps(*old(self), pkt@),
            *final(self) == session_after(*old(self), pkt@),
    {
        let mut out: Vec<SessionAction> = Vec::new();
        let n = pkt.len();
        if n < 6 || pkt[0] != 6 || pkt[1] != 0x10 {
            return out;
        }
        let t = (pkt[2] as u16) * 256 + pkt[3] as u16;
        let st = match KnxNetIpServiceType::from_u16(t) {
            Some(s) => s,
            None => {
                return out;
            },
        };
        let blen = n - 6;
        if (st == KnxNetIpServiceType::TunnellingAck || st == KnxNetIpServiceType::DeviceConfigurationAck) {
            if blen >= 4 && pkt[7] == self.channel_id && pkt[8] == self.seq_num {
                let status = pkt[9];
                self.active_send = None;
                if status == 0 {
                    out.push(SessionAction::Complete(Ok(())));
                    self.seq_num = if self.seq_num == 255 {
                        0
                    } else {
                        self.seq_num + 1
                    };
                } else {
                    let mut m = string_of("ACK error status: ");
                    crate::utils::text::push_decimal(&mut m, status as u32);
                    out.push(SessionAction::Complete(Err(KnxError::Protocol(m))));
                    out.push(SessionAction::End);
                }
            }
        } else if st == KnxNetIpServiceType::TunnellingRequest || st == KnxNetIpServiceType::DeviceConfigurationRequest {
            if blen >= 4 && pkt[7] == self.channel_id {
                let req_seq = pkt[8];
                let header_len = pkt[6] as usize;
                let ack_type = if st == KnxNetIpServiceType::TunnellingRequest {
                    KnxNetIpServiceType::TunnellingAck
                } else {
                    KnxNetIpServiceType::DeviceConfigurationAck
                };
                let prev: u8 = if self.rx_seq_num == 0 {
                    255
                } else {
                    self.rx_seq_num - 1
                };
                if req_seq == self.rx_seq_num {
                    out.push(SessionAction::Send(build_ack(ack_type, self.channel_id, req_seq)));
                    self.rx_seq_num = if self.rx_seq_num == 255 {
                        0
                    } else {
                        self.rx_seq_num + 1
                    };
                    if blen > header_len {
                        let mut cemi: Vec<u8> = Vec::new();
                        let mut i: usize = 6 + header_len;
                        while i < n
                            invariant
                                n == pkt@.len(),
                                6 + header_len <= i <= n,
                                cemi@ == pkt@.subrange(6 + header_len, i as int),
                            decreases n - i,
                        {
                            cemi.push(pkt[i]);
                            assert(cemi@ =~= pkt@.subrange(6 + header_len, i + 1));
                            i = i + 1;
                        }
                        out.push(SessionAction::Deliver(cemi));
                    }
                } else if req_seq == prev {
                    out.push(SessionAction::Send(build_ack(ack_type, self.channel_id, req_seq)));
                }
            }
        } else if st == KnxNetIpServiceType::ConnectionstateResponse {
            if blen >= 2 && pkt[6] == self.channel_id {
                if pkt[7] == 0 {
                    self.heartbeat_pending = false;
                    self.heartbeat_failures = 0;
                } else if pkt[7] == 0x21 {
                    out.push(SessionAction::End);
                }
            }
        } else if st == KnxNetIpServiceType::ConnectionstateRequest {
            if blen >= 2 && pkt[6] == self.channel_id {
                let body = vec![self.channel_id, 0u8];
                out.push(SessionAction::Send(build_frame(KnxNetIpServiceType::ConnectionstateResponse, body.as_slice())));
            }
        } else if st == KnxNetIpServiceType::DisconnectRequest || st == KnxNetIpServiceType::DisconnectResponse {
            out.push(SessionAction::End);
        }
        out
    }

    /// The heartbeat timer: when no heartbeat is pending, send the
    /// connection state request.
    pub fn on_heartbeat_tick(&mut self, now: u64) -> (r: Option<Vec<u8>>)
        ensures
            old(self).heartbeat_pending ==> r is None && final(self).heartbeat_pending,
            !old(self).heartbeat_pending ==> final(self).heartbeat_pending && final(self).last_heartbeat_sent
                == now && (r matches Some(p) && p@ == heartbeat_frame(old(self).channel_id, old(self).hpai)),
            final(self).channel_id == old(self).channel_id,
            final(self).hpai == old(self).hpai,
            final(self).last_beat_tick == old(self).last_beat_tick,
    {
        if self.heartbeat_pending {
            return None;
        }
        self.heartbeat_pending = true;
        self.last_heartbeat_sent = now;
        Some(self.heartbeat_request())
    }

    /// The periodic timer at `now`: every 60 seconds the heartbeat falls
    /// due and is sent as `on_heartbeat_tick` does; between, nothing
    /// happens.
    pub fn on_timer_tick(&mut self, now: u64) -> (r: Option<Vec<u8>>)
        ensures
            ({
                let due = old(self).last_beat_tick <= now && now - old(self).last_beat_tick >= 60_000;
                &&& !due ==> r is None && *final(self) == *old(self)
                &&& due ==> final(self).last_beat_tick == now
                &&& (due && old(self).heartbeat_pending) ==> r is None && final(self).heartbeat_pending
                &&& (due && !old(self).heartbeat_pending) ==> final(self).heartbeat_pending && final(self).last_heartbeat_sent == now
                    && (r matches Some(p) && p@ == heartbeat_frame(old(self).channel_id, old(self).hpai))
            }),
            final(self).channel_id == old(self).channel_id,
            final(self).hpai == old(self).hpai,
    {
        if now < self.last_beat_tick || now - self.last_beat_tick < 60_000 {
            return None;
        }
        self.last_beat_tick = now;
        self.on_heartbeat_tick(now)
    }

    fn heartbeat_request(&self) -> (r: Vec<u8>)
        ensures
            r@ == heartbeat_frame(self.channel_id, self.hpai),
    {
        let mut body = vec![self.channel_id, 0u8];
        let hb = self.hpai.to_buffer();
        push_all(&mut body, hb.as_slice());
        assert(body@ =~= seq![self.channel_id, 0u8] + hpai_bytes(self.hpai));
        build_frame(KnxNetIpServiceType::ConnectionstateRequest, body.as_slice())
    }

    /// Time (on the caller's clock) at which the pending frame times out:
    /// one second after it was sent.
    pub fn ack_deadline(&self) -> (r: Option<u64>)
        ensures
            r == (match self.active_send {
                Some(a) => Some(if a.sent_at + 1000 > u64::MAX { u64::MAX } else { (a.sent_at + 1000) as u64 }),
                None => None,
            }),
    {
        match self.active_send {
            Some(a) => Some(a.sent_at.saturating_add(1000)),
            None => None,
        }
    }

    /// Time at which the pending heartbeat times out: ten seconds after it
    /// was sent.
    pub fn heartbeat_deadline(&self) -> (r: Option<u64>)
        ensures
            r == (if self.heartbeat_pending {
                Some(if self.last_heartbeat_sent + 10000 > u64::MAX { u64::MAX } else { (self.last_heartbeat_sent + 10000) as u64 })
            } else {
                None
            }),
    {
        if self.heartbeat_pending {
            Some(self.last_heartbeat_sent.saturating_add(10000))
        } else {
            None
        }
    }

    /// The pending frame timed out: it is sent once more; after that the
    /// send fails with a timeout and the session ends.
    pub fn on_ack_timeout(&mut self, now: u64) -> (r: Vec<SessionAction>)
        ensures
            old(self).active_send is None ==> r@.len() == 0 && final(self).active_send is None,
            (old(self).active_send matches Some(a) && a.retries < 1) ==> r@.len() == 1 && (r@[0] matches SessionAction::Send(p)
                && p@ == old(self).last_sent_packet@) && final(self).active_send == Some(ActiveSend { sent_at: now, retries: (old(self).active_send->0.retries + 1) as u8 }),
            (old(self).active_send matches Some(a) && a.retries >= 1) ==> r@.len() == 2 && (r@[0] matches SessionAction::Complete(Err(KnxError::Timeout)))
                && r@[1] is End && final(self).active_send is None,
            final(self).seq_num == old(self).seq_num,
    {
        let mut out: Vec<SessionAction> = Vec::new();
        match self.active_send {
            Some(a) => {
                if a.retries < 1 {
                    out.push(SessionAction::Send(self.last_sent_packet.clone()));
                    self.active_send = Some(ActiveSend { sent_at: now, retries: a.retries + 1 });
                } else {
                    self.active_send = None;
                    out.push(SessionAction::Complete(Err(KnxError::Timeout)));
                    out.push(SessionAction::End);
                }
            },
            None => {},
        }
        out
    }

    /// The pending heartbeat timed out: after the third failure the session
    /// ends, before it the request is sent again.
    pub fn on_heartbeat_timeout(&mut self, now: u64) -> (r: SessionAction)
        requires
            old(self).heartbeat_failures < u32::MAX,
        ensures
            final(self).heartbeat_failures == old(self).heartbeat_failures + 1,
            final(self).heartbeat_failures >= 3 ==> r is End,
            final(self).heartbeat_failures < 3 ==> (r matches SessionAction::Send(p) && p@ == heartbeat_frame(old(self).channel_id, old(self).hpai))
                && final(self).last_heartbeat_sent == now,
    {
        self.heartbeat_failures = self.heartbeat_failures + 1;
        if self.heartbeat_failures >= 3 {
            return SessionAction::End;
        }
        self.last_heartbeat_sent = now;
        SessionAction::Send(self.heartbeat_request())
    }
}

} // verus!
