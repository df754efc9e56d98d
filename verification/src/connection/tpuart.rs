//! The TP-UART serial interface: the byte protocol (control services,
//! frame framing with checksum, echo cancellation, repeat handling) and the
//! initialisation state machine. The serial port itself is driven by the
//! caller, which hands every received byte, confirmation and timer tick to
//! these functions and writes out what they return.
use crate::errors::KnxError;
use crate::protocol::cemi::{cemi_bytes, cemi_fits, Cemi};
use crate::utils::knx_helper::{address_from_string_spec, KnxHelper};
use crate::utils::text::string_of;
use vstd::prelude::*;

verus! {

pub const UART_SERVICES_RESET_REQ: u8 = 0x01;
pub const UART_SERVICES_RESET_IND: u8 = 0x03;
pub const UART_SERVICES_STATE_REQ: u8 = 0x02;
pub const UART_SERVICES_STATE_IND: u8 = 0x07;
pub const UART_SERVICES_ACTIVATE_BUSMON: u8 = 0x05;
pub const UART_SERVICES_LDATA_CON_POS: u8 = 0x8b;
pub const UART_SERVICES_LDATA_CON_NEG: u8 = 0x0b;
pub const UART_SERVICES_ACK_INFO: u8 = 0x10;
pub const UART_SERVICES_LDATA_START: u8 = 0x80;
pub const UART_SERVICES_LDATA_END: u8 = 0x40;
pub const UART_SERVICES_BUSY: u8 = 0xc0;

/// States of the interface.
#[derive(Debug, Clone, Copy, PartialEq, Eq, Structural)]
pub enum TpuartState {
    Disconnected,
    ResetWait,
    SetAddrWait,
    GetStateWait,
    Online,
    Error,
}

/// Confirmation of a sent frame.
#[derive(Debug, Clone, Copy, PartialEq, Eq, Structural)]
pub enum ConfirmationEvent {
    PosAck,
    NegAck,
    Busy,
}

/// Options of the serial interface.
#[derive(Debug, Clone)]
pub struct TpuartOptions {
    pub path: String,
    pub ack_group: bool,
    pub ack_individual: bool,
    pub individual_address: String,
}

/// The state of a TP-UART connection.
pub struct TpuartConnection {
    pub options: TpuartOptions,
    pub state: TpuartState,
    pub is_busmonitor_mode: bool,
    pub last_sent_frame: Option<Vec<u8>>,
}

/// Whether `received` is the echo of `last_sent`: same length, not empty,
/// same octets but for the repeat bit 0x20 of the first.
pub open spec fn is_echo_spec(last_sent: Seq<u8>, received: Seq<u8>) -> bool {
    &&& last_sent.len() == received.len()
    &&& last_sent.len() > 0
    &&& received[0] & !0x20u8 == last_sent[0] & !0x20u8
    &&& received.drop_first() == last_sent.drop_first()
}

/// The control octet sent before octet `i` of an `n`-octet telegram.
pub open spec fn uart_control(i: int, n: int) -> u8 {
    if i == n - 1 {
        (0x40 + i % 64) as u8
    } else {
        (0x80 + i % 64) as u8
    }
}

/// A telegram in UART services: every octet preceded by its control octet.
pub open spec fn uart_services(t: Seq<u8>) -> Seq<u8> {
    Seq::new(2 * t.len(), |k: int| if k % 2 == 0 { uart_control(k / 2, t.len() as int) } else { t[k / 2] })
}

/// The layout of a telegram in UART services: each octet follows its
/// control octet; octet `i` is announced by L_DATA.start/continue
/// (`0x80 + i mod 64`) except the last, which is announced by L_DATA.end
/// (`0x40 + i mod 64`).
pub proof fn lemma_uart_services_layout(t: Seq<u8>)
    ensures
        uart_services(t).len() == 2 * t.len(),
        forall|i: int| 0 <= i < t.len() ==> #[trigger] uart_services(t)[2 * i + 1] == t[i],
        forall|i: int|
            0 <= i < t.len() - 1 ==> #[trigger] uart_services(t)[2 * i] == 0x80 + i % 64,
        t.len() > 0 ==> uart_services(t)[2 * (t.len() - 1)] == 0x40 + (t.len() - 1) % 64,
{
    assert forall|i: int| 0 <= i < t.len() implies #[trigger] uart_services(t)[2 * i + 1]
        == t[i] by {
        assert((2 * i + 1) % 2 == 1);
        assert((2 * i + 1) / 2 == i);
    }
    assert forall|i: int| 0 <= i < t.len() - 1 implies #[trigger] uart_services(t)[2 * i]
        == 0x80 + i % 64 by {
        assert((2 * i) % 2 == 0);
        assert((2 * i) / 2 == i);
    }
    if t.len() > 0 {
        let j: int = t.len() - 1;
        assert((2 * j) % 2 == 0);
        assert((2 * j) / 2 == j);
    }
}

/// Whether an octet received outside a frame is a control service.
pub open spec fn is_control_spec(b: u8) -> bool {
    b == 0x03 || b == 0x8b || b == 0x0b || b == 0xc0 || b % 8 == 7
}

/// Whether an octet starts a frame (bits 6 and 4: 0 and 1).
pub open spec fn is_frame_start_spec(b: u8) -> bool {
    b & 0x50 == 0x10
}

/// The exclusive or of all octets of `s`.
pub open spec fn xor_all(s: Seq<u8>) -> u8
    decreases s.len(),
{
    if s.len() == 0 {
        0
    } else {
        xor_all(s.drop_last()) ^ s.last()
    }
}

/// Whether the last octet of a frame is the inverted exclusive or of the
/// others.
pub open spec fn checksum_ok(f: Seq<u8>) -> bool {
    f.len() > 0 && f.last() == xor_all(f.drop_last()) ^ 0xFF
}

/// The length of a frame whose first octets are `b`: standard frames carry
/// the payload length in the low nibble of octet 5, extended frames in
/// octet 6.
pub open spec fn frame_total(b: Seq<u8>, ext: bool) -> int {
    if ext {
        b[6] + 9
    } else {
        (b[5] % 16) + 8
    }
}

impl TpuartConnection {
    /// Whether `received` is the echo of the frame sent last.
    pub fn is_echo(last_sent: &[u8], received: &[u8]) -> (r: bool)
        ensures
            r == is_echo_spec(last_sent@, received@),
    {
        if last_sent.len() != received.len() || last_sent.len() == 0 {
            return false;
        }
        if (received[0] & !0x20u8) != (last_sent[0] & !0x20u8) {
            return false;
        }
        let n = received.len();
        let mut i: usize = 1;
        while i < n
            invariant
                n == received@.len(),
                n == last_sent@.len(),
                1 <= i <= n,
                forall|j: int| 1 <= j < i ==> received@[j] == last_sent@[j],
            decreases n - i,
        {
            if received[i] != last_sent[i] {
                assert(received@.drop_first()[i - 1] != last_sent@.drop_first()[i - 1]);
                return false;
            }
            i = i + 1;
        }
        assert(received@.drop_first() =~= last_sent@.drop_first());
        true
    }

    /// A connection that is not open yet.
    pub fn new(options: TpuartOptions) -> (c: Self)
        ensures
            c.state == TpuartState::Disconnected,
            !c.is_busmonitor_mode,
            c.last_sent_frame is None,
            c.options.individual_address@ == options.individual_address@,
            c.options.path@ == options.path@,
            c.options.ack_group == options.ack_group,
            c.options.ack_individual == options.ack_individual,
    {
        TpuartConnection { options, state: TpuartState::Disconnected, is_busmonitor_mode: false, last_sent_frame: None }
    }

    /// The start of the handshake: a closed connection waits for the reset
    /// indication and the reset request is to be written (`Some`); an open
    /// one is left as it is (`None`).
    pub fn begin_connect(&mut self) -> (w: Option<Vec<u8>>)
        ensures
            old(self).state == TpuartState::Disconnected ==> (final(self).state == TpuartState::ResetWait
                && (w matches Some(b) && b@ == seq![UART_SERVICES_RESET_REQ])),
            old(self).state != TpuartState::Disconnected ==> (final(self).state == old(self).state
                && w is None),
            final(self).is_busmonitor_mode == old(self).is_busmonitor_mode,
    {
        if self.state != TpuartState::Disconnected {
            return None;
        }
        self.state = TpuartState::ResetWait;
        let w = vec![UART_SERVICES_RESET_REQ];
        assert(w@ =~= seq![UART_SERVICES_RESET_REQ]);
        Some(w)
    }

    /// The end of the handshake: `Ok` when the state indication arrived in
    /// time; otherwise the connection is in error and the failure, or the
    /// timeout, is reported.
    pub fn finish_connect(&mut self, completed: bool, timed_out: bool) -> (r: Result<(), KnxError>)
        ensures
            completed && !timed_out ==> r is Ok && final(self).state == old(self).state,
            timed_out ==> r == Err::<(), KnxError>(KnxError::Timeout) && final(self).state
                == TpuartState::Error,
            !completed && !timed_out ==> (r matches Err(KnxError::Protocol(m)) && m@
                == "Handshake failed"@) && final(self).state == TpuartState::Error,
    {
        if timed_out {
            self.state = TpuartState::Error;
            return Err(KnxError::Timeout);
        }
        if completed {
            return Ok(());
        }
        self.state = TpuartState::Error;
        Err(KnxError::Protocol(string_of("Handshake failed")))
    }

    /// A control service received from the interface: the octets to write
    /// in answer, the confirmation it carries, and whether it completed the
    /// handshake.
    pub fn handle_control_byte(&mut self, byte: u8) -> (r: (Vec<Vec<u8>>, Option<ConfirmationEvent>, bool))
        ensures
            (byte == 0xCC || byte == 0x0C) ==> (r.0@.len() == 0 && r.1 is None && !r.2
                && final(self).state == old(self).state),
            byte == 0xC0 ==> (r.0@.len() == 0 && r.1 is None && !r.2 && final(self).state
                == old(self).state),
            byte == UART_SERVICES_RESET_IND && old(self).state == TpuartState::ResetWait ==> {
                &&& final(self).state == TpuartState::GetStateWait
                &&& r.1 is None && !r.2
                &&& match address_from_string_spec(old(self).options.individual_address@) {
                    Some(a) => r.0@.len() == 2 && r.0@[0]@ == seq![0x28u8, a.0, a.1]
                        && r.0@[1]@ == seq![UART_SERVICES_STATE_REQ],
                    None => r.0@.len() == 1 && r.0@[0]@ == seq![UART_SERVICES_STATE_REQ],
                }
            },
            byte == UART_SERVICES_RESET_IND && old(self).state == TpuartState::Online ==> (
            final(self).state == TpuartState::ResetWait && r.0@.len() == 1 && r.0@[0]@ == seq![
                UART_SERVICES_RESET_REQ,
            ] && r.1 is None && !r.2),
            byte == UART_SERVICES_RESET_IND && old(self).state != TpuartState::ResetWait
                && old(self).state != TpuartState::Online ==> (final(self).state == old(self).state
                && r.0@.len() == 0 && r.1 is None && !r.2),
            byte == UART_SERVICES_LDATA_CON_POS ==> (r.1 == Some(ConfirmationEvent::PosAck)
                && r.0@.len() == 0 && !r.2 && final(self).state == old(self).state),
            byte == UART_SERVICES_LDATA_CON_NEG ==> (r.1 == Some(ConfirmationEvent::NegAck)
                && r.0@.len() == 0 && !r.2 && final(self).state == old(self).state),
            (byte != 0xCC && byte != 0x0C && byte != 0xC0 && byte != UART_SERVICES_RESET_IND
                && byte != UART_SERVICES_LDATA_CON_POS && byte != UART_SERVICES_LDATA_CON_NEG
                && byte % 8 == 7) ==> (final(self).state == TpuartState::Online && r.0@.len() == 0
                && r.1 is None && r.2 == (old(self).state != TpuartState::Online)),
            (byte != 0xCC && byte != 0x0C && byte != 0xC0 && byte != UART_SERVICES_RESET_IND
                && byte != UART_SERVICES_BUSY && byte != UART_SERVICES_LDATA_CON_POS
                && byte != UART_SERVICES_LDATA_CON_NEG && byte % 8 != 7) ==> (final(self).state
                == old(self).state && r.0@.len() == 0 && r.1 is None && !r.2),
            final(self).is_busmonitor_mode == old(self).is_busmonitor_mode,
    {
        let mut writes: Vec<Vec<u8>> = Vec::new();
        if byte == 0xCC || byte == 0x0C || byte == 0xC0 {
            return (writes, None, false);
        }
        if byte == UART_SERVICES_RESET_IND {
            if self.state == TpuartState::ResetWait {
                self.state = TpuartState::SetAddrWait;
                match KnxHelper::get_address_from_string(self.options.individual_address.as_str()) {
                    Ok(a) => {
                        let cmd = vec![0x28u8, a[0], a[1]];
                        writes.push(cmd);
                    },
                    Err(_) => {},
                }
                self.state = TpuartState::GetStateWait;
                writes.push(vec![UART_SERVICES_STATE_REQ]);
                proof {
                    assert(seq![UART_SERVICES_STATE_REQ] =~= writes@.last()@);
                }
            } else if self.state == TpuartState::Online {
                self.state = TpuartState::ResetWait;
                let w = vec![UART_SERVICES_RESET_REQ];
                assert(w@ =~= seq![UART_SERVICES_RESET_REQ]);
                writes.push(w);
            }
            return (writes, None, false);
        }
        if byte == UART_SERVICES_BUSY {
            return (writes, Some(ConfirmationEvent::Busy), false);
        }
        if byte == UART_SERVICES_LDATA_CON_POS {
            return (writes, Some(ConfirmationEvent::PosAck), false);
        }
        if byte == UART_SERVICES_LDATA_CON_NEG {
            return (writes, Some(ConfirmationEvent::NegAck), false);
        }
        if byte % 8 == 7 {
            if self.state != TpuartState::Online {
                self.state = TpuartState::Online;
                return (writes, None, true);
            }
        }
        (writes, None, false)
    }

    /// The octet to acknowledge a received frame with: the plain
    /// acknowledgement, or the addressed one (0x11) when the options ask to
    /// acknowledge frames of this address kind. Nothing in bus monitor mode.
    pub fn ack_for_frame(&self, frame: &[u8]) -> (r: Option<u8>)
        requires
            frame@.len() >= 6,
        ensures
            self.is_busmonitor_mode ==> r is None,
            !self.is_busmonitor_mode ==> {
                let ext = frame@[0] & 0x80 == 0;
                let ctl = if ext {
                    frame@[1]
                } else {
                    frame@[5]
                };
                let group = ctl & 0x80 != 0;
                r == Some(
                    if (group && self.options.ack_group) || (!group && self.options.ack_individual) {
                        0x11u8
                    } else {
                        UART_SERVICES_ACK_INFO
                    },
                )
            },
    {
        if self.is_busmonitor_mode {
            return None;
        }
        let ext = frame[0] & 0x80 == 0;
        let ctl = if ext {
            frame[1]
        } else {
            frame[5]
        };
        let group = ctl & 0x80 != 0;
        if (group && self.options.ack_group) || (!group && self.options.ack_individual) {
            Some(0x11u8)
        } else {
            Some(UART_SERVICES_ACK_INFO)
        }
    }

    /// Whether a received frame is the echo of the frame sent last; an echo
    /// clears the record of the sent frame.
    pub fn take_echo(&mut self, frame: &[u8]) -> (r: bool)
        ensures
            r == (old(self).last_sent_frame matches Some(l) && is_echo_spec(l@, frame@)),
            r ==> final(self).last_sent_frame is None,
            !r ==> final(self).last_sent_frame == old(self).last_sent_frame,
            final(self).state == old(self).state,
            final(self).is_busmonitor_mode == old(self).is_busmonitor_mode,
    {
        let echo = match &self.last_sent_frame {
            Some(l) => Self::is_echo(l.as_slice(), frame),
            None => false,
        };
        if echo {
            self.last_sent_frame = None;
        }
        echo
    }

    /// The EMI frame handed to the cEMI adapter for a received frame: the
    /// L_Data.ind code 0x29 and the frame.
    pub fn emi_of_frame(frame: &[u8]) -> (r: Vec<u8>)
        ensures
            r@ == seq![0x29u8] + frame@,
    {
        let mut v: Vec<u8> = vec![0x29u8];
        let n = frame.len();
        let mut i: usize = 0;
        while i < n
            invariant
                n == frame@.len(),
                i <= n,
                v@ == seq![0x29u8] + frame@.subrange(0, i as int),
            decreases n - i,
        {
            v.push(frame[i]);
            assert(v@ =~= seq![0x29u8] + frame@.subrange(0, i + 1));
            i = i + 1;
        }
        assert(frame@.subrange(0, n as int) =~= frame@);
        v
    }

    /// The frame to send for a cEMI message: its octets without the message
    /// code. Refused unless the connection is online.
    pub fn send(&self, cemi: &Cemi) -> (r: Result<Vec<u8>, KnxError>)
        requires
            cemi_fits(*cemi),
        ensures
            self.state != TpuartState::Online ==> (r matches Err(KnxError::Protocol(m)) && m@
                == "TPUART connection is not online"@),
            self.state == TpuartState::Online ==> (r matches Ok(f) && f@ == cemi_bytes(
                *cemi,
            ).drop_first()),
    {
        if self.state != TpuartState::Online {
            return Err(KnxError::Protocol(string_of("TPUART connection is not online")));
        }
        let frame = cemi.to_buffer();
        let n = frame.len();
        let mut out: Vec<u8> = Vec::new();
        let mut i: usize = 1;
        while i < n
            invariant
                n == frame@.len(),
                n >= 1,
                1 <= i <= n,
                out@ == frame@.subrange(1, i as int),
            decreases n - i,
        {
            out.push(frame[i]);
            assert(out@ =~= frame@.subrange(1, i + 1));
            i = i + 1;
        }
        assert(out@ =~= frame@.drop_first());
        Ok(out)
    }

    /// Switches bus monitor mode while online; the command to write is the
    /// activation service, or a reset to leave the mode.
    pub fn set_busmonitor(&mut self, enabled: bool) -> (r: Result<Vec<u8>, KnxError>)
        ensures
            old(self).state != TpuartState::Online ==> r == Err::<Vec<u8>, KnxError>(
                KnxError::InvalidParametersForDpt,
            ) && final(self).is_busmonitor_mode == old(self).is_busmonitor_mode,
            old(self).state == TpuartState::Online ==> final(self).is_busmonitor_mode == enabled
                && (r matches Ok(c) && c@ == seq![
                if enabled {
                    UART_SERVICES_ACTIVATE_BUSMON
                } else {
                    UART_SERVICES_RESET_REQ
                },
            ]),
            final(self).state == old(self).state,
    {
        if self.state != TpuartState::Online {
            return Err(KnxError::InvalidParametersForDpt);
        }
        self.is_busmonitor_mode = enabled;
        let c = if enabled {
            vec![UART_SERVICES_ACTIVATE_BUSMON]
        } else {
            vec![UART_SERVICES_RESET_REQ]
        };
        assert(c@ =~= seq![
            if enabled {
                UART_SERVICES_ACTIVATE_BUSMON
            } else {
                UART_SERVICES_RESET_REQ
            },
        ]);
        Ok(c)
    }

    /// The periodic state check: an online interface is asked for its state
    /// again.
    pub fn keepalive_tick(&mut self) -> (w: Option<Vec<u8>>)
        ensures
            old(self).state == TpuartState::Online ==> (final(self).state
                == TpuartState::GetStateWait && (w matches Some(b) && b@ == seq![
                UART_SERVICES_STATE_REQ,
            ])),
            old(self).state != TpuartState::Online ==> (final(self).state == old(self).state
                && w is None),
    {
        if self.state == TpuartState::Online {
            self.state = TpuartState::GetStateWait;
            let w = vec![UART_SERVICES_STATE_REQ];
            assert(w@ =~= seq![UART_SERVICES_STATE_REQ]);
            Some(w)
        } else {
            None
        }
    }

    /// Closes the connection: `true` when it was open.
    pub fn disconnect(&mut self) -> (was_open: bool)
        ensures
            final(self).state == TpuartState::Disconnected,
            was_open == (old(self).state != TpuartState::Disconnected),
    {
        let was = self.state != TpuartState::Disconnected;
        self.state = TpuartState::Disconnected;
        was
    }

    /// The name of the state.
    pub fn connection_state(&self) -> (s: String)
        ensures
            s@ == tpuart_state_name(self.state),
    {
        match self.state {
            TpuartState::Disconnected => string_of("DISCONNECTED"),
            TpuartState::ResetWait => string_of("RESET_WAIT"),
            TpuartState::SetAddrWait => string_of("SET_ADDR_WAIT"),
            TpuartState::GetStateWait => string_of("GET_STATE_WAIT"),
            TpuartState::Online => string_of("ONLINE"),
            TpuartState::Error => string_of("ERROR"),
        }
    }

    /// Whether the interface is online.
    pub fn is_connected(&self) -> (r: bool)
        ensures
            r == (self.state == TpuartState::Online),
    {
        self.state == TpuartState::Online
    }

    /// The configured individual address.
    pub fn individual_address(&self) -> (s: String)
        ensures
            s@ == self.options.individual_address@,
    {
        string_of(self.options.individual_address.as_str())
    }
}

/// The name of a state.
pub open spec fn tpuart_state_name(s: TpuartState) -> Seq<char> {
    match s {
        TpuartState::Disconnected => "DISCONNECTED"@,
        TpuartState::ResetWait => "RESET_WAIT"@,
        TpuartState::SetAddrWait => "SET_ADDR_WAIT"@,
        TpuartState::GetStateWait => "GET_STATE_WAIT"@,
        TpuartState::Online => "ONLINE"@,
        TpuartState::Error => "ERROR"@,
    }
}

/// A telegram in UART services.
pub fn to_uart_services(telegram: &[u8]) -> (r: Vec<u8>)
    ensures
        r@ == uart_services(telegram@),
        r@.len() == 2 * telegram@.len(),
        forall|i: int| 0 <= i < telegram@.len() ==> #[trigger] r@[2 * i + 1] == telegram@[i],
        forall|i: int|
            0 <= i < telegram@.len() - 1 ==> #[trigger] r@[2 * i] == 0x80 + i % 64,
        telegram@.len() > 0 ==> r@[2 * (telegram@.len() - 1)] == 0x40 + (telegram@.len() - 1)
            % 64,
{
    let n = telegram.len();
    let mut out: Vec<u8> = Vec::new();
    let mut i: usize = 0;
    while i < n
        invariant
            n == telegram@.len(),
            i <= n,
            out@.len() == 2 * i,
            forall|k: int| 0 <= k < 2 * i ==> #[trigger] out@[k] == uart_services(telegram@)[k],
        decreases n - i,
    {
        let low = (i % 64) as u8;
        let ctrl = if i == n - 1 {
            UART_SERVICES_LDATA_END + low
        } else {
            UART_SERVICES_LDATA_START + low
        };
        out.push(ctrl);
        out.push(telegram[i]);
        proof {
            assert((2 * i) / 2 == i as int);
            assert((2 * i + 1) / 2 == i as int);
            assert((2 * i) % 2 == 0);
            assert((2 * i + 1) % 2 == 1);
        }
        i = i + 1;
    }
    assert(out@ =~= uart_services(telegram@));
    proof {
        lemma_uart_services_layout(telegram@);
    }
    out
}

/// Whether an octet received outside a frame is a control service.
pub fn is_control_byte(b: u8) -> (r: bool)
    ensures
        r == is_control_spec(b),
{
    b == UART_SERVICES_RESET_IND || b == UART_SERVICES_LDATA_CON_POS || b
        == UART_SERVICES_LDATA_CON_NEG || b == UART_SERVICES_BUSY || b % 8 == 7
}

/// Whether an octet starts a frame.
pub fn is_frame_start(b: u8) -> (r: bool)
    ensures
        r == is_frame_start_spec(b),
{
    b & 0x50 == 0x10
}

/// Whether the last octet of a frame is its checksum.
pub fn validate_checksum(frame: &[u8]) -> (r: bool)
    ensures
        r == checksum_ok(frame@),
{
    let n = frame.len();
    if n == 0 {
        return false;
    }
    let mut x: u8 = 0;
    let mut i: usize = 0;
    while i < n - 1
        invariant
            n == frame@.len(),
            n >= 1,
            i <= n - 1,
            x == xor_all(frame@.subrange(0, i as int)),
        decreases n - 1 - i,
    {
        assert(frame@.subrange(0, i + 1).drop_last() =~= frame@.subrange(0, i as int));
        x = x ^ frame[i];
        i = i + 1;
    }
    assert(frame@.subrange(0, n - 1) =~= frame@.drop_last());
    frame[n - 1] == x ^ 0xFF
}

/// What a received octet completed.
#[derive(Debug, Clone)]
pub enum ReceivedByte {
    /// Nothing yet.
    Pending,
    /// A control service, to hand to `handle_control_byte`.
    Control(u8),
    /// A complete frame with a valid checksum.
    Frame(Vec<u8>),
}

/// What an octet gives, with a frame as its octets.
pub enum ByteOutcome {
    Pending,
    Control(u8),
    Frame(Seq<u8>),
}

/// The outcome of a received octet as sequences.
pub open spec fn outcome_view(r: ReceivedByte) -> ByteOutcome {
    match r {
        ReceivedByte::Pending => ByteOutcome::Pending,
        ReceivedByte::Control(b) => ByteOutcome::Control(b),
        ReceivedByte::Frame(f) => ByteOutcome::Frame(f@),
    }
}

/// The receiver after octet `byte` arrives at `now`, from buffer `buf`
/// last extended at `last` (`ext`: an extended frame), with the outcome:
/// outside a frame a control service is passed on and a frame-end or
/// status-warning octet dropped; a partial frame a second old is dropped;
/// a frame start opens a frame, other octets outside one are dropped; a
/// frame is complete at the length its header gives, and is given when
/// its checksum holds.
pub open spec fn receive_step(buf: Seq<u8>, last: u64, ext: bool, byte: u8, now: u64) -> (Seq<u8>, u64, bool, ByteOutcome) {
    if buf.len() == 0 && is_control_spec(byte) {
        (buf, last, ext, ByteOutcome::Control(byte))
    } else if buf.len() == 0 && (byte == 0xCB || byte & 0x17 == 0x13) {
        (buf, last, ext, ByteOutcome::Pending)
    } else {
        let kept = if buf.len() > 0 && now > last && now - last > 1000 {
            Seq::<u8>::empty()
        } else {
            buf
        };
        if kept.len() == 0 {
            if is_frame_start_spec(byte) {
                (seq![byte], now, byte & 0x80 == 0, ByteOutcome::Pending)
            } else {
                (kept, last, ext, ByteOutcome::Pending)
            }
        } else {
            let b = kept.push(byte);
            if b.len() >= (if ext { 7int } else { 6 }) && b.len() >= frame_total(b, ext) {
                let f = b.subrange(0, frame_total(b, ext));
                (Seq::<u8>::empty(), now, ext, if checksum_ok(f) {
                    ByteOutcome::Frame(f)
                } else {
                    ByteOutcome::Pending
                })
            } else {
                (b, now, ext, ByteOutcome::Pending)
            }
        }
    }
}

/// Frame assembly from the received octets.
pub struct TpuartReceiver {
    pub buffer: Vec<u8>,
    pub last_read: u64,
    pub ext_frame: bool,
}

impl TpuartReceiver {
    /// Whether the buffer holds the start of a frame that is not complete.
    pub open spec fn wf(&self) -> bool {
        self.buffer@.len() > 0 ==> {
            &&& is_frame_start_spec(self.buffer@[0])
            &&& self.ext_frame == (self.buffer@[0] & 0x80 == 0)
            &&& (self.buffer@.len() >= (if self.ext_frame { 7int } else { 6 })) ==> self.buffer@.len()
                < frame_total(self.buffer@, self.ext_frame)
        }
    }

    /// An empty receiver.
    pub fn new() -> (r: Self)
        ensures
            r.buffer@.len() == 0,
            r.wf(),
    {
        TpuartReceiver { buffer: Vec::new(), last_read: 0, ext_frame: false }
    }

    /// Takes the octet `byte` received at time `now`. Outside a frame,
    /// control services are passed on, frame-end and status-warning octets
    /// are dropped and a frame start opens a frame; after a second without
    /// octets a partial frame is dropped. A frame is complete at the length
    /// its header gives and is returned when its checksum holds.
    pub fn process_byte(&mut self, byte: u8, now: u64) -> (r: ReceivedByte)
        requires
            old(self).wf(),
        ensures
            final(self).wf(),
            (final(self).buffer@, final(self).last_read, final(self).ext_frame, outcome_view(r))
                == receive_step(old(self).buffer@, old(self).last_read, old(self).ext_frame, byte, now),
            r matches ReceivedByte::Frame(f) ==> checksum_ok(f@) && is_frame_start_spec(f@[0]),
    {
        if self.buffer.len() == 0 {
            if is_control_byte(byte) {
                return ReceivedByte::Control(byte);
            }
            if byte == 0xCB || (byte & 0x17) == 0x13 {
                return ReceivedByte::Pending;
            }
        }
        if self.buffer.len() > 0 && now > self.last_read && now - self.last_read > 1000 {
            self.buffer.clear();
        }
        if self.buffer.len() == 0 {
            if is_frame_start(byte) {
                self.ext_frame = (byte & 0x80) == 0;
                self.buffer.push(byte);
                self.last_read = now;
            }
            return ReceivedByte::Pending;
        }
        self.buffer.push(byte);
        self.last_read = now;
        let min_len: usize = if self.ext_frame {
            7
        } else {
            6
        };
        if self.buffer.len() >= min_len {
            let payload: usize = if self.ext_frame {
                self.buffer[6] as usize
            } else {
                (self.buffer[5] % 16) as usize
            };
            let total: usize = payload + if self.ext_frame {
                9
            } else {
                8
            };
            if self.buffer.len() >= total {
                let mut frame: Vec<u8> = Vec::new();
                let mut i: usize = 0;
                while i < total
                    invariant
                        total <= self.buffer@.len(),
                        i <= total,
                        frame@ == self.buffer@.subrange(0, i as int),
                    decreases total - i,
                {
                    frame.push(self.buffer[i]);
                    assert(frame@ =~= self.buffer@.subrange(0, i + 1));
                    i = i + 1;
                }
                assert(frame@[0] == self.buffer@[0]);
                self.buffer.clear();
                if validate_checksum(frame.as_slice()) {
                    return ReceivedByte::Frame(frame);
                }
            }
        }
        ReceivedByte::Pending
    }
}

/// Repetition of a telegram: after the first attempt a telegram with the
/// repeat bit set has it cleared, and the checksum flips the same bit.
pub fn repeat_telegram(telegram: &mut Vec<u8>, attempt: u32)
    ensures
        ({
            let t = old(telegram)@;
            let u = final(telegram)@;
            let cleared = t.update(0, t[0] & !0x20u8);
            (attempt > 0 && t.len() > 0 && t[0] & 0x20 != 0) ==> u == cleared.update(
                t.len() - 1,
                cleared[t.len() - 1] ^ 0x20u8,
            )
        }),
        !(attempt > 0 && old(telegram)@.len() > 0 && old(telegram)@[0] & 0x20 != 0)
            ==> final(telegram)@ == old(telegram)@,
{
    if attempt > 0 && telegram.len() > 0 && (telegram[0] & 0x20) != 0 {
        let first = telegram[0] & !0x20u8;
        telegram.set(0, first);
        let last = telegram.len() - 1;
        let v = telegram[last] ^ 0x20u8;
        telegram.set(last, v);
    }
}

/// The attempt count after a confirmation (`None`: none arrived in time),
/// and whether sending is over: a positive confirmation ends it, a negative
/// one, a busy interface or a timeout count an attempt.
pub fn next_attempt(attempts: u32, event: Option<ConfirmationEvent>) -> (r: (u32, bool))
    requires
        attempts < u32::MAX,
    ensures
        event == Some(ConfirmationEvent::PosAck) ==> r == (attempts, true),
        event != Some(ConfirmationEvent::PosAck) ==> r.0 == attempts + 1 && !r.1,
{
    match event {
        Some(ConfirmationEvent::PosAck) => (attempts, true),
        _ => (attempts + 1, false),
    }
}

} // verus!
