//! The server side of one KNXnet/IP tunnelling or device management
//! connection: sequence numbers, heartbeat, the outgoing queue and
//! stop-and-wait delivery with one retransmission.
//!
//! Times are milliseconds on the connection's own clock (`origin`); every
//! operation that reads the clock has a variant taking the time as an
//! argument, which carries the exact contract.
use crate::connection::clock::{instant_now, millis_since};
use crate::protocol::knxnetip_enum::{KnxLayer, KnxNetIpServiceType};
use crate::protocol::knxnetip_header::{header_bytes, KnxNetIpHeader};
use crate::protocol::knxnetip_structures::{push_all, Hpai};
use crate::utils::text::{dec_str, push_char, push_decimal};
use std::time::Instant;
use vstd::prelude::*;

verus! {

/// What to do with an incoming request, by its sequence number.
#[derive(Debug, Clone, Copy, PartialEq, Eq, Structural)]
pub enum RequestAction {
    /// The expected sequence number: process the frame.
    Process,
    /// The previous sequence number: acknowledge again.
    RetransmitAck,
    /// Out of sequence: discard without reply.
    Discard,
}

/// The outcome of validating a request.
#[derive(Debug, Clone, Copy, PartialEq, Eq, Structural)]
pub struct RequestValidation {
    pub action: RequestAction,
    pub status: u8,
}

/// The frame waiting for its acknowledgement.
#[derive(Debug, Clone)]
pub struct PendingAck {
    pub packet: Vec<u8>,
    pub seq: u8,
    pub is_retransmission: bool,
    pub deadline: u64,
}

/// A frame waiting in the outgoing queue.
#[derive(Debug, Clone)]
pub struct QueueItem {
    pub packet: Vec<u8>,
    pub seq: u8,
    pub service_type: KnxNetIpServiceType,
}

/// One tunnelling or device management connection of a client.
pub struct TunnelConnection {
    pub channel_id: u8,
    pub sno: u8,
    pub rno: u8,
    pub control_hpai: Hpai,
    pub data_hpai: Hpai,
    pub knx_address: u16,
    pub knx_address_str: String,
    pub knx_layer: KnxLayer,
    pub rx_count: u32,
    pub last_rx_time: u64,
    pub queue: Vec<QueueItem>,
    pub is_sending: bool,
    pub pending_ack: Option<PendingAck>,
    pub heartbeat_deadline: u64,
    pub heartbeat_timeout: u64,
    pub retransmit_timeout: u64,
    pub max_queue_size: usize,
    pub origin: Instant,
}

/// The frame of a tunnelling (or device configuration) request: header,
/// the four-octet connection header and the cEMI frame.
pub open spec fn tunnel_frame(
    service_type: KnxNetIpServiceType,
    channel: u8,
    seq: u8,
    cemi: Seq<u8>,
) -> Seq<u8> {
    header_bytes(
        KnxNetIpHeader { service_type, total_length: ((10 + cemi.len()) % 65536) as u16 },
    ) + seq![4u8, channel, seq, 0u8] + cemi
}

/// `a + b`, saturated at the largest `u64`.
pub open spec fn sat_add(a: u64, b: u64) -> u64 {
    if a + b > u64::MAX {
        u64::MAX
    } else {
        (a + b) as u64
    }
}

/// The validation of sequence number `seq` against the expected `rno`,
/// and the expected number afterwards.
pub open spec fn validation(rno: u8, seq: u8) -> (RequestValidation, u8) {
    if seq == rno {
        (RequestValidation { action: RequestAction::Process, status: 0 }, ((rno + 1) % 256) as u8)
    } else if seq == (rno + 255) % 256 {
        (RequestValidation { action: RequestAction::RetransmitAck, status: 0 }, rno)
    } else {
        (RequestValidation { action: RequestAction::Discard, status: 0 }, rno)
    }
}

/// Whether a deadline has passed at `now`.
pub open spec fn expired_by(deadline: u64, now: u64) -> bool {
    now >= deadline
}

/// Whether the acknowledgement awaited, if any, is overdue at `now`.
pub open spec fn ack_overdue(pending: Option<PendingAck>, now: u64) -> bool {
    pending matches Some(a) && now >= a.deadline
}

/// The text `a.b.c.d:port` of an address.
pub open spec fn endpoint_text(h: Hpai) -> Seq<char> {
    dec_str(h.ip_address@[0] as nat) + seq!['.'] + dec_str(h.ip_address@[1] as nat) + seq!['.']
        + dec_str(h.ip_address@[2] as nat) + seq!['.'] + dec_str(h.ip_address@[3] as nat)
        + seq![':'] + dec_str(h.port as nat)
}

/// The text `a.b.c.d:port` of an address.
pub fn endpoint_string(h: &Hpai) -> (s: String)
    ensures
        s@ == endpoint_text(*h),
{
    let mut s = String::new();
    push_decimal(&mut s, h.ip_address[0] as u32);
    push_char(&mut s, '.');
    push_decimal(&mut s, h.ip_address[1] as u32);
    push_char(&mut s, '.');
    push_decimal(&mut s, h.ip_address[2] as u32);
    push_char(&mut s, '.');
    push_decimal(&mut s, h.ip_address[3] as u32);
    push_char(&mut s, ':');
    push_decimal(&mut s, h.port as u32);
    assert(s@ =~= endpoint_text(*h));
    s
}

impl TunnelConnection {
    /// Whether everything but the fields a step may change is as in `old`.
    pub open spec fn same_identity(self, old: Self) -> bool {
        &&& self.channel_id == old.channel_id
        &&& self.control_hpai == old.control_hpai
        &&& self.data_hpai == old.data_hpai
        &&& self.knx_address == old.knx_address
        &&& self.knx_address_str@ == old.knx_address_str@
        &&& self.knx_layer == old.knx_layer
        &&& self.heartbeat_timeout == old.heartbeat_timeout
        &&& self.retransmit_timeout == old.retransmit_timeout
        &&& self.max_queue_size == old.max_queue_size
        &&& self.origin == old.origin
    }

    /// Whether the queue, the sending flag and the pending frame are as in
    /// `old`.
    pub open spec fn same_delivery(self, old: Self) -> bool {
        &&& self.queue@ == old.queue@
        &&& self.is_sending == old.is_sending
        &&& self.pending_ack == old.pending_ack
    }

    /// A new connection at time `now`: sequence numbers zero, empty queue,
    /// heartbeat due `heartbeat_timeout_ms` from now.
    pub fn new_at(
        channel_id: u8,
        control_hpai: Hpai,
        data_hpai: Hpai,
        knx_address: u16,
        knx_address_str: String,
        knx_layer: KnxLayer,
        heartbeat_timeout_ms: u64,
        retransmit_timeout_ms: u64,
        max_queue_size: usize,
        origin: Instant,
        now: u64,
    ) -> (c: Self)
        ensures
            c.channel_id == channel_id,
            c.sno == 0,
            c.rno == 0,
            c.control_hpai == control_hpai,
            c.data_hpai == data_hpai,
            c.knx_address == knx_address,
            c.knx_address_str@ == knx_address_str@,
            c.knx_layer == knx_layer,
            c.rx_count == 0,
            c.last_rx_time == now,
            c.queue@.len() == 0,
            !c.is_sending,
            c.pending_ack is None,
            c.heartbeat_deadline == sat_add(now, heartbeat_timeout_ms),
            c.heartbeat_timeout == heartbeat_timeout_ms,
            c.retransmit_timeout == retransmit_timeout_ms,
            c.max_queue_size == max_queue_size,
            c.origin == origin,
    {
        TunnelConnection {
            channel_id,
            sno: 0,
            rno: 0,
            control_hpai,
            data_hpai,
            knx_address,
            knx_address_str,
            knx_layer,
            rx_count: 0,
            last_rx_time: now,
            queue: Vec::new(),
            is_sending: false,
            pending_ack: None,
            heartbeat_deadline: now.saturating_add(heartbeat_timeout_ms),
            heartbeat_timeout: heartbeat_timeout_ms,
            retransmit_timeout: retransmit_timeout_ms,
            max_queue_size,
            origin,
        }
    }

    /// A new connection whose clock starts now.
    pub fn new(
        channel_id: u8,
        control_hpai: Hpai,
        data_hpai: Hpai,
        knx_address: u16,
        knx_address_str: String,
        knx_layer: KnxLayer,
        heartbeat_timeout_ms: u64,
        retransmit_timeout_ms: u64,
        max_queue_size: usize,
    ) -> (c: Self)
        ensures
            c.channel_id == channel_id,
            c.sno == 0,
            c.rno == 0,
            c.control_hpai == control_hpai,
            c.data_hpai == data_hpai,
            c.knx_address == knx_address,
            c.knx_address_str@ == knx_address_str@,
            c.knx_layer == knx_layer,
            c.rx_count == 0,
            c.queue@.len() == 0,
            !c.is_sending,
            c.pending_ack is None,
            c.heartbeat_timeout == heartbeat_timeout_ms,
            c.retransmit_timeout == retransmit_timeout_ms,
            c.max_queue_size == max_queue_size,
            c.heartbeat_deadline == sat_add(c.last_rx_time, heartbeat_timeout_ms),
    {
        let origin = instant_now();
        let now = millis_since(&origin);
        Self::new_at(
            channel_id,
            control_hpai,
            data_hpai,
            knx_address,
            knx_address_str,
            knx_layer,
            heartbeat_timeout_ms,
            retransmit_timeout_ms,
            max_queue_size,
            origin,
            now,
        )
    }

    /// The time on the connection's clock.
    pub fn now(&self) -> u64 {
        millis_since(&self.origin)
    }

    /// Restarts the heartbeat period at time `now`.
    pub fn reset_heartbeat_at(&mut self, now: u64)
        ensures
            final(self).heartbeat_deadline == sat_add(now, old(self).heartbeat_timeout),
            final(self).same_identity(*old(self)),
            final(self).same_delivery(*old(self)),
            final(self).sno == old(self).sno,
            final(self).rno == old(self).rno,
            final(self).rx_count == old(self).rx_count,
            final(self).last_rx_time == old(self).last_rx_time,
    {
        self.heartbeat_deadline = now.saturating_add(self.heartbeat_timeout);
    }

    /// Restarts the heartbeat period now.
    pub fn reset_heartbeat(&mut self)
        ensures
            final(self).same_identity(*old(self)),
            final(self).same_delivery(*old(self)),
            final(self).sno == old(self).sno,
            final(self).rno == old(self).rno,
    {
        let now = self.now();
        self.reset_heartbeat_at(now);
    }

    /// Whether the heartbeat period has run out at time `now`.
    pub fn is_heartbeat_expired_at(&self, now: u64) -> (r: bool)
        ensures
            r == (now >= self.heartbeat_deadline),
    {
        now >= self.heartbeat_deadline
    }

    /// Whether the heartbeat period has run out by the connection's clock.
    pub fn is_heartbeat_expired(&self) -> (r: bool)
        ensures
            exists|now: u64| r == #[trigger] expired_by(self.heartbeat_deadline, now),
    {
        let now = self.now();
        let r = self.is_heartbeat_expired_at(now);
        assert(r == expired_by(self.heartbeat_deadline, now));
        r
    }

    /// Whether the pending frame's acknowledgement is overdue at time `now`.
    pub fn is_ack_timeout_at(&self, now: u64) -> (r: bool)
        ensures
            r == (self.pending_ack matches Some(a) && now >= a.deadline),
    {
        match &self.pending_ack {
            Some(a) => now >= a.deadline,
            None => false,
        }
    }

    /// Whether the pending frame's acknowledgement is overdue.
    pub fn is_ack_timeout(&self) -> (r: bool)
        ensures
            exists|now: u64| r == #[trigger] ack_overdue(self.pending_ack, now),
    {
        let now = self.now();
        let r = self.is_ack_timeout_at(now);
        assert(r == ack_overdue(self.pending_ack, now));
        r
    }

    /// Whether the pending frame was already sent again: `None` with no
    /// pending frame.
    pub fn pending_ack_is_retransmission(&self) -> (r: Option<bool>)
        ensures
            r == (match self.pending_ack {
                Some(a) => Some(a.is_retransmission),
                None => None,
            }),
    {
        match &self.pending_ack {
            Some(a) => Some(a.is_retransmission),
            None => None,
        }
    }

    /// Queues a cEMI frame for the client with the next sequence number.
    /// With a queue limit and a full queue nothing changes and the answer
    /// is `queue_full`.
    pub fn enqueue(&mut self, cemi_buffer: &[u8], service_type: KnxNetIpServiceType) -> (r: Option<&'static str>)
        ensures
            old(self).max_queue_size > 0 && old(self).queue@.len() >= old(self).max_queue_size ==> {
                &&& r matches Some(s) && s@ == "queue_full"@
                &&& final(self).queue@ == old(self).queue@
                &&& final(self).sno == old(self).sno
            },
            !(old(self).max_queue_size > 0 && old(self).queue@.len() >= old(self).max_queue_size)
                ==> {
                &&& r is None
                &&& final(self).queue@.len() == old(self).queue@.len() + 1
                &&& final(self).queue@.drop_last() == old(self).queue@
                &&& final(self).queue@.last().packet@ == tunnel_frame(
                    service_type,
                    old(self).channel_id,
                    old(self).sno,
                    cemi_buffer@,
                )
                &&& final(self).queue@.last().seq == old(self).sno
                &&& final(self).queue@.last().service_type == service_type
                &&& final(self).sno == (old(self).sno + 1) % 256
            },
            final(self).same_identity(*old(self)),
            final(self).rno == old(self).rno,
            final(self).is_sending == old(self).is_sending,
            final(self).pending_ack == old(self).pending_ack,
            final(self).heartbeat_deadline == old(self).heartbeat_deadline,
    {
        if self.max_queue_size > 0 && self.queue.len() >= self.max_queue_size {
            proof {
                reveal_strlit("queue_full");
            }
            return Some("queue_full");
        }
        let seq = self.sno;
        let l: u32 = (cemi_buffer.len() % 65536) as u32;
        let total = ((l + 10) % 65536) as u16;
        proof {
            vstd::arithmetic::div_mod::lemma_add_mod_noop(cemi_buffer@.len() as int, 10, 65536);
            vstd::arithmetic::div_mod::lemma_mod_twice(10, 65536);
        }
        let header = KnxNetIpHeader::new(service_type, total);
        let mut packet = header.to_buffer();
        packet.push(4);
        packet.push(self.channel_id);
        packet.push(seq);
        packet.push(0);
        push_all(&mut packet, cemi_buffer);
        assert(packet@ =~= tunnel_frame(service_type, self.channel_id, seq, cemi_buffer@));
        self.queue.push(QueueItem { packet, seq, service_type });
        self.sno = if self.sno == 255 {
            0
        } else {
            self.sno + 1
        };
        assert(self.queue@.drop_last() =~= old(self).queue@);
        None
    }

    /// Takes the next queued frame for sending at time `now`, unless a frame
    /// is still waiting for its acknowledgement or the queue is empty. The
    /// frame then waits for its acknowledgement until `now` plus the
    /// retransmission timeout.
    pub fn process_queue_at(&mut self, now: u64) -> (r: Option<Vec<u8>>)
        ensures
            (old(self).is_sending || old(self).queue@.len() == 0) ==> {
                &&& r is None
                &&& final(self).same_delivery(*old(self))
            },
            !(old(self).is_sending || old(self).queue@.len() == 0) ==> {
                &&& r matches Some(p) && p@ == old(self).queue@[0].packet@
                &&& final(self).is_sending
                &&& final(self).queue@ == old(self).queue@.drop_first()
                &&& final(self).pending_ack matches Some(a) && a.packet@ == old(self).queue@[0].packet@
                    && a.seq == old(self).queue@[0].seq && !a.is_retransmission && a.deadline
                    == sat_add(now, old(self).retransmit_timeout)
            },
            final(self).same_identity(*old(self)),
            final(self).sno == old(self).sno,
            final(self).rno == old(self).rno,
            final(self).heartbeat_deadline == old(self).heartbeat_deadline,
    {
        if self.is_sending || self.queue.len() == 0 {
            return None;
        }
        self.is_sending = true;
        let item = self.queue.remove(0);
        assert(self.queue@ =~= old(self).queue@.drop_first());
        let packet = item.packet.clone();
        self.pending_ack = Some(
            PendingAck {
                packet: item.packet,
                seq: item.seq,
                is_retransmission: false,
                deadline: now.saturating_add(self.retransmit_timeout),
            },
        );
        Some(packet)
    }

    /// Takes the next queued frame for sending now.
    pub fn process_queue(&mut self) -> (r: Option<Vec<u8>>)
        ensures
            (old(self).is_sending || old(self).queue@.len() == 0) ==> r is None,
            (old(self).is_sending || old(self).queue@.len() == 0) ==> final(self).same_delivery(*old(self)),
            !(old(self).is_sending || old(self).queue@.len() == 0) ==> {
                &&& r matches Some(p) && p@ == old(self).queue@[0].packet@
                &&& final(self).is_sending
                &&& final(self).queue@ == old(self).queue@.drop_first()
                &&& final(self).pending_ack matches Some(a) && a.packet@ == old(self).queue@[0].packet@
                    && a.seq == old(self).queue@[0].seq && !a.is_retransmission
            },
            final(self).same_identity(*old(self)),
            final(self).sno == old(self).sno,
            final(self).rno == old(self).rno,
            final(self).heartbeat_deadline == old(self).heartbeat_deadline,
    {
        let now = self.now();
        self.process_queue_at(now)
    }

    /// Sends the pending frame a second time at time `now`: only when it
    /// was sent once so far.
    pub fn retransmit_at(&mut self, now: u64) -> (r: Option<Vec<u8>>)
        ensures
            (old(self).pending_ack matches Some(a) && !a.is_retransmission) ==> {
                &&& r matches Some(p) && p@ == old(self).pending_ack->0.packet@
                &&& final(self).pending_ack matches Some(b) && b.packet@
                    == old(self).pending_ack->0.packet@ && b.seq == old(self).pending_ack->0.seq
                    && b.is_retransmission && b.deadline == sat_add(
                    now,
                    old(self).retransmit_timeout,
                )
            },
            !(old(self).pending_ack matches Some(a) && !a.is_retransmission) ==> {
                &&& r is None
                &&& final(self).pending_ack == old(self).pending_ack
            },
            final(self).same_identity(*old(self)),
            final(self).queue@ == old(self).queue@,
            final(self).is_sending == old(self).is_sending,
            final(self).sno == old(self).sno,
            final(self).rno == old(self).rno,
            final(self).heartbeat_deadline == old(self).heartbeat_deadline,
    {
        let (packet, seq) = match &self.pending_ack {
            Some(a) => {
                if a.is_retransmission {
                    return None;
                }
                (a.packet.clone(), a.seq)
            },
            None => {
                return None;
            },
        };
        let copy = packet.clone();
        self.pending_ack = Some(
            PendingAck {
                packet,
                seq,
                is_retransmission: true,
                deadline: now.saturating_add(self.retransmit_timeout),
            },
        );
        Some(copy)
    }

    /// Sends the pending frame a second time now.
    pub fn retransmit(&mut self) -> (r: Option<Vec<u8>>)
        ensures
            (old(self).pending_ack matches Some(a) && !a.is_retransmission) ==> (r matches Some(p)
                && p@ == old(self).pending_ack->0.packet@),
            (old(self).pending_ack matches Some(a) && !a.is_retransmission) ==> (final(self).pending_ack matches Some(b)
                && b.packet@ == old(self).pending_ack->0.packet@ && b.seq == old(self).pending_ack->0.seq
                && b.is_retransmission),
            !(old(self).pending_ack matches Some(a) && !a.is_retransmission) ==> r is None
                && final(self).pending_ack == old(self).pending_ack,
            final(self).same_identity(*old(self)),
            final(self).queue@ == old(self).queue@,
            final(self).is_sending == old(self).is_sending,
            final(self).sno == old(self).sno,
            final(self).rno == old(self).rno,
            final(self).heartbeat_deadline == old(self).heartbeat_deadline,
    {
        let now = self.now();
        self.retransmit_at(now)
    }

    /// An acknowledgement from the client at time `now`: restarts the
    /// heartbeat; when it answers the pending frame, delivery may go on and
    /// a non-zero status is reported as `ack_error`. Acknowledgements of
    /// other frames are ignored.
    pub fn handle_ack_at(&mut self, seq: u8, status: u8, now: u64) -> (r: Result<(), &'static str>)
        ensures
            final(self).heartbeat_deadline == sat_add(now, old(self).heartbeat_timeout),
            (old(self).pending_ack matches Some(a) && a.seq == seq) ==> {
                &&& final(self).pending_ack is None
                &&& !final(self).is_sending
                &&& status == 0 ==> r is Ok
                &&& status != 0 ==> (r matches Err(e) && e@ == "ack_error"@)
            },
            !(old(self).pending_ack matches Some(a) && a.seq == seq) ==> {
                &&& r is Ok
                &&& final(self).pending_ack == old(self).pending_ack
                &&& final(self).is_sending == old(self).is_sending
            },
            final(self).same_identity(*old(self)),
            final(self).queue@ == old(self).queue@,
            final(self).sno == old(self).sno,
            final(self).rno == old(self).rno,
    {
        self.reset_heartbeat_at(now);
        let matches = match &self.pending_ack {
            Some(a) => a.seq == seq,
            None => false,
        };
        if matches {
            self.pending_ack = None;
            self.is_sending = false;
            if status != 0 {
                proof {
                    reveal_strlit("ack_error");
                }
                return Err("ack_error");
            }
        }
        Ok(())
    }

    /// An acknowledgement from the client now.
    pub fn handle_ack(&mut self, seq: u8, status: u8) -> (r: Result<(), &'static str>)
        ensures
            (old(self).pending_ack matches Some(a) && a.seq == seq) ==> {
                &&& final(self).pending_ack is None
                &&& !final(self).is_sending
                &&& status == 0 ==> r is Ok
                &&& status != 0 ==> (r matches Err(e) && e@ == "ack_error"@)
            },
            !(old(self).pending_ack matches Some(a) && a.seq == seq) ==> {
                &&& r is Ok
                &&& final(self).pending_ack == old(self).pending_ack
                &&& final(self).is_sending == old(self).is_sending
            },
            final(self).same_identity(*old(self)),
            final(self).queue@ == old(self).queue@,
            final(self).sno == old(self).sno,
            final(self).rno == old(self).rno,
    {
        let now = self.now();
        self.handle_ack_at(seq, status, now)
    }

    /// Validates the sequence number of a request from the client at time
    /// `now` (and restarts the heartbeat): the expected number is processed
    /// and advances the expected number, the previous one is acknowledged
    /// again, any other is discarded.
    pub fn validate_request_at(&mut self, seq: u8, now: u64) -> (r: RequestValidation)
        ensures
            (r, final(self).rno) == validation(old(self).rno, seq),
            final(self).heartbeat_deadline == sat_add(now, old(self).heartbeat_timeout),
            final(self).same_identity(*old(self)),
            final(self).same_delivery(*old(self)),
            final(self).sno == old(self).sno,
    {
        self.reset_heartbeat_at(now);
        let prev: u8 = if self.rno == 0 {
            255
        } else {
            self.rno - 1
        };
        if seq == self.rno {
            self.rno = if self.rno == 255 {
                0
            } else {
                self.rno + 1
            };
            RequestValidation { action: RequestAction::Process, status: 0 }
        } else if seq == prev {
            RequestValidation { action: RequestAction::RetransmitAck, status: 0 }
        } else {
            RequestValidation { action: RequestAction::Discard, status: 0 }
        }
    }

    /// Validates the sequence number of a request from the client now.
    pub fn validate_request(&mut self, seq: u8) -> (r: RequestValidation)
        ensures
            (r, final(self).rno) == validation(old(self).rno, seq),
            final(self).same_identity(*old(self)),
            final(self).same_delivery(*old(self)),
            final(self).sno == old(self).sno,
    {
        let now = self.now();
        self.validate_request_at(seq, now)
    }

    /// The address data for the client is sent to, as `a.b.c.d:port`.
    pub fn data_endpoint(&self) -> (s: String)
        ensures
            s@ == endpoint_text(self.data_hpai),
    {
        endpoint_string(&self.data_hpai)
    }

    /// The client's control address, as `a.b.c.d:port`.
    pub fn control_endpoint(&self) -> (s: String)
        ensures
            s@ == endpoint_text(self.control_hpai),
    {
        endpoint_string(&self.control_hpai)
    }

    /// Drops the queue and the pending frame.
    pub fn close(&mut self)
        ensures
            final(self).queue@.len() == 0,
            final(self).pending_ack is None,
            !final(self).is_sending,
            final(self).same_identity(*old(self)),
            final(self).sno == old(self).sno,
            final(self).rno == old(self).rno,
    {
        self.pending_ack = None;
        self.queue.clear();
        self.is_sending = false;
    }

    /// Whether frames are queued or one waits for its acknowledgement.
    pub fn has_pending_work(&self) -> (r: bool)
        ensures
            r == (self.queue@.len() > 0 || self.pending_ack is Some),
    {
        self.queue.len() > 0 || self.pending_ack.is_some()
    }
}

/// A request repeated right after it was processed is acknowledged again
/// and does not advance the expected sequence number; the number after
/// 255 is 0.
pub proof fn lemma_repeated_request_acknowledged_again(rno: u8)
    ensures
        validation(rno, rno).0.action == RequestAction::Process,
        validation(validation(rno, rno).1, rno).0.action == RequestAction::RetransmitAck,
        validation(validation(rno, rno).1, rno).1 == validation(rno, rno).1,
        rno == 255 ==> validation(rno, rno).1 == 0,
{
}

/// Only the expected number advances the expected number, by one.
pub proof fn lemma_only_expected_advances(rno: u8, seq: u8)
    ensures
        validation(rno, seq).1 != rno <==> seq == rno,
        validation(rno, seq).0.action == RequestAction::Process <==> seq == rno,
{
}

} // verus!
