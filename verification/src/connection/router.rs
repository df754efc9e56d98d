//! A learning bridge between KNX links: individual addresses are learnt
//! per link, frames to a known individual address go only to its link,
//! other frames are flooded to the other links through the address
//! filters, repeated frames are suppressed, and frames that claim the
//! router's own address or come from the wrong link are dropped. The links
//! themselves are driven by the caller, which performs the returned
//! routing steps.
use crate::connection::server::KnxNetIpServerOptions;
use crate::connection::tpuart::TpuartOptions;
use crate::connection::tunneling::TunnelingOptions;
use crate::connection::usb::KnxUsbOptions;
use crate::protocol::cemi::{cemi_code, Cemi};
use crate::protocol::control_field_extended::AddressType;
use crate::utils::table::{lemma_lookup_avoids, lookup, pairs_view, pairs_without, table_get, table_set};
use crate::utils::text::{contains_seq, push_decimal, push_str, str_contains, str_eq, string_of};
use std::time::Instant;
use vstd::prelude::*;

verus! {

/// The number of recent destinations remembered.
pub const MAX_SIGNATURES_SIZE: usize = 10000;

/// What a filter does with the addresses on its list.
#[derive(Debug, Clone, Copy, PartialEq, Eq, Structural)]
pub enum FilterPolicy {
    DiscardAll,
    AllowAll,
}

/// A list of addresses and what to do with them.
#[derive(Debug, Clone)]
pub struct AddressFilter {
    pub addresses: Vec<String>,
    pub policy: FilterPolicy,
}

/// The filters of one direction.
#[derive(Debug, Clone)]
pub struct DirectionFilter {
    pub group_address: Option<AddressFilter>,
    pub individual_address: Option<AddressFilter>,
}

impl DirectionFilter {
    /// A direction without filters.
    pub fn default() -> (f: Self)
        ensures
            f.group_address is None,
            f.individual_address is None,
    {
        DirectionFilter { group_address: None, individual_address: None }
    }
}

/// The texts of a list.
pub open spec fn strings_view(v: Seq<String>) -> Seq<Seq<char>> {
    v.map_values(|x: String| x@)
}

/// The addresses and policy of an address filter, if any.
pub open spec fn address_filter_view(a: Option<AddressFilter>) -> Option<(Seq<Seq<char>>, FilterPolicy)> {
    match a {
        Some(x) => Some((strings_view(x.addresses@), x.policy)),
        None => None,
    }
}

/// The group and individual address filters of a direction.
pub open spec fn filter_view(f: DirectionFilter) -> (Option<(Seq<Seq<char>>, FilterPolicy)>, Option<(Seq<Seq<char>>, FilterPolicy)>) {
    (address_filter_view(f.group_address), address_filter_view(f.individual_address))
}

/// A copy of a list of texts.
pub fn copy_strings(v: &Vec<String>) -> (w: Vec<String>)
    ensures
        strings_view(w@) == strings_view(v@),
{
    let mut w: Vec<String> = Vec::new();
    let n = v.len();
    let mut i: usize = 0;
    while i < n
        invariant
            n == v@.len(),
            i <= n,
            w@.len() == i,
            forall|j: int| 0 <= j < i ==> (#[trigger] w@[j])@ == v@[j]@,
        decreases n - i,
    {
        let x = string_of(v[i].as_str());
        w.push(x);
        i = i + 1;
    }
    assert(strings_view(w@) =~= strings_view(v@));
    w
}

/// A copy of an address filter.
pub fn copy_address_filter(a: &Option<AddressFilter>) -> (b: Option<AddressFilter>)
    ensures
        address_filter_view(b) == address_filter_view(*a),
{
    match a {
        Some(x) => Some(AddressFilter { addresses: copy_strings(&x.addresses), policy: x.policy }),
        None => None,
    }
}

/// A copy of the filters of a direction.
pub fn copy_direction_filter(f: &DirectionFilter) -> (g: DirectionFilter)
    ensures
        filter_view(g) == filter_view(*f),
{
    DirectionFilter {
        group_address: copy_address_filter(&f.group_address),
        individual_address: copy_address_filter(&f.individual_address),
    }
}

/// Filters with the same addresses and policies let the same addresses
/// through.
pub proof fn lemma_same_filter_passes(a: DirectionFilter, b: DirectionFilter, dest: Seq<char>, is_group: bool)
    requires
        filter_view(a) == filter_view(b),
    ensures
        passes(a, dest, is_group) == passes(b, dest, is_group),
{
    let fa = if is_group { a.group_address } else { a.individual_address };
    let fb = if is_group { b.group_address } else { b.individual_address };
    match (fa, fb) {
        (Some(x), Some(y)) => {
            assert(strings_view(x.addresses@) == strings_view(y.addresses@));
            assert(x.addresses@.len() == y.addresses@.len()) by {
                assert(strings_view(x.addresses@).len() == x.addresses@.len());
            }
            if holds(x.addresses@, dest) {
                let i = choose|i: int| 0 <= i < x.addresses@.len() && x.addresses@[i]@ == dest;
                assert(strings_view(x.addresses@)[i] == x.addresses@[i]@);
                assert(y.addresses@[i]@ == strings_view(y.addresses@)[i]);
            }
            if holds(y.addresses@, dest) {
                let i = choose|i: int| 0 <= i < y.addresses@.len() && y.addresses@[i]@ == dest;
                assert(strings_view(y.addresses@)[i] == y.addresses@[i]@);
                assert(x.addresses@[i]@ == strings_view(x.addresses@)[i]);
            }
        },
        _ => {},
    }
}

/// Options of a router.
#[derive(Debug, Clone)]
pub struct RouterOptions {
    pub individual_address: String,
    pub use_single_ia: bool,
    pub handle_hop_count: bool,
    pub to_ip_filter: DirectionFilter,
    pub to_local_filter: DirectionFilter,
    pub knx_net_ip_server: Option<KnxNetIpServerOptions>,
    pub tpuart: Option<TpuartOptions>,
    pub tunneling: Option<Vec<TunnelingOptions>>,
    pub usb: Option<KnxUsbOptions>,
}

/// One step of routing a frame.
#[derive(Debug, Clone)]
pub enum RouteStep {
    /// Send the frame on the link with this key.
    Send(String),
    /// Report the frame to the subscribers, with its source link.
    Indicate,
}

/// The routing state.
pub struct Router {
    pub individual_address: String,
    pub use_single_ia: bool,
    pub handle_hop_count: bool,
    pub links: Vec<String>,
    pub address_table: Vec<(String, String)>,
    pub recent_destinations: Vec<(String, u64)>,
    pub to_ip_filter: DirectionFilter,
    pub to_local_filter: DirectionFilter,
    pub origin: Instant,
}

/// The remembered destinations with their times.
pub open spec fn dest_views(s: Seq<(String, u64)>) -> Seq<(Seq<char>, u64)> {
    s.map_values(|p: (String, u64)| (p.0@, p.1))
}

/// Whether a destination seen at `t` is a second or more old at `now`.
pub open spec fn expired(t: u64, now: u64) -> bool {
    t <= now && now - t >= 1000
}

/// The destinations that are not expired at `now`, in their order.
pub open spec fn fresh_destinations(s: Seq<(Seq<char>, u64)>, now: u64) -> Seq<(Seq<char>, u64)>
    decreases s.len(),
{
    if s.len() == 0 {
        s
    } else {
        let w = fresh_destinations(s.drop_last(), now);
        if expired(s.last().1, now) {
            w
        } else {
            w.push(s.last())
        }
    }
}

/// The first place of destination `d`.
pub open spec fn first_place(s: Seq<(Seq<char>, u64)>, d: Seq<char>) -> Option<int>
    decreases s.len(),
{
    if s.len() == 0 {
        None
    } else if s[0].0 == d {
        Some(0)
    } else {
        match first_place(s.drop_first(), d) {
            Some(i) => Some(i + 1),
            None => None,
        }
    }
}

/// The destinations after `d` is remembered at `now`: a full list drops
/// its first entry, then the first entry of `d` gets the new time, or an
/// entry is appended.
pub open spec fn remembered(s: Seq<(Seq<char>, u64)>, d: Seq<char>, now: u64) -> Seq<(Seq<char>, u64)> {
    let base = if s.len() >= MAX_SIGNATURES_SIZE {
        s.drop_first()
    } else {
        s
    };
    match first_place(base, d) {
        Some(i) => base.update(i, (d, now)),
        None => base.push((d, now)),
    }
}

/// The first place of `d` is the first index that holds it.
proof fn lemma_first_place(s: Seq<(Seq<char>, u64)>, d: Seq<char>, i: int)
    requires
        0 <= i <= s.len(),
        forall|j: int| 0 <= j < i ==> s[j].0 != d,
        i < s.len() ==> s[i].0 == d,
    ensures
        first_place(s, d) == (if i < s.len() { Some(i) } else { None::<int> }),
    decreases s.len(),
{
    if s.len() > 0 && i > 0 {
        assert forall|j: int| 0 <= j < i - 1 implies s.drop_first()[j].0 != d by {
            assert(s.drop_first()[j] == s[j + 1]);
        }
        lemma_first_place(s.drop_first(), d, i - 1);
    }
}

/// Whether a list of texts holds `s`.
pub open spec fn holds(v: Seq<String>, s: Seq<char>) -> bool {
    exists|i: int| 0 <= i < v.len() && v[i]@ == s
}

/// Whether the address is not one that is learnt or routed selectively:
/// empty, 0.0.0 or 15.15.255.
pub open spec fn is_special(a: Seq<char>) -> bool {
    a.len() == 0 || a == "0.0.0"@ || a == "15.15.255"@
}

/// Whether a source address is unset: empty or 0.0.0. Only frames with a
/// set source are checked against the router's address and the learnt
/// links.
pub open spec fn is_unset(a: Seq<char>) -> bool {
    a.len() == 0 || a == "0.0.0"@
}

fn is_unset_exec(a: &str) -> (r: bool)
    ensures
        r == is_unset(a@),
{
    a.unicode_len() == 0 || str_eq(a, "0.0.0")
}

/// The steps of router `r` for a frame to `dest` from link `source`: none
/// with hop count handling and a hop count of 0; for a learnt individual
/// address (not a special one) a send to its link unless that is the
/// source or not registered, then an indication; else the frame is flooded.
pub open spec fn route_steps(r: Router, source: Seq<char>, dest: Seq<char>, is_group: bool, hop: u8) -> Seq<Option<Seq<char>>> {
    if r.handle_hop_count && hop == 0 {
        Seq::empty()
    } else if !is_group && !is_special(dest) && lookup(r.address_table@, dest) is Some {
        let t = lookup(r.address_table@, dest)->0;
        if t != source && holds(r.links@, t) {
            seq![Some(t), None]
        } else {
            seq![None]
        }
    } else {
        flood_steps(
            r.links@,
            source,
            lookup(r.address_table@, dest),
            passes(if contains_seq(source, "IP"@) { r.to_local_filter } else { r.to_ip_filter }, dest, is_group),
        )
    }
}

/// Whether a filter lets `dest` through: only a discard-all filter that
/// lists it stops it.
pub open spec fn passes(f: DirectionFilter, dest: Seq<char>, is_group: bool) -> bool {
    let af = if is_group {
        f.group_address
    } else {
        f.individual_address
    };
    match af {
        Some(x) => !holds(x.addresses@, dest) || x.policy != FilterPolicy::DiscardAll,
        None => true,
    }
}

/// The view of routing steps: `Some(key)` for a send, `None` for an
/// indication.
pub open spec fn steps_view(s: Seq<RouteStep>) -> Seq<Option<Seq<char>>> {
    Seq::new(s.len(), |i: int| match s[i] {
        RouteStep::Send(k) => Some(k@),
        RouteStep::Indicate => None,
    })
}

/// The steps of flooding a frame over `links` (in order): every link but
/// the source, and but the link learnt for the destination, whose filter
/// lets the destination through, gets an indication and a send.
pub open spec fn flood_steps(
    links: Seq<String>,
    source: Seq<char>,
    learnt_dest: Option<Seq<char>>,
    filter_ok: bool,
) -> Seq<Option<Seq<char>>>
    decreases links.len(),
{
    if links.len() == 0 {
        Seq::empty()
    } else {
        let prev = flood_steps(links.drop_last(), source, learnt_dest, filter_ok);
        let k = links.last()@;
        if k == source || learnt_dest == Some(k) || !filter_ok {
            prev
        } else {
            prev + seq![None, Some(k)]
        }
    }
}

/// The routing metadata of a frame: source, destination, message code,
/// whether it is a repetition, whether the destination is a group, and
/// the hop count (7 for frames without link-layer data).
pub open spec fn metadata(c: Cemi) -> (Seq<char>, Seq<char>, u8, bool, bool, u8) {
    match c {
        Cemi::LDataReq(ld) | Cemi::LDataCon(ld) | Cemi::LDataInd(ld) => (
            ld.source_address@,
            ld.destination_address@,
            cemi_code(c),
            !(ld.control_field1.value() & 0x20 == 0x20),
            ld.control_field2.value() >= 128,
            (ld.control_field2.value() / 16) % 8,
        ),
        _ => (Seq::empty(), Seq::empty(), cemi_code(c), false, false, 7),
    }
}

/// The routing metadata of a frame.
pub fn extract_cemi_metadata(cemi: &Cemi) -> (r: (String, String, u8, bool, bool, u8))
    ensures
        (r.0@, r.1@, r.2, r.3, r.4, r.5) == metadata(*cemi),
{
    match cemi {
        Cemi::LDataReq(ld) | Cemi::LDataCon(ld) | Cemi::LDataInd(ld) => {
            let src = string_of(ld.source_address.as_str());
            let dest = string_of(ld.destination_address.as_str());
            let code = cemi.get_message_code();
            let repeated = !ld.control_field1.get_repeat();
            let group = ld.control_field2.get_address_type() == AddressType::Group;
            let hop = ld.control_field2.get_hop_count();
            (src, dest, code, repeated, group, hop)
        },
        _ => {
            let code = cemi.get_message_code();
            (String::new(), String::new(), code, false, false, 7)
        },
    }
}

fn holds_exec(v: &Vec<String>, s: &str) -> (r: bool)
    ensures
        r == holds(v@, s@),
{
    let n = v.len();
    let mut i: usize = 0;
    while i < n
        invariant
            n == v@.len(),
            i <= n,
            forall|j: int| 0 <= j < i ==> v@[j]@ != s@,
        decreases n - i,
    {
        if str_eq(v[i].as_str(), s) {
            return true;
        }
        i = i + 1;
    }
    false
}

fn is_special_exec(a: &str) -> (r: bool)
    ensures
        r == is_special(a@),
{
    a.unicode_len() == 0 || str_eq(a, "0.0.0") || str_eq(a, "15.15.255")
}

/// Whether the filter lets `dest` through.
pub fn evaluate_direction_filter(filter: &DirectionFilter, dest: &str, is_group: bool) -> (r: bool)
    ensures
        r == passes(*filter, dest@, is_group),
{
    let af = if is_group {
        &filter.group_address
    } else {
        &filter.individual_address
    };
    match af {
        Some(f) => {
            if !holds_exec(&f.addresses, dest) {
                return true;
            }
            f.policy != FilterPolicy::DiscardAll
        },
        None => true,
    }
}

impl Router {
    /// A router with empty tables and the links the options configure:
    /// the KNXnet/IP server, the TP-UART, each tunnel and the USB interface,
    /// in that order.
    pub fn new(options: RouterOptions) -> (r: Self)
        ensures
            r.individual_address@ == options.individual_address@,
            r.use_single_ia == options.use_single_ia,
            r.handle_hop_count == options.handle_hop_count,
            r.address_table@.len() == 0,
            r.recent_destinations@.len() == 0,
            filter_view(r.to_ip_filter) == filter_view(options.to_ip_filter),
            filter_view(r.to_local_filter) == filter_view(options.to_local_filter),
            forall|d: Seq<char>, g: bool| #![trigger passes(r.to_ip_filter, d, g)] passes(r.to_ip_filter, d, g) == passes(options.to_ip_filter, d, g),
            forall|d: Seq<char>, g: bool| #![trigger passes(r.to_local_filter, d, g)] passes(r.to_local_filter, d, g) == passes(options.to_local_filter, d, g),
            options.knx_net_ip_server matches Some(so) ==> holds(r.links@, server_key_text(so.local_ip@, so.port)),
            options.tpuart is Some ==> holds(r.links@, "TPUART"@),
            options.tunneling matches Some(v) ==> forall|i: int| 0 <= i < v@.len() ==> holds(r.links@, #[trigger] tunnel_key_text(v@[i].ip@, v@[i].port)),
            options.usb is Some ==> holds(r.links@, "KNXUSB"@),
            forall|k: Seq<char>| holds(r.links@, k) ==> {
                ||| (options.knx_net_ip_server matches Some(so) && k == server_key_text(so.local_ip@, so.port))
                ||| (options.tpuart is Some && k == "TPUART"@)
                ||| (options.tunneling matches Some(v) && exists|i: int| 0 <= i < v@.len() && k == #[trigger] tunnel_key_text(v@[i].ip@, v@[i].port))
                ||| (options.usb is Some && k == "KNXUSB"@)
            },
    {
        let mut r = Self::new_empty(&options);
        match &options.knx_net_ip_server {
            Some(so) => {
                let k = server_link_key(so.local_ip.as_str(), so.port);
                r.add_link(k.as_str());
            },
            None => {},
        }
        match &options.tpuart {
            Some(_) => {
                r.add_link("TPUART");
            },
            None => {},
        }
        match &options.tunneling {
            Some(v) => {
                let n = v.len();
                let mut i: usize = 0;
                while i < n
                    invariant
                        n == v@.len(),
                        options.tunneling == Some(*v),
                        i <= n,
                        options.tpuart is Some ==> holds(r.links@, "TPUART"@),
                        options.knx_net_ip_server matches Some(so) ==> holds(r.links@, server_key_text(so.local_ip@, so.port)),
                        forall|j: int| 0 <= j < i ==> holds(r.links@, #[trigger] tunnel_key_text(v@[j].ip@, v@[j].port)),
                        forall|k: Seq<char>| holds(r.links@, k) ==> {
                            ||| (options.knx_net_ip_server matches Some(so) && k == server_key_text(so.local_ip@, so.port))
                            ||| (options.tpuart is Some && k == "TPUART"@)
                            ||| (exists|j: int| 0 <= j < i && k == #[trigger] tunnel_key_text(v@[j].ip@, v@[j].port))
                        },
                        r.address_table@.len() == 0,
                        r.individual_address@ == options.individual_address@,
                        r.use_single_ia == options.use_single_ia,
                        r.handle_hop_count == options.handle_hop_count,
                        r.recent_destinations@.len() == 0,
                        filter_view(r.to_ip_filter) == filter_view(options.to_ip_filter),
                        filter_view(r.to_local_filter) == filter_view(options.to_local_filter),
                    decreases n - i,
                {
                    let k = tunneling_link_key(v[i].ip.as_str(), v[i].port);
                    r.add_link(k.as_str());
                    i = i + 1;
                }
            },
            None => {},
        }
        match &options.usb {
            Some(_) => {
                r.add_link("KNXUSB");
            },
            None => {},
        }
        assert forall|d: Seq<char>, g: bool| #![trigger passes(r.to_ip_filter, d, g)] passes(r.to_ip_filter, d, g) == passes(options.to_ip_filter, d, g) by {
            lemma_same_filter_passes(r.to_ip_filter, options.to_ip_filter, d, g);
        }
        assert forall|d: Seq<char>, g: bool| #![trigger passes(r.to_local_filter, d, g)] passes(r.to_local_filter, d, g) == passes(options.to_local_filter, d, g) by {
            lemma_same_filter_passes(r.to_local_filter, options.to_local_filter, d, g);
        }
        r
    }

    /// A router with no links and empty tables.
    pub fn new_empty(options: &RouterOptions) -> (r: Self)
        ensures
            r.individual_address@ == options.individual_address@,
            r.use_single_ia == options.use_single_ia,
            r.handle_hop_count == options.handle_hop_count,
            r.links@.len() == 0,
            r.address_table@.len() == 0,
            r.recent_destinations@.len() == 0,
            filter_view(r.to_ip_filter) == filter_view(options.to_ip_filter),
            filter_view(r.to_local_filter) == filter_view(options.to_local_filter),
    {
        Router {
            individual_address: string_of(options.individual_address.as_str()),
            use_single_ia: options.use_single_ia,
            handle_hop_count: options.handle_hop_count,
            links: Vec::new(),
            address_table: Vec::new(),
            recent_destinations: Vec::new(),
            to_ip_filter: copy_direction_filter(&options.to_ip_filter),
            to_local_filter: copy_direction_filter(&options.to_local_filter),
            origin: crate::connection::clock::instant_now(),
        }
    }

    /// The link learnt for `a`.
    pub fn learnt(&self, a: &str) -> (r: Option<String>)
        ensures
            match lookup(self.address_table@, a@) {
                Some(k) => r matches Some(x) && x@ == k,
                None => r is None,
            },
    {
        table_get(&self.address_table, a)
    }

    /// Learns that `src` is reached through `source_key`; the empty address,
    /// 0.0.0 and 15.15.255 are not learnt.
    pub fn learn_address(&mut self, src: &str, source_key: &str)
        ensures
            is_special(src@) ==> final(self).address_table@ == old(self).address_table@,
            !is_special(src@) ==> lookup(final(self).address_table@, src@) == Some(source_key@),
            forall|a: Seq<char>| a != src@ ==> lookup(final(self).address_table@, a) == lookup(old(self).address_table@, a),
            final(self).links@ == old(self).links@,
            final(self).recent_destinations@ == old(self).recent_destinations@,
            final(self).individual_address@ == old(self).individual_address@,
            final(self).handle_hop_count == old(self).handle_hop_count,
            final(self).to_ip_filter == old(self).to_ip_filter,
            final(self).to_local_filter == old(self).to_local_filter,
    {
        if is_special_exec(src) {
            return;
        }
        table_set(&mut self.address_table, src, source_key);
    }

    /// Registers the link `key`; a link registered again forgets the
    /// addresses learnt for it.
    pub fn add_link(&mut self, key: &str)
        ensures
            holds(final(self).links@, key@),
            holds(old(self).links@, key@) ==> final(self).links@ == old(self).links@ && forall|a: Seq<char>| lookup(final(self).address_table@, a) != Some(key@),
            holds(old(self).links@, key@) ==> pairs_view(final(self).address_table@) == pairs_without(old(self).address_table@, key@),
            final(self).to_ip_filter == old(self).to_ip_filter,
            final(self).to_local_filter == old(self).to_local_filter,
            !holds(old(self).links@, key@) ==> final(self).links@.len() == old(self).links@.len() + 1 && final(self).address_table@ == old(self).address_table@,
            forall|x: Seq<char>| holds(old(self).links@, x) ==> holds(final(self).links@, x),
            forall|x: Seq<char>| holds(final(self).links@, x) ==> holds(old(self).links@, x) || x == key@,
            final(self).address_table@.len() <= old(self).address_table@.len(),
            final(self).individual_address@ == old(self).individual_address@,
            final(self).use_single_ia == old(self).use_single_ia,
            final(self).handle_hop_count == old(self).handle_hop_count,
            final(self).recent_destinations@ == old(self).recent_destinations@,
    {
        if holds_exec(&self.links, key) {
            self.forget_link_addresses(key);
            return;
        }
        self.links.push(string_of(key));
        assert(self.links@.last()@ == key@);
        assert forall|x: Seq<char>| holds(old(self).links@, x) implies holds(self.links@, x) by {
            let i = choose|i: int| 0 <= i < old(self).links@.len() && old(self).links@[i]@ == x;
            assert(self.links@[i]@ == x);
        }
        assert forall|x: Seq<char>| holds(self.links@, x) implies holds(old(self).links@, x) || x == key@ by {
            let i = choose|i: int| 0 <= i < self.links@.len() && self.links@[i]@ == x;
            if i < old(self).links@.len() {
                assert(old(self).links@[i] == self.links@[i]);
            }
        }
    }

    /// Unregisters the link `key` and forgets the addresses learnt for it.
    pub fn unregister_link(&mut self, key: &str)
        ensures
            !holds(final(self).links@, key@),
            forall|a: Seq<char>| lookup(final(self).address_table@, a) != Some(key@),
    {
        self.forget_link_addresses(key);
        let mut kept: Vec<String> = Vec::new();
        let n = self.links.len();
        let mut i: usize = 0;
        while i < n
            invariant
                n == self.links@.len(),
                i <= n,
                forall|j: int| 0 <= j < kept@.len() ==> kept@[j]@ != key@,
            decreases n - i,
        {
            if !str_eq(self.links[i].as_str(), key) {
                kept.push(string_of(self.links[i].as_str()));
            }
            i = i + 1;
        }
        self.links = kept;
    }

    fn forget_link_addresses(&mut self, key: &str)
        ensures
            forall|a: Seq<char>| lookup(final(self).address_table@, a) != Some(key@),
            final(self).links@ == old(self).links@,
            final(self).address_table@.len() <= old(self).address_table@.len(),
            final(self).individual_address@ == old(self).individual_address@,
            final(self).use_single_ia == old(self).use_single_ia,
            final(self).handle_hop_count == old(self).handle_hop_count,
            final(self).recent_destinations@ == old(self).recent_destinations@,
            pairs_view(final(self).address_table@) == pairs_without(old(self).address_table@, key@),
            final(self).to_ip_filter == old(self).to_ip_filter,
            final(self).to_local_filter == old(self).to_local_filter,
    {
        let mut kept: Vec<(String, String)> = Vec::new();
        let n = self.address_table.len();
        let mut i: usize = 0;
        while i < n
            invariant
                n == self.address_table@.len(),
                i <= n,
                kept@.len() <= i,
                forall|j: int| 0 <= j < kept@.len() ==> kept@[j].1@ != key@,
                pairs_view(kept@) == pairs_without(self.address_table@.subrange(0, i as int), key@),
            decreases n - i,
        {
            let ghost k0 = kept@;
            proof {
                assert(self.address_table@.subrange(0, i as int + 1).drop_last() =~= self.address_table@.subrange(0, i as int));
            }
            if !str_eq(self.address_table[i].1.as_str(), key) {
                let e = (string_of(self.address_table[i].0.as_str()), string_of(self.address_table[i].1.as_str()));
                kept.push(e);
                assert(pairs_view(kept@) =~= pairs_view(k0).push((e.0@, e.1@)));
            }
            i = i + 1;
        }
        assert(self.address_table@.subrange(0, n as int) =~= self.address_table@);
        proof {
            lemma_lookup_avoids(kept@, key@);
        }
        self.address_table = kept;
    }

    /// Whether the filter of the direction a frame travels lets `dest`
    /// through: frames from an IP link go to local links, others to IP.
    pub fn evaluate_filter(&self, dest: &str, is_group: bool, is_source_ip: bool) -> (r: bool)
        ensures
            r == passes(if is_source_ip { self.to_local_filter } else { self.to_ip_filter }, dest@, is_group),
    {
        if is_source_ip {
            evaluate_direction_filter(&self.to_local_filter, dest, is_group)
        } else {
            evaluate_direction_filter(&self.to_ip_filter, dest, is_group)
        }
    }

    /// Whether `dest` was seen within the remembered window.
    pub fn has_recent_destination(&self, dest: &str) -> (r: bool)
        ensures
            r == exists|i: int| 0 <= i < self.recent_destinations@.len() && self.recent_destinations@[i].0@ == dest@,
    {
        let n = self.recent_destinations.len();
        let mut i: usize = 0;
        while i < n
            invariant
                n == self.recent_destinations@.len(),
                i <= n,
                forall|j: int| 0 <= j < i ==> self.recent_destinations@[j].0@ != dest@,
            decreases n - i,
        {
            if str_eq(self.recent_destinations[i].0.as_str(), dest) {
                return true;
            }
            i = i + 1;
        }
        false
    }

    /// Remembers `dest` as seen at time `now`: an entry already there gets
    /// the new time; a full list first drops its oldest entry.
    pub fn remember_destination(&mut self, dest: &str, now: u64)
        ensures
            dest_views(final(self).recent_destinations@) == remembered(dest_views(old(self).recent_destinations@), dest@, now),
            final(self).address_table@ == old(self).address_table@,
            final(self).links@ == old(self).links@,
            final(self).individual_address@ == old(self).individual_address@,
            final(self).handle_hop_count == old(self).handle_hop_count,
            final(self).to_ip_filter == old(self).to_ip_filter,
            final(self).to_local_filter == old(self).to_local_filter,
    {
        if self.recent_destinations.len() >= MAX_SIGNATURES_SIZE {
            self.recent_destinations.remove(0);
            assert(dest_views(self.recent_destinations@) =~= dest_views(old(self).recent_destinations@).drop_first());
        }
        let ghost base = dest_views(self.recent_destinations@);
        let n = self.recent_destinations.len();
        let mut i: usize = 0;
        while i < n
            invariant
                n == self.recent_destinations@.len(),
                base == dest_views(self.recent_destinations@),
                base == (if old(self).recent_destinations@.len() >= MAX_SIGNATURES_SIZE {
                    dest_views(old(self).recent_destinations@).drop_first()
                } else {
                    dest_views(old(self).recent_destinations@)
                }),
                i <= n,
                forall|j: int| 0 <= j < i ==> base[j].0 != dest@,
                self.address_table@ == old(self).address_table@,
                self.links@ == old(self).links@,
                self.individual_address@ == old(self).individual_address@,
                self.handle_hop_count == old(self).handle_hop_count,
                self.to_ip_filter == old(self).to_ip_filter,
                self.to_local_filter == old(self).to_local_filter,
            decreases n - i,
        {
            if str_eq(self.recent_destinations[i].0.as_str(), dest) {
                assert(base[i as int].0 == dest@);
                let d = string_of(dest);
                self.recent_destinations.set(i, (d, now));
                assert(dest_views(self.recent_destinations@) =~= base.update(i as int, (dest@, now)));
                proof {
                    lemma_first_place(base, dest@, i as int);
                }
                return;
            }
            i = i + 1;
        }
        self.recent_destinations.push((string_of(dest), now));
        assert(dest_views(self.recent_destinations@) =~= base.push((dest@, now)));
        proof {
            lemma_first_place(base, dest@, n as int);
        }
    }

    /// Drops destinations seen a second or more before `now`; the others
    /// stay in their order.
    pub fn gc_destinations_at(&mut self, now: u64)
        ensures
            dest_views(final(self).recent_destinations@) == fresh_destinations(dest_views(old(self).recent_destinations@), now),
            final(self).address_table@ == old(self).address_table@,
            final(self).links@ == old(self).links@,
    {
        let mut kept: Vec<(String, u64)> = Vec::new();
        let n = self.recent_destinations.len();
        let mut i: usize = 0;
        assert(dest_views(self.recent_destinations@).take(0) =~= Seq::<(Seq<char>, u64)>::empty());
        while i < n
            invariant
                n == self.recent_destinations@.len(),
                i <= n,
                dest_views(kept@) == fresh_destinations(dest_views(self.recent_destinations@).take(i as int), now),
            decreases n - i,
        {
            let ghost all = dest_views(self.recent_destinations@);
            assert(all.take(i as int + 1).drop_last() =~= all.take(i as int));
            let t = self.recent_destinations[i].1;
            if !(t <= now && now - t >= 1000) {
                kept.push((string_of(self.recent_destinations[i].0.as_str()), t));
            }
            assert(dest_views(kept@) =~= fresh_destinations(all.take(i as int + 1), now));
            i = i + 1;
        }
        assert(dest_views(self.recent_destinations@).take(n as int) =~= dest_views(self.recent_destinations@));
        self.recent_destinations = kept;
    }

    /// Drops destinations seen a second or more before the current time
    /// since the router was made.
    pub fn gc_destinations(&mut self)
        ensures
            exists|now: u64| dest_views(final(self).recent_destinations@) == fresh_destinations(dest_views(old(self).recent_destinations@), now),
            final(self).address_table@ == old(self).address_table@,
            final(self).links@ == old(self).links@,
    {
        let now = crate::connection::clock::millis_since(&self.origin);
        self.gc_destinations_at(now);
    }

    /// Routes a frame from link `source_key` at time `now`, returning the
    /// steps. Confirmations are neither checked nor learnt from. A frame
    /// claiming the router's own address, or a learnt address from another
    /// link, is dropped; the source is learnt; a repeated frame to a
    /// destination seen within the window is dropped. The frame is then
    /// routed: with hop count handling a hop count of 0 drops it; a frame
    /// to a learnt individual address goes to that link only (unless it is
    /// the source) and is indicated; any other frame is flooded.
    pub fn process_incoming(&mut self, cemi: &Cemi, source_key: &str, now: u64) -> (r: Vec<RouteStep>)
        ensures
            ({
                let m = metadata(*cemi);
                let conf = m.2 == 0x2E || m.2 == 0x2F;
                let dropped_by_source = !conf && !is_unset(m.0) && (m.0 == old(self).individual_address@ || (lookup(old(self).address_table@, m.0) matches Some(k) && k != source_key@));
                let seen = exists|i: int| 0 <= i < old(self).recent_destinations@.len() && #[trigger] old(self).recent_destinations@[i].0@ == m.1;
                &&& dropped_by_source ==> r@.len() == 0 && final(self).address_table@ == old(self).address_table@
                    && final(self).recent_destinations@ == old(self).recent_destinations@
                &&& (!dropped_by_source && !conf && !is_special(m.0)) ==> lookup(final(self).address_table@, m.0) == Some(source_key@)
                &&& (!dropped_by_source && (conf || is_special(m.0))) ==> final(self).address_table@ == old(self).address_table@
                &&& (!dropped_by_source && !conf) ==> forall|a: Seq<char>| a != m.0 ==> lookup(final(self).address_table@, a) == lookup(old(self).address_table@, a)
                &&& (!dropped_by_source && m.3 && seen) ==> r@.len() == 0 && final(self).recent_destinations@ == old(self).recent_destinations@
                &&& (!dropped_by_source && !(m.3 && seen)) ==> {
                    &&& dest_views(final(self).recent_destinations@) == remembered(dest_views(old(self).recent_destinations@), m.1, now)
                    &&& steps_view(r@) == route_steps(*final(self), source_key@, m.1, m.4, m.5)
                }
            }),
            final(self).links@ == old(self).links@,
            final(self).individual_address@ == old(self).individual_address@,
            final(self).handle_hop_count == old(self).handle_hop_count,
            final(self).to_ip_filter == old(self).to_ip_filter,
            final(self).to_local_filter == old(self).to_local_filter,
    {
        let (src, dest, code, repeated, group, hop) = extract_cemi_metadata(cemi);
        let conf = code == 0x2E || code == 0x2F;
        if !conf && !is_unset_exec(src.as_str()) {
            if str_eq(src.as_str(), self.individual_address.as_str()) {
                return Vec::new();
            }
            match self.learnt(src.as_str()) {
                Some(k) => {
                    if !str_eq(k.as_str(), source_key) {
                        return Vec::new();
                    }
                },
                None => {},
            }
        }
        if !conf {
            self.learn_address(src.as_str(), source_key);
        }
        if repeated && self.has_recent_destination(dest.as_str()) {
            return Vec::new();
        }
        self.remember_destination(dest.as_str(), now);
        self.route(source_key, dest.as_str(), group, hop)
    }

    /// The steps for a frame to `dest` from `source_key`.
    pub fn route(&self, source_key: &str, dest: &str, is_group: bool, hop_count: u8) -> (r: Vec<RouteStep>)
        ensures
            self.handle_hop_count && hop_count == 0 ==> r@.len() == 0,
            !(self.handle_hop_count && hop_count == 0) && !is_group && !is_special(dest@) && lookup(self.address_table@, dest@) is Some ==> {
                let t = lookup(self.address_table@, dest@)->0;
                steps_view(r@) == (if t != source_key@ && holds(self.links@, t) { seq![Some(t), None] } else { seq![None] })
            },
            !(self.handle_hop_count && hop_count == 0) && !(!is_group && !is_special(dest@) && lookup(self.address_table@, dest@) is Some) ==> steps_view(r@) == flood_steps(
                self.links@,
                source_key@,
                lookup(self.address_table@, dest@),
                passes(if contains_seq(source_key@, "IP"@) { self.to_local_filter } else { self.to_ip_filter }, dest@, is_group),
            ),
            steps_view(r@) == route_steps(*self, source_key@, dest@, is_group, hop_count),
    {
        let mut out: Vec<RouteStep> = Vec::new();
        if self.handle_hop_count && hop_count == 0 {
            return out;
        }
        let is_source_ip = str_contains(source_key, "IP");
        let learnt_dest = self.learnt(dest);
        if !is_group && !is_special_exec(dest) {
            match &learnt_dest {
                Some(t) => {
                    if !str_eq(t.as_str(), source_key) && holds_exec(&self.links, t.as_str()) {
                        out.push(RouteStep::Send(string_of(t.as_str())));
                    }
                    out.push(RouteStep::Indicate);
                    assert(steps_view(out@) =~= (if t@ != source_key@ && holds(self.links@, t@) { seq![Some(t@), None] } else { seq![None] }));
                    return out;
                },
                None => {},
            }
        }
        let filter_ok = self.evaluate_filter(dest, is_group, is_source_ip);
        let n = self.links.len();
        let mut i: usize = 0;
        while i < n
            invariant
                n == self.links@.len(),
                i <= n,
                steps_view(out@) == flood_steps(self.links@.subrange(0, i as int), source_key@, lookup(self.address_table@, dest@), filter_ok),
                match lookup(self.address_table@, dest@) {
                    Some(k) => learnt_dest matches Some(x) && x@ == k,
                    None => learnt_dest is None,
                },
            decreases n - i,
        {
            let k = &self.links[i];
            let skip_learnt = match &learnt_dest {
                Some(t) => str_eq(t.as_str(), k.as_str()),
                None => false,
            };
            let ghost before = out@;
            if !str_eq(k.as_str(), source_key) && !skip_learnt && filter_ok {
                out.push(RouteStep::Indicate);
                out.push(RouteStep::Send(string_of(k.as_str())));
            }
            proof {
                let sub = self.links@.subrange(0, i + 1);
                assert(sub.drop_last() =~= self.links@.subrange(0, i as int));
                assert(sub.last() == self.links@[i as int]);
                assert(steps_view(out@) =~= flood_steps(sub, source_key@, lookup(self.address_table@, dest@), filter_ok));
            }
            i = i + 1;
        }
        assert(self.links@.subrange(0, n as int) =~= self.links@);
        out
    }

    /// The learnt addresses and their links.
    pub fn get_address_table(&self) -> (r: &Vec<(String, String)>)
        ensures
            r@ == self.address_table@,
    {
        &self.address_table
    }

    /// The number of links.
    pub fn link_count(&self) -> (n: usize)
        ensures
            n == self.links@.len(),
    {
        self.links.len()
    }
}

/// The key of the link of a KNXnet/IP server on `local_ip` and `port`.
pub open spec fn server_key_text(local_ip: Seq<char>, port: u16) -> Seq<char> {
    "IP KNXnet/IP Server: "@ + local_ip + seq![':'] + crate::utils::text::dec_str(port as nat)
}

/// The key of the link of a tunnel to `ip` and `port`.
pub open spec fn tunnel_key_text(ip: Seq<char>, port: u16) -> Seq<char> {
    "IP Tunneling: "@ + ip + seq![':'] + crate::utils::text::dec_str(port as nat)
}

/// The key of the link of a KNXnet/IP server.
pub fn server_link_key(local_ip: &str, port: u16) -> (s: String)
    ensures
        s@ == server_key_text(local_ip@, port),
{
    let mut s = string_of("IP KNXnet/IP Server: ");
    push_str(&mut s, local_ip);
    crate::utils::text::push_char(&mut s, ':');
    push_decimal(&mut s, port as u32);
    assert(s@ =~= "IP KNXnet/IP Server: "@ + local_ip@ + seq![':'] + crate::utils::text::dec_str(port as nat));
    s
}

/// The key of the link of a tunnel.
pub fn tunneling_link_key(ip: &str, port: u16) -> (s: String)
    ensures
        s@ == tunnel_key_text(ip@, port),
{
    let mut s = string_of("IP Tunneling: ");
    push_str(&mut s, ip);
    crate::utils::text::push_char(&mut s, ':');
    push_decimal(&mut s, port as u32);
    assert(s@ =~= "IP Tunneling: "@ + ip@ + seq![':'] + crate::utils::text::dec_str(port as nat));
    s
}

} // verus!
