//! The latest group telegrams per group address, newest first, with the
//! value of each decoded as the datapoint type configured for its address.
//!
//! Addresses are kept in the order they were first seen; when the cache is
//! full, the address seen first leaves to make room.
use crate::connection::clock::unix_millis;
use crate::protocol::cemi::{Cemi, LData};
use crate::protocol::control_field_extended::AddressType;
use crate::protocol::data::knx_data_decode::{
    decode_allowed, decode_ok, decoded, dpt_number_spec, fallback_spec, DptValue, KnxDataDecode,
};
use crate::protocol::data::knx_data_encode::{encoded, is_dpt7_text, KnxDataEncoder};
use crate::protocol::data::knx_data_decode::dpt_number_overflows;
use crate::protocol::layers::interfaces::apci::ApciEnum;
use crate::utils::table::{lookup, table_get, table_set};
use crate::utils::text::{str_eq, string_of};
use vstd::prelude::*;

verus! {

/// A telegram kept by the cache: the message, when it arrived
/// (milliseconds since the Unix epoch), its group address and its value.
#[derive(Debug, Clone)]
pub struct CacheEntry {
    pub cemi: Cemi,
    pub timestamp: u64,
    pub group_address: String,
    pub decoded_value: Option<DptValue>,
}

/// Whether the link-layer data is a group value read, response or write
/// sent to a group address.
pub open spec fn is_group_value(ld: LData) -> bool {
    &&& ld.control_field2.value() >= 128
    &&& {
        let a = ld.tpdu.apdu.apci.value();
        a == 0x00 || a == 0x40 || a == 0x80
    }
}

/// The link-layer data of a message that the cache keeps.
pub open spec fn cached_ldata(c: Cemi) -> Option<LData> {
    match c {
        Cemi::LDataReq(ld) => if is_group_value(ld) { Some(ld) } else { None },
        Cemi::LDataCon(ld) => if is_group_value(ld) { Some(ld) } else { None },
        Cemi::LDataInd(ld) => if is_group_value(ld) { Some(ld) } else { None },
        _ => None,
    }
}

/// Whether `v` is the value kept with data `b` for an address whose
/// configured type is `dpt`: none without a type, or where the type is
/// unknown or the octets do not decode.
pub open spec fn decoded_entry(dpt: Option<Seq<char>>, b: Seq<u8>, v: Option<DptValue>) -> bool {
    match dpt {
        None => v is None,
        Some(d) => match dpt_number_spec(d) {
            None => v is None,
            Some(n) => if decode_ok(fallback_spec(n), b) {
                v matches Some(x) && decoded(fallback_spec(n), b, x)
            } else {
                v is None
            },
        },
    }
}

/// The entries of an address after `e` arrives: `e` first, at most `max`.
pub open spec fn with_entry(entries: Seq<CacheEntry>, e: CacheEntry, max: nat) -> Seq<CacheEntry> {
    let full = seq![e] + entries;
    if full.len() > max {
        full.take(max as int)
    } else {
        full
    }
}

/// Whether no address occurs twice.
pub open spec fn distinct_slots(s: Seq<(Seq<char>, Seq<CacheEntry>)>) -> bool {
    forall|i: int, j: int| 0 <= i < j < s.len() ==> s[i].0 != s[j].0
}

/// Whether address `a` has a place.
pub open spec fn has_slot(s: Seq<(Seq<char>, Seq<CacheEntry>)>, a: Seq<char>) -> bool {
    exists|i: int| 0 <= i < s.len() && s[i].0 == a
}

/// The place of address `a` (for `a` with one).
pub open spec fn slot_index(s: Seq<(Seq<char>, Seq<CacheEntry>)>, a: Seq<char>) -> int {
    choose|i: int| 0 <= i < s.len() && s[i].0 == a
}

/// The entries kept for address `a`, newest first.
pub open spec fn entries_of(s: Seq<(Seq<char>, Seq<CacheEntry>)>, a: Seq<char>) -> Seq<CacheEntry> {
    if has_slot(s, a) {
        s[slot_index(s, a)].1
    } else {
        seq![]
    }
}

/// The places after entry `e` of address `a` is kept, with at most
/// `max_addresses` addresses (the first leaves for a new one when full)
/// and `max_messages` entries per address.
pub open spec fn stored(
    s: Seq<(Seq<char>, Seq<CacheEntry>)>,
    a: Seq<char>,
    e: CacheEntry,
    max_addresses: nat,
    max_messages: nat,
) -> Seq<(Seq<char>, Seq<CacheEntry>)> {
    if has_slot(s, a) {
        let i = slot_index(s, a);
        s.update(i, (a, with_entry(s[i].1, e, max_messages)))
    } else {
        let kept = if s.len() >= max_addresses && s.len() > 0 {
            s.drop_first()
        } else {
            s
        };
        kept.push((a, with_entry(seq![], e, max_messages)))
    }
}

/// Whether an entry falls in the window: from `start` when given, up to
/// `end`.
pub open spec fn in_window(e: CacheEntry, start: Option<u64>, end: u64) -> bool {
    &&& (start matches Some(t) ==> t <= e.timestamp)
    &&& e.timestamp <= end
}

/// The entries in the window, in their order.
pub open spec fn window(es: Seq<CacheEntry>, start: Option<u64>, end: u64) -> Seq<CacheEntry>
    decreases es.len(),
{
    if es.len() == 0 {
        seq![]
    } else {
        let w = window(es.drop_last(), start, end);
        if in_window(es.last(), start, end) {
            w.push(es.last())
        } else {
            w
        }
    }
}

/// What a query gives for one address: the entries in the window, or
/// only the first of them; without a start, the newest entry whatever
/// its time.
pub open spec fn picked(es: Seq<CacheEntry>, start: Option<u64>, end: u64, latest: bool) -> Seq<
    CacheEntry,
> {
    if latest && start is None {
        if es.len() > 0 {
            seq![es[0]]
        } else {
            seq![]
        }
    } else if latest {
        let w = window(es, start, end);
        if w.len() > 0 {
            seq![w[0]]
        } else {
            seq![]
        }
    } else {
        window(es, start, end)
    }
}

/// What a query gives for a list of addresses, address by address.
pub open spec fn query_result(
    s: Seq<(Seq<char>, Seq<CacheEntry>)>,
    addrs: Seq<Seq<char>>,
    start: Option<u64>,
    end: u64,
    latest: bool,
) -> Seq<CacheEntry>
    decreases addrs.len(),
{
    if addrs.len() == 0 {
        seq![]
    } else {
        query_result(s, addrs.drop_last(), start, end, latest) + picked(
            entries_of(s, addrs.last()),
            start,
            end,
            latest,
        )
    }
}

/// Whether `e` is the entry kept for message `c` with data `ld` arriving
/// at `now`, for an address whose configured type is `dpt`.
pub open spec fn entry_for(e: CacheEntry, c: Cemi, ld: LData, now: u64, dpt: Option<Seq<char>>) -> bool {
    &&& e.cemi == c
    &&& e.timestamp == now
    &&& e.group_address@ == ld.destination_address@
    &&& decoded_entry(dpt, ld.tpdu.apdu.data@, e.decoded_value)
}

/// Whether `encode_this` accepts type `dpt` with value `v`.
pub open spec fn encode_allowed(dpt: Seq<char>, v: DptValue) -> bool {
    &&& !dpt_number_overflows(dpt)
    &&& (dpt_number_spec(dpt) matches Some(n) && is_dpt7_text(fallback_spec(n)) ==> !(v is Dpt7Suffix))
}

/// The entries behind a list of references.
pub open spec fn derefs(s: Seq<&CacheEntry>) -> Seq<CacheEntry> {
    s.map_values(|x: &CacheEntry| *x)
}

/// The texts of a list of strings.
pub open spec fn texts(s: Seq<String>) -> Seq<Seq<char>> {
    s.map_values(|x: String| x@)
}

/// The cache of group telegrams.
pub struct GroupAddressCache {
    enabled: bool,
    max_addresses: usize,
    max_messages_per_address: usize,
    cache: Vec<(String, Vec<CacheEntry>)>,
    dpt_config: Vec<(String, String)>,
}

/// The view of one place: its address and its entries.
pub open spec fn slot_view(p: (String, Vec<CacheEntry>)) -> (Seq<char>, Seq<CacheEntry>) {
    (p.0@, p.1@)
}

impl GroupAddressCache {
    /// Whether telegrams are kept.
    pub closed spec fn is_on(&self) -> bool {
        self.enabled
    }

    /// The most addresses kept.
    pub closed spec fn address_limit(&self) -> nat {
        self.max_addresses as nat
    }

    /// The most entries kept per address.
    pub closed spec fn message_limit(&self) -> nat {
        self.max_messages_per_address as nat
    }

    /// The addresses in the order first seen, each with its entries.
    pub closed spec fn slots(&self) -> Seq<(Seq<char>, Seq<CacheEntry>)> {
        self.cache@.map_values(|p: (String, Vec<CacheEntry>)| slot_view(p))
    }

    /// The datapoint type configured per address.
    pub closed spec fn dpts(&self) -> Seq<(String, String)> {
        self.dpt_config@
    }

    /// The cache is well formed: no address occurs twice.
    pub open spec fn wf(&self) -> bool {
        distinct_slots(self.slots())
    }

    /// Whether `process_cemi` can decode what it keeps of `c`: the type
    /// configured for its address, if any, accepts its data.
    pub open spec fn decodes_safely(&self, c: Cemi) -> bool {
        self.is_on() && cached_ldata(c) is Some && lookup(self.dpts(), cached_ldata(c)->0.destination_address@) is Some
            ==> decode_allowed(
            lookup(self.dpts(), cached_ldata(c)->0.destination_address@)->0,
            cached_ldata(c)->0.tpdu.apdu.data@,
        )
    }

    /// An empty cache, switched off, for up to 65535 addresses of 10
    /// entries each.
    pub fn new() -> (r: Self)
        ensures
            r.wf(),
            !r.is_on(),
            r.address_limit() == 65535,
            r.message_limit() == 10,
            r.slots() == Seq::<(Seq<char>, Seq<CacheEntry>)>::empty(),
            r.dpts() == Seq::<(String, String)>::empty(),
    {
        let r = GroupAddressCache {
            enabled: false,
            max_addresses: 65535,
            max_messages_per_address: 10,
            cache: Vec::new(),
            dpt_config: Vec::new(),
        };
        assert(r.slots() =~= Seq::<(Seq<char>, Seq<CacheEntry>)>::empty());
        r
    }

    /// Switches keeping telegrams on or off.
    pub fn set_enabled(&mut self, enabled: bool)
        ensures
            final(self).is_on() == enabled,
            final(self).slots() == old(self).slots(),
            final(self).dpts() == old(self).dpts(),
            final(self).address_limit() == old(self).address_limit(),
            final(self).message_limit() == old(self).message_limit(),
    {
        self.enabled = enabled;
    }

    /// Whether telegrams are kept.
    pub fn is_enabled(&self) -> (r: bool)
        ensures
            r == self.is_on(),
    {
        self.enabled
    }

    /// Sets the most addresses and the most entries per address; what is
    /// already kept stays until the next telegram of an address.
    pub fn configure(&mut self, max_addresses: usize, max_messages_per_address: usize)
        ensures
            final(self).address_limit() == max_addresses,
            final(self).message_limit() == max_messages_per_address,
            final(self).is_on() == old(self).is_on(),
            final(self).slots() == old(self).slots(),
            final(self).dpts() == old(self).dpts(),
    {
        self.max_addresses = max_addresses;
        self.max_messages_per_address = max_messages_per_address;
    }

    /// Configures datapoint type `dpt` for `address`.
    pub fn set_address_dpt(&mut self, address: String, dpt: String)
        ensures
            lookup(final(self).dpts(), address@) == Some(dpt@),
            forall|b: Seq<char>| b != address@ ==> lookup(final(self).dpts(), b) == lookup(old(self).dpts(), b),
            final(self).is_on() == old(self).is_on(),
            final(self).slots() == old(self).slots(),
            final(self).address_limit() == old(self).address_limit(),
            final(self).message_limit() == old(self).message_limit(),
    {
        table_set(&mut self.dpt_config, address.as_str(), dpt.as_str());
    }

    /// The datapoint type configured for `address`.
    pub fn get_address_dpt(&self, address: &str) -> (r: Option<String>)
        ensures
            match lookup(self.dpts(), address@) {
                Some(d) => r matches Some(x) && x@ == d,
                None => r is None,
            },
    {
        table_get(&self.dpt_config, address)
    }

    /// Encodes `value` as the type configured for `address`; none without
    /// a type or where the value does not encode.
    pub fn encode_value(&self, address: &str, value: &DptValue) -> (r: Option<Vec<u8>>)
        requires
            lookup(self.dpts(), address@) matches Some(d) ==> encode_allowed(d, *value),
        ensures
            match lookup(self.dpts(), address@) {
                None => r is None,
                Some(d) => match dpt_number_spec(d) {
                    None => r is None,
                    Some(n) => match encoded(fallback_spec(n), *value) {
                        Some(b) => r matches Some(x) && x@ == b,
                        None => r is None,
                    },
                },
            },
    {
        let dpt = match table_get(&self.dpt_config, address) {
            Some(d) => d,
            None => {
                return None;
            },
        };
        match KnxDataEncoder::encode_this(dpt.as_str(), value) {
            Ok(b) => Some(b),
            Err(_) => None,
        }
    }

    /// The place of address `a`, if it has one.
    fn find_slot(&self, a: &str) -> (r: Option<usize>)
        requires
            self.wf(),
        ensures
            r is None <==> !has_slot(self.slots(), a@),
            r matches Some(i) ==> i < self.slots().len() && slot_index(self.slots(), a@) == i
                && self.slots()[i as int].0 == a@,
    {
        let n = self.cache.len();
        let mut i: usize = 0;
        while i < n
            invariant
                n == self.cache@.len(),
                self.slots().len() == n,
                self.wf(),
                i <= n,
                forall|j: int| 0 <= j < i ==> self.slots()[j].0 != a@,
            decreases n - i,
        {
            if str_eq(self.cache[i].0.as_str(), a) {
                proof {
                    assert(self.slots()[i as int].0 == a@);
                    let k = slot_index(self.slots(), a@);
                    assert(0 <= k < self.slots().len() && self.slots()[k].0 == a@);
                    if k < i as int {
                        assert(self.slots()[k].0 != self.slots()[i as int].0);
                    } else if k > i as int {
                        assert(self.slots()[i as int].0 != self.slots()[k].0);
                    }
                }
                return Some(i);
            }
            i = i + 1;
        }
        None
    }

    /// Keeps message `cemi`, arriving at `now` (milliseconds since the Unix
    /// epoch), if the cache is on and it is a group value read, response or
    /// write to a group address. Gives whether it was kept.
    pub fn process_cemi_at(&mut self, cemi: Cemi, now: u64) -> (kept: bool)
        requires
            old(self).wf(),
            old(self).decodes_safely(cemi),
        ensures
            final(self).wf(),
            kept == (old(self).is_on() && cached_ldata(cemi) is Some),
            !kept ==> final(self).slots() == old(self).slots(),
            kept ==> exists|e: CacheEntry|
                #![auto]
                entry_for(
                    e,
                    cemi,
                    cached_ldata(cemi)->0,
                    now,
                    lookup(old(self).dpts(), cached_ldata(cemi)->0.destination_address@),
                ) && final(self).slots() == stored(
                    old(self).slots(),
                    cached_ldata(cemi)->0.destination_address@,
                    e,
                    old(self).address_limit(),
                    old(self).message_limit(),
                ),
            final(self).is_on() == old(self).is_on(),
            final(self).dpts() == old(self).dpts(),
            final(self).address_limit() == old(self).address_limit(),
            final(self).message_limit() == old(self).message_limit(),
    {
        let ghost c = cemi;
        if !self.enabled {
            return false;
        }
        let (target, decoded_value) = {
            let ld = match &cemi {
                Cemi::LDataReq(ld) => ld,
                Cemi::LDataCon(ld) => ld,
                Cemi::LDataInd(ld) => ld,
                _ => {
                    return false;
                },
            };
            if ld.control_field2.get_address_type() != AddressType::Group {
                return false;
            }
            let apci_val = ld.tpdu.apdu.apci.get_value();
            if !(apci_val == ApciEnum::AGroupValueRead.code() || apci_val
                == ApciEnum::AGroupValueResponse.code() || apci_val
                == ApciEnum::AGroupValueWrite.code()) {
                return false;
            }
            let target = string_of(ld.destination_address.as_str());
            let decoded_value = match table_get(&self.dpt_config, target.as_str()) {
                Some(dpt) => match KnxDataDecode::decode_this(dpt.as_str(), ld.tpdu.apdu.data.as_slice()) {
                    Ok(v) => Some(v),
                    Err(_) => None,
                },
                None => None,
            };
            (target, decoded_value)
        };
        let ghost ld = cached_ldata(cemi)->0;
        let ghost old_slots = self.slots();
        let entry = CacheEntry { cemi, timestamp: now, group_address: target, decoded_value };
        let ghost e = entry;
        let found = self.find_slot(entry.group_address.as_str());
        match found {
            Some(i) => {
                let ghost old_cache = self.cache@;
                let (key, mut entries) = self.cache.remove(i);
                let ghost removed = self.cache@;
                entries.insert(0, entry);
                if entries.len() > self.max_messages_per_address {
                    entries.truncate(self.max_messages_per_address);
                }
                let ghost new_entries = entries@;
                assert(new_entries =~= with_entry(old_slots[i as int].1, e, self.message_limit()));
                let ghost key_view = key@;
                self.cache.insert(i, (key, entries));
                proof {
                    assert(old_slots[i as int] == slot_view(old_cache[i as int]));
                    assert(key_view == ld.destination_address@);
                    assert(self.cache@ =~= removed.insert(i as int, self.cache@[i as int]));
                    let s = self.slots();
                    assert forall|j: int| 0 <= j < s.len() implies s[j] == (if j == i as int {
                        (ld.destination_address@, new_entries)
                    } else {
                        old_slots[j]
                    }) by {
                        if j < i as int {
                            assert(self.cache@[j] == old_cache[j]);
                        } else if j > i as int {
                            assert(self.cache@[j] == old_cache[j]);
                        }
                    }
                    let want = stored(old_slots, ld.destination_address@, e, self.address_limit(), self.message_limit());
                    assert(s =~= want);
                    assert(distinct_slots(s)) by {
                        assert forall|x: int, y: int| 0 <= x < y < s.len() implies s[x].0 != s[y].0 by {
                            assert(s[x].0 == old_slots[x].0);
                            assert(s[y].0 == old_slots[y].0);
                        }
                    }
                }
            },
            None => {
                if self.cache.len() >= self.max_addresses && self.cache.len() > 0 {
                    self.cache.remove(0);
                }
                let ghost kept_slots = self.slots();
                let key = string_of(entry.group_address.as_str());
                let mut entries: Vec<CacheEntry> = Vec::new();
                entries.push(entry);
                if entries.len() > self.max_messages_per_address {
                    entries.truncate(self.max_messages_per_address);
                }
                self.cache.push((key, entries));
                proof {
                    let s = self.slots();
                    let want = stored(old_slots, ld.destination_address@, e, self.address_limit(), self.message_limit());
                    assert(kept_slots =~= (if old_slots.len() >= self.address_limit() && old_slots.len() > 0 {
                        old_slots.drop_first()
                    } else {
                        old_slots
                    }));
                    assert(s =~= want);
                    assert(distinct_slots(s)) by {
                        assert forall|x: int, y: int| 0 <= x < y < s.len() implies s[x].0 != s[y].0 by {
                            if y == s.len() - 1 {
                                assert(s[x] == kept_slots[x]);
                                if !(old_slots.len() >= self.address_limit() && old_slots.len() > 0) {
                                    assert(old_slots[x].0 != ld.destination_address@);
                                } else {
                                    assert(kept_slots[x] == old_slots[x + 1]);
                                    assert(old_slots[x + 1].0 != ld.destination_address@);
                                }
                            } else {
                                assert(s[x] == kept_slots[x]);
                                assert(s[y] == kept_slots[y]);
                            }
                        }
                    }
                }
            },
        }
        assert(entry_for(e, c, ld, now, lookup(old(self).dpts(), ld.destination_address@)));
        true
    }

    /// Keeps message `cemi` as `process_cemi_at` does, stamped with the
    /// current wall-clock time. Gives whether it was kept.
    pub fn process_cemi(&mut self, cemi: Cemi) -> (kept: bool)
        requires
            old(self).wf(),
            old(self).decodes_safely(cemi),
        ensures
            final(self).wf(),
            kept == (old(self).is_on() && cached_ldata(cemi) is Some),
            !kept ==> final(self).slots() == old(self).slots(),
            kept ==> exists|e: CacheEntry, now: u64|
                #![auto]
                entry_for(
                    e,
                    cemi,
                    cached_ldata(cemi)->0,
                    now,
                    lookup(old(self).dpts(), cached_ldata(cemi)->0.destination_address@),
                ) && final(self).slots() == stored(
                    old(self).slots(),
                    cached_ldata(cemi)->0.destination_address@,
                    e,
                    old(self).address_limit(),
                    old(self).message_limit(),
                ),
            final(self).is_on() == old(self).is_on(),
            final(self).dpts() == old(self).dpts(),
            final(self).address_limit() == old(self).address_limit(),
            final(self).message_limit() == old(self).message_limit(),
    {
        let now = unix_millis();
        self.process_cemi_at(cemi, now)
    }

    /// Forgets every telegram; the configured types stay.
    pub fn clear(&mut self)
        ensures
            final(self).wf(),
            final(self).slots() == Seq::<(Seq<char>, Seq<CacheEntry>)>::empty(),
            final(self).is_on() == old(self).is_on(),
            final(self).dpts() == old(self).dpts(),
            final(self).address_limit() == old(self).address_limit(),
            final(self).message_limit() == old(self).message_limit(),
    {
        self.cache.clear();
        assert(self.slots() =~= Seq::<(Seq<char>, Seq<CacheEntry>)>::empty());
    }

    /// Forgets the telegrams of `address`; gives whether it had a place.
    pub fn delete_address(&mut self, address: &str) -> (r: bool)
        requires
            old(self).wf(),
        ensures
            final(self).wf(),
            r == has_slot(old(self).slots(), address@),
            r ==> final(self).slots() == old(self).slots().remove(slot_index(old(self).slots(), address@)),
            !r ==> final(self).slots() == old(self).slots(),
            !has_slot(final(self).slots(), address@),
            final(self).is_on() == old(self).is_on(),
            final(self).dpts() == old(self).dpts(),
            final(self).address_limit() == old(self).address_limit(),
            final(self).message_limit() == old(self).message_limit(),
    {
        let ghost old_slots = self.slots();
        match self.find_slot(address) {
            Some(i) => {
                self.cache.remove(i);
                proof {
                    let s = self.slots();
                    assert(s =~= old_slots.remove(i as int));
                    assert forall|x: int, y: int| 0 <= x < y < s.len() implies s[x].0 != s[y].0 by {
                        if x < i {
                            assert(s[x] == old_slots[x]);
                        } else {
                            assert(s[x] == old_slots[x + 1]);
                        }
                        if y < i {
                            assert(s[y] == old_slots[y]);
                        } else {
                            assert(s[y] == old_slots[y + 1]);
                        }
                    }
                    if has_slot(s, address@) {
                        let k = choose|k: int| 0 <= k < s.len() && s[k].0 == address@;
                        if k < i {
                            assert(s[k] == old_slots[k]);
                        } else {
                            assert(s[k] == old_slots[k + 1]);
                        }
                    }
                }
                true
            },
            None => false,
        }
    }

}

/// Keeping a telegram of address `a` leaves no address twice, keeps at
/// most `max_messages` entries for `a`, and makes the telegram the newest
/// entry of `a`: the latest-only query of `a` gives it, whatever the end
/// of the window.
pub proof fn lemma_kept_is_latest(
    s: Seq<(Seq<char>, Seq<CacheEntry>)>,
    a: Seq<char>,
    e: CacheEntry,
    max_addresses: nat,
    max_messages: nat,
    end: u64,
)
    requires
        distinct_slots(s),
        max_messages > 0,
    ensures
        distinct_slots(stored(s, a, e, max_addresses, max_messages)),
        has_slot(stored(s, a, e, max_addresses, max_messages), a),
        entries_of(stored(s, a, e, max_addresses, max_messages), a).len() <= max_messages,
        entries_of(stored(s, a, e, max_addresses, max_messages), a)[0] == e,
        query_result(stored(s, a, e, max_addresses, max_messages), seq![a], None, end, true) == seq![e],
{
    let t = stored(s, a, e, max_addresses, max_messages);
    let idx: int = if has_slot(s, a) {
        slot_index(s, a)
    } else {
        t.len() - 1
    };
    if has_slot(s, a) {
        let i = slot_index(s, a);
        assert forall|x: int, y: int| 0 <= x < y < t.len() implies t[x].0 != t[y].0 by {
            assert(t[x].0 == s[x].0);
            assert(t[y].0 == s[y].0);
        }
    } else {
        let kept = if s.len() >= max_addresses && s.len() > 0 {
            s.drop_first()
        } else {
            s
        };
        assert forall|x: int| 0 <= x < kept.len() implies kept[x].0 != a by {
            if s.len() >= max_addresses && s.len() > 0 {
                assert(kept[x] == s[x + 1]);
            }
        }
        assert forall|x: int, y: int| 0 <= x < y < t.len() implies t[x].0 != t[y].0 by {
            assert(t[x] == kept[x]);
            if y < t.len() - 1 {
                assert(t[y] == kept[y]);
                if s.len() >= max_addresses && s.len() > 0 {
                    assert(kept[x] == s[x + 1]);
                    assert(kept[y] == s[y + 1]);
                }
            }
        }
    }
    assert(0 <= idx < t.len() && t[idx].0 == a);
    assert(has_slot(t, a));
    let k = slot_index(t, a);
    if k < idx {
        assert(t[k].0 != t[idx].0);
    } else if k > idx {
        assert(t[idx].0 != t[k].0);
    }
    assert(entries_of(t, a) == t[idx].1);
    assert(seq![a].drop_last() =~= Seq::<Seq<char>>::empty());
    assert(query_result(t, seq![a].drop_last(), None, end, true) =~= Seq::<CacheEntry>::empty());
    assert(query_result(t, seq![a], None, end, true) =~= seq![e]);
}

/// References to the entries of `es` in the window, in their order.
fn window_refs<'a>(es: &'a Vec<CacheEntry>, start: Option<u64>, end: u64) -> (r: Vec<&'a CacheEntry>)
    ensures
        derefs(r@) == window(es@, start, end),
{
    let mut r: Vec<&'a CacheEntry> = Vec::new();
    let n = es.len();
    let mut j: usize = 0;
    assert(es@.take(0) =~= Seq::<CacheEntry>::empty());
    while j < n
        invariant
            n == es@.len(),
            j <= n,
            derefs(r@) == window(es@.take(j as int), start, end),
        decreases n - j,
    {
        let e = &es[j];
        assert(es@.take(j as int + 1).drop_last() =~= es@.take(j as int));
        let keep = match start {
            Some(t) => t <= e.timestamp && e.timestamp <= end,
            None => e.timestamp <= end,
        };
        if keep {
            r.push(e);
        }
        assert(derefs(r@) =~= window(es@.take(j as int + 1), start, end));
        j = j + 1;
    }
    assert(es@.take(n as int) =~= es@);
    r
}

impl GroupAddressCache {
    /// The kept entries of `addresses`, address by address: those that
    /// arrived from `start_date` (when given) up to `end`, or only the
    /// first of them when `return_only_latest`; without a start, the latest
    /// is the newest entry whatever its time.
    pub fn query_at<'a>(
        &'a self,
        addresses: &[String],
        start_date: Option<u64>,
        end: u64,
        return_only_latest: bool,
    ) -> (r: Vec<&'a CacheEntry>)
        requires
            self.wf(),
        ensures
            derefs(r@) == query_result(self.slots(), texts(addresses@), start_date, end, return_only_latest),
    {
        let mut results: Vec<&'a CacheEntry> = Vec::new();
        let n = addresses.len();
        let mut k: usize = 0;
        assert(texts(addresses@).take(0) =~= Seq::<Seq<char>>::empty());
        while k < n
            invariant
                n == addresses@.len(),
                k <= n,
                self.wf(),
                derefs(results@) == query_result(self.slots(), texts(addresses@).take(k as int), start_date, end, return_only_latest),
            decreases n - k,
        {
            let ghost before = results@;
            let ghost a = addresses@[k as int]@;
            assert(texts(addresses@).take(k as int + 1).drop_last() =~= texts(addresses@).take(k as int));
            assert(texts(addresses@).take(k as int + 1).last() == a);
            match self.find_slot(addresses[k].as_str()) {
                Some(i) => {
                    let es = &self.cache[i].1;
                    assert(es@ == entries_of(self.slots(), a));
                    if return_only_latest && start_date.is_none() {
                        if es.len() > 0 {
                            results.push(&es[0]);
                        }
                        assert(derefs(results@) =~= derefs(before) + picked(es@, start_date, end, return_only_latest));
                    } else {
                        let w = window_refs(es, start_date, end);
                        if return_only_latest {
                            if w.len() > 0 {
                                results.push(w[0]);
                            }
                            assert(derefs(results@) =~= derefs(before) + picked(es@, start_date, end, return_only_latest));
                        } else {
                            let m = w.len();
                            let mut j: usize = 0;
                            while j < m
                                invariant
                                    m == w@.len(),
                                    j <= m,
                                    derefs(results@) == derefs(before) + derefs(w@).take(j as int),
                                decreases m - j,
                            {
                                let ghost prev = results@;
                                results.push(w[j]);
                                assert(derefs(results@) =~= derefs(prev).push(*w@[j as int]));
                                assert(derefs(w@).take(j as int + 1) =~= derefs(w@).take(j as int).push(derefs(w@)[j as int]));
                                assert(derefs(results@) =~= derefs(before) + derefs(w@).take(j as int + 1));
                                j = j + 1;
                            }
                            assert(derefs(w@).take(m as int) =~= derefs(w@));
                        }
                    }
                },
                None => {
                    assert(entries_of(self.slots(), a) =~= Seq::<CacheEntry>::empty());
                    assert(window(Seq::<CacheEntry>::empty(), start_date, end) =~= Seq::<CacheEntry>::empty());
                    assert(derefs(results@) =~= derefs(before) + picked(entries_of(self.slots(), a), start_date, end, return_only_latest));
                },
            }
            k = k + 1;
        }
        assert(texts(addresses@).take(n as int) =~= texts(addresses@));
        results
    }

    /// `query_at`, up to `end_date` or, without one, up to the current
    /// wall-clock time.
    pub fn query<'a>(
        &'a self,
        addresses: &[String],
        start_date: Option<u64>,
        end_date: Option<u64>,
        return_only_latest: bool,
    ) -> (r: Vec<&'a CacheEntry>)
        requires
            self.wf(),
        ensures
            end_date matches Some(end) ==> derefs(r@) == query_result(
                self.slots(),
                texts(addresses@),
                start_date,
                end,
                return_only_latest,
            ),
            end_date is None ==> exists|now: u64|
                derefs(r@) == query_result(
                    self.slots(),
                    texts(addresses@),
                    start_date,
                    now,
                    return_only_latest,
                ),
    {
        let end = match end_date {
            Some(e) => e,
            None => unix_millis(),
        };
        self.query_at(addresses, start_date, end, return_only_latest)
    }
}

} // verus!
