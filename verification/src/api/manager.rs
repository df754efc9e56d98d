//! JSON values as the control interface reads them, the actions a request
//! asks for, and the reading of a JSON value as a datapoint value.
use crate::errors::KnxError;
use crate::protocol::data::knx_data_decode::{
    dpt_number_overflows, dpt_number_spec, fallback_spec, Dpt232Value, Dpt3Value, DptValue,
    KnxDataDecode,
};
use crate::utils::text::{str_eq, string_of};
use vstd::prelude::*;

verus! {

/// A JSON value. A number with a fraction or exponent is only marked as
/// such: its value is read by the caller.
#[derive(Debug)]
pub enum JsonValue {
    Null,
    Bool(bool),
    Unsigned(u64),
    Signed(i64),
    Float,
    Str(String),
    Array(Vec<JsonValue>),
    Object(Vec<(String, JsonValue)>),
}

/// The value of `key` among the members of an object: that of its first
/// member.
pub open spec fn member(pairs: Seq<(String, JsonValue)>, key: Seq<char>) -> Option<JsonValue>
    decreases pairs.len(),
{
    if pairs.len() == 0 {
        None
    } else if pairs[0].0@ == key {
        Some(pairs[0].1)
    } else {
        member(pairs.drop_first(), key)
    }
}

/// The value of `key` in `v`, for an object.
pub open spec fn json_get(v: JsonValue, key: Seq<char>) -> Option<JsonValue> {
    match v {
        JsonValue::Object(pairs) => member(pairs@, key),
        _ => None,
    }
}

/// The text of a string value.
pub open spec fn json_str(v: Option<JsonValue>) -> Option<Seq<char>> {
    match v {
        Some(JsonValue::Str(s)) => Some(s@),
        _ => None,
    }
}

/// The number of a value that is a non-negative integer.
pub open spec fn json_u64(v: JsonValue) -> Option<u64> {
    match v {
        JsonValue::Unsigned(u) => Some(u),
        _ => None,
    }
}

/// The number of a value that is an integer of 64 signed bits.
pub open spec fn json_i64(v: JsonValue) -> Option<i64> {
    match v {
        JsonValue::Unsigned(u) => if u <= i64::MAX {
            Some(u as i64)
        } else {
            None
        },
        JsonValue::Signed(i) => Some(i),
        _ => None,
    }
}

/// The octets of an array whose items are all non-negative integers, each
/// taken modulo 256.
pub open spec fn json_octets(items: Seq<JsonValue>) -> Option<Seq<u8>>
    decreases items.len(),
{
    if items.len() == 0 {
        Some(Seq::empty())
    } else {
        match (json_octets(items.drop_last()), json_u64(items.last())) {
            (Some(b), Some(u)) => Some(b.push((u % 256) as u8)),
            _ => None,
        }
    }
}

/// Member `key` of `v` as an octet: a non-negative integer modulo 256.
pub open spec fn member_octet(v: JsonValue, key: Seq<char>) -> Option<u8> {
    match json_get(v, key) {
        Some(x) => match json_u64(x) {
            Some(u) => Some((u % 256) as u8),
            None => None,
        },
        None => None,
    }
}

/// Whether the value for type `dpt` is a fraction that the caller reads
/// (DPT 9 and 14, and a text for 5.001 or 5.002).
pub open spec fn needs_fraction(dpt: Seq<char>, v: JsonValue) -> bool {
    ||| (dpt_number_spec(dpt) matches Some(n) && (fallback_spec(n) == 9 || fallback_spec(n) == 14))
    ||| ((dpt == "5.001"@ || dpt == "5.002"@) && v is Str && (dpt_number_spec(dpt) matches Some(n)
        && fallback_spec(n) != 1 && fallback_spec(n) != 5 && fallback_spec(n) != 16))
}

/// Whether `r` is the datapoint value read from `v` for type `dpt`: a
/// boolean (or an object whose `value` is one) for DPT 1, a number modulo
/// 256 for DPT 5, a text for DPT 16; for the other types an array of
/// octets, a text, an object with `control` and `stepCode` for DPT 3, or
/// with `R`, `G` and `B` for DPT 232.600.
pub open spec fn json_dpt_result(dpt: Seq<char>, v: JsonValue, r: Result<DptValue, KnxError>) -> bool {
    match dpt_number_spec(dpt) {
        None => r == Err::<DptValue, KnxError>(KnxError::DPTNotFound),
        Some(n) => {
            let res = fallback_spec(n);
            if res == 1 {
                match v {
                    JsonValue::Bool(b) => r == Ok::<DptValue, KnxError>(DptValue::Dpt1(b)),
                    JsonValue::Object(_) => match json_get(v, "value"@) {
                        Some(JsonValue::Bool(b)) => r == Ok::<DptValue, KnxError>(DptValue::Dpt1(b)),
                        _ => r == Err::<DptValue, KnxError>(KnxError::InvalidParametersForDpt),
                    },
                    _ => r == Err::<DptValue, KnxError>(KnxError::InvalidParametersForDpt),
                }
            } else if res == 5 {
                match json_u64(v) {
                    Some(u) => r == Ok::<DptValue, KnxError>(DptValue::Dpt5((u % 256) as u8)),
                    None => r == Err::<DptValue, KnxError>(KnxError::InvalidParametersForDpt),
                }
            } else if res == 16 {
                match v {
                    JsonValue::Str(s) => r == Ok::<DptValue, KnxError>(DptValue::Dpt16(s)),
                    _ => r == Err::<DptValue, KnxError>(KnxError::InvalidParametersForDpt),
                }
            } else {
                match v {
                    JsonValue::Array(items) => match json_octets(items@) {
                        Some(b) => r matches Ok(DptValue::Raw(x)) && x@ == b,
                        None => r == Err::<DptValue, KnxError>(KnxError::InvalidParametersForDpt),
                    },
                    JsonValue::Str(s) => r == Ok::<DptValue, KnxError>(DptValue::Dpt16(s)),
                    JsonValue::Object(_) => if (res == 3007 || res == 3008) && member_octet(v, "control"@) is Some
                        && member_octet(v, "stepCode"@) is Some {
                        r matches Ok(DptValue::Dpt3(x)) && x.control == member_octet(v, "control"@)->0
                            && x.step_code == member_octet(v, "stepCode"@)->0 && x.action@.len() == 0
                            && x.description@.len() == 0
                    } else if res == 232600 && member_octet(v, "R"@) is Some && member_octet(v, "G"@) is Some
                        && member_octet(v, "B"@) is Some {
                        r == Ok::<DptValue, KnxError>(
                            DptValue::Dpt232(
                                Dpt232Value {
                                    r: member_octet(v, "R"@)->0,
                                    g: member_octet(v, "G"@)->0,
                                    b: member_octet(v, "B"@)->0,
                                },
                            ),
                        )
                    } else {
                        r == Err::<DptValue, KnxError>(KnxError::InvalidParametersForDpt)
                    },
                    _ => r == Err::<DptValue, KnxError>(KnxError::InvalidParametersForDpt),
                }
            }
        },
    }
}

impl JsonValue {
    /// The value of `key`, for an object.
    pub fn get(&self, key: &str) -> (r: Option<&JsonValue>)
        ensures
            match json_get(*self, key@) {
                Some(x) => r matches Some(y) && *y == x,
                None => r is None,
            },
    {
        match self {
            JsonValue::Object(pairs) => {
                let n = pairs.len();
                let mut i: usize = 0;
                assert(pairs@.subrange(0, n as int) =~= pairs@);
                while i < n
                    invariant
                        n == pairs@.len(),
                        i <= n,
                        *self == JsonValue::Object(*pairs),
                        member(pairs@, key@) == member(pairs@.subrange(i as int, n as int), key@),
                    decreases n - i,
                {
                    let ghost rest = pairs@.subrange(i as int, n as int);
                    assert(rest.drop_first() =~= pairs@.subrange(i + 1, n as int));
                    assert(rest[0] == pairs@[i as int]);
                    if str_eq(pairs[i].0.as_str(), key) {
                        return Some(&pairs[i].1);
                    }
                    i = i + 1;
                }
                None
            },
            _ => None,
        }
    }

    /// The text of a string value.
    pub fn as_str(&self) -> (r: Option<&str>)
        ensures
            match json_str(Some(*self)) {
                Some(t) => r matches Some(x) && x@ == t,
                None => r is None,
            },
    {
        match self {
            JsonValue::Str(s) => Some(s.as_str()),
            _ => None,
        }
    }

    /// The number of a non-negative integer value.
    pub fn as_u64(&self) -> (r: Option<u64>)
        ensures
            r == json_u64(*self),
    {
        match self {
            JsonValue::Unsigned(u) => Some(*u),
            _ => None,
        }
    }

    /// The number of an integer value of 64 signed bits.
    pub fn as_i64(&self) -> (r: Option<i64>)
        ensures
            r == json_i64(*self),
    {
        match self {
            JsonValue::Unsigned(u) => if *u <= 0x7FFF_FFFF_FFFF_FFFF {
                Some(*u as i64)
            } else {
                None
            },
            JsonValue::Signed(i) => Some(*i),
            _ => None,
        }
    }
}

/// The text of member `key` of `v`, where it is a string.
pub fn member_str<'a>(v: &'a JsonValue, key: &str) -> (r: Option<&'a str>)
    ensures
        match json_str(json_get(*v, key@)) {
            Some(t) => r matches Some(x) && x@ == t,
            None => r is None,
        },
{
    match v.get(key) {
        Some(x) => x.as_str(),
        None => None,
    }
}

/// Reads `val` as a value of datapoint type `dpt`.
///
/// The fractional values (DPT 9 and 14, and the texts of 5.001 and 5.002)
/// are read by the caller.
pub fn json_to_dpt_value(dpt: &str, val: &JsonValue) -> (r: Result<DptValue, KnxError>)
    requires
        !dpt_number_overflows(dpt@),
        !needs_fraction(dpt@, *val),
    ensures
        json_dpt_result(dpt@, *val, r),
{
    let n = match KnxDataDecode::get_dpt_number(dpt) {
        Some(n) => n,
        None => {
            return Err(KnxError::DPTNotFound);
        },
    };
    let resolved = KnxDataDecode::fallback_dpt(n);
    if resolved == 1 {
        match val {
            JsonValue::Bool(b) => Ok(DptValue::Dpt1(*b)),
            JsonValue::Object(_) => match val.get("value") {
                Some(JsonValue::Bool(b)) => Ok(DptValue::Dpt1(*b)),
                _ => Err(KnxError::InvalidParametersForDpt),
            },
            _ => Err(KnxError::InvalidParametersForDpt),
        }
    } else if resolved == 5 {
        match val.as_u64() {
            Some(u) => Ok(DptValue::Dpt5((u % 256) as u8)),
            None => Err(KnxError::InvalidParametersForDpt),
        }
    } else if resolved == 16 {
        match val {
            JsonValue::Str(s) => Ok(DptValue::Dpt16(s.clone())),
            _ => Err(KnxError::InvalidParametersForDpt),
        }
    } else {
        match val {
            JsonValue::Array(items) => {
                let mut bytes: Vec<u8> = Vec::new();
                let m = items.len();
                let mut i: usize = 0;
                assert(items@.take(0) =~= Seq::<JsonValue>::empty());
                while i < m
                    invariant
                        m == items@.len(),
                        i <= m,
                        *val == JsonValue::Array(*items),
                        dpt_number_spec(dpt@) == Some(n),
                        resolved == fallback_spec(n),
                        resolved != 1 && resolved != 5 && resolved != 16,
                        json_octets(items@.take(i as int)) == Some(bytes@),
                    decreases m - i,
                {
                    assert(items@.take(i as int + 1).drop_last() =~= items@.take(i as int));
                    match items[i].as_u64() {
                        Some(u) => {
                            bytes.push((u % 256) as u8);
                        },
                        None => {
                            proof {
                                lemma_octets_stop(items@, i as int);
                            }
                            return Err(KnxError::InvalidParametersForDpt);
                        },
                    }
                    i = i + 1;
                }
                assert(items@.take(m as int) =~= items@);
                Ok(DptValue::Raw(bytes))
            },
            JsonValue::Str(s) => Ok(DptValue::Dpt16(s.clone())),
            JsonValue::Object(_) => {
                if resolved == 3007 || resolved == 3008 {
                    match (member_u8(val, "control"), member_u8(val, "stepCode")) {
                        (Some(control), Some(step_code)) => {
                            return Ok(
                                DptValue::Dpt3(
                                    Dpt3Value {
                                        control,
                                        step_code,
                                        action: String::new(),
                                        description: String::new(),
                                    },
                                ),
                            );
                        },
                        _ => {},
                    }
                } else if resolved == 232600 {
                    match (member_u8(val, "R"), member_u8(val, "G"), member_u8(val, "B")) {
                        (Some(r), Some(g), Some(b)) => {
                            return Ok(DptValue::Dpt232(Dpt232Value { r, g, b }));
                        },
                        _ => {},
                    }
                }
                Err(KnxError::InvalidParametersForDpt)
            },
            _ => Err(KnxError::InvalidParametersForDpt),
        }
    }
}

/// Member `key` of `v` as an octet, as `member_octet`.
fn member_u8(v: &JsonValue, key: &str) -> (r: Option<u8>)
    ensures
        r == member_octet(*v, key@),
{
    match v.get(key) {
        Some(x) => match x.as_u64() {
            Some(u) => Some((u % 256) as u8),
            None => None,
        },
        None => None,
    }
}

/// An item that is not a non-negative integer leaves the whole array
/// without octets.
proof fn lemma_octets_stop(items: Seq<JsonValue>, i: int)
    requires
        0 <= i < items.len(),
        json_u64(items[i]) is None,
    ensures
        json_octets(items) is None,
    decreases items.len(),
{
    if i < items.len() - 1 {
        assert(items.drop_last()[i] == items[i]);
        lemma_octets_stop(items.drop_last(), i);
    }
}

/// What a request asks of the manager, once checked.
#[derive(Debug, Clone, PartialEq, Eq)]
pub enum ApiAction {
    /// Open a connection of the given type; its options stay in the request.
    Connect { connection_type: String },
    Disconnect,
    Subscribe { group_address: String },
    /// List the subscribed addresses.
    Subscriptions,
    Unsubscribe { group_address: String },
    SetDpt { group_address: String, dpt: String },
    /// Write the request's value, after configuring `configure_dpt` when
    /// given.
    Write { group_address: String, configure_dpt: Option<String> },
    Read { group_address: String },
    GetHistory { limit: u64 },
    SetRetention { seconds: i64 },
    Status,
}

/// The retention period used when a request gives none: seven days.
pub const DEFAULT_RETENTION_SECONDS: i64 = 604800;

/// The number of history entries given when a request names none.
pub const DEFAULT_HISTORY_LIMIT: u64 = 50;

/// An action with its texts as character sequences.
pub enum ActionSpec {
    Connect(Seq<char>),
    Disconnect,
    Subscribe(Seq<char>),
    Subscriptions,
    Unsubscribe(Seq<char>),
    SetDpt(Seq<char>, Seq<char>),
    Write(Seq<char>, Option<Seq<char>>),
    Read(Seq<char>),
    GetHistory(u64),
    SetRetention(i64),
    Status,
}

impl View for ApiAction {
    type V = ActionSpec;

    open spec fn view(&self) -> ActionSpec {
        match self {
            ApiAction::Connect { connection_type } => ActionSpec::Connect(connection_type@),
            ApiAction::Disconnect => ActionSpec::Disconnect,
            ApiAction::Subscribe { group_address } => ActionSpec::Subscribe(group_address@),
            ApiAction::Subscriptions => ActionSpec::Subscriptions,
            ApiAction::Unsubscribe { group_address } => ActionSpec::Unsubscribe(group_address@),
            ApiAction::SetDpt { group_address, dpt } => ActionSpec::SetDpt(group_address@, dpt@),
            ApiAction::Write { group_address, configure_dpt } => ActionSpec::Write(
                group_address@,
                match configure_dpt {
                    Some(d) => Some(d@),
                    None => None,
                },
            ),
            ApiAction::Read { group_address } => ActionSpec::Read(group_address@),
            ApiAction::GetHistory { limit } => ActionSpec::GetHistory(*limit),
            ApiAction::SetRetention { seconds } => ActionSpec::SetRetention(*seconds),
            ApiAction::Status => ActionSpec::Status,
        }
    }
}

/// A planned request as character sequences: the action, or the refusal.
pub open spec fn plan_view(r: Result<ApiAction, String>) -> Result<ActionSpec, Seq<char>> {
    match r {
        Ok(a) => Ok(a@),
        Err(e) => Err(e@),
    }
}

/// The text of member `key`, or the empty text where it is not a string.
pub open spec fn field(v: JsonValue, key: Seq<char>) -> Seq<char> {
    match json_str(json_get(v, key)) {
        Some(t) => t,
        None => Seq::empty(),
    }
}

/// Whether member `key` is missing or null.
pub open spec fn missing(v: JsonValue, key: Seq<char>) -> bool {
    json_get(v, key) is None || json_get(v, key) matches Some(JsonValue::Null)
}

/// The text of member `key` as a new string, empty where it is not a
/// string.
pub fn field_string(v: &JsonValue, key: &str) -> (r: String)
    ensures
        r@ == field(*v, key@),
{
    match member_str(v, key) {
        Some(t) => string_of(t),
        None => String::new(),
    }
}

/// Whether member `key` is missing or null.
pub fn is_missing(v: &JsonValue, key: &str) -> (r: bool)
    ensures
        r == missing(*v, key@),
{
    match v.get(key) {
        None => true,
        Some(JsonValue::Null) => true,
        Some(_) => false,
    }
}

/// The refusal of a command that needs a connection.
pub open spec fn connection_required() -> Seq<char> {
    "Connection required before sending commands"@
}


/// Whether `v` is an object with exactly the members `keys`, in that
/// order.
pub open spec fn has_keys(v: JsonValue, keys: Seq<Seq<char>>) -> bool {
    v matches JsonValue::Object(m) && m@.len() == keys.len() && forall|k: int| 0 <= k < keys.len() ==> (#[trigger] m@[k]).0@ == keys[k]
}

/// The value of the `k`-th member of an object.
pub open spec fn nth_value(v: JsonValue, k: int) -> JsonValue {
    match v {
        JsonValue::Object(m) => m@[k].1,
        _ => JsonValue::Null,
    }
}

/// Whether `v` is the text `t`.
pub open spec fn is_text(v: JsonValue, t: Seq<char>) -> bool {
    v matches JsonValue::Str(s) && s@ == t
}

fn text(t: &str) -> (v: JsonValue)
    ensures
        is_text(v, t@),
{
    JsonValue::Str(string_of(t))
}

fn key(k: &str) -> (s: String)
    ensures
        s@ == k@,
{
    string_of(k)
}

impl ApiAction {
    /// The response object of a request carried out successfully, for the
    /// requests whose answer depends on the request alone: `{"connected":
    /// true}`, `{"disconnected": true}`, `{"subscribed": address}`,
    /// `{"unsubscribed": address}`, `{"configured": address, "dpt": dpt}`,
    /// `{"written": true}`, `{"read_sent": true}`,
    /// `{"retention_configured": seconds}`. Listing subscriptions, history
    /// and status answer with stored data: none here.
    pub fn success_response(&self) -> (r: Option<JsonValue>)
        ensures
            match *self {
                ApiAction::Connect { .. } => r matches Some(v) && has_keys(v, seq!["connected"@]) && nth_value(v, 0) == JsonValue::Bool(true),
                ApiAction::Disconnect => r matches Some(v) && has_keys(v, seq!["disconnected"@]) && nth_value(v, 0) == JsonValue::Bool(true),
                ApiAction::Subscribe { group_address } => r matches Some(v) && has_keys(v, seq!["subscribed"@]) && is_text(nth_value(v, 0), group_address@),
                ApiAction::Unsubscribe { group_address } => r matches Some(v) && has_keys(v, seq!["unsubscribed"@]) && is_text(nth_value(v, 0), group_address@),
                ApiAction::SetDpt { group_address, dpt } => r matches Some(v) && has_keys(v, seq!["configured"@, "dpt"@])
                    && is_text(nth_value(v, 0), group_address@) && is_text(nth_value(v, 1), dpt@),
                ApiAction::Write { .. } => r matches Some(v) && has_keys(v, seq!["written"@]) && nth_value(v, 0) == JsonValue::Bool(true),
                ApiAction::Read { .. } => r matches Some(v) && has_keys(v, seq!["read_sent"@]) && nth_value(v, 0) == JsonValue::Bool(true),
                ApiAction::SetRetention { seconds } => r matches Some(v) && has_keys(v, seq!["retention_configured"@]) && nth_value(v, 0) == JsonValue::Signed(seconds),
                _ => r is None,
            },
    {
        let (k, v): (String, JsonValue) = match self {
            ApiAction::Connect { .. } => (key("connected"), JsonValue::Bool(true)),
            ApiAction::Disconnect => (key("disconnected"), JsonValue::Bool(true)),
            ApiAction::Subscribe { group_address } => (key("subscribed"), text(group_address.as_str())),
            ApiAction::Unsubscribe { group_address } => (key("unsubscribed"), text(group_address.as_str())),
            ApiAction::SetDpt { group_address, dpt } => {
                let mut m: Vec<(String, JsonValue)> = Vec::new();
                m.push((key("configured"), text(group_address.as_str())));
                m.push((key("dpt"), text(dpt.as_str())));
                return Some(JsonValue::Object(m));
            },
            ApiAction::Write { .. } => (key("written"), JsonValue::Bool(true)),
            ApiAction::Read { .. } => (key("read_sent"), JsonValue::Bool(true)),
            ApiAction::SetRetention { seconds } => (key("retention_configured"), JsonValue::Signed(*seconds)),
            _ => {
                return None;
            },
        };
        let mut m: Vec<(String, JsonValue)> = Vec::new();
        m.push((k, v));
        Some(JsonValue::Object(m))
    }
}

/// The answer to a request: with the request's `id` (WebSocket requests,
/// `null` when it had none) or without (MQTT), `success`, and the response
/// object or the error text.
pub fn reply(id: Option<Option<JsonValue>>, outcome: Result<JsonValue, String>) -> (r: JsonValue)
    ensures
        ({
            let base: Seq<Seq<char>> = match outcome {
                Ok(_) => seq!["success"@, "response"@],
                Err(_) => seq!["success"@, "error"@],
            };
            let off: int = if id is Some { 1 } else { 0 };
            &&& has_keys(r, if id is Some { seq!["id"@] + base } else { base })
            &&& (id matches Some(i) ==> nth_value(r, 0) == match i {
                Some(x) => x,
                None => JsonValue::Null,
            })
            &&& nth_value(r, off) == JsonValue::Bool(outcome is Ok)
            &&& (outcome matches Ok(res) ==> nth_value(r, off + 1) == res)
            &&& (outcome matches Err(e) ==> is_text(nth_value(r, off + 1), e@))
        }),
{
    let mut m: Vec<(String, JsonValue)> = Vec::new();
    let has_id = id.is_some();
    match id {
        Some(i) => {
            let v = match i {
                Some(x) => x,
                None => JsonValue::Null,
            };
            m.push((key("id"), v));
        },
        None => {},
    }
    let ok = outcome.is_ok();
    let ghost o = outcome;
    m.push((key("success"), JsonValue::Bool(ok)));
    match outcome {
        Ok(res) => {
            m.push((key("response"), res));
        },
        Err(e) => {
            m.push((key("error"), JsonValue::Str(e)));
        },
    }
    let r = JsonValue::Object(m);
    proof {
        if has_id {
            match o {
                Ok(_) => assert(seq!["id"@] + seq!["success"@, "response"@] =~= seq!["id"@, "success"@, "response"@]),
                Err(_) => assert(seq!["id"@] + seq!["success"@, "error"@] =~= seq!["id"@, "success"@, "error"@]),
            }
        }
    }
    r
}

} // verus!
