//! Commands read from MQTT: the topic `rknx/cmd/<command>` names the
//! command and the payload, a JSON value, holds its parameters.
use crate::api::manager::{
    connection_required, field, field_string, is_missing, json_get, json_i64, json_str,
    member_str, missing, plan_view, ActionSpec, ApiAction, JsonValue, DEFAULT_RETENTION_SECONDS,
};
use crate::utils::text::{chars_eq, chars_of, chars_to_string, copy_chars, push_str, str_eq, string_of};
use vstd::prelude::*;

verus! {

/// The command named by a topic: what follows `rknx/cmd/`, or the empty
/// text for another topic.
pub open spec fn command_of(topic: Seq<char>) -> Seq<char> {
    if topic.len() >= 9 && topic.take(9) == "rknx/cmd/"@ {
        topic.skip(9)
    } else {
        Seq::empty()
    }
}

/// The address a payload names: the payload itself where it is a string,
/// else its member `group_address`.
pub open spec fn payload_address(p: JsonValue) -> Seq<char> {
    match p {
        JsonValue::Str(s) => s@,
        _ => field(p, "group_address"@),
    }
}

/// The retention period a payload gives: the payload itself where it is a
/// number, else its member `seconds`; seven days where neither is an
/// integer of 64 signed bits.
pub open spec fn payload_seconds(p: JsonValue) -> i64 {
    match p {
        JsonValue::Unsigned(_) | JsonValue::Signed(_) | JsonValue::Float => match json_i64(p) {
            Some(n) => n,
            None => DEFAULT_RETENTION_SECONDS,
        },
        _ => match json_get(p, "seconds"@) {
            Some(v) => match json_i64(v) {
                Some(n) => n,
                None => DEFAULT_RETENTION_SECONDS,
            },
            None => DEFAULT_RETENTION_SECONDS,
        },
    }
}

/// What command `cmd` with payload `p` asks, or why it is refused.
/// `connected` tells whether the manager has a connection.
pub open spec fn command_plan(cmd: Seq<char>, p: JsonValue, connected: bool) -> Result<ActionSpec, Seq<char>> {
    if cmd == "connect"@ {
        Ok(ActionSpec::Connect(field(p, "connection_type"@)))
    } else if cmd == "disconnect"@ {
        Ok(ActionSpec::Disconnect)
    } else if cmd == "subscribe"@ {
        if payload_address(p).len() == 0 {
            Err("Missing group_address"@)
        } else {
            Ok(ActionSpec::Subscribe(payload_address(p)))
        }
    } else if cmd == "unsubscribe"@ {
        if payload_address(p).len() == 0 {
            Err("Missing group_address"@)
        } else {
            Ok(ActionSpec::Unsubscribe(payload_address(p)))
        }
    } else if cmd == "set_dpt"@ {
        if field(p, "group_address"@).len() == 0 || field(p, "dpt"@).len() == 0 {
            Err("Missing group_address or dpt"@)
        } else {
            Ok(ActionSpec::SetDpt(field(p, "group_address"@), field(p, "dpt"@)))
        }
    } else if cmd == "write"@ {
        if !connected {
            Err(connection_required())
        } else if field(p, "group_address"@).len() == 0 || missing(p, "value"@) {
            Err("Missing group_address or value"@)
        } else {
            Ok(ActionSpec::Write(field(p, "group_address"@), None))
        }
    } else if cmd == "read"@ {
        if !connected {
            Err(connection_required())
        } else if payload_address(p).len() == 0 {
            Err("Missing group_address"@)
        } else {
            Ok(ActionSpec::Read(payload_address(p)))
        }
    } else if cmd == "set_retention"@ {
        Ok(ActionSpec::SetRetention(payload_seconds(p)))
    } else {
        Err("Unknown command: "@ + cmd)
    }
}

/// The command named by `topic`.
pub fn command_from_topic(topic: &str) -> (r: String)
    ensures
        r@ == command_of(topic@),
{
    let cs = chars_of(topic);
    let prefix = chars_of("rknx/cmd/");
    proof {
        reveal_strlit("rknx/cmd/");
    }
    if cs.len() < 9 {
        return String::new();
    }
    let head = copy_chars(cs.as_slice(), 0, 9);
    let same = chars_eq(head.as_slice(), prefix.as_slice());
    assert(head@ =~= topic@.take(9));
    if same {
        let tail = copy_chars(cs.as_slice(), 9, cs.len());
        assert(tail@ =~= topic@.skip(9));
        chars_to_string(&tail)
    } else {
        String::new()
    }
}

/// The topic of the answer to command `cmd`.
pub fn response_topic(cmd: &str) -> (r: String)
    ensures
        r@ == "rknx/response/"@ + cmd@,
{
    let mut t = string_of("rknx/response/");
    push_str(&mut t, cmd);
    t
}

/// The topic of the full indication events of group address `addr`.
pub fn indication_topic(addr: &str) -> (r: String)
    ensures
        r@ == "rknx/event/indication/"@ + addr@,
{
    let mut t = string_of("rknx/event/indication/");
    push_str(&mut t, addr);
    t
}

/// The topic of the decoded values of group address `addr`.
pub fn state_topic(addr: &str) -> (r: String)
    ensures
        r@ == "rknx/event/state/"@ + addr@,
{
    let mut t = string_of("rknx/event/state/");
    push_str(&mut t, addr);
    t
}

/// The address a payload names, as `payload_address`.
fn address_of_payload(p: &JsonValue) -> (r: String)
    ensures
        r@ == payload_address(*p),
{
    match p {
        JsonValue::Str(s) => string_of(s.as_str()),
        _ => field_string(p, "group_address"),
    }
}

/// Checks command `cmd` with payload `payload` (`connected`: whether the
/// manager has a connection) and gives the action it asks for, or the
/// error text sent back.
pub fn plan_command(cmd: &str, payload: &JsonValue, connected: bool) -> (r: Result<ApiAction, String>)
    ensures
        plan_view(r) == command_plan(cmd@, *payload, connected),
{
    if str_eq(cmd, "connect") {
        Ok(ApiAction::Connect { connection_type: field_string(payload, "connection_type") })
    } else if str_eq(cmd, "disconnect") {
        Ok(ApiAction::Disconnect)
    } else if str_eq(cmd, "subscribe") {
        let addr = address_of_payload(payload);
        if addr.as_str().unicode_len() == 0 {
            Err(string_of("Missing group_address"))
        } else {
            Ok(ApiAction::Subscribe { group_address: addr })
        }
    } else if str_eq(cmd, "unsubscribe") {
        let addr = address_of_payload(payload);
        if addr.as_str().unicode_len() == 0 {
            Err(string_of("Missing group_address"))
        } else {
            Ok(ApiAction::Unsubscribe { group_address: addr })
        }
    } else if str_eq(cmd, "set_dpt") {
        let addr = field_string(payload, "group_address");
        let dpt = field_string(payload, "dpt");
        if addr.as_str().unicode_len() == 0 || dpt.as_str().unicode_len() == 0 {
            Err(string_of("Missing group_address or dpt"))
        } else {
            Ok(ApiAction::SetDpt { group_address: addr, dpt })
        }
    } else if str_eq(cmd, "write") {
        if !connected {
            return Err(string_of("Connection required before sending commands"));
        }
        let addr = field_string(payload, "group_address");
        if addr.as_str().unicode_len() == 0 || is_missing(payload, "value") {
            Err(string_of("Missing group_address or value"))
        } else {
            Ok(ApiAction::Write { group_address: addr, configure_dpt: None })
        }
    } else if str_eq(cmd, "read") {
        if !connected {
            return Err(string_of("Connection required before sending commands"));
        }
        let addr = address_of_payload(payload);
        if addr.as_str().unicode_len() == 0 {
            Err(string_of("Missing group_address"))
        } else {
            Ok(ApiAction::Read { group_address: addr })
        }
    } else if str_eq(cmd, "set_retention") {
        let seconds = match payload {
            JsonValue::Unsigned(_) | JsonValue::Signed(_) | JsonValue::Float => match payload.as_i64() {
                Some(n) => n,
                None => DEFAULT_RETENTION_SECONDS,
            },
            _ => match payload.get("seconds") {
                Some(v) => match v.as_i64() {
                    Some(n) => n,
                    None => DEFAULT_RETENTION_SECONDS,
                },
                None => DEFAULT_RETENTION_SECONDS,
            },
        };
        Ok(ApiAction::SetRetention { seconds })
    } else {
        let mut e = string_of("Unknown command: ");
        push_str(&mut e, cmd);
        Err(e)
    }
}

} // verus!
