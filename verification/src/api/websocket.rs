//! Requests of WebSocket clients: a JSON object with an `action` and its
//! parameters, checked before the manager is asked.
use crate::api::manager::{
    connection_required, field, field_string, is_missing, json_get, json_i64, json_str, json_u64,
    member_str, missing, plan_view, ActionSpec, ApiAction, JsonValue, DEFAULT_HISTORY_LIMIT,
    DEFAULT_RETENTION_SECONDS,
};
use crate::utils::text::{push_str, str_eq, string_of};
use vstd::prelude::*;

verus! {

/// What a client request asks, or why it is refused. `connected` tells
/// whether the manager has a connection; reads and writes need one.
pub open spec fn client_plan(req: JsonValue, connected: bool) -> Result<ActionSpec, Seq<char>> {
    match json_str(json_get(req, "action"@)) {
        None => Err("Missing action field"@),
        Some(action) => if action == "connect"@ {
            Ok(ActionSpec::Connect(field(req, "connection_type"@)))
        } else if action == "disconnect"@ {
            Ok(ActionSpec::Disconnect)
        } else if action == "subscribe"@ {
            if field(req, "group_address"@).len() == 0 {
                Err("Missing group_address"@)
            } else {
                Ok(ActionSpec::Subscribe(field(req, "group_address"@)))
            }
        } else if action == "subscriptions"@ {
            Ok(ActionSpec::Subscriptions)
        } else if action == "unsubscribe"@ {
            if field(req, "group_address"@).len() == 0 {
                Err("Missing group_address"@)
            } else {
                Ok(ActionSpec::Unsubscribe(field(req, "group_address"@)))
            }
        } else if action == "set_dpt"@ {
            if field(req, "group_address"@).len() == 0 || field(req, "dpt"@).len() == 0 {
                Err("Missing group_address or dpt"@)
            } else {
                Ok(ActionSpec::SetDpt(field(req, "group_address"@), field(req, "dpt"@)))
            }
        } else if action == "write"@ {
            if !connected {
                Err(connection_required())
            } else if field(req, "group_address"@).len() == 0 || missing(req, "value"@) {
                Err("Missing group_address or value"@)
            } else {
                Ok(ActionSpec::Write(field(req, "group_address"@), json_str(json_get(req, "dpt"@))))
            }
        } else if action == "read"@ {
            if !connected {
                Err(connection_required())
            } else if field(req, "group_address"@).len() == 0 {
                Err("Missing group_address"@)
            } else {
                Ok(ActionSpec::Read(field(req, "group_address"@)))
            }
        } else if action == "get_history"@ {
            Ok(ActionSpec::GetHistory(
                match json_get(req, "limit"@) {
                    Some(v) => match json_u64(v) {
                        Some(n) => n,
                        None => DEFAULT_HISTORY_LIMIT,
                    },
                    None => DEFAULT_HISTORY_LIMIT,
                },
            ))
        } else if action == "set_retention"@ {
            Ok(ActionSpec::SetRetention(
                match json_get(req, "seconds"@) {
                    Some(v) => match json_i64(v) {
                        Some(n) => n,
                        None => DEFAULT_RETENTION_SECONDS,
                    },
                    None => DEFAULT_RETENTION_SECONDS,
                },
            ))
        } else if action == "status"@ {
            Ok(ActionSpec::Status)
        } else {
            Err("Unknown action: "@ + action)
        },
    }
}

/// Checks the request `req` of a client (`connected`: whether the manager
/// has a connection) and gives the action it asks for, or the error text
/// sent back.
pub fn plan_client_message(req: &JsonValue, connected: bool) -> (r: Result<ApiAction, String>)
    ensures
        plan_view(r) == client_plan(*req, connected),
{
    let action = match member_str(req, "action") {
        Some(a) => a,
        None => {
            return Err(string_of("Missing action field"));
        },
    };
    if str_eq(action, "connect") {
        Ok(ApiAction::Connect { connection_type: field_string(req, "connection_type") })
    } else if str_eq(action, "disconnect") {
        Ok(ApiAction::Disconnect)
    } else if str_eq(action, "subscribe") {
        let addr = field_string(req, "group_address");
        if addr.as_str().unicode_len() == 0 {
            Err(string_of("Missing group_address"))
        } else {
            Ok(ApiAction::Subscribe { group_address: addr })
        }
    } else if str_eq(action, "subscriptions") {
        Ok(ApiAction::Subscriptions)
    } else if str_eq(action, "unsubscribe") {
        let addr = field_string(req, "group_address");
        if addr.as_str().unicode_len() == 0 {
            Err(string_of("Missing group_address"))
        } else {
            Ok(ApiAction::Unsubscribe { group_address: addr })
        }
    } else if str_eq(action, "set_dpt") {
        let addr = field_string(req, "group_address");
        let dpt = field_string(req, "dpt");
        if addr.as_str().unicode_len() == 0 || dpt.as_str().unicode_len() == 0 {
            Err(string_of("Missing group_address or dpt"))
        } else {
            Ok(ApiAction::SetDpt { group_address: addr, dpt })
        }
    } else if str_eq(action, "write") {
        if !connected {
            return Err(string_of("Connection required before sending commands"));
        }
        let addr = field_string(req, "group_address");
        if addr.as_str().unicode_len() == 0 || is_missing(req, "value") {
            Err(string_of("Missing group_address or value"))
        } else {
            let configure_dpt = match member_str(req, "dpt") {
                Some(d) => Some(string_of(d)),
                None => None,
            };
            Ok(ApiAction::Write { group_address: addr, configure_dpt })
        }
    } else if str_eq(action, "read") {
        if !connected {
            return Err(string_of("Connection required before sending commands"));
        }
        let addr = field_string(req, "group_address");
        if addr.as_str().unicode_len() == 0 {
            Err(string_of("Missing group_address"))
        } else {
            Ok(ApiAction::Read { group_address: addr })
        }
    } else if str_eq(action, "get_history") {
        let limit = match req.get("limit") {
            Some(v) => match v.as_u64() {
                Some(n) => n,
                None => DEFAULT_HISTORY_LIMIT,
            },
            None => DEFAULT_HISTORY_LIMIT,
        };
        Ok(ApiAction::GetHistory { limit })
    } else if str_eq(action, "set_retention") {
        let seconds = match req.get("seconds") {
            Some(v) => match v.as_i64() {
                Some(n) => n,
                None => DEFAULT_RETENTION_SECONDS,
            },
            None => DEFAULT_RETENTION_SECONDS,
        };
        Ok(ApiAction::SetRetention { seconds })
    } else if str_eq(action, "status") {
        Ok(ApiAction::Status)
    } else {
        let mut e = string_of("Unknown action: ");
        push_str(&mut e, action);
        Err(e)
    }
}

} // verus!
