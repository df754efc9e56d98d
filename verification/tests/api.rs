use rknx::api::manager::{json_to_dpt_value, reply, ApiAction, JsonValue};
use rknx::api::mqtt::{command_from_topic, plan_command, response_topic, state_topic};
use rknx::api::websocket::plan_client_message;
use rknx::errors::KnxError;
use rknx::protocol::data::knx_data_decode::DptValue;

fn obj(pairs: Vec<(&str, JsonValue)>) -> JsonValue {
    JsonValue::Object(pairs.into_iter().map(|(k, v)| (k.to_string(), v)).collect())
}

fn text(s: &str) -> JsonValue {
    JsonValue::Str(s.to_string())
}

#[test]
fn a_request_without_action_is_refused() {
    let req = obj(vec![("id", text("1"))]);
    assert_eq!(plan_client_message(&req, true), Err("Missing action field".to_string()));
}

#[test]
fn subscribe_needs_a_group_address() {
    let req = obj(vec![("action", text("subscribe"))]);
    assert_eq!(plan_client_message(&req, false), Err("Missing group_address".to_string()));
    let req = obj(vec![("action", text("subscribe")), ("group_address", text("1/1/1"))]);
    assert_eq!(
        plan_client_message(&req, false),
        Ok(ApiAction::Subscribe { group_address: "1/1/1".to_string() })
    );
}

#[test]
fn writes_need_a_connection_and_a_value() {
    let req = obj(vec![
        ("action", text("write")),
        ("group_address", text("1/1/1")),
        ("value", JsonValue::Bool(true)),
        ("dpt", text("1.001")),
    ]);
    assert_eq!(
        plan_client_message(&req, false),
        Err("Connection required before sending commands".to_string())
    );
    assert_eq!(
        plan_client_message(&req, true),
        Ok(ApiAction::Write { group_address: "1/1/1".to_string(), configure_dpt: Some("1.001".to_string()) })
    );
    let req = obj(vec![("action", text("write")), ("group_address", text("1/1/1")), ("value", JsonValue::Null)]);
    assert_eq!(plan_client_message(&req, true), Err("Missing group_address or value".to_string()));
}

#[test]
fn unknown_actions_are_named() {
    let req = obj(vec![("action", text("reboot"))]);
    assert_eq!(plan_client_message(&req, true), Err("Unknown action: reboot".to_string()));
}

#[test]
fn history_and_retention_have_defaults() {
    let req = obj(vec![("action", text("get_history"))]);
    assert_eq!(plan_client_message(&req, false), Ok(ApiAction::GetHistory { limit: 50 }));
    let req = obj(vec![("action", text("get_history")), ("limit", JsonValue::Unsigned(2))]);
    assert_eq!(plan_client_message(&req, false), Ok(ApiAction::GetHistory { limit: 2 }));
    let req = obj(vec![("action", text("set_retention"))]);
    assert_eq!(plan_client_message(&req, false), Ok(ApiAction::SetRetention { seconds: 604800 }));
    let req = obj(vec![("action", text("set_retention")), ("seconds", JsonValue::Unsigned(86400))]);
    assert_eq!(plan_client_message(&req, false), Ok(ApiAction::SetRetention { seconds: 86400 }));
}

#[test]
fn mqtt_topics_name_the_command() {
    assert_eq!(command_from_topic("rknx/cmd/subscribe"), "subscribe");
    assert_eq!(command_from_topic("other/topic"), "");
    assert_eq!(response_topic("subscribe"), "rknx/response/subscribe");
    assert_eq!(state_topic("1/1/1"), "rknx/event/state/1/1/1");
}

#[test]
fn mqtt_commands_accept_a_bare_address() {
    assert_eq!(
        plan_command("subscribe", &text("1/2/3"), false),
        Ok(ApiAction::Subscribe { group_address: "1/2/3".to_string() })
    );
    assert_eq!(
        plan_command("read", &obj(vec![("group_address", text("1/2/3"))]), true),
        Ok(ApiAction::Read { group_address: "1/2/3".to_string() })
    );
    assert_eq!(plan_command("set_retention", &JsonValue::Unsigned(60), false), Ok(ApiAction::SetRetention { seconds: 60 }));
    assert_eq!(plan_command("status", &JsonValue::Null, true), Err("Unknown command: status".to_string()));
    assert_eq!(
        plan_command("write", &obj(vec![("group_address", text("1/2/3")), ("value", JsonValue::Bool(true))]), true),
        Ok(ApiAction::Write { group_address: "1/2/3".to_string(), configure_dpt: None })
    );
}

#[test]
fn json_values_become_datapoint_values() {
    assert_eq!(json_to_dpt_value("1.001", &JsonValue::Bool(true)), Ok(DptValue::Dpt1(true)));
    assert_eq!(
        json_to_dpt_value("1.001", &obj(vec![("value", JsonValue::Bool(false))])),
        Ok(DptValue::Dpt1(false))
    );
    assert_eq!(json_to_dpt_value("1.001", &JsonValue::Unsigned(1)), Err(KnxError::InvalidParametersForDpt));
    assert_eq!(json_to_dpt_value("5.010", &JsonValue::Unsigned(300)), Ok(DptValue::Dpt5(44)));
    assert_eq!(json_to_dpt_value("16.000", &text("hi")), Ok(DptValue::Dpt16("hi".to_string())));
    assert_eq!(
        json_to_dpt_value("7.001", &JsonValue::Array(vec![JsonValue::Unsigned(1), JsonValue::Unsigned(258)])),
        Ok(DptValue::Raw(vec![1, 2]))
    );
    assert_eq!(
        json_to_dpt_value("7.001", &JsonValue::Array(vec![JsonValue::Signed(-1)])),
        Err(KnxError::InvalidParametersForDpt)
    );
    assert_eq!(json_to_dpt_value("abc", &JsonValue::Bool(true)), Err(KnxError::DPTNotFound));
    let rgb = obj(vec![("R", JsonValue::Unsigned(255)), ("G", JsonValue::Unsigned(0)), ("B", JsonValue::Unsigned(128))]);
    match json_to_dpt_value("232.600", &rgb) {
        Ok(DptValue::Dpt232(v)) => assert_eq!((v.r, v.g, v.b), (255, 0, 128)),
        other => panic!("unexpected {:?}", other),
    }
    let dim = obj(vec![("control", JsonValue::Unsigned(1)), ("stepCode", JsonValue::Unsigned(5))]);
    match json_to_dpt_value("3.007", &dim) {
        Ok(DptValue::Dpt3(v)) => assert_eq!((v.control, v.step_code), (1, 5)),
        other => panic!("unexpected {:?}", other),
    }
}

#[test]
fn responses_follow_the_documented_shapes() {
    let r = ApiAction::SetRetention { seconds: 86400 }.success_response().unwrap();
    match &r {
        JsonValue::Object(m) => {
            assert_eq!(m.len(), 1);
            assert_eq!(m[0].0, "retention_configured");
            assert!(matches!(m[0].1, JsonValue::Signed(86400)));
        }
        _ => panic!("not an object"),
    }
    assert!(ApiAction::Status.success_response().is_none());
    let answer = reply(Some(Some(JsonValue::Str("10".to_string()))), Ok(r));
    match &answer {
        JsonValue::Object(m) => {
            let keys: Vec<&str> = m.iter().map(|(k, _)| k.as_str()).collect();
            assert_eq!(keys, vec!["id", "success", "response"]);
            assert!(matches!(m[1].1, JsonValue::Bool(true)));
        }
        _ => panic!("not an object"),
    }
    match reply(None, Err("Connection required before sending commands".to_string())) {
        JsonValue::Object(m) => {
            assert_eq!(m[0].0, "success");
            assert!(matches!(m[0].1, JsonValue::Bool(false)));
            assert!(matches!(&m[1].1, JsonValue::Str(s) if s == "Connection required before sending commands"));
        }
        _ => panic!("not an object"),
    }
}
