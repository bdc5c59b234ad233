use agy_acp::adapter::Adapter;
use agy_acp::config::{configure, on_off_options, parse_on_off, select_option};
use agy_acp::json::Json;
use agy_acp::models::ModelLists;
use agy_acp::types::{
    Session, SessionStore, StoreEdit, CONFIG_ID_EFFORT, CONFIG_ID_MODE, CONFIG_ID_MODEL,
    CONFIG_ID_SANDBOX, CONFIG_ID_SKIP_PERMISSIONS, EFFORT_VALUES, MODE_VALUES, ON_OFF_VALUES,
};
use serde_json::Value;

fn text(s: &str) -> Json {
    Json::Text(s.to_string())
}

fn object(fields: Vec<(&str, Json)>) -> Json {
    Json::Object(fields.into_iter().map(|(k, v)| (k.to_string(), v)).collect())
}

fn choice(value: &str, name: &str, description: &str) -> Json {
    object(vec![("value", text(value)), ("name", text(name)), ("description", text(description))])
}

fn mode(id: &str, name: &str, description: &str) -> Json {
    object(vec![("id", text(id)), ("name", text(name)), ("description", text(description))])
}

fn option(
    id: &str,
    name: &str,
    description: &str,
    category: &str,
    current: &str,
    options: Vec<Json>,
) -> Json {
    object(vec![
        ("id", text(id)),
        ("name", text(name)),
        ("description", text(description)),
        ("category", text(category)),
        ("type", text("select")),
        ("currentValue", text(current)),
        ("options", Json::List(options)),
    ])
}

fn switch() -> Vec<Json> {
    vec![choice("off", "Off", "Disabled"), choice("on", "On", "Enabled")]
}

fn all_options(mode: &str, model: &str, effort: &str, sandbox: &str, skip: &str) -> Json {
    Json::List(vec![
        option(
            "mode",
            "Mode",
            "Controls how the agent applies edits and requests review",
            "mode",
            mode,
            vec![
                choice("default", "Default", "Request review before applying file writes"),
                choice("accept-edits", "Accept Edits", "Apply file edits automatically"),
                choice("plan", "Plan", "Plan without applying edits"),
            ],
        ),
        option(
            "model",
            "Model",
            "Model used for this session",
            "model",
            model,
            vec![
                object(vec![("value", text("M1")), ("name", text("M1"))]),
                object(vec![("value", text("M2")), ("name", text("M2"))]),
            ],
        ),
        option(
            "effort",
            "Effort",
            "Reasoning effort / thinking level",
            "thought_level",
            effort,
            vec![
                choice("low", "Low", "Faster, less deliberation"),
                choice("medium", "Medium", "Balanced reasoning effort"),
                choice("high", "High", "Deeper reasoning"),
            ],
        ),
        option(
            "sandbox",
            "Sandbox",
            "Run tool commands in the OS sandbox",
            "_safety",
            sandbox,
            switch(),
        ),
        option(
            "skip_permissions",
            "Skip Permissions",
            "Auto-approve all tool permission requests (dangerous)",
            "_safety",
            skip,
            switch(),
        ),
    ])
}

/// The adapter has its models, so there is nothing to fill.
fn lists() -> ModelLists {
    ModelLists::default()
}

fn adapter() -> Adapter {
    Adapter::new(
        None,
        None,
        ModelLists { fetched: vec!["M1".to_string(), "M2".to_string()], cached: None },
    )
}

fn set(session_id: &str, config_id: &str, value: Json) -> Json {
    object(vec![
        ("sessionId", text(session_id)),
        ("configId", text(config_id)),
        ("value", value),
    ])
}

fn error(code: i64, message: &str) -> Json {
    object(vec![("code", Json::Int(code)), ("message", text(message))])
}

#[test]
fn the_values_to_choose_from_are_fixed() {
    assert_eq!(MODE_VALUES, ["default", "accept-edits", "plan"]);
    assert_eq!(EFFORT_VALUES, ["low", "medium", "high"]);
    assert_eq!(ON_OFF_VALUES, ["off", "on"]);
    assert_eq!(
        [
            CONFIG_ID_MODE,
            CONFIG_ID_MODEL,
            CONFIG_ID_EFFORT,
            CONFIG_ID_SANDBOX,
            CONFIG_ID_SKIP_PERMISSIONS
        ],
        ["mode", "model", "effort", "sandbox", "skip_permissions"]
    );
}

#[test]
fn switches_have_three_spellings_each() {
    for on in ["on", "true", "1"] {
        assert_eq!(parse_on_off(on), Some(true));
    }
    for off in ["off", "false", "0"] {
        assert_eq!(parse_on_off(off), Some(false));
    }
    for other in ["", "On", "yes", "2", " on"] {
        assert_eq!(parse_on_off(other), None);
    }
    // What is shown is accepted when it is sent back.
    for value in ON_OFF_VALUES {
        assert!(parse_on_off(value).is_some());
    }
}

#[test]
fn a_choice_is_an_object() {
    assert_eq!(select_option("v", "n", "d"), choice("v", "n", "d"));
    assert_eq!(on_off_options(), switch());
}

#[test]
fn a_fresh_session_shows_all_options_in_order() {
    let mut a = adapter();
    assert_eq!(
        a.session_config_options_json(&Session::new(), lists()),
        all_options("default", "M1", "medium", "off", "off")
    );
}

#[test]
fn an_opened_session_is_described_in_full() {
    let mut a = adapter();
    let response = a.open_session(Value::from("r"), "s".to_string(), lists());
    assert_eq!(
        response.result,
        Some(object(vec![
            ("sessionId", text("s")),
            (
                "models",
                object(vec![
                    ("currentModelId", text("M1")),
                    (
                        "availableModels",
                        Json::List(vec![
                            object(vec![("modelId", text("M1")), ("name", text("M1"))]),
                            object(vec![("modelId", text("M2")), ("name", text("M2"))]),
                        ]),
                    ),
                ]),
            ),
            (
                "modes",
                object(vec![
                    ("currentModeId", text("default")),
                    (
                        "availableModes",
                        Json::List(vec![
                            mode("default", "Default", "Request review before applying file writes"),
                            mode("accept-edits", "Accept Edits", "Apply file edits automatically"),
                            mode("plan", "Plan", "Plan without applying edits"),
                        ]),
                    ),
                ]),
            ),
            ("configOptions", all_options("default", "M1", "medium", "off", "off")),
        ]))
    );
    assert_eq!(response.id, Value::from("r"));
    assert_eq!(response.error, None);
}

#[test]
fn an_unknown_session_is_described_as_a_fresh_one() {
    let mut a = adapter();
    assert_eq!(a.session_config_snapshot("x"), Session::new());
    assert_eq!(
        a.session_config_result_json("x", lists()).get("configOptions"),
        Some(&all_options("default", "M1", "medium", "off", "off"))
    );
}

#[test]
fn every_option_can_be_set() {
    let mut a = adapter();
    let mut store = SessionStore::default();
    a.open_session(Value::Null, "s".to_string(), lists());
    let steps = [
        ("mode", text("plan"), all_options("plan", "M1", "medium", "off", "off")),
        ("model", text("M9"), all_options("plan", "M9", "medium", "off", "off")),
        ("effort", text("high"), all_options("plan", "M9", "high", "off", "off")),
        ("sandbox", Json::Bool(true), all_options("plan", "M9", "high", "on", "off")),
        ("skip_permissions", text("1"), all_options("plan", "M9", "high", "on", "on")),
        ("sandbox", text("false"), all_options("plan", "M9", "high", "off", "on")),
    ];
    for (config_id, value, expected) in steps {
        let reply =
            a.handle_session_set_config_option(
                Value::Null,
                &set("s", config_id, value),
                &store,
                lists(),
            );
        assert_eq!(reply.response.error, None);
        assert_eq!(reply.response.result, Some(object(vec![("configOptions", expected)])));
        store.apply(&reply.edit);
        assert_eq!(store.restore("s").as_ref(), a.sessions.get("s"));
    }
    // Another adapter finds the options in the store, though there is no
    // conversation yet.
    let mut b = adapter();
    let params = object(vec![("sessionId", text("s"))]);
    let response = b.handle_session_resume(Value::Null, &params, &store, lists());
    assert_eq!(
        response.result.unwrap().get("configOptions"),
        Some(&all_options("plan", "M9", "high", "off", "on"))
    );
    assert_eq!(b.sessions.get("s").unwrap().conversation_id, None);
}

#[test]
fn a_bad_value_is_refused_and_changes_nothing() {
    let mut a = adapter();
    let store = SessionStore::default();
    a.open_session(Value::Null, "s".to_string(), lists());
    let cases = [
        ("mode", text("fast"), "invalid mode `fast` (valid: default, accept-edits, plan)"),
        ("effort", text("max"), "invalid effort `max` (valid: low, medium, high)"),
        ("sandbox", text("maybe"), "invalid sandbox `maybe` (valid: off, on)"),
        ("skip_permissions", text("x"), "invalid skip_permissions `x` (valid: off, on)"),
        ("mode", Json::Bool(true), "invalid mode `on` (valid: default, accept-edits, plan)"),
        ("colour", text("red"), "unknown configId: colour"),
    ];
    for (config_id, value, message) in cases {
        let reply =
            a.handle_session_set_config_option(
                Value::Null,
                &set("s", config_id, value),
                &store,
                lists(),
            );
        assert_eq!(reply.response.result, None);
        assert_eq!(reply.response.error, Some(error(-32602, message)));
        assert!(matches!(reply.edit, StoreEdit::Keep));
        assert_eq!(a.sessions.get("s"), Some(&Session::new()));
    }
}

#[test]
fn setting_an_option_needs_all_three_fields() {
    let mut a = adapter();
    let store = SessionStore::default();
    a.open_session(Value::Null, "s".to_string(), lists());
    for params in [
        set("", "mode", text("plan")),
        set("s", "", text("plan")),
        set("s", "mode", text("")),
        set("s", "mode", Json::Int(1)),
        Json::Null,
    ] {
        let reply = a.handle_session_set_config_option(Value::Null, &params, &store, lists());
        assert_eq!(
            reply.response.error,
            Some(error(-32602, "missing sessionId, configId, or value"))
        );
    }
    let reply =
        a.handle_session_set_config_option(
            Value::Null,
            &set("t", "mode", text("plan")),
            &store,
            lists(),
        );
    assert_eq!(reply.response.error, Some(error(-32000, "unknown sessionId: t")));
}

#[test]
fn a_model_can_be_set_by_a_request_of_its_own() {
    let mut a = adapter();
    let mut store = SessionStore::default();
    a.open_session(Value::Null, "s".to_string(), lists());
    let params = object(vec![("sessionId", text("s")), ("modelId", text("M2"))]);
    let reply = a.handle_session_set_model(Value::Null, &params, &store);
    assert_eq!(reply.response.result, Some(object(vec![])));
    store.apply(&reply.edit);
    assert_eq!(a.sessions.get("s").unwrap().model_id.as_deref(), Some("M2"));
    assert_eq!(store.restore("s").unwrap().model_id.as_deref(), Some("M2"));
    assert_eq!(configure(&Session::new(), "model", "M2").as_ref().ok(), a.sessions.get("s"));

    for params in [
        object(vec![("sessionId", text("s"))]),
        object(vec![("modelId", text("M2"))]),
    ] {
        let reply = a.handle_session_set_model(Value::Null, &params, &store);
        assert_eq!(
            reply.response.error,
            Some(error(-32602, "missing sessionId or modelId"))
        );
    }
    let params = object(vec![("sessionId", text("t")), ("modelId", text("M2"))]);
    let reply = a.handle_session_set_model(Value::Null, &params, &store);
    assert_eq!(reply.response.error, Some(error(-32000, "unknown sessionId: t")));
    assert!(matches!(reply.edit, StoreEdit::Keep));
}

#[test]
fn of_fields_with_one_name_the_last_counts() {
    let v = object(vec![("a", Json::Int(1)), ("b", Json::Null), ("a", text("x"))]);
    assert_eq!(v.get("a"), Some(&text("x")));
    assert_eq!(v.text_field("a"), "x");
    assert_eq!(v.text_field("b"), "");
    assert_eq!(v.get("c"), None);
    assert_eq!(text("x").get("a"), None);
    assert_eq!(Json::Bool(true).as_bool(), Some(true));
    assert_eq!(Json::Null.as_array(), None);
}
