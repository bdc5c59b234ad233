use agy_acp::adapter::{state_file_of, Adapter, MAX_SESSIONS};
use agy_acp::json::Json;
use agy_acp::models::ModelLists;
use agy_acp::table::Table;
use agy_acp::types::{
    ConversationDelta, JsonRpcResponse, OutMessage, Session, SessionStore, StoreEdit,
    StoredSession, StreamingState,
};
use serde_json::Value;

fn text(s: &str) -> Json {
    Json::Text(s.to_string())
}

fn object(fields: Vec<(&str, Json)>) -> Json {
    Json::Object(fields.into_iter().map(|(k, v)| (k.to_string(), v)).collect())
}

fn about(session_id: &str) -> Json {
    object(vec![("sessionId", text(session_id))])
}

/// The adapter has its models, so there is nothing to fill.
fn lists() -> ModelLists {
    ModelLists::default()
}

fn adapter() -> Adapter {
    Adapter::new(
        Some("/home/u".to_string()),
        Some("/work".to_string()),
        ModelLists { fetched: vec!["M1".to_string(), "M2".to_string()], cached: None },
    )
}

fn id() -> Value {
    Value::from(7)
}

fn error(code: i64, message: &str) -> Json {
    object(vec![("code", Json::Int(code)), ("message", text(message))])
}

fn assert_error(response: &JsonRpcResponse, code: i64, message: &str) {
    assert_eq!(response.jsonrpc, "2.0");
    assert_eq!(response.id, id());
    assert_eq!(response.result, None);
    assert_eq!(response.error, Some(error(code, message)));
}

fn result(response: &JsonRpcResponse) -> &Json {
    assert_eq!(response.jsonrpc, "2.0");
    assert_eq!(response.id, id());
    assert_eq!(response.error, None);
    response.result.as_ref().unwrap()
}

fn stored(conversation_id: Option<&str>) -> StoredSession {
    StoredSession {
        conversation_id: conversation_id.map(String::from),
        last_step_idx: 3,
        model_id: Some("M2".to_string()),
        mode: None,
        effort: None,
        sandbox: true,
        skip_permissions: false,
    }
}

fn store_with(session_id: &str, conversation_id: Option<&str>) -> SessionStore {
    let mut store = SessionStore::default();
    store.sessions.insert(session_id.to_string(), stored(conversation_id));
    store
}

fn new_session_id(response: &JsonRpcResponse) -> String {
    result(response).get("sessionId").unwrap().as_str().unwrap().to_string()
}

#[test]
fn a_new_session_has_the_defaults() {
    let s = Session::new();
    assert_eq!(s, Session::default());
    assert_eq!(s.conversation_id, None);
    assert_eq!(s.last_step_idx, -1);
    assert_eq!(s.model_id, None);
    assert_eq!(s.mode.as_deref(), Some("default"));
    assert_eq!(s.effort.as_deref(), Some("medium"));
    assert_eq!((s.sandbox, s.skip_permissions), (false, false));
    assert_eq!((s.mode_or_default(), s.effort_or_default()), ("default", "medium"));
    assert_eq!((s.sandbox_value(), s.skip_permissions_value()), ("off", "off"));
}

#[test]
fn missing_options_are_restored_as_defaults() {
    let s = Session::from_stored(&stored(Some("c")));
    assert_eq!(s.conversation_id.as_deref(), Some("c"));
    assert_eq!(s.last_step_idx, 3);
    assert_eq!(s.model_id.as_deref(), Some("M2"));
    assert_eq!(s.mode.as_deref(), Some("default"));
    assert_eq!(s.effort.as_deref(), Some("medium"));
    assert_eq!(s.sandbox_value(), "on");
    assert_eq!(s.skip_permissions_value(), "off");
}

#[test]
fn storing_and_restoring_keeps_a_session() {
    let s = Session {
        conversation_id: None,
        last_step_idx: 9,
        model_id: None,
        mode: Some("plan".to_string()),
        effort: Some("high".to_string()),
        sandbox: false,
        skip_permissions: true,
    };
    assert_eq!(Session::from_stored(&s.to_stored()), s);
    let bare = Session { mode: None, effort: None, ..s };
    let kept = bare.to_stored();
    assert_eq!((kept.mode, kept.effort), (None, None));
    assert_eq!((bare.mode_or_default(), bare.effort_or_default()), ("default", "medium"));
}

#[test]
fn the_store_takes_edits() {
    let mut store = SessionStore::default();
    let mut s = Session::new();
    s.model_id = Some("M".to_string());
    store.apply(&StoreEdit::Put { session_id: "a".to_string(), session: s.clone() });
    store.apply(&StoreEdit::Put { session_id: "b".to_string(), session: Session::new() });
    store.apply(&StoreEdit::Keep);
    assert_eq!(store.restore("a"), Some(s));
    store.apply(&StoreEdit::Delete { session_id: "a".to_string() });
    assert_eq!(store.restore("a"), None);
    assert_eq!(store.restore("b"), Some(Session::new()));
    assert_eq!(store.sessions.len(), 1);
    // A copy goes its own way.
    let mut copy = store.clone();
    copy.delete("b");
    assert_eq!(copy.restore("b"), None);
    assert_eq!(store.restore("b"), Some(Session::new()));
}

#[test]
fn a_table_has_each_key_once() {
    let mut t: Table<u64> = Table::new();
    t.insert("a".to_string(), 1);
    t.insert("b".to_string(), 2);
    t.insert("a".to_string(), 3);
    assert_eq!(t.len(), 2);
    assert_eq!(t.get("a"), Some(&3));
    assert!(t.contains_key("b"));
    t.remove("a");
    t.remove("a");
    assert_eq!(t.get("a"), None);
    assert_eq!(t.key_at(0), "b");
    assert_eq!(t.value_at(0), &2);
    assert_eq!(t.remove_first().as_deref(), Some("b"));
    assert_eq!(t.remove_first(), None);
}

#[test]
fn initialize_tells_what_the_adapter_can_do() {
    let response = adapter().handle_initialize(id(), "1.2.3");
    let yes = || Json::Bool(true);
    assert_eq!(
        result(&response),
        &object(vec![
            ("protocolVersion", Json::Int(1)),
            ("agentInfo", object(vec![("name", text("agy")), ("version", text("1.2.3"))])),
            (
                "agentCapabilities",
                object(vec![
                    ("loadSession", yes()),
                    ("streaming", yes()),
                    ("promptCapabilities", object(vec![("text", yes())])),
                    (
                        "sessionCapabilities",
                        object(vec![("resume", yes()), ("list", yes()), ("delete", yes())]),
                    ),
                ]),
            ),
            ("authMethods", Json::List(vec![])),
        ])
    );
}

#[test]
fn a_new_session_gets_a_random_uuid() {
    let mut a = adapter();
    let first = new_session_id(&a.handle_session_new(id(), lists()));
    let second = new_session_id(&a.handle_session_new(id(), lists()));
    assert_ne!(first, second);
    assert_eq!(first.len(), 36);
    assert_eq!(&first[14..15], "4");
    assert_eq!(
        first.char_indices().filter(|(_, c)| *c == '-').map(|(i, _)| i).collect::<Vec<_>>(),
        [8, 13, 18, 23]
    );
    assert!(first.chars().all(|c| c == '-' || c.is_ascii_hexdigit()));
    assert_eq!(a.sessions.get(&first), Some(&Session::new()));
    assert_eq!(a.sessions.len(), 2);
}

#[test]
fn no_more_sessions_are_held_than_the_cap_allows() {
    let mut a = adapter();
    for i in 0..MAX_SESSIONS {
        a.open_session(id(), format!("s{i}"), lists());
    }
    assert_eq!(a.sessions.len(), 64);
    a.open_session(id(), "one-more".to_string(), lists());
    assert_eq!(a.sessions.len(), 64);
    assert!(a.sessions.contains_key("one-more"));
    // A session that comes back from the store is counted too.
    let store = store_with("old", None);
    assert!(a.restore_session_state(&store, "old"));
    assert_eq!(a.sessions.len(), 64);
    assert!(a.sessions.contains_key("old"));
    // One that is there already needs no room.
    let before: Vec<String> = (0..64).map(|i| a.sessions.key_at(i).clone()).collect();
    assert!(a.restore_session_state(&store, "old"));
    for key in &before {
        assert!(a.sessions.contains_key(key));
    }
}

#[test]
fn eviction_brings_an_overfull_adapter_under_the_cap() {
    let mut a = adapter();
    for i in 0..70 {
        a.sessions.insert(format!("s{i}"), Session::new());
    }
    a.evict_if_needed();
    assert_eq!(a.sessions.len(), 63);
    a.evict_if_needed();
    assert_eq!(a.sessions.len(), 63);
}

#[test]
fn loading_needs_a_session_id() {
    let mut a = adapter();
    for params in [Json::Null, object(vec![]), about(""), object(vec![("sessionId", Json::Int(1))])] {
        let reply = a.handle_session_load(id(), &params, &SessionStore::default(), None, lists());
        assert_eq!(reply.messages.len(), 1);
        match &reply.messages[0] {
            OutMessage::Response(r) => assert_error(r, -32602, "missing sessionId"),
            other => panic!("not a response: {other:?}"),
        }
        assert!(matches!(reply.edit, StoreEdit::Keep));
    }
}

#[test]
fn loading_an_unknown_session_is_an_error() {
    let mut a = adapter();
    let reply = a.handle_session_load(id(), &about("x"), &SessionStore::default(), None, lists());
    match &reply.messages[0] {
        OutMessage::Response(r) => assert_error(r, -32000, "unknown sessionId: x"),
        other => panic!("not a response: {other:?}"),
    }
    assert_eq!(a.sessions.len(), 0);
}

#[test]
fn loading_replays_the_steps_and_then_answers() {
    let mut a = adapter();
    let store = store_with("s", Some("conv"));
    assert!(a.needs_store(&about("s")));
    assert_eq!(a.replay_conversation_id(&about("s"), &store).as_deref(), Some("conv"));
    let replay = Some((vec![Value::from("one"), Value::from("two")], 12));
    let reply = a.handle_session_load(id(), &about("s"), &store, replay, lists());
    assert_eq!(reply.messages.len(), 3);
    for (i, step) in ["one", "two"].iter().enumerate() {
        match &reply.messages[i] {
            OutMessage::Notification(n) => {
                assert_eq!(n.jsonrpc, "2.0");
                assert_eq!(n.method, "session/update");
                assert_eq!(
                    n.params,
                    object(vec![
                        ("sessionId", text("s")),
                        ("update", Json::Raw(Value::from(*step))),
                    ])
                );
            }
            other => panic!("not a notification: {other:?}"),
        }
    }
    match &reply.messages[2] {
        OutMessage::Response(r) => {
            assert_eq!(result(r).get("sessionId"), Some(&text("s")));
            assert_eq!(
                result(r).get("models").unwrap().get("currentModelId"),
                Some(&text("M2"))
            );
        }
        other => panic!("not a response: {other:?}"),
    }
    assert_eq!(a.sessions.get("s").unwrap().last_step_idx, 12);
    match reply.edit {
        StoreEdit::Put { session_id, session } => {
            assert_eq!(session_id, "s");
            assert_eq!(&session, a.sessions.get("s").unwrap());
        }
        other => panic!("no change: {other:?}"),
    }
    assert!(!a.needs_store(&about("s")));
}

#[test]
fn loading_without_a_conversation_replays_nothing() {
    let mut a = adapter();
    let store = store_with("s", None);
    assert_eq!(a.replay_conversation_id(&about("s"), &store), None);
    let reply = a.handle_session_load(id(), &about("s"), &store, Some((vec![Value::Null], 12)), lists());
    assert_eq!(reply.messages.len(), 1);
    assert!(matches!(reply.edit, StoreEdit::Keep));
    assert_eq!(a.sessions.get("s").unwrap().last_step_idx, 3);

    // Nor where the database has nothing of the conversation.
    let store = store_with("t", Some("conv"));
    let reply = a.handle_session_load(id(), &about("t"), &store, None, lists());
    assert_eq!(reply.messages.len(), 1);
    assert!(matches!(reply.edit, StoreEdit::Keep));
}

#[test]
fn resuming_takes_a_session_from_the_store() {
    let mut a = adapter();
    let store = store_with("s", Some("conv"));
    assert_error(
        &a.handle_session_resume(id(), &about(""), &store, lists()),
        -32602,
        "missing sessionId",
    );
    assert_error(
        &a.handle_session_resume(id(), &about("t"), &store, lists()),
        -32000,
        "unknown sessionId: t",
    );
    let response = a.handle_session_resume(id(), &about("s"), &store, lists());
    assert_eq!(result(&response).get("sessionId"), Some(&text("s")));
    assert_eq!(a.sessions.get("s"), store.restore("s").as_ref());
    // From then on the store is not asked.
    let response = a.handle_session_resume(id(), &about("s"), &SessionStore::default(), lists());
    assert!(response.error.is_none());
}

#[test]
fn listing_shows_what_is_stored() {
    let a = adapter();
    let store = store_with("s", None);
    let response = a.handle_session_list(id(), &store);
    assert_eq!(
        result(&response),
        &object(vec![(
            "sessions",
            Json::List(vec![object(vec![
                ("sessionId", text("s")),
                ("conversationId", Json::Null),
                ("modelId", text("M2")),
                ("mode", text("default")),
                ("effort", text("medium")),
                ("sandbox", Json::Bool(true)),
                ("skipPermissions", Json::Bool(false)),
                ("lastStepIdx", Json::Int(3)),
            ])]),
        )])
    );
    let response = a.handle_session_list(id(), &SessionStore::default());
    assert_eq!(result(&response), &object(vec![("sessions", Json::List(vec![]))]));
}

#[test]
fn a_deleted_session_is_unknown() {
    let mut a = adapter();
    let mut store = store_with("s", Some("conv"));
    a.handle_session_resume(id(), &about("s"), &store, lists());
    let reply = a.handle_session_delete(id(), &about("s"));
    assert_eq!(result(&reply.response), &object(vec![]));
    store.apply(&reply.edit);
    assert_error(
        &a.handle_session_resume(id(), &about("s"), &store, lists()),
        -32000,
        "unknown sessionId: s",
    );
    // It need not have been there.
    let reply = a.handle_session_delete(id(), &about("s"));
    assert_eq!(result(&reply.response), &object(vec![]));
    let reply = a.handle_session_delete(id(), &Json::Null);
    assert_error(&reply.response, -32602, "missing sessionId");
    assert!(matches!(reply.edit, StoreEdit::Keep));
}

#[test]
fn memory_goes_before_the_store() {
    let mut a = adapter();
    a.open_session(id(), "s".to_string(), lists());
    let store = store_with("s", Some("conv"));
    let response = a.handle_session_resume(id(), &about("s"), &store, lists());
    assert!(response.error.is_none());
    assert_eq!(a.sessions.get("s"), Some(&Session::new()));
}

#[test]
fn persisting_keeps_what_else_is_known() {
    let a = adapter();
    let mut store = store_with("s", None);
    a.persist_session(&mut store, "s", Some("conv"), 5, None);
    let s = store.restore("s").unwrap();
    assert_eq!(s.conversation_id.as_deref(), Some("conv"));
    assert_eq!((s.last_step_idx, s.model_id), (5, None));
    assert!(s.sandbox);
    a.persist_session(&mut store, "t", None, 1, Some("M"));
    let t = store.restore("t").unwrap();
    assert_eq!(t.model_id.as_deref(), Some("M"));
    assert_eq!(t.mode.as_deref(), Some("default"));
    let mut b = adapter();
    b.open_session(id(), "s".to_string(), lists());
    b.persist_session(&mut store, "s", None, 2, None);
    assert!(!store.restore("s").unwrap().sandbox);
    a.persist_session_state(&mut store, "u", &Session::new());
    assert_eq!(store.restore("u"), Some(Session::new()));
}

#[test]
fn an_unreadable_store_is_empty() {
    let a = adapter();
    assert_eq!(a.load_store(None).sessions.len(), 0);
    let store = a.load_store(Some(store_with("s", None)));
    assert_eq!(a.restore_session(&store, "s"), store.restore("s"));
    assert_eq!(a.restore_session(&store, "t"), None);
}

#[test]
fn the_files_have_their_places() {
    let a = adapter();
    assert_eq!(a.state_file.to_text(), "/home/u/.openab/agy-acp/sessions.json");
    assert_eq!(a.lock_file().to_text(), "/home/u/.openab/agy-acp/sessions.lock");
    assert_eq!(a.temp_file().to_text(), "/home/u/.openab/agy-acp/sessions.tmp");
    assert_eq!(a.models_cache_path().to_text(), "/home/u/.openab/agy-acp/models_cache.json");
    assert_eq!(
        a.conversations_dir.to_text(),
        "/home/u/.gemini/antigravity-cli/conversations"
    );
    assert_eq!(a.log_dir().to_text(), "/home/u/.gemini/antigravity-cli/log");
    assert_eq!(a.working_dir, "/work");
    assert!(!a.skip_naration);

    let (b, _) = Adapter::new_with_skip_naration(true, None, None, lists());
    assert_eq!(b.state_file.to_text(), "/tmp/.openab/agy-acp/sessions.json");
    assert_eq!(b.working_dir, "/tmp");
    assert!(b.skip_naration);
    assert_eq!(state_file_of(&Some("/".to_string())).to_text(), "/.openab/agy-acp/sessions.json");
}

#[test]
fn conversations_are_the_database_files() {
    let a = adapter();
    let names: Vec<String> = ["a.db", "b.db", "b.db-wal", ".db", "c.txt", "x.y.db", "db"]
        .iter()
        .map(|s| s.to_string())
        .collect();
    let ids = a.conversation_snapshot(&names);
    assert_eq!(ids.len(), 3);
    for expected in ["a", "b", "x.y"] {
        assert!(ids.contains_key(expected));
    }
}

#[test]
fn a_new_conversation_is_found_only_where_it_is_the_only_one() {
    let a = adapter();
    let ids = |names: &[&str]| {
        a.conversation_snapshot(&names.iter().map(|s| s.to_string()).collect())
    };
    let before = ids(&["a.db"]);
    assert_eq!(a.new_conversation_id(&before, &ids(&["a.db", "b.db"])).as_deref(), Some("b"));
    assert_eq!(a.new_conversation_id(&before, &ids(&["b.db"])).as_deref(), Some("b"));
    assert_eq!(a.new_conversation_id(&before, &ids(&["a.db"])), None);
    assert_eq!(a.new_conversation_id(&before, &ids(&["a.db", "b.db", "c.db"])), None);
}

#[test]
fn a_response_is_the_new_text_and_its_step() {
    let a = adapter();
    let delta = ConversationDelta { text: Some("hi".to_string()), max_step_idx: 4 };
    assert_eq!(a.read_response_from_db(Some(delta)), Some(("hi".to_string(), 4)));
    let delta = ConversationDelta { text: None, max_step_idx: 4 };
    assert_eq!(a.read_response_from_db(Some(delta)), None);
    assert_eq!(a.read_response_from_db(None), None);
}

#[test]
fn the_default_streaming_state_is_empty() {
    let s = StreamingState::default();
    assert_eq!(s.conversation_id, None);
    assert_eq!((s.base_step_idx, s.last_step_idx), (0, 0));
    assert!(!s.had_updates && !s.skip_naration);
    assert!(s.agent_text_lengths.is_empty() && s.thought_text_lengths.is_empty());
    assert!(s.emitted_tool_steps.is_empty());
    assert_eq!((s.last_title, s.child_pid), (None, None));
}
