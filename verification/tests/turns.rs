use agy_acp::adapter::Adapter;
use agy_acp::json::Json;
use agy_acp::models::ModelLists;
use agy_acp::prompt::{added_dirs_of, build_args, prompt_of, split_extra_args, ExitInfo, TurnEnd};
use agy_acp::types::{Session, SessionStore, StoreEdit};
use serde_json::Value;

fn text(s: &str) -> Json {
    Json::Text(s.to_string())
}

fn object(fields: Vec<(&str, Json)>) -> Json {
    Json::Object(fields.into_iter().map(|(k, v)| (k.to_string(), v)).collect())
}

fn block(s: &str) -> Json {
    object(vec![("type", text("text")), ("text", text(s))])
}

fn ask(session_id: &str, prompt: &str) -> Json {
    object(vec![
        ("sessionId", text(session_id)),
        ("prompt", Json::List(vec![block(prompt)])),
    ])
}

fn adapter() -> Adapter {
    Adapter::new(None, Some("/work".to_string()), ModelLists::default())
}

fn ended() -> TurnEnd {
    TurnEnd {
        was_cancelled: false,
        exit: Ok(ExitInfo { success: true, display: "exit status: 0".to_string() }),
        streamed: true,
        flushed: 0,
        conversation_id: None,
        last_step_idx: -1,
        stderr_text: String::new(),
        swallowed_error: None,
    }
}

fn failed(stderr_text: &str) -> TurnEnd {
    TurnEnd {
        exit: Ok(ExitInfo { success: false, display: "exit status: 1".to_string() }),
        streamed: false,
        stderr_text: stderr_text.to_string(),
        ..ended()
    }
}

fn stopped(reason: &str) -> Option<Json> {
    Some(object(vec![("stopReason", text(reason))]))
}

fn error(code: i64, message: &str) -> Option<Json> {
    Some(object(vec![("code", Json::Int(code)), ("message", text(message))]))
}

fn answer(end: &TurnEnd) -> (Option<Json>, Option<Json>) {
    let response = adapter().answer_prompt(Value::from(1), end);
    assert_eq!(response.jsonrpc, "2.0");
    assert_eq!(response.id, Value::from(1));
    (response.result, response.error)
}

#[test]
fn the_prompt_is_the_texts_of_its_blocks() {
    let params = object(vec![(
        "prompt",
        Json::List(vec![
            block("  first"),
            object(vec![("type", text("image"))]),
            object(vec![("text", Json::Int(1))]),
            block("second \u{a0}\n"),
        ]),
    )]);
    assert_eq!(prompt_of(&params), "first\nsecond");
    assert_eq!(prompt_of(&Json::Null), "");
    assert_eq!(prompt_of(&object(vec![("prompt", text("x"))])), "");
}

#[test]
fn only_texts_are_added_directories() {
    let params = object(vec![(
        "additionalDirectories",
        Json::List(vec![text("/a"), Json::Null, text("/b")]),
    )]);
    assert_eq!(added_dirs_of(&params), ["/a", "/b"]);
    assert!(added_dirs_of(&Json::Null).is_empty());
}

#[test]
fn extra_arguments_are_split_like_a_shell_does() {
    assert_eq!(
        split_extra_args(r#"--a 'b c' "d e" f\ g"#),
        Some(["--a", "b c", "d e", "f g"].iter().map(|s| s.to_string()).collect())
    );
    assert_eq!(split_extra_args(""), Some(vec![]));
    assert_eq!(split_extra_args("'open"), None);
}

#[test]
fn a_fresh_session_is_run_with_its_effort_alone() {
    let args = build_args("/w", &vec![], &vec![], Some(&Session::new()), "hi");
    assert_eq!(args, ["--add-dir", "/w", "--effort", "medium", "-p", "hi"]);
    let args = build_args("/w", &vec![], &vec![], None, "hi");
    assert_eq!(args, ["--add-dir", "/w", "-p", "hi"]);
}

#[test]
fn all_arguments_come_in_order() {
    let session = Session {
        conversation_id: Some("c".to_string()),
        last_step_idx: 4,
        model_id: Some("M".to_string()),
        mode: Some("plan".to_string()),
        effort: Some("high".to_string()),
        sandbox: true,
        skip_permissions: true,
    };
    let args = build_args(
        "/w",
        &vec!["/d".to_string()],
        &vec!["--x".to_string(), "y".to_string()],
        Some(&session),
        "hi",
    );
    assert_eq!(
        args,
        [
            "--add-dir",
            "/w",
            "--add-dir",
            "/d",
            "--x",
            "y",
            "--conversation",
            "c",
            "--model",
            "M",
            "--mode",
            "plan",
            "--effort",
            "high",
            "--sandbox",
            "--dangerously-skip-permissions",
            "-p",
            "hi",
        ]
    );
}

#[test]
fn a_turn_is_prepared_from_memory() {
    let mut a = adapter();
    a.open_session(Value::Null, "s".to_string(), ModelLists::default());
    let plan = a.prepare_prompt(&ask("s", "hi"), &SessionStore::default(), Some("--x 'y z'"));
    assert_eq!(plan.session_id, "s");
    assert_eq!(
        plan.args,
        ["--add-dir", "/work", "--x", "y z", "--effort", "medium", "-p", "hi"]
    );
    assert!(plan.needs_snapshot);
    assert!(!plan.extra_rejected);
    assert_eq!(plan.state.conversation_id, None);
    assert_eq!((plan.state.base_step_idx, plan.state.last_step_idx), (-1, -1));
    assert!(!plan.state.had_updates);
}

#[test]
fn a_turn_takes_its_session_from_the_store() {
    let mut a = adapter();
    let mut store = SessionStore::default();
    let mut session = Session::new();
    session.conversation_id = Some("c".to_string());
    session.last_step_idx = 8;
    store.put("s", &session);
    let plan = a.prepare_prompt(&ask("s", "hi"), &store, Some("'open"));
    assert_eq!(
        plan.args,
        ["--add-dir", "/work", "--conversation", "c", "--effort", "medium", "-p", "hi"]
    );
    assert!(!plan.needs_snapshot);
    assert!(plan.extra_rejected);
    assert_eq!(plan.state.conversation_id.as_deref(), Some("c"));
    assert_eq!((plan.state.base_step_idx, plan.state.last_step_idx), (8, 8));
    assert_eq!(a.sessions.get("s"), Some(&session));
}

#[test]
fn a_turn_without_a_known_session_still_runs() {
    let mut a = adapter();
    let mut store = SessionStore::default();
    store.put("", &Session::new());
    for params in [ask("x", "hi"), ask("", "hi")] {
        let plan = a.prepare_prompt(&params, &store, None);
        assert_eq!(plan.args, ["--add-dir", "/work", "-p", "hi"]);
        assert!(!plan.needs_snapshot);
        assert_eq!(plan.state.base_step_idx, -1);
        assert_eq!(a.sessions.len(), 0);
    }
}

#[test]
fn a_turn_that_cannot_start_is_an_error() {
    let response = adapter().prompt_not_started(Value::from(1), "no such file");
    assert_eq!(response.result, None);
    assert_eq!(response.error, error(-32000, "failed to run agy: no such file"));
}

#[test]
fn the_stop_reason_tells_how_a_turn_ended() {
    assert_eq!(answer(&ended()), (stopped("end_turn"), None));
    assert_eq!(
        answer(&TurnEnd { streamed: true, ..failed("boom") }),
        (stopped("error"), None)
    );
    assert_eq!(
        answer(&TurnEnd { was_cancelled: true, ..failed("boom") }),
        (stopped("cancelled"), None)
    );
    // An empty turn with nothing in the logs ends like any other.
    assert_eq!(answer(&TurnEnd { streamed: false, ..ended() }), (stopped("end_turn"), None));
}

#[test]
fn a_turn_that_left_nothing_is_answered_with_its_error() {
    assert_eq!(answer(&failed("boom\n")), (None, error(-32000, "agy failed: boom")));
    assert_eq!(
        answer(&failed("")),
        (None, error(-32000, "agy exited with status: exit status: 1"))
    );
    let empty = TurnEnd {
        streamed: false,
        swallowed_error: Some("quota".to_string()),
        ..ended()
    };
    assert_eq!(answer(&empty), (None, error(-32603, "quota")));
    // One late update is enough to take it for an answer.
    assert_eq!(answer(&TurnEnd { flushed: 1, ..empty }), (stopped("end_turn"), None));
}

#[test]
fn a_turn_that_could_not_be_waited_for_is_an_error() {
    let end = TurnEnd { exit: Err("gone".to_string()), was_cancelled: true, ..ended() };
    assert_eq!(answer(&end), (None, error(-32000, "failed to wait for agy: gone")));
}

#[test]
fn the_first_turn_binds_the_conversation() {
    let mut a = adapter();
    let mut store = SessionStore::default();
    a.open_session(Value::Null, "s".to_string(), ModelLists::default());
    let end = TurnEnd { conversation_id: Some("c1".to_string()), last_step_idx: 5, ..ended() };
    let edit = a.bind_turn("s", &end);
    store.apply(&edit);
    let s = store.restore("s").unwrap();
    assert_eq!((s.conversation_id.as_deref(), s.last_step_idx), (Some("c1"), 5));
    // A later turn moves the step on and keeps the conversation.
    let end = TurnEnd { conversation_id: Some("c2".to_string()), last_step_idx: 9, ..ended() };
    let edit = a.bind_turn("s", &end);
    store.apply(&edit);
    let s = store.restore("s").unwrap();
    assert_eq!((s.conversation_id.as_deref(), s.last_step_idx), (Some("c1"), 9));
    let plan = a.prepare_prompt(&ask("s", "more"), &store, None);
    assert_eq!(plan.state.base_step_idx, 9);
    assert!(plan.args.windows(2).any(|w| w == ["--conversation", "c1"]));
}

#[test]
fn a_turn_without_a_conversation_changes_nothing() {
    let mut a = adapter();
    a.open_session(Value::Null, "s".to_string(), ModelLists::default());
    let end = TurnEnd { last_step_idx: 5, ..ended() };
    let edit = a.bind_turn("s", &end);
    assert!(matches!(edit, StoreEdit::Keep));
    assert_eq!(a.sessions.get("s"), Some(&Session::new()));
    // Nor does one of a session that is not in memory.
    let end = TurnEnd { conversation_id: Some("c".to_string()), ..ended() };
    let edit = a.bind_turn("t", &end);
    assert!(matches!(edit, StoreEdit::Keep));
    assert_eq!(a.sessions.len(), 1);
}
