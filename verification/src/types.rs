//! Sessions, their stored form, and the messages of the protocol.
use std::collections::{HashMap, HashSet};

use vstd::prelude::*;

use crate::json;
use crate::json::{Json, JsonView};
use crate::table::Table;
use crate::text;

verus! {

/// Session config option ids.
pub const CONFIG_ID_MODE: &'static str = "mode";

pub const CONFIG_ID_MODEL: &'static str = "model";

pub const CONFIG_ID_EFFORT: &'static str = "effort";

pub const CONFIG_ID_SANDBOX: &'static str = "sandbox";

pub const CONFIG_ID_SKIP_PERMISSIONS: &'static str = "skip_permissions";

pub const DEFAULT_MODE: &'static str = "default";

pub const DEFAULT_EFFORT: &'static str = "medium";

/// The modes that a session can be in.
pub const MODE_VALUES: [&'static str; 3] = ["default", "accept-edits", "plan"];

/// The levels of effort.
pub const EFFORT_VALUES: [&'static str; 3] = ["low", "medium", "high"];

/// The positions of a switch.
pub const ON_OFF_VALUES: [&'static str; 2] = ["off", "on"];

/// A session as it is stored.
#[derive(Debug)]
pub struct StoredSession {
    pub conversation_id: Option<String>,
    /// The index of the last step that was read from the database.
    pub last_step_idx: i64,
    /// The model selected for this session.
    pub model_id: Option<String>,
    /// The agent's execution mode (`default`, `accept-edits` or `plan`).
    pub mode: Option<String>,
    /// The reasoning effort (`low`, `medium` or `high`).
    pub effort: Option<String>,
    /// Whether `--sandbox` is passed to agy.
    pub sandbox: bool,
    /// Whether `--dangerously-skip-permissions` is passed to agy.
    pub skip_permissions: bool,
}

/// A session in memory.
#[derive(Debug, PartialEq, Eq)]
pub struct Session {
    pub conversation_id: Option<String>,
    /// The index of the last step that was read from the database.
    pub last_step_idx: i64,
    /// The model selected for this session.
    pub model_id: Option<String>,
    /// The agent's execution mode (`default`, `accept-edits` or `plan`).
    pub mode: Option<String>,
    /// The reasoning effort (`low`, `medium` or `high`).
    pub effort: Option<String>,
    /// Whether `--sandbox` is passed to agy.
    pub sandbox: bool,
    /// Whether `--dangerously-skip-permissions` is passed to agy.
    pub skip_permissions: bool,
}

/// What a session holds, in memory or stored.
#[verifier::ext_equal]
pub struct SessionView {
    pub conversation_id: Option<Seq<char>>,
    pub last_step_idx: i64,
    pub model_id: Option<Seq<char>>,
    pub mode: Option<Seq<char>>,
    pub effort: Option<Seq<char>>,
    pub sandbox: bool,
    pub skip_permissions: bool,
}

impl View for StoredSession {
    type V = SessionView;

    open spec fn view(&self) -> SessionView {
        SessionView {
            conversation_id: text::opt_text(self.conversation_id),
            last_step_idx: self.last_step_idx,
            model_id: text::opt_text(self.model_id),
            mode: text::opt_text(self.mode),
            effort: text::opt_text(self.effort),
            sandbox: self.sandbox,
            skip_permissions: self.skip_permissions,
        }
    }
}

impl View for Session {
    type V = SessionView;

    open spec fn view(&self) -> SessionView {
        SessionView {
            conversation_id: text::opt_text(self.conversation_id),
            last_step_idx: self.last_step_idx,
            model_id: text::opt_text(self.model_id),
            mode: text::opt_text(self.mode),
            effort: text::opt_text(self.effort),
            sandbox: self.sandbox,
            skip_permissions: self.skip_permissions,
        }
    }
}

/// `o`, or `default` where it is missing.
pub open spec fn or_default(o: Option<Seq<char>>, default: Seq<char>) -> Seq<char> {
    match o {
        Some(s) => s,
        None => default,
    }
}

impl SessionView {
    /// A session that nothing has happened in.
    pub open spec fn fresh() -> SessionView {
        SessionView {
            conversation_id: None,
            last_step_idx: -1i64,
            model_id: None,
            mode: Some(DEFAULT_MODE@),
            effort: Some(DEFAULT_EFFORT@),
            sandbox: false,
            skip_permissions: false,
        }
    }

    /// The session in memory that stored data stand for: a mode or an effort
    /// that is missing is the default one.
    pub open spec fn restored(self) -> SessionView {
        SessionView {
            mode: Some(or_default(self.mode, DEFAULT_MODE@)),
            effort: Some(or_default(self.effort, DEFAULT_EFFORT@)),
            ..self
        }
    }

    /// A mode and an effort are set.
    pub open spec fn configured(self) -> bool {
        self.mode is Some && self.effort is Some
    }
}

impl Clone for Session {
    fn clone(&self) -> (r: Self)
        ensures
            r@ == self@,
    {
        Session {
            conversation_id: self.conversation_id.clone(),
            last_step_idx: self.last_step_idx,
            model_id: self.model_id.clone(),
            mode: self.mode.clone(),
            effort: self.effort.clone(),
            sandbox: self.sandbox,
            skip_permissions: self.skip_permissions,
        }
    }
}

impl Clone for StoredSession {
    fn clone(&self) -> (r: Self)
        ensures
            r@ == self@,
    {
        StoredSession {
            conversation_id: self.conversation_id.clone(),
            last_step_idx: self.last_step_idx,
            model_id: self.model_id.clone(),
            mode: self.mode.clone(),
            effort: self.effort.clone(),
            sandbox: self.sandbox,
            skip_permissions: self.skip_permissions,
        }
    }
}

impl Default for Session {
    fn default() -> (r: Self)
        ensures
            r@ == SessionView::fresh(),
    {
        Session {
            conversation_id: None,
            last_step_idx: -1,
            model_id: None,
            mode: Some(DEFAULT_MODE.to_owned()),
            effort: Some(DEFAULT_EFFORT.to_owned()),
            sandbox: false,
            skip_permissions: false,
        }
    }
}

/// `o`, or `default` where it is missing.
fn some_or(o: &Option<String>, default: &str) -> (r: Option<String>)
    ensures
        text::opt_text(r) == Some(or_default(text::opt_text(*o), default@)),
{
    match o {
        Some(s) => Some(s.clone()),
        None => Some(default.to_owned()),
    }
}

impl Session {
    pub fn new() -> (r: Self)
        ensures
            r@ == SessionView::fresh(),
    {
        Session::default()
    }

    pub fn from_stored(stored: &StoredSession) -> (r: Self)
        ensures
            r@ == stored@.restored(),
    {
        Session {
            conversation_id: stored.conversation_id.clone(),
            last_step_idx: stored.last_step_idx,
            model_id: stored.model_id.clone(),
            mode: some_or(&stored.mode, DEFAULT_MODE),
            effort: some_or(&stored.effort, DEFAULT_EFFORT),
            sandbox: stored.sandbox,
            skip_permissions: stored.skip_permissions,
        }
    }

    pub fn to_stored(&self) -> (r: StoredSession)
        ensures
            r@ == self@,
    {
        StoredSession {
            conversation_id: self.conversation_id.clone(),
            last_step_idx: self.last_step_idx,
            model_id: self.model_id.clone(),
            mode: self.mode.clone(),
            effort: self.effort.clone(),
            sandbox: self.sandbox,
            skip_permissions: self.skip_permissions,
        }
    }

    pub fn mode_or_default(&self) -> (r: &str)
        ensures
            r@ == or_default(self@.mode, DEFAULT_MODE@),
    {
        match &self.mode {
            Some(s) => s.as_str(),
            None => DEFAULT_MODE,
        }
    }

    pub fn effort_or_default(&self) -> (r: &str)
        ensures
            r@ == or_default(self@.effort, DEFAULT_EFFORT@),
    {
        match &self.effort {
            Some(s) => s.as_str(),
            None => DEFAULT_EFFORT,
        }
    }

    pub fn sandbox_value(&self) -> (r: &'static str)
        ensures
            r@ == on_off(self@.sandbox),
    {
        if self.sandbox {
            "on"
        } else {
            "off"
        }
    }

    pub fn skip_permissions_value(&self) -> (r: &'static str)
        ensures
            r@ == on_off(self@.skip_permissions),
    {
        if self.skip_permissions {
            "on"
        } else {
            "off"
        }
    }
}

/// A switch as text.
pub open spec fn on_off(b: bool) -> Seq<char> {
    if b {
        "on"@
    } else {
        "off"@
    }
}

/// The stored sessions, by session id.
#[derive(Debug)]
pub struct SessionStore {
    pub sessions: Table<StoredSession>,
}

impl View for SessionStore {
    type V = Map<Seq<char>, SessionView>;

    open spec fn view(&self) -> Map<Seq<char>, SessionView> {
        self.sessions@
    }
}

impl Default for SessionStore {
    fn default() -> (r: Self)
        ensures
            r@ == Map::<Seq<char>, SessionView>::empty(),
    {
        SessionStore { sessions: Table::new() }
    }
}

impl Clone for SessionStore {
    fn clone(&self) -> (r: Self)
        ensures
            r@ == self@,
    {
        let n: usize = self.sessions.len();
        let ghost keys = self.sessions.keys();
        let mut sessions: Table<StoredSession> = Table::new();
        let mut i: usize = 0;
        assert(sessions@ =~= self@.restrict(keys.take(0).to_set()));
        while i < n
            invariant
                i <= n == keys.len(),
                keys == self.sessions.keys(),
                sessions@ == self@.restrict(keys.take(i as int).to_set()),
            decreases n - i,
        {
            let ghost before = sessions@;
            let key: &String = self.sessions.key_at(i);
            let value: &StoredSession = self.sessions.value_at(i);
            sessions.insert(key.clone(), value.clone());
            proof {
                let taken = keys.take(i + 1);
                assert(taken =~= keys.take(i as int).push(key@));
                assert forall|k: Seq<char>| taken.contains(k) <==> (keys.take(i as int).contains(k)
                    || k == key@) by {
                    if keys.take(i as int).contains(k) {
                        let j = keys.take(i as int).index_of(k);
                        assert(taken[j] == k);
                    }
                    assert(taken[i as int] == key@);
                }
                assert(sessions@ =~= self@.restrict(taken.to_set()));
            }
            i = i + 1;
        }
        assert(keys.take(n as int) =~= keys);
        assert(sessions@ =~= self@);
        SessionStore { sessions }
    }
}

/// A change that is due in the stored sessions.
#[derive(Debug)]
pub enum StoreEdit {
    Keep,
    Put { session_id: String, session: Session },
    Delete { session_id: String },
}

/// What a change does.
#[verifier::ext_equal]
pub enum StoreEditView {
    Keep,
    Put { session_id: Seq<char>, session: SessionView },
    Delete { session_id: Seq<char> },
}

impl View for StoreEdit {
    type V = StoreEditView;

    open spec fn view(&self) -> StoreEditView {
        match *self {
            StoreEdit::Keep => StoreEditView::Keep,
            StoreEdit::Put { session_id, session } => StoreEditView::Put {
                session_id: session_id@,
                session: session@,
            },
            StoreEdit::Delete { session_id } => StoreEditView::Delete { session_id: session_id@ },
        }
    }
}

impl StoreEditView {
    /// The stored sessions after the change.
    pub open spec fn applied(self, store: Map<Seq<char>, SessionView>) -> Map<
        Seq<char>,
        SessionView,
    > {
        match self {
            StoreEditView::Keep => store,
            StoreEditView::Put { session_id, session } => store.insert(session_id, session),
            StoreEditView::Delete { session_id } => store.remove(session_id),
        }
    }
}

/// The session that `store` has under `session_id`, as it is taken into memory.
pub open spec fn stored_session(
    store: Map<Seq<char>, SessionView>,
    session_id: Seq<char>,
) -> Option<SessionView> {
    if store.contains_key(session_id) {
        Some(store[session_id].restored())
    } else {
        None
    }
}

/// What a session that may be missing holds.
pub open spec fn opt_session(o: Option<Session>) -> Option<SessionView> {
    match o {
        Some(s) => Some(s@),
        None => None,
    }
}

impl SessionStore {
    /// Puts the session under `session_id`, in place of what was there.
    pub fn put(&mut self, session_id: &str, session: &Session)
        ensures
            final(self)@ == (StoreEditView::Put {
                session_id: session_id@,
                session: session@,
            }).applied(old(self)@),
    {
        self.sessions.insert(session_id.to_owned(), session.to_stored());
    }

    /// Forgets the session.
    pub fn delete(&mut self, session_id: &str)
        ensures
            final(self)@ == (StoreEditView::Delete { session_id: session_id@ }).applied(old(self)@),
    {
        self.sessions.remove(session_id);
    }

    /// The session under `session_id`, as it is taken into memory.
    pub fn restore(&self, session_id: &str) -> (r: Option<Session>)
        ensures
            opt_session(r) == stored_session(self@, session_id@),
    {
        match self.sessions.get(session_id) {
            Some(stored) => Some(Session::from_stored(stored)),
            None => None,
        }
    }

    /// Makes a change that is due.
    pub fn apply(&mut self, edit: &StoreEdit)
        ensures
            final(self)@ == edit@.applied(old(self)@),
    {
        match edit {
            StoreEdit::Keep => {},
            StoreEdit::Put { session_id, session } => {
                self.put(session_id.as_str(), session);
            },
            StoreEdit::Delete { session_id } => {
                self.delete(session_id.as_str());
            },
        }
    }
}

/// A request, or a notification where `id` is missing.
#[derive(Debug)]
pub struct JsonRpcRequest {
    pub id: Option<serde_json::Value>,
    pub method: Option<String>,
    pub params: Option<Json>,
}

/// The answer to a request: a result, or an error.
#[derive(Debug)]
pub struct JsonRpcResponse {
    pub jsonrpc: &'static str,
    pub id: serde_json::Value,
    pub result: Option<Json>,
    pub error: Option<Json>,
}

/// A message that asks for no answer.
#[derive(Debug)]
pub struct JsonRpcNotification {
    pub jsonrpc: &'static str,
    pub method: String,
    pub params: Json,
}

/// What a response says.
#[verifier::ext_equal]
pub struct ResponseView {
    pub jsonrpc: Seq<char>,
    pub id: serde_json::Value,
    pub result: Option<JsonView>,
    pub error: Option<JsonView>,
}

/// What a notification says.
#[verifier::ext_equal]
pub struct NotificationView {
    pub jsonrpc: Seq<char>,
    pub method: Seq<char>,
    pub params: JsonView,
}

/// What a JSON value that may be missing means.
pub open spec fn opt_json(o: Option<Json>) -> Option<JsonView> {
    match o {
        Some(v) => Some(v@),
        None => None,
    }
}

impl View for JsonRpcResponse {
    type V = ResponseView;

    open spec fn view(&self) -> ResponseView {
        ResponseView {
            jsonrpc: self.jsonrpc@,
            id: self.id,
            result: opt_json(self.result),
            error: opt_json(self.error),
        }
    }
}

impl View for JsonRpcNotification {
    type V = NotificationView;

    open spec fn view(&self) -> NotificationView {
        NotificationView { jsonrpc: self.jsonrpc@, method: self.method@, params: self.params@ }
    }
}

impl ResponseView {
    /// The answer `result` to the request `id`.
    pub open spec fn ok(id: serde_json::Value, result: JsonView) -> ResponseView {
        ResponseView { jsonrpc: "2.0"@, id, result: Some(result), error: None }
    }

    /// The error `code` with `message`, in answer to the request `id`.
    pub open spec fn err(id: serde_json::Value, code: i64, message: Seq<char>) -> ResponseView {
        ResponseView {
            jsonrpc: "2.0"@,
            id,
            result: None,
            error: Some(
                JsonView::Object(
                    map!["code"@ => JsonView::Int(code), "message"@ => JsonView::Text(message)],
                ),
            ),
        }
    }
}

impl JsonRpcResponse {
    /// The answer `result` to the request `id`.
    pub fn ok(id: serde_json::Value, result: Json) -> (r: JsonRpcResponse)
        ensures
            r@ == ResponseView::ok(id, result@),
    {
        JsonRpcResponse { jsonrpc: "2.0", id, result: Some(result), error: None }
    }

    /// The error `code` with `message`, in answer to the request `id`.
    pub fn err(id: serde_json::Value, code: i64, message: &str) -> (r: JsonRpcResponse)
        ensures
            r@ == ResponseView::err(id, code, message@),
    {
        let mut error: Vec<(String, Json)> = Vec::new();
        json::put(&mut error, "code", Json::Int(code));
        json::put_text(&mut error, "message", message);
        JsonRpcResponse { jsonrpc: "2.0", id, result: None, error: Some(Json::Object(error)) }
    }
}

/// A message to the client.
#[derive(Debug)]
pub enum OutMessage {
    Notification(JsonRpcNotification),
    Response(JsonRpcResponse),
}

/// What a message says.
#[verifier::ext_equal]
pub enum OutMessageView {
    Notification(NotificationView),
    Response(ResponseView),
}

impl View for OutMessage {
    type V = OutMessageView;

    open spec fn view(&self) -> OutMessageView {
        match *self {
            OutMessage::Notification(n) => OutMessageView::Notification(n@),
            OutMessage::Response(r) => OutMessageView::Response(r@),
        }
    }
}

/// What was read of a conversation: its new text, and the last step of it.
#[derive(Debug)]
pub struct ConversationDelta {
    pub text: Option<String>,
    pub max_step_idx: i64,
}

/// How far the conversation of a turn has been passed on to the client.
#[derive(Debug)]
pub struct StreamingState {
    pub conversation_id: Option<String>,
    pub base_step_idx: i64,
    pub last_step_idx: i64,
    pub had_updates: bool,
    pub agent_text_lengths: HashMap<i64, usize>,
    pub thought_text_lengths: HashMap<i64, usize>,
    pub emitted_tool_steps: HashSet<i64>,
    pub last_title: Option<String>,
    pub skip_naration: bool,
    /// The process id of the `agy` child, by which its conversation is found.
    pub child_pid: Option<u32>,
}

/// What a streaming state holds.
#[verifier::ext_equal]
pub struct StreamingView {
    pub conversation_id: Option<Seq<char>>,
    pub base_step_idx: i64,
    pub last_step_idx: i64,
    pub had_updates: bool,
    pub agent_text_lengths: Map<i64, usize>,
    pub thought_text_lengths: Map<i64, usize>,
    pub emitted_tool_steps: Set<i64>,
    pub last_title: Option<Seq<char>>,
    pub skip_naration: bool,
    pub child_pid: Option<u32>,
}

impl View for StreamingState {
    type V = StreamingView;

    open spec fn view(&self) -> StreamingView {
        StreamingView {
            conversation_id: text::opt_text(self.conversation_id),
            base_step_idx: self.base_step_idx,
            last_step_idx: self.last_step_idx,
            had_updates: self.had_updates,
            agent_text_lengths: self.agent_text_lengths@,
            thought_text_lengths: self.thought_text_lengths@,
            emitted_tool_steps: self.emitted_tool_steps@,
            last_title: text::opt_text(self.last_title),
            skip_naration: self.skip_naration,
            child_pid: self.child_pid,
        }
    }
}

impl StreamingView {
    /// Nothing has been passed on yet: the turn goes on from `step` of
    /// `conversation_id`.
    pub open spec fn starting(
        conversation_id: Option<Seq<char>>,
        step: i64,
        skip_naration: bool,
    ) -> StreamingView {
        StreamingView {
            conversation_id,
            base_step_idx: step,
            last_step_idx: step,
            had_updates: false,
            agent_text_lengths: Map::empty(),
            thought_text_lengths: Map::empty(),
            emitted_tool_steps: Set::empty(),
            last_title: None,
            skip_naration,
            child_pid: None,
        }
    }
}

impl StreamingState {
    /// The state in which a turn starts.
    pub fn starting(conversation_id: Option<String>, step: i64, skip_naration: bool) -> (r: Self)
        ensures
            r@ == StreamingView::starting(text::opt_text(conversation_id), step, skip_naration),
    {
        StreamingState {
            conversation_id,
            base_step_idx: step,
            last_step_idx: step,
            had_updates: false,
            agent_text_lengths: HashMap::new(),
            thought_text_lengths: HashMap::new(),
            emitted_tool_steps: HashSet::new(),
            last_title: None,
            skip_naration,
            child_pid: None,
        }
    }
}

impl Default for StreamingState {
    fn default() -> (r: Self)
        ensures
            r@ == StreamingView::starting(None, 0, false),
    {
        StreamingState::starting(None, 0, false)
    }
}

} // verus!
