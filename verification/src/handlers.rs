//! The answers to the client's requests about sessions.
use vstd::prelude::*;

use crate::adapter;
use crate::adapter::{Adapter, AdapterView};
use crate::config;
use crate::json;
use crate::json::{Json, JsonView};
use crate::models::{ListsView, ModelLists};
use crate::outside;
use crate::text;
use crate::types;
use crate::types::{
    JsonRpcNotification, JsonRpcResponse, NotificationView, OutMessage, OutMessageView,
    ResponseView, Session, SessionStore, SessionView, StoreEdit, StoreEditView, DEFAULT_EFFORT,
    DEFAULT_MODE,
};

verus! {

/// An answer, and the change that is due in the stored sessions.
#[derive(Debug)]
pub struct Reply {
    pub response: JsonRpcResponse,
    pub edit: StoreEdit,
}

/// What a reply says and asks for.
#[verifier::ext_equal]
pub struct ReplyView {
    pub response: ResponseView,
    pub edit: StoreEditView,
}

impl View for Reply {
    type V = ReplyView;

    open spec fn view(&self) -> ReplyView {
        ReplyView { response: self.response@, edit: self.edit@ }
    }
}

/// The messages that answer a request, and the change that is due in the stored
/// sessions.
#[derive(Debug)]
pub struct LoadReply {
    pub messages: Vec<OutMessage>,
    pub edit: StoreEdit,
}

/// What messages say.
pub open spec fn message_views(messages: Seq<OutMessage>) -> Seq<OutMessageView> {
    messages.map_values(|m: OutMessage| m@)
}

/// What a reply says and asks for.
#[verifier::ext_equal]
pub struct LoadReplyView {
    pub messages: Seq<OutMessageView>,
    pub edit: StoreEditView,
}

impl View for LoadReply {
    type V = LoadReplyView;

    open spec fn view(&self) -> LoadReplyView {
        LoadReplyView { messages: message_views(self.messages@), edit: self.edit@ }
    }
}

/// The session that a request is about.
pub open spec fn session_id_of(params: JsonView) -> Seq<char> {
    json::field_text(params, "sessionId"@)
}

/// The answer to a request that lacks something.
pub open spec fn missing(id: serde_json::Value, what: Seq<char>) -> ResponseView {
    ResponseView::err(id, -32602i64, what)
}

/// The answer to a request about a session that there is not.
pub open spec fn unknown(id: serde_json::Value, session_id: Seq<char>) -> ResponseView {
    ResponseView::err(id, -32000i64, "unknown sessionId: "@ + session_id)
}

fn unknown_session(id: serde_json::Value, session_id: &str) -> (r: JsonRpcResponse)
    ensures
        r@ == unknown(id, session_id@),
{
    let mut message: String = "unknown sessionId: ".to_owned();
    message.append(session_id);
    JsonRpcResponse::err(id, -32000, message.as_str())
}

/// What the adapter is and can do.
pub open spec fn capabilities(version: Seq<char>) -> JsonView {
    JsonView::Object(
        map![
            "protocolVersion"@ => JsonView::Int(1),
            "agentInfo"@ => JsonView::Object(
                map!["name"@ => JsonView::Text("agy"@), "version"@ => JsonView::Text(version)],
            ),
            "agentCapabilities"@ => JsonView::Object(
                map![
                    "loadSession"@ => JsonView::Bool(true),
                    "streaming"@ => JsonView::Bool(true),
                    "promptCapabilities"@ => JsonView::Object(
                        map!["text"@ => JsonView::Bool(true)],
                    ),
                    "sessionCapabilities"@ => JsonView::Object(
                        map![
                            "resume"@ => JsonView::Bool(true),
                            "list"@ => JsonView::Bool(true),
                            "delete"@ => JsonView::Bool(true),
                        ],
                    ),
                ],
            ),
            "authMethods"@ => JsonView::List(Seq::empty()),
        ],
    )
}

/// A text, or null where there is none.
pub open spec fn text_or_null(o: Option<Seq<char>>) -> JsonView {
    match o {
        Some(s) => JsonView::Text(s),
        None => JsonView::Null,
    }
}

fn text_or_null_json(o: &Option<String>) -> (r: Json)
    ensures
        r@ == text_or_null(text::opt_text(*o)),
{
    match o {
        Some(s) => Json::Text(s.clone()),
        None => Json::Null,
    }
}

/// How a stored session is listed.
pub open spec fn listed_session(session_id: Seq<char>, stored: SessionView) -> JsonView {
    JsonView::Object(
        map![
            "sessionId"@ => JsonView::Text(session_id),
            "conversationId"@ => text_or_null(stored.conversation_id),
            "modelId"@ => text_or_null(stored.model_id),
            "mode"@ => JsonView::Text(types::or_default(stored.mode, DEFAULT_MODE@)),
            "effort"@ => JsonView::Text(types::or_default(stored.effort, DEFAULT_EFFORT@)),
            "sandbox"@ => JsonView::Bool(stored.sandbox),
            "skipPermissions"@ => JsonView::Bool(stored.skip_permissions),
            "lastStepIdx"@ => JsonView::Int(stored.last_step_idx),
        ],
    )
}

/// How the stored sessions under `keys` are listed.
pub open spec fn listed_sessions(
    keys: Seq<Seq<char>>,
    store: Map<Seq<char>, SessionView>,
) -> Seq<JsonView> {
    keys.map_values(|k: Seq<char>| listed_session(k, store[k]))
}

/// An object with one field.
pub open spec fn single(name: Seq<char>, value: JsonView) -> JsonView {
    JsonView::Object(map![name => value])
}

fn single_json(name: &str, value: Json) -> (r: Json)
    ensures
        r@ == single(name@, value@),
{
    let mut f: Vec<(String, Json)> = Vec::new();
    json::put(&mut f, name, value);
    Json::Object(f)
}

/// An object without fields.
pub open spec fn nothing() -> JsonView {
    JsonView::Object(Map::empty())
}

/// The value that a request sets an option to: a text, or a truth value for a
/// switch.
pub open spec fn requested_value(params: JsonView) -> Seq<char> {
    match json::field(params, "value"@) {
        Some(JsonView::Text(s)) => s,
        Some(JsonView::Bool(b)) => types::on_off(b),
        _ => Seq::empty(),
    }
}

fn requested_value_of(params: &Json) -> (r: String)
    ensures
        r@ == requested_value(params@),
{
    if let Some(v) = params.get("value") {
        if let Some(s) = v.as_str() {
            return s.to_owned();
        }
        if let Some(b) = v.as_bool() {
            return if b {
                "on".to_owned()
            } else {
                "off".to_owned()
            };
        }
    }
    String::new()
}

/// A new session under `session_id` is in memory, for which others may have
/// had to go.
pub open spec fn opened(
    before: Map<Seq<char>, SessionView>,
    after: Map<Seq<char>, SessionView>,
    session_id: Seq<char>,
) -> bool {
    exists|kept: Map<Seq<char>, SessionView>| #[trigger]
        adapter::evicted(before, kept) && after == kept.insert(session_id, SessionView::fresh())
}

/// The steps of a conversation, as messages to the client about it.
pub open spec fn update_messages(
    session_id: Seq<char>,
    updates: Seq<serde_json::Value>,
) -> Seq<OutMessageView> {
    updates.map_values(
        |u: serde_json::Value|
            OutMessageView::Notification(
                NotificationView {
                    jsonrpc: "2.0"@,
                    method: "session/update"@,
                    params: JsonView::Object(
                        map![
                            "sessionId"@ => JsonView::Text(session_id),
                            "update"@ => JsonView::Raw(u),
                        ],
                    ),
                },
            ),
    )
}

/// What the database has of a conversation: its steps, and the last index.
pub open spec fn replay_of(
    session: SessionView,
    replay: Option<(Vec<serde_json::Value>, i64)>,
) -> Option<(Seq<serde_json::Value>, i64)> {
    if session.conversation_id is Some {
        match replay {
            Some((updates, step)) => Some((updates@, step)),
            None => None,
        }
    } else {
        None
    }
}

/// The answer to a request to load `session`, and the session from then on.
pub open spec fn loaded(
    id: serde_json::Value,
    session_id: Seq<char>,
    session: SessionView,
    replay: Option<(Seq<serde_json::Value>, i64)>,
    models: Seq<Seq<char>>,
) -> (SessionView, LoadReplyView) {
    let entry = config::session_entry(session_id, session, models);
    let last = OutMessageView::Response(ResponseView::ok(id, entry));
    match replay {
        Some((updates, step)) => {
            let next = SessionView { last_step_idx: step, ..session };
            (
                next,
                LoadReplyView {
                    messages: update_messages(session_id, updates).push(last),
                    edit: StoreEditView::Put { session_id, session: next },
                },
            )
        },
        None => (session, LoadReplyView { messages: seq![last], edit: StoreEditView::Keep }),
    }
}

/// The store has to be asked for the session that a request is about.
pub open spec fn store_needed(sessions: Map<Seq<char>, SessionView>, params: JsonView) -> bool {
    session_id_of(params).len() > 0 && !sessions.contains_key(session_id_of(params))
}

/// The conversation whose steps are due when a session is loaded.
pub open spec fn replay_due(
    sessions: Map<Seq<char>, SessionView>,
    store: Map<Seq<char>, SessionView>,
    params: JsonView,
) -> Option<Seq<char>> {
    let session_id = session_id_of(params);
    match adapter::known_session(sessions, store, session_id) {
        Some(s) => if session_id.len() > 0 {
            s.conversation_id
        } else {
            None
        },
        None => None,
    }
}

/// A new session was opened under `session_id`, and `r` says so.
pub open spec fn opens(
    before: AdapterView,
    after: AdapterView,
    id: serde_json::Value,
    session_id: Seq<char>,
    lists: ListsView,
    r: ResponseView,
) -> bool {
    &&& after == before.with_models(lists).with_sessions(after.sessions)
    &&& opened(before.sessions, after.sessions, session_id)
    &&& r == ResponseView::ok(
        id,
        config::session_entry(session_id, SessionView::fresh(), after.available_models),
    )
}

/// `r` answers a request to load a session, with the steps that the database
/// gave of its conversation.
pub open spec fn loads(
    before: AdapterView,
    after: AdapterView,
    id: serde_json::Value,
    params: JsonView,
    store: Map<Seq<char>, SessionView>,
    replay: Option<(Vec<serde_json::Value>, i64)>,
    lists: ListsView,
    r: LoadReplyView,
) -> bool {
    let session_id = session_id_of(params);
    if session_id.len() == 0 {
        after == before && r == (LoadReplyView {
            messages: seq![OutMessageView::Response(missing(id, "missing sessionId"@))],
            edit: StoreEditView::Keep,
        })
    } else {
        match adapter::known_session(before.sessions, store, session_id) {
            Some(s) => {
                let done = loaded(
                    id,
                    session_id,
                    s,
                    replay_of(s, replay),
                    after.available_models,
                );
                after == before.with_models(lists).with_sessions(after.sessions)
                    && adapter::taken_in(before.sessions, after.sessions, session_id, done.0) && r
                    == done.1
            },
            None => after == before && r == (LoadReplyView {
                messages: seq![OutMessageView::Response(unknown(id, session_id))],
                edit: StoreEditView::Keep,
            }),
        }
    }
}

/// `r` answers a request to resume a session.
pub open spec fn resumes(
    before: AdapterView,
    after: AdapterView,
    id: serde_json::Value,
    params: JsonView,
    store: Map<Seq<char>, SessionView>,
    lists: ListsView,
    r: ResponseView,
) -> bool {
    let session_id = session_id_of(params);
    if session_id.len() == 0 {
        after == before && r == missing(id, "missing sessionId"@)
    } else {
        match adapter::known_session(before.sessions, store, session_id) {
            Some(s) => after == before.with_models(lists).with_sessions(after.sessions)
                && adapter::taken_in(before.sessions, after.sessions, session_id, s) && r
                == ResponseView::ok(
                id,
                config::session_entry(session_id, s, after.available_models),
            ),
            None => after == before && r == unknown(id, session_id),
        }
    }
}

/// The answer to a request for the stored sessions, which are walked in the
/// order of `keys`.
pub open spec fn listing(
    id: serde_json::Value,
    keys: Seq<Seq<char>>,
    store: Map<Seq<char>, SessionView>,
) -> ResponseView {
    ResponseView::ok(id, single("sessions"@, JsonView::List(listed_sessions(keys, store))))
}

/// `r` answers a request to forget a session.
pub open spec fn deletes(
    before: AdapterView,
    after: AdapterView,
    id: serde_json::Value,
    params: JsonView,
    r: ReplyView,
) -> bool {
    let session_id = session_id_of(params);
    if session_id.len() == 0 {
        after == before && r == (ReplyView {
            response: missing(id, "missing sessionId"@),
            edit: StoreEditView::Keep,
        })
    } else {
        after == before.with_sessions(before.sessions.remove(session_id)) && r == (ReplyView {
            response: ResponseView::ok(id, nothing()),
            edit: StoreEditView::Delete { session_id },
        })
    }
}

/// `r` answers a request to select the model of a session.
pub open spec fn selects_model(
    before: AdapterView,
    after: AdapterView,
    id: serde_json::Value,
    params: JsonView,
    store: Map<Seq<char>, SessionView>,
    r: ReplyView,
) -> bool {
    let session_id = session_id_of(params);
    let model_id = json::field_text(params, "modelId"@);
    &&& after == before.with_sessions(after.sessions)
    &&& if session_id.len() == 0 || model_id.len() == 0 {
        after == before && r == (ReplyView {
            response: missing(id, "missing sessionId or modelId"@),
            edit: StoreEditView::Keep,
        })
    } else {
        match adapter::known_session(before.sessions, store, session_id) {
            Some(s) => {
                let next = SessionView { model_id: Some(model_id), ..s };
                adapter::taken_in(before.sessions, after.sessions, session_id, next) && r == (
                ReplyView {
                    response: ResponseView::ok(id, nothing()),
                    edit: StoreEditView::Put { session_id, session: next },
                })
            },
            None => after == before && r == (ReplyView {
                response: unknown(id, session_id),
                edit: StoreEditView::Keep,
            }),
        }
    }
}

/// `r` answers a request to set an option of a session.
pub open spec fn sets_option(
    before: AdapterView,
    after: AdapterView,
    id: serde_json::Value,
    params: JsonView,
    store: Map<Seq<char>, SessionView>,
    lists: ListsView,
    r: ReplyView,
) -> bool {
    let session_id = session_id_of(params);
    let config_id = json::field_text(params, "configId"@);
    let value = requested_value(params);
    if session_id.len() == 0 || config_id.len() == 0 || value.len() == 0 {
        after == before && r == (ReplyView {
            response: missing(id, "missing sessionId, configId, or value"@),
            edit: StoreEditView::Keep,
        })
    } else {
        match adapter::known_session(before.sessions, store, session_id) {
            Some(s) => match config::configured(s, config_id, value) {
                Ok(next) => after == before.with_models(lists).with_sessions(after.sessions)
                    && adapter::taken_in(before.sessions, after.sessions, session_id, next) && r
                    == (ReplyView {
                    response: ResponseView::ok(
                        id,
                        single(
                            "configOptions"@,
                            JsonView::List(config::config_options(next, after.available_models)),
                        ),
                    ),
                    edit: StoreEditView::Put { session_id, session: next },
                }),
                Err(message) => after == before.with_sessions(after.sessions) && adapter::taken_in(
                    before.sessions,
                    after.sessions,
                    session_id,
                    s,
                ) && r == (ReplyView {
                    response: ResponseView::err(id, -32602i64, message),
                    edit: StoreEditView::Keep,
                }),
            },
            None => after == before && r == (ReplyView {
                response: unknown(id, session_id),
                edit: StoreEditView::Keep,
            }),
        }
    }
}

impl Adapter {
    /// Whether the store has to be asked for the session that a request is
    /// about.
    pub fn needs_store(&self, params: &Json) -> (r: bool)
        ensures
            r == store_needed(self@.sessions, params@),
    {
        let session_id: String = params.text_field("sessionId");
        !session_id.as_str().is_empty() && !self.sessions.contains_key(session_id.as_str())
    }

    /// Takes the session into memory that a request is about, if it is not
    /// there yet. Gives it, if there is such a session.
    fn find_session(&mut self, store: &SessionStore, session_id: &str) -> (r: Option<Session>)
        ensures
            types::opt_session(r) == adapter::known_session(
                old(self)@.sessions,
                store@,
                session_id@,
            ),
            final(self)@ == old(self)@.with_sessions(final(self)@.sessions),
            match r {
                Some(s) => adapter::taken_in(
                    old(self)@.sessions,
                    final(self)@.sessions,
                    session_id@,
                    s@,
                ) && final(self)@.sessions.contains_key(session_id@)
                    && final(self)@.sessions[session_id@] == s@,
                None => final(self)@ == old(self)@,
            },
    {
        if !self.sessions.contains_key(session_id) {
            let _ = self.restore_session_state(store, session_id);
        }
        match self.sessions.get(session_id) {
            Some(s) => {
                proof {
                    let before = old(self)@.sessions;
                    if before.contains_key(session_id@) {
                        assert(before =~= before.insert(session_id@, before[session_id@]));
                    }
                }
                Some(s.clone())
            },
            None => None,
        }
    }

    /// Writes a session into memory in place of the one there.
    fn set_session(&mut self, session_id: &str, session: Session)
        ensures
            final(self)@ == old(self)@.with_sessions(
                old(self)@.sessions.insert(session_id@, session@),
            ),
    {
        self.sessions.insert(session_id.to_owned(), session);
    }

    pub fn handle_initialize(&self, id: serde_json::Value, version: &str) -> (r: JsonRpcResponse)
        ensures
            r@ == ResponseView::ok(id, capabilities(version@)),
    {
        let mut info: Vec<(String, Json)> = Vec::new();
        json::put_text(&mut info, "name", "agy");
        json::put_text(&mut info, "version", version);
        let mut prompt: Vec<(String, Json)> = Vec::new();
        json::put(&mut prompt, "text", Json::Bool(true));
        let mut session: Vec<(String, Json)> = Vec::new();
        json::put(&mut session, "resume", Json::Bool(true));
        json::put(&mut session, "list", Json::Bool(true));
        json::put(&mut session, "delete", Json::Bool(true));
        let mut agent: Vec<(String, Json)> = Vec::new();
        json::put(&mut agent, "loadSession", Json::Bool(true));
        json::put(&mut agent, "streaming", Json::Bool(true));
        json::put(&mut agent, "promptCapabilities", Json::Object(prompt));
        json::put(&mut agent, "sessionCapabilities", Json::Object(session));
        let mut f: Vec<(String, Json)> = Vec::new();
        json::put(&mut f, "protocolVersion", Json::Int(1));
        json::put(&mut f, "agentInfo", Json::Object(info));
        json::put(&mut f, "agentCapabilities", Json::Object(agent));
        json::put(&mut f, "authMethods", Json::List(Vec::new()));
        JsonRpcResponse::ok(id, Json::Object(f))
    }

    /// Opens a new session under a random id. An empty list of models is filled
    /// first.
    pub fn handle_session_new(&mut self, id: serde_json::Value, lists: ModelLists) -> (r:
        JsonRpcResponse)
        ensures
            exists|session_id: Seq<char>| #[trigger]
                outside::is_random_uuid(session_id) && opens(
                    old(self)@,
                    final(self)@,
                    id,
                    session_id,
                    lists@,
                    r@,
                ),
    {
        let session_id: String = outside::random_uuid();
        self.open_session(id, session_id, lists)
    }

    /// Opens a new session under `session_id`. An empty list of models is filled
    /// first.
    pub fn open_session(
        &mut self,
        id: serde_json::Value,
        session_id: String,
        lists: ModelLists,
    ) -> (r: JsonRpcResponse)
        ensures
            opens(old(self)@, final(self)@, id, session_id@, lists@, r@),
    {
        self.evict_if_needed();
        let ghost kept = self@.sessions;
        self.set_session(session_id.as_str(), Session::new());
        assert(adapter::evicted(old(self)@.sessions, kept));
        let result: Json = self.session_config_result_json(session_id.as_str(), lists);
        JsonRpcResponse::ok(id, result)
    }

    /// The conversation whose steps are due when the session is loaded.
    pub fn replay_conversation_id(&self, params: &Json, store: &SessionStore) -> (r: Option<String>)
        ensures
            text::opt_text(r) == replay_due(self@.sessions, store@, params@),
    {
        let session_id: String = params.text_field("sessionId");
        if session_id.as_str().is_empty() {
            return None;
        }
        if let Some(s) = self.sessions.get(session_id.as_str()) {
            return s.conversation_id.clone();
        }
        match store.restore(session_id.as_str()) {
            Some(s) => s.conversation_id,
            None => None,
        }
    }

    /// Loads a session: its steps so far are passed on, then the request is
    /// answered. `replay` is what the database has of its conversation. An empty
    /// list of models is filled before it is shown.
    pub fn handle_session_load(
        &mut self,
        id: serde_json::Value,
        params: &Json,
        store: &SessionStore,
        replay: Option<(Vec<serde_json::Value>, i64)>,
        lists: ModelLists,
    ) -> (r: LoadReply)
        ensures
            loads(old(self)@, final(self)@, id, params@, store@, replay, lists@, r@),
    {
        let session_id: String = params.text_field("sessionId");
        let mut messages: Vec<OutMessage> = Vec::new();
        if session_id.as_str().is_empty() {
            messages.push(
                OutMessage::Response(JsonRpcResponse::err(id, -32602, "missing sessionId")),
            );
            assert(message_views(messages@) =~= seq![
                OutMessageView::Response(missing(id, "missing sessionId"@)),
            ]);
            return LoadReply { messages, edit: StoreEdit::Keep };
        }
        let found: Option<Session> = self.find_session(store, session_id.as_str());
        let session: Session = match found {
            Some(s) => s,
            None => {
                messages.push(OutMessage::Response(unknown_session(id, session_id.as_str())));
                assert(message_views(messages@) =~= seq![
                    OutMessageView::Response(unknown(id, session_id@)),
                ]);
                return LoadReply { messages, edit: StoreEdit::Keep };
            },
        };
        let ghost held = self@.sessions;
        let ghost entry = config::session_entry(
            session_id@,
            session@,
            self@.with_models(lists@).available_models,
        );
        let mut edit: StoreEdit = StoreEdit::Keep;
        assert(message_views(messages@) =~= Seq::empty());
        if session.conversation_id.is_some() {
            if let Some((updates, step)) = replay {
                messages = notifications(session_id.as_str(), updates);
                let mut next: Session = session.clone();
                next.last_step_idx = step;
                self.set_session(session_id.as_str(), next.clone());
                proof {
                    lemma_taken_in_again(
                        old(self)@.sessions,
                        held,
                        session_id@,
                        session@,
                        next@,
                    );
                }
                edit = StoreEdit::Put { session_id: session_id.clone(), session: next };
            }
        }
        let result: Json = self.session_config_result_json(session_id.as_str(), lists);
        assert(result@ == entry);
        let ghost before = message_views(messages@);
        messages.push(OutMessage::Response(JsonRpcResponse::ok(id, result)));
        assert(message_views(messages@) =~= before.push(
            OutMessageView::Response(ResponseView::ok(id, entry)),
        ));
        LoadReply { messages, edit }
    }

    /// Resumes a session without passing its steps on. An empty list of models is
    /// filled before it is shown.
    pub fn handle_session_resume(
        &mut self,
        id: serde_json::Value,
        params: &Json,
        store: &SessionStore,
        lists: ModelLists,
    ) -> (r: JsonRpcResponse)
        ensures
            resumes(old(self)@, final(self)@, id, params@, store@, lists@, r@),
    {
        let session_id: String = params.text_field("sessionId");
        if session_id.as_str().is_empty() {
            return JsonRpcResponse::err(id, -32602, "missing sessionId");
        }
        match self.find_session(store, session_id.as_str()) {
            Some(_) => {
                let result: Json = self.session_config_result_json(session_id.as_str(), lists);
                JsonRpcResponse::ok(id, result)
            },
            None => unknown_session(id, session_id.as_str()),
        }
    }

    /// Lists the stored sessions, each of them once.
    pub fn handle_session_list(&self, id: serde_json::Value, store: &SessionStore) -> (r:
        JsonRpcResponse)
        ensures
            r@ == listing(id, store.sessions.keys(), store@),
            store.sessions.keys().no_duplicates(),
            store.sessions.keys().to_set() == store@.dom(),
    {
        let n: usize = store.sessions.len();
        let mut list: Vec<Json> = Vec::new();
        let ghost keys = store.sessions.keys();
        let mut i: usize = 0;
        assert(json::list_view(list@) =~= listed_sessions(keys.take(0), store@));
        while i < n
            invariant
                i <= n == keys.len(),
                keys == store.sessions.keys(),
                json::list_view(list@) == listed_sessions(keys.take(i as int), store@),
            decreases n - i,
        {
            let stored: &types::StoredSession = store.sessions.value_at(i);
            let session: Session = Session::from_stored(stored);
            let mut f: Vec<(String, Json)> = Vec::new();
            json::put_text(&mut f, "sessionId", store.sessions.key_at(i).as_str());
            json::put(&mut f, "conversationId", text_or_null_json(&stored.conversation_id));
            json::put(&mut f, "modelId", text_or_null_json(&stored.model_id));
            json::put_text(&mut f, "mode", session.mode_or_default());
            json::put_text(&mut f, "effort", session.effort_or_default());
            json::put(&mut f, "sandbox", Json::Bool(stored.sandbox));
            json::put(&mut f, "skipPermissions", Json::Bool(stored.skip_permissions));
            json::put(&mut f, "lastStepIdx", Json::Int(stored.last_step_idx));
            json::push_item(&mut list, Json::Object(f));
            assert(json::list_view(list@) =~= listed_sessions(keys.take(i + 1), store@));
            i = i + 1;
        }
        assert(keys.take(n as int) =~= keys);
        JsonRpcResponse::ok(id, single_json("sessions", Json::List(list)))
    }

    /// Forgets a session, in memory and in the store. It need not be there.
    pub fn handle_session_delete(&mut self, id: serde_json::Value, params: &Json) -> (r: Reply)
        ensures
            deletes(old(self)@, final(self)@, id, params@, r@),
    {
        let session_id: String = params.text_field("sessionId");
        if session_id.as_str().is_empty() {
            return Reply {
                response: JsonRpcResponse::err(id, -32602, "missing sessionId"),
                edit: StoreEdit::Keep,
            };
        }
        self.sessions.remove(session_id.as_str());
        Reply {
            response: JsonRpcResponse::ok(id, Json::Object(Vec::new())),
            edit: StoreEdit::Delete { session_id },
        }
    }

    /// Selects the model of a session.
    pub fn handle_session_set_model(
        &mut self,
        id: serde_json::Value,
        params: &Json,
        store: &SessionStore,
    ) -> (r: Reply)
        ensures
            selects_model(old(self)@, final(self)@, id, params@, store@, r@),
    {
        let session_id: String = params.text_field("sessionId");
        let model_id: String = params.text_field("modelId");
        if session_id.as_str().is_empty() || model_id.as_str().is_empty() {
            return Reply {
                response: JsonRpcResponse::err(id, -32602, "missing sessionId or modelId"),
                edit: StoreEdit::Keep,
            };
        }
        match self.find_session(store, session_id.as_str()) {
            Some(session) => {
                let ghost held = self@.sessions;
                let mut next: Session = session.clone();
                next.model_id = Some(model_id);
                self.set_session(session_id.as_str(), next.clone());
                proof {
                    lemma_taken_in_again(
                        old(self)@.sessions,
                        held,
                        session_id@,
                        session@,
                        next@,
                    );
                }
                Reply {
                    response: JsonRpcResponse::ok(id, Json::Object(Vec::new())),
                    edit: StoreEdit::Put { session_id, session: next },
                }
            },
            None => Reply {
                response: unknown_session(id, session_id.as_str()),
                edit: StoreEdit::Keep,
            },
        }
    }

    /// Sets an option of a session. An empty list of models is filled before it
    /// is shown.
    pub fn handle_session_set_config_option(
        &mut self,
        id: serde_json::Value,
        params: &Json,
        store: &SessionStore,
        lists: ModelLists,
    ) -> (r: Reply)
        ensures
            sets_option(old(self)@, final(self)@, id, params@, store@, lists@, r@),
    {
        let session_id: String = params.text_field("sessionId");
        let config_id: String = params.text_field("configId");
        let value: String = requested_value_of(params);
        if session_id.as_str().is_empty() || config_id.as_str().is_empty()
            || value.as_str().is_empty() {
            return Reply {
                response: JsonRpcResponse::err(id, -32602, "missing sessionId, configId, or value"),
                edit: StoreEdit::Keep,
            };
        }
        let session: Session = match self.find_session(store, session_id.as_str()) {
            Some(s) => s,
            None => {
                return Reply {
                    response: unknown_session(id, session_id.as_str()),
                    edit: StoreEdit::Keep,
                };
            },
        };
        let ghost held = self@.sessions;
        match config::configure(&session, config_id.as_str(), value.as_str()) {
            Ok(next) => {
                self.set_session(session_id.as_str(), next.clone());
                proof {
                    lemma_taken_in_again(
                        old(self)@.sessions,
                        held,
                        session_id@,
                        session@,
                        next@,
                    );
                }
                let options: Json = self.session_config_options_json(&next, lists);
                Reply {
                    response: JsonRpcResponse::ok(id, single_json("configOptions", options)),
                    edit: StoreEdit::Put { session_id, session: next },
                }
            },
            Err(message) => Reply {
                response: JsonRpcResponse::err(id, -32602, message.as_str()),
                edit: StoreEdit::Keep,
            },
        }
    }
}

/// The steps of a conversation, as messages to the client about it.
fn notifications(session_id: &str, updates: Vec<serde_json::Value>) -> (r: Vec<OutMessage>)
    ensures
        message_views(r@) == update_messages(session_id@, updates@),
{
    let mut r: Vec<OutMessage> = Vec::new();
    let ghost all = updates@;
    assert(message_views(r@) =~= update_messages(session_id@, all.take(0)));
    for update in it: updates
        invariant
            it.seq() == all,
            message_views(r@) == update_messages(session_id@, all.take(it.index() as int)),
    {
        let ghost k = it.index() as int;
        let ghost before = message_views(r@);
        assert(update == all[k]);
        let mut f: Vec<(String, Json)> = Vec::new();
        json::put_text(&mut f, "sessionId", session_id);
        json::put(&mut f, "update", Json::Raw(update));
        r.push(
            OutMessage::Notification(
                JsonRpcNotification {
                    jsonrpc: "2.0",
                    method: "session/update".to_owned(),
                    params: Json::Object(f),
                },
            ),
        );
        assert(message_views(r@) =~= before.push(r@.last()@));
        assert(update_messages(session_id@, all.take(k + 1)) =~= before.push(
            update_messages(session_id@, all)[k],
        ));
    }
    assert(all.take(all.len() as int) =~= all);
    r
}

/// A session that is in memory can be replaced there.
proof fn lemma_taken_in_again(
    before: Map<Seq<char>, SessionView>,
    held: Map<Seq<char>, SessionView>,
    session_id: Seq<char>,
    session: SessionView,
    next: SessionView,
)
    requires
        adapter::taken_in(before, held, session_id, session),
    ensures
        adapter::taken_in(before, held.insert(session_id, next), session_id, next),
{
    let after = held.insert(session_id, next);
    if before.contains_key(session_id) {
        assert(after =~= before.insert(session_id, next));
    } else {
        assert(after.remove(session_id) =~= held.remove(session_id));
    }
}

} // verus!
