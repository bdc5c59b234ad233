//! What holds of the answers to the client's requests, told by the fields of
//! the requests and of the answers.
use vstd::prelude::*;

use crate::adapter;
use crate::adapter::AdapterView;
use crate::config;
use crate::handlers;
use crate::handlers::{LoadReplyView, ReplyView};
use crate::json;
use crate::json::{Json, JsonView};
use crate::models;
use crate::models::ListsView;
use crate::types;
use crate::types::{
    ConversationDelta, ResponseView, SessionStore, SessionView, StoreEditView,
};

verus! {

/// `r` answers the request `id` with the result `v`.
pub open spec fn is_result(r: ResponseView, id: serde_json::Value, v: JsonView) -> bool {
    &&& r.jsonrpc == "2.0"@
    &&& r.id == id
    &&& r.result == Some(v)
    &&& r.error is None
}

/// `r` answers the request `id` with an error.
pub open spec fn is_error(
    r: ResponseView,
    id: serde_json::Value,
    code: int,
    message: Seq<char>,
) -> bool {
    &&& r.jsonrpc == "2.0"@
    &&& r.id == id
    &&& r.result is None
    &&& r.error is Some
    &&& json::field(r.error->0, "code"@) is Some
    &&& json::field(r.error->0, "code"@)->0 is Int
    &&& json::field(r.error->0, "code"@)->0->Int_0 == code
    &&& json::field(r.error->0, "message"@) == Some(JsonView::Text(message))
}

pub proof fn lemma_error_fields()
    ensures
        "code"@ != "message"@,
{
    reveal_strlit("code");
    reveal_strlit("message");
    assert("code"@.len() == 4);
    assert("message"@.len() == 7);
}

/// A field of an object is the value under its name. Nothing else has fields.
pub proof fn law_fields(
    fields: Map<Seq<char>, JsonView>,
    name: Seq<char>,
    v: JsonView,
    text: Seq<char>,
)
    ensures
        json::field(JsonView::Object(fields.insert(name, v)), name) == Some(v),
        json::field(JsonView::Object(fields.remove(name)), name) is None,
        !(v is Object) ==> json::field(v, name) is None,
        json::field_text(
            JsonView::Object(fields.insert(name, JsonView::Text(text))),
            name,
        ) == text,
        !(v is Text) ==> json::field_text(JsonView::Object(fields.insert(name, v)), name).len()
            == 0,
{
}

/// A request is about the session that its field `sessionId` names.
pub proof fn law_session_id(params: JsonView, session_id: Seq<char>)
    ensures
        json::field(params, "sessionId"@) == Some(JsonView::Text(session_id))
            ==> handlers::session_id_of(params) == session_id,
        unnamed(params, "sessionId"@) ==> handlers::session_id_of(params).len() == 0,
{
}

/// A request does not say what `name` is: the field is missing, or is no text,
/// or an empty one.
pub open spec fn unnamed(params: JsonView, name: Seq<char>) -> bool {
    match json::field(params, name) {
        Some(JsonView::Text(s)) => s.len() == 0,
        _ => true,
    }
}

/// `s` is the session under `session_id`: the one in memory, or else the stored
/// one, with the default mode and effort where it has none.
pub open spec fn found_as(
    sessions: Map<Seq<char>, SessionView>,
    store: Map<Seq<char>, SessionView>,
    session_id: Seq<char>,
    s: SessionView,
) -> bool {
    if sessions.contains_key(session_id) {
        s == sessions[session_id]
    } else {
        let stored = store[session_id];
        &&& store.contains_key(session_id)
        &&& s.conversation_id == stored.conversation_id
        &&& s.last_step_idx == stored.last_step_idx
        &&& s.model_id == stored.model_id
        &&& s.mode == Some(
            match stored.mode {
                Some(mode) => mode,
                None => "default"@,
            },
        )
        &&& s.effort == Some(
            match stored.effort {
                Some(effort) => effort,
                None => "medium"@,
            },
        )
        &&& s.sandbox == stored.sandbox
        &&& s.skip_permissions == stored.skip_permissions
    }
}

pub proof fn lemma_found(
    sessions: Map<Seq<char>, SessionView>,
    store: Map<Seq<char>, SessionView>,
    session_id: Seq<char>,
    s: SessionView,
)
    requires
        found_as(sessions, store, session_id, s),
    ensures
        adapter::known_session(sessions, store, session_id) == Some(s),
{
    if !sessions.contains_key(session_id) {
        assert(store[session_id].restored() =~= s);
    }
}

/// A session that nothing has happened in.
pub open spec fn is_fresh(s: SessionView) -> bool {
    &&& s.conversation_id is None
    &&& s.last_step_idx == -1
    &&& s.model_id is None
    &&& s.mode == Some("default"@)
    &&& s.effort == Some("medium"@)
    &&& !s.sandbox
    &&& !s.skip_permissions
}

/// A new session is in the default mode with medium effort, has both switches
/// off, and has no model and no conversation of its own. Restoring keeps all
/// that is stored, and gives a mode and an effort to a session without.
pub proof fn law_defaults(
    stored: SessionView,
    store: Map<Seq<char>, SessionView>,
    session_id: Seq<char>,
    s: SessionView,
)
    ensures
        is_fresh(SessionView::fresh()),
        found_as(Map::empty(), store, session_id, s) ==> types::stored_session(store, session_id)
            == Some(s),
        !store.contains_key(session_id) ==> types::stored_session(store, session_id) is None,
        stored.mode is Some && stored.effort is Some ==> stored.restored() == stored,
{
    if found_as(Map::empty(), store, session_id, s) {
        lemma_found(Map::empty(), store, session_id, s);
    }
}

/// What an edit does to the store: `Put` stands for the session from then on,
/// `Delete` takes it out, `Keep` changes nothing, and no other session is
/// touched.
pub proof fn law_edits(
    store: Map<Seq<char>, SessionView>,
    session_id: Seq<char>,
    session: SessionView,
    other: Seq<char>,
)
    requires
        other != session_id,
    ensures
        ({
            let put = (StoreEditView::Put { session_id, session }).applied(store);
            let gone = (StoreEditView::Delete { session_id }).applied(store);
            &&& put.contains_key(session_id) && put[session_id] == session
            &&& !gone.contains_key(session_id)
            &&& put.contains_key(other) == store.contains_key(other)
            &&& gone.contains_key(other) == store.contains_key(other)
            &&& store.contains_key(other) ==> put[other] == store[other] && gone[other]
                == store[other]
            &&& StoreEditView::Keep.applied(store) == store
        }),
{
}

/// `s` is in memory under `session_id`. Nothing else has come in or changed, and
/// others have had to go only where it is new and the cap was reached.
pub open spec fn put_in(
    before: Map<Seq<char>, SessionView>,
    after: Map<Seq<char>, SessionView>,
    session_id: Seq<char>,
    s: SessionView,
) -> bool {
    &&& after.contains_key(session_id)
    &&& after[session_id] == s
    &&& forall|other: Seq<char>|
        other != session_id && #[trigger] after.contains_key(other) ==> before.contains_key(other)
            && after[other] == before[other]
    &&& (before.contains_key(session_id) || before.dom().len() < 64) ==> forall|other: Seq<char>|
        #[trigger] before.contains_key(other) ==> after.contains_key(other)
    &&& (!before.contains_key(session_id) && before.dom().len() >= 64) ==> after.dom().len() == 64
}

pub proof fn lemma_put_in(
    before: Map<Seq<char>, SessionView>,
    after: Map<Seq<char>, SessionView>,
    session_id: Seq<char>,
    s: SessionView,
)
    requires
        adapter::taken_in(before, after, session_id, s),
    ensures
        put_in(before, after, session_id, s),
{
    if !before.contains_key(session_id) {
        let kept = after.remove(session_id);
        assert forall|other: Seq<char>|
            other != session_id && #[trigger] after.contains_key(other) implies
            before.contains_key(other) && after[other] == before[other] by {
            assert(kept.contains_key(other));
        }
        if before.dom().len() < 64 {
            assert forall|other: Seq<char>| #[trigger] before.contains_key(other) implies
                after.contains_key(other) by {
                assert(kept.contains_key(other));
            }
        } else {
            assert(after.dom() =~= kept.dom().insert(session_id));
        }
    }
}

/// Nothing but the sessions and the list of models may have changed.
pub open spec fn rest_kept(before: AdapterView, after: AdapterView) -> bool {
    &&& after.working_dir == before.working_dir
    &&& after.conversations_dir == before.conversations_dir
    &&& after.state_file == before.state_file
    &&& after.skip_naration == before.skip_naration
    &&& before.available_models.len() > 0 ==> after.available_models == before.available_models
}

/// The list of models is there to be shown: the one that was there, or else the
/// one that an empty list is filled with.
pub open spec fn models_shown(before: AdapterView, after: AdapterView, lists: ListsView) -> bool {
    after.available_models == if before.available_models.len() > 0 {
        before.available_models
    } else {
        models::chosen_models(lists).0
    }
}

/// A session that is loaded is told step by step: each update that the database
/// gives of its conversation is passed on once and in order, whatever step the
/// session was at, and then the request is answered. The session goes on from
/// the last step, in memory and in the store.
pub proof fn law_load_replays_all_steps(
    before: AdapterView,
    after: AdapterView,
    id: serde_json::Value,
    params: JsonView,
    store: Map<Seq<char>, SessionView>,
    updates: Vec<serde_json::Value>,
    step: i64,
    lists: ListsView,
    r: LoadReplyView,
    session_id: Seq<char>,
    s: SessionView,
    i: int,
)
    requires
        handlers::loads(before, after, id, params, store, Some((updates, step)), lists, r),
        json::field(params, "sessionId"@) == Some(JsonView::Text(session_id)),
        session_id.len() > 0,
        found_as(before.sessions, store, session_id, s),
        s.conversation_id is Some,
    ensures
        r.messages.len() == updates.len() + 1,
        0 <= i < updates.len() ==> {
            &&& r.messages[i] is Notification
            &&& r.messages[i]->Notification_0.jsonrpc == "2.0"@
            &&& r.messages[i]->Notification_0.method == "session/update"@
            &&& json::field(r.messages[i]->Notification_0.params, "sessionId"@) == Some(
                JsonView::Text(session_id),
            )
            &&& json::field(r.messages[i]->Notification_0.params, "update"@) == Some(
                JsonView::Raw(updates@[i]),
            )
        },
        r.messages.last() is Response,
        is_result(
            r.messages.last()->Response_0,
            id,
            config::session_entry(session_id, s, after.available_models),
        ),
        r.edit == (StoreEditView::Put {
            session_id,
            session: SessionView { last_step_idx: step, ..s },
        }),
        put_in(
            before.sessions,
            after.sessions,
            session_id,
            SessionView { last_step_idx: step, ..s },
        ),
        models_shown(before, after, lists),
        rest_kept(before, after),
{
    law_session_id(params, session_id);
    lemma_found(before.sessions, store, session_id, s);
    reveal_strlit("sessionId");
    reveal_strlit("update");
    assert("sessionId"@.len() == 9);
    assert("update"@.len() == 6);
    lemma_put_in(
        before.sessions,
        after.sessions,
        session_id,
        SessionView { last_step_idx: step, ..s },
    );
    let all = handlers::update_messages(session_id, updates@);
    assert(all.len() == updates.len());
    if 0 <= i < updates.len() {
        assert(r.messages[i] == all[i]);
    }
}

/// Without a conversation, or without anything of it in the database, loading
/// is answered at once, and the session stays what it was.
pub proof fn law_load_without_steps(
    before: AdapterView,
    after: AdapterView,
    id: serde_json::Value,
    params: JsonView,
    store: Map<Seq<char>, SessionView>,
    replay: Option<(Vec<serde_json::Value>, i64)>,
    lists: ListsView,
    r: LoadReplyView,
    session_id: Seq<char>,
    s: SessionView,
)
    requires
        handlers::loads(before, after, id, params, store, replay, lists, r),
        json::field(params, "sessionId"@) == Some(JsonView::Text(session_id)),
        session_id.len() > 0,
        found_as(before.sessions, store, session_id, s),
        s.conversation_id is None || replay is None,
    ensures
        r.messages.len() == 1,
        r.messages[0] is Response,
        is_result(
            r.messages[0]->Response_0,
            id,
            config::session_entry(session_id, s, after.available_models),
        ),
        r.edit == StoreEditView::Keep,
        put_in(before.sessions, after.sessions, session_id, s),
        models_shown(before, after, lists),
        rest_kept(before, after),
{
    law_session_id(params, session_id);
    lemma_found(before.sessions, store, session_id, s);
    lemma_put_in(before.sessions, after.sessions, session_id, s);
}

/// No session has the id that a request names.
pub open spec fn is_unknown(
    sessions: Map<Seq<char>, SessionView>,
    store: Map<Seq<char>, SessionView>,
    session_id: Seq<char>,
) -> bool {
    !sessions.contains_key(session_id) && !store.contains_key(session_id)
}

/// Loading and resuming are refused where the request names no session, or one
/// that there is not, and nothing is changed.
pub proof fn law_load_and_resume_refused(
    before: AdapterView,
    after: AdapterView,
    id: serde_json::Value,
    params: JsonView,
    store: Map<Seq<char>, SessionView>,
    replay: Option<(Vec<serde_json::Value>, i64)>,
    lists: ListsView,
    load: LoadReplyView,
    resume: ResponseView,
    session_id: Seq<char>,
)
    ensures
        unnamed(params, "sessionId"@) && handlers::loads(
            before,
            after,
            id,
            params,
            store,
            replay,
            lists,
            load,
        ) ==> {
            &&& after == before
            &&& load.messages.len() == 1
            &&& load.messages[0] is Response
            &&& is_error(load.messages[0]->Response_0, id, -32602, "missing sessionId"@)
            &&& load.edit == StoreEditView::Keep
        },
        unnamed(params, "sessionId"@) && handlers::resumes(
            before,
            after,
            id,
            params,
            store,
            lists,
            resume,
        ) ==> after == before && is_error(resume, id, -32602, "missing sessionId"@),
        json::field(params, "sessionId"@) == Some(JsonView::Text(session_id)) && session_id.len()
            > 0 && is_unknown(before.sessions, store, session_id) && handlers::loads(
            before,
            after,
            id,
            params,
            store,
            replay,
            lists,
            load,
        ) ==> {
            &&& after == before
            &&& load.messages.len() == 1
            &&& load.messages[0] is Response
            &&& is_error(
                load.messages[0]->Response_0,
                id,
                -32000,
                "unknown sessionId: "@ + session_id,
            )
            &&& load.edit == StoreEditView::Keep
        },
        json::field(params, "sessionId"@) == Some(JsonView::Text(session_id)) && session_id.len()
            > 0 && is_unknown(before.sessions, store, session_id) && handlers::resumes(
            before,
            after,
            id,
            params,
            store,
            lists,
            resume,
        ) ==> after == before && is_error(
            resume,
            id,
            -32000,
            "unknown sessionId: "@ + session_id,
        ),
{
    lemma_error_fields();
    law_session_id(params, session_id);
}

/// A session that there is can be resumed, from memory or from the store, and is
/// shown as it is.
pub proof fn law_resume(
    before: AdapterView,
    after: AdapterView,
    id: serde_json::Value,
    params: JsonView,
    store: Map<Seq<char>, SessionView>,
    lists: ListsView,
    r: ResponseView,
    session_id: Seq<char>,
    s: SessionView,
)
    requires
        handlers::resumes(before, after, id, params, store, lists, r),
        json::field(params, "sessionId"@) == Some(JsonView::Text(session_id)),
        session_id.len() > 0,
        found_as(before.sessions, store, session_id, s),
    ensures
        is_result(r, id, config::session_entry(session_id, s, after.available_models)),
        put_in(before.sessions, after.sessions, session_id, s),
        models_shown(before, after, lists),
        rest_kept(before, after),
{
    law_session_id(params, session_id);
    lemma_found(before.sessions, store, session_id, s);
    lemma_put_in(before.sessions, after.sessions, session_id, s);
}

/// A new session is fresh and shown as such. No other session changes, others
/// go only where the cap was reached, and there are never more than it allows.
pub proof fn law_open(
    before: AdapterView,
    after: AdapterView,
    id: serde_json::Value,
    session_id: Seq<char>,
    lists: ListsView,
    r: ResponseView,
    other: Seq<char>,
)
    requires
        handlers::opens(before, after, id, session_id, lists, r),
        other != session_id,
    ensures
        after.sessions.contains_key(session_id),
        is_fresh(after.sessions[session_id]),
        is_result(
            r,
            id,
            config::session_entry(
                session_id,
                after.sessions[session_id],
                after.available_models,
            ),
        ),
        after.sessions.contains_key(other) ==> before.sessions.contains_key(other)
            && after.sessions[other] == before.sessions[other],
        before.sessions.dom().len() < 64 && before.sessions.contains_key(other)
            ==> after.sessions.contains_key(other),
        before.sessions.dom().len() >= 64 ==> 63 <= after.sessions.dom().len() <= 64,
        models_shown(before, after, lists),
        rest_kept(before, after),
{
    let kept = choose|kept: Map<Seq<char>, SessionView>| #[trigger]
        adapter::evicted(before.sessions, kept) && after.sessions == kept.insert(
            session_id,
            SessionView::fresh(),
        );
    assert(after.sessions.dom() =~= kept.dom().insert(session_id));
    if after.sessions.contains_key(other) {
        assert(kept.contains_key(other));
        assert(kept.dom().contains(other));
        assert(before.sessions.contains_key(other));
        assert(kept[other] == before.sessions[other]);
    }
    if before.sessions.dom().len() < 64 && before.sessions.contains_key(other) {
        assert(kept.contains_key(other));
    }
}

/// Forgetting a session takes it out of memory and asks for it to be taken out
/// of the store, whether it is there or not. Every other session stays.
pub proof fn law_delete(
    before: AdapterView,
    after: AdapterView,
    id: serde_json::Value,
    params: JsonView,
    r: ReplyView,
    session_id: Seq<char>,
    other: Seq<char>,
)
    requires
        handlers::deletes(before, after, id, params, r),
        other != session_id,
    ensures
        json::field(params, "sessionId"@) == Some(JsonView::Text(session_id)) && session_id.len()
            > 0 ==> {
            &&& is_result(r.response, id, JsonView::Object(Map::empty()))
            &&& r.edit == (StoreEditView::Delete { session_id })
            &&& !after.sessions.contains_key(session_id)
            &&& after.sessions.contains_key(other) == before.sessions.contains_key(other)
            &&& before.sessions.contains_key(other) ==> after.sessions[other]
                == before.sessions[other]
        },
        unnamed(params, "sessionId"@) ==> {
            &&& is_error(r.response, id, -32602, "missing sessionId"@)
            &&& r.edit == StoreEditView::Keep
            &&& after == before
        },
        rest_kept(before, after),
        after.available_models == before.available_models,
{
    lemma_error_fields();
    law_session_id(params, session_id);
}

/// Selecting a model changes the model of the session that the request names,
/// in memory and in the store, and nothing else of it.
pub proof fn law_select_model(
    before: AdapterView,
    after: AdapterView,
    id: serde_json::Value,
    params: JsonView,
    store: Map<Seq<char>, SessionView>,
    r: ReplyView,
    session_id: Seq<char>,
    model_id: Seq<char>,
    s: SessionView,
)
    requires
        handlers::selects_model(before, after, id, params, store, r),
        json::field(params, "sessionId"@) == Some(JsonView::Text(session_id)),
        json::field(params, "modelId"@) == Some(JsonView::Text(model_id)),
        session_id.len() > 0,
        model_id.len() > 0,
    ensures
        found_as(before.sessions, store, session_id, s) ==> {
            let n = after.sessions[session_id];
            &&& put_in(before.sessions, after.sessions, session_id, n)
            &&& n.model_id == Some(model_id)
            &&& n.conversation_id == s.conversation_id
            &&& n.last_step_idx == s.last_step_idx
            &&& n.mode == s.mode
            &&& n.effort == s.effort
            &&& n.sandbox == s.sandbox
            &&& n.skip_permissions == s.skip_permissions
            &&& r.edit == (StoreEditView::Put { session_id, session: n })
            &&& is_result(r.response, id, JsonView::Object(Map::empty()))
        },
        is_unknown(before.sessions, store, session_id) ==> {
            &&& is_error(r.response, id, -32000, "unknown sessionId: "@ + session_id)
            &&& r.edit == StoreEditView::Keep
            &&& after == before
        },
        rest_kept(before, after),
        after.available_models == before.available_models,
{
    lemma_error_fields();
    law_session_id(params, session_id);
    if found_as(before.sessions, store, session_id, s) {
        lemma_found(before.sessions, store, session_id, s);
        lemma_put_in(
            before.sessions,
            after.sessions,
            session_id,
            SessionView { model_id: Some(model_id), ..s },
        );
    }
}

/// Selecting a model is refused where the session or the model is not named.
pub proof fn law_select_model_refused(
    before: AdapterView,
    after: AdapterView,
    id: serde_json::Value,
    params: JsonView,
    store: Map<Seq<char>, SessionView>,
    r: ReplyView,
)
    requires
        handlers::selects_model(before, after, id, params, store, r),
        unnamed(params, "sessionId"@) || unnamed(params, "modelId"@),
    ensures
        is_error(r.response, id, -32602, "missing sessionId or modelId"@),
        r.edit == StoreEditView::Keep,
        after == before,
{
    lemma_error_fields();
}

/// The value that a request sets an option to is the text in its field `value`,
/// or what a truth value there stands for.
pub proof fn law_requested_value(params: JsonView, value: Seq<char>)
    ensures
        json::field(params, "value"@) == Some(JsonView::Text(value)) ==> handlers::requested_value(
            params,
        ) == value,
        json::field(params, "value"@) == Some(JsonView::Bool(true)) ==> handlers::requested_value(
            params,
        ) == "on"@,
        json::field(params, "value"@) == Some(JsonView::Bool(false)) ==> handlers::requested_value(
            params,
        ) == "off"@,
        json::field(params, "value"@) is None ==> handlers::requested_value(params).len() == 0,
        types::on_off(true) == "on"@,
        types::on_off(false) == "off"@,
{
}

/// A request asks for the value `value`: as a text, or as a truth value.
pub open spec fn asks_for(params: JsonView, value: Seq<char>) -> bool {
    match json::field(params, "value"@) {
        Some(JsonView::Text(s)) => value == s,
        Some(JsonView::Bool(b)) => value == if b {
            "on"@
        } else {
            "off"@
        },
        _ => false,
    }
}

/// Setting an option changes the session that the request names, in memory and
/// in the store, to what the option makes of it, and shows all options. A value
/// that is refused changes nothing.
pub proof fn law_set_option(
    before: AdapterView,
    after: AdapterView,
    id: serde_json::Value,
    params: JsonView,
    store: Map<Seq<char>, SessionView>,
    lists: ListsView,
    r: ReplyView,
    session_id: Seq<char>,
    config_id: Seq<char>,
    value: Seq<char>,
    s: SessionView,
)
    requires
        handlers::sets_option(before, after, id, params, store, lists, r),
        json::field(params, "sessionId"@) == Some(JsonView::Text(session_id)),
        json::field(params, "configId"@) == Some(JsonView::Text(config_id)),
        asks_for(params, value),
        session_id.len() > 0,
        config_id.len() > 0,
        value.len() > 0,
    ensures
        found_as(before.sessions, store, session_id, s) ==> match config::configured(
            s,
            config_id,
            value,
        ) {
            Ok(next) => {
                &&& models_shown(before, after, lists)
                &&& put_in(before.sessions, after.sessions, session_id, next)
                &&& r.edit == (StoreEditView::Put { session_id, session: next })
                &&& r.response.result is Some
                &&& is_result(r.response, id, r.response.result->0)
                &&& json::field(r.response.result->0, "configOptions"@) == Some(
                    JsonView::List(config::config_options(next, after.available_models)),
                )
            },
            Err(message) => {
                &&& after.available_models == before.available_models
                &&& put_in(before.sessions, after.sessions, session_id, s)
                &&& r.edit == StoreEditView::Keep
                &&& is_error(r.response, id, -32602, message)
            },
        },
        is_unknown(before.sessions, store, session_id) ==> {
            &&& is_error(r.response, id, -32000, "unknown sessionId: "@ + session_id)
            &&& r.edit == StoreEditView::Keep
            &&& after == before
        },
        rest_kept(before, after),
{
    lemma_error_fields();
    law_session_id(params, session_id);
    law_requested_value(params, value);
    if found_as(before.sessions, store, session_id, s) {
        lemma_found(before.sessions, store, session_id, s);
        match config::configured(s, config_id, value) {
            Ok(next) => {
                lemma_put_in(before.sessions, after.sessions, session_id, next);
            },
            Err(_) => {
                lemma_put_in(before.sessions, after.sessions, session_id, s);
            },
        }
    }
}

/// Setting an option is refused where the session, the option or the value is
/// not named.
pub proof fn law_set_option_refused(
    before: AdapterView,
    after: AdapterView,
    id: serde_json::Value,
    params: JsonView,
    store: Map<Seq<char>, SessionView>,
    lists: ListsView,
    r: ReplyView,
)
    requires
        handlers::sets_option(before, after, id, params, store, lists, r),
        unnamed(params, "sessionId"@) || unnamed(params, "configId"@) || (unnamed(
            params,
            "value"@,
        ) && !(json::field(params, "value"@) is Some && json::field(params, "value"@)->0 is Bool)),
    ensures
        is_error(r.response, id, -32602, "missing sessionId, configId, or value"@),
        r.edit == StoreEditView::Keep,
        after == before,
{
    lemma_error_fields();
}

/// A text, or null where there is none.
pub open spec fn shown_text(v: Option<JsonView>, o: Option<Seq<char>>) -> bool {
    match o {
        Some(s) => v == Some(JsonView::Text(s)),
        None => v == Some(JsonView::Null),
    }
}

/// The stored sessions are listed one by one, each with its id and with what is
/// stored of it.
pub proof fn law_listing(
    id: serde_json::Value,
    keys: Seq<Seq<char>>,
    store: Map<Seq<char>, SessionView>,
    i: int,
)
    requires
        0 <= i < keys.len(),
    ensures
        ({
            let r = handlers::listing(id, keys, store);
            let list = json::field(r.result->0, "sessions"@)->0->List_0;
            let v = list[i];
            let s = store[keys[i]];
            &&& r.result is Some
            &&& is_result(r, id, r.result->0)
            &&& json::field(r.result->0, "sessions"@) == Some(JsonView::List(list))
            &&& list.len() == keys.len()
            &&& json::field(v, "sessionId"@) == Some(JsonView::Text(keys[i]))
            &&& shown_text(json::field(v, "conversationId"@), s.conversation_id)
            &&& shown_text(json::field(v, "modelId"@), s.model_id)
            &&& json::field(v, "mode"@) == Some(
                JsonView::Text(
                    match s.mode {
                        Some(mode) => mode,
                        None => "default"@,
                    },
                ),
            )
            &&& json::field(v, "effort"@) == Some(
                JsonView::Text(
                    match s.effort {
                        Some(effort) => effort,
                        None => "medium"@,
                    },
                ),
            )
            &&& json::field(v, "sandbox"@) == Some(JsonView::Bool(s.sandbox))
            &&& json::field(v, "skipPermissions"@) == Some(JsonView::Bool(s.skip_permissions))
            &&& json::field(v, "lastStepIdx"@) == Some(JsonView::Int(s.last_step_idx))
        }),
{
    reveal_strlit("sessionId");
    reveal_strlit("conversationId");
    reveal_strlit("modelId");
    reveal_strlit("mode");
    reveal_strlit("effort");
    reveal_strlit("sandbox");
    reveal_strlit("skipPermissions");
    reveal_strlit("lastStepIdx");
    assert("sessionId"@.len() == 9);
    assert("conversationId"@.len() == 14);
    assert("modelId"@.len() == 7 && "modelId"@[0] == 'm');
    assert("mode"@.len() == 4);
    assert("effort"@.len() == 6);
    assert("sandbox"@.len() == 7 && "sandbox"@[0] == 's');
    assert("skipPermissions"@.len() == 15);
    assert("lastStepIdx"@.len() == 11);
    assert(handlers::listed_sessions(keys, store)[i] == handlers::listed_session(
        keys[i],
        store[keys[i]],
    ));
}

/// What the adapter says of itself when it is asked to initialize.
pub proof fn law_initialize(version: Seq<char>)
    ensures
        ({
            let v = handlers::capabilities(version);
            let info = json::field(v, "agentInfo"@)->0;
            let can = json::field(v, "agentCapabilities"@)->0;
            let prompts = json::field(can, "promptCapabilities"@)->0;
            let sessions = json::field(can, "sessionCapabilities"@)->0;
            let yes = Some(JsonView::Bool(true));
            &&& json::field(v, "protocolVersion"@) == Some(JsonView::Int(1))
            &&& json::field(v, "authMethods"@) == Some(JsonView::List(Seq::empty()))
            &&& json::field(info, "name"@) == Some(JsonView::Text("agy"@))
            &&& json::field(info, "version"@) == Some(JsonView::Text(version))
            &&& json::field(can, "loadSession"@) == yes
            &&& json::field(can, "streaming"@) == yes
            &&& json::field(prompts, "text"@) == yes
            &&& json::field(sessions, "resume"@) == yes
            &&& json::field(sessions, "list"@) == yes
            &&& json::field(sessions, "delete"@) == yes
        }),
{
    reveal_strlit("protocolVersion");
    reveal_strlit("agentInfo");
    reveal_strlit("agentCapabilities");
    reveal_strlit("authMethods");
    reveal_strlit("name");
    reveal_strlit("version");
    reveal_strlit("loadSession");
    reveal_strlit("streaming");
    reveal_strlit("promptCapabilities");
    reveal_strlit("sessionCapabilities");
    reveal_strlit("resume");
    reveal_strlit("list");
    reveal_strlit("delete");
    assert("protocolVersion"@.len() == 15);
    assert("agentInfo"@.len() == 9);
    assert("agentCapabilities"@.len() == 17);
    assert("authMethods"@.len() == 11);
    assert("name"@.len() == 4);
    assert("version"@.len() == 7);
    assert("loadSession"@.len() == 11);
    assert("streaming"@.len() == 9);
    assert("promptCapabilities"@.len() == 18);
    assert("sessionCapabilities"@.len() == 19);
    assert("resume"@.len() == 6 && "resume"@[0] == 'r');
    assert("list"@.len() == 4);
    assert("delete"@.len() == 6 && "delete"@[0] == 'd');
}

/// The store is asked exactly where a request names a session that is not in
/// memory. Where it is not asked, what is in it makes no difference.
pub proof fn law_store_needed(
    sessions: Map<Seq<char>, SessionView>,
    params: JsonView,
    store: Map<Seq<char>, SessionView>,
    other_store: Map<Seq<char>, SessionView>,
    session_id: Seq<char>,
)
    requires
        json::field(params, "sessionId"@) == Some(JsonView::Text(session_id)),
        session_id.len() > 0,
    ensures
        handlers::store_needed(sessions, params) <==> !sessions.contains_key(session_id),
        !handlers::store_needed(sessions, params) ==> adapter::known_session(
            sessions,
            store,
            session_id,
        ) == adapter::known_session(sessions, other_store, session_id),
{
    law_session_id(params, session_id);
}

/// A request that names no session needs nothing of the store.
pub proof fn law_nothing_needed(
    sessions: Map<Seq<char>, SessionView>,
    store: Map<Seq<char>, SessionView>,
    params: JsonView,
)
    requires
        unnamed(params, "sessionId"@),
    ensures
        !handlers::store_needed(sessions, params),
        handlers::replay_due(sessions, store, params) is None,
{
}

/// The conversation to replay is that of the session which the request names.
pub proof fn law_replay_due(
    sessions: Map<Seq<char>, SessionView>,
    store: Map<Seq<char>, SessionView>,
    params: JsonView,
    session_id: Seq<char>,
    s: SessionView,
)
    requires
        json::field(params, "sessionId"@) == Some(JsonView::Text(session_id)),
        session_id.len() > 0,
    ensures
        found_as(sessions, store, session_id, s) ==> handlers::replay_due(sessions, store, params)
            == s.conversation_id,
        is_unknown(sessions, store, session_id) ==> handlers::replay_due(
            sessions,
            store,
            params,
        ) is None,
{
    law_session_id(params, session_id);
    if found_as(sessions, store, session_id, s) {
        lemma_found(sessions, store, session_id, s);
    }
}

/// Restoring takes a session from the store into memory, in place of one that
/// may be there, and tells whether the store has it.
pub proof fn law_restore(
    before: AdapterView,
    after: AdapterView,
    store: Map<Seq<char>, SessionView>,
    session_id: Seq<char>,
    r: bool,
    s: SessionView,
)
    requires
        adapter::restores(before, after, store, session_id, r),
    ensures
        r <==> store.contains_key(session_id),
        found_as(Map::empty(), store, session_id, s) ==> put_in(
            before.sessions,
            after.sessions,
            session_id,
            s,
        ),
        !r ==> after == before,
        rest_kept(before, after),
        after.available_models == before.available_models,
{
    if found_as(Map::empty(), store, session_id, s) {
        lemma_found(Map::empty(), store, session_id, s);
        lemma_put_in(before.sessions, after.sessions, session_id, s);
    }
}

/// When a session is bound anew, its conversation, step and model change in the
/// store, and what else is known of it is kept. No other session is touched.
pub proof fn law_rebound(
    sessions: Map<Seq<char>, SessionView>,
    store: Map<Seq<char>, SessionView>,
    session_id: Seq<char>,
    conversation_id: Option<Seq<char>>,
    last_step_idx: i64,
    model_id: Option<Seq<char>>,
    s: SessionView,
    other: Seq<char>,
)
    requires
        other != session_id,
        found_as(sessions, store, session_id, s) || (is_unknown(sessions, store, session_id)
            && is_fresh(s)),
    ensures
        ({
            let after = adapter::rebound(
                sessions,
                store,
                session_id,
                conversation_id,
                last_step_idx,
                model_id,
            );
            let n = after[session_id];
            &&& after.contains_key(session_id)
            &&& n.conversation_id == conversation_id
            &&& n.last_step_idx == last_step_idx
            &&& n.model_id == model_id
            &&& n.mode == s.mode
            &&& n.effort == s.effort
            &&& n.sandbox == s.sandbox
            &&& n.skip_permissions == s.skip_permissions
            &&& after.contains_key(other) == store.contains_key(other)
            &&& store.contains_key(other) ==> after[other] == store[other]
        }),
{
    if found_as(sessions, store, session_id, s) {
        lemma_found(sessions, store, session_id, s);
    }
}

/// Of a session, what is in memory is shown, and a fresh one where it is not
/// there.
pub proof fn law_snapshot(adapter: AdapterView, session_id: Seq<char>)
    ensures
        adapter.sessions.contains_key(session_id) ==> adapter.session_or_fresh(session_id)
            == adapter.sessions[session_id],
        !adapter.sessions.contains_key(session_id) ==> is_fresh(
            adapter.session_or_fresh(session_id),
        ),
{
}

/// A JSON object has under a name what its last field with that name holds, and
/// a list has its values in order.
pub proof fn law_json_view(fields: Seq<(String, Json)>, items: Seq<Json>, i: int, name: Seq<char>)
    ensures
        0 <= i < fields.len() && (forall|j: int|
            i < j < fields.len() ==> (#[trigger] fields[j]).0@ != fields[i].0@)
            ==> json::fields_view(fields).contains_key(fields[i].0@) && json::fields_view(
            fields,
        )[fields[i].0@] == fields[i].1.view(),
        (forall|j: int| 0 <= j < fields.len() ==> (#[trigger] fields[j]).0@ != name)
            ==> !json::fields_view(fields).contains_key(name),
        json::list_view(items).len() == items.len(),
        0 <= i < items.len() ==> json::list_view(items)[i] == items[i].view(),
    decreases fields.len(),
{
    json::lemma_list_view(items);
    if fields.len() > 0 {
        let rest = fields.drop_last();
        law_json_view(rest, items, i, name);
        assert(fields.last() == fields[fields.len() - 1]);
        if forall|j: int| 0 <= j < fields.len() ==> (#[trigger] fields[j]).0@ != name {
            assert forall|j: int| 0 <= j < rest.len() implies (#[trigger] rest[j]).0@ != name by {
                assert(rest[j] == fields[j]);
            }
        }
        if 0 <= i < rest.len() && (forall|j: int|
            i < j < fields.len() ==> (#[trigger] fields[j]).0@ != fields[i].0@) {
            assert forall|j: int| i < j < rest.len() implies (#[trigger] rest[j]).0@
                != rest[i].0@ by {
                assert(rest[j] == fields[j]);
            }
        }
    }
}

/// The stored sessions are what was read, and none where nothing could be read.
/// What was read of a conversation is an answer where it has a text.
pub proof fn law_what_was_read(store: SessionStore, delta: ConversationDelta)
    ensures
        adapter::store_or_empty(Some(store)) == store@,
        adapter::store_or_empty(None).dom().len() == 0,
        adapter::new_text(None) is None,
        match adapter::new_text(Some(delta)) {
            Some((t, step)) => delta.text == Some(t) && step == delta.max_step_idx,
            None => delta.text is None,
        },
{
    assert(Map::<Seq<char>, SessionView>::empty().dom() =~= Set::empty());
}

} // verus!
