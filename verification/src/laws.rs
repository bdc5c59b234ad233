//! What holds of the sessions, their options and the answers to the client,
//! whatever is asked for.
use vstd::prelude::*;

use crate::adapter;
use crate::adapter::{AdapterView, MAX_SESSIONS};
use crate::config;
use crate::handlers;
use crate::json;
use crate::json::JsonView;
use crate::models;
use crate::models::ListsView;
use crate::paths;
use crate::paths::FilePathView;
use crate::prompt;
use crate::prompt::TurnEnd;
use crate::types;
use crate::types::{
    ResponseView, SessionView, StoreEditView, CONFIG_ID_EFFORT, CONFIG_ID_MODE, CONFIG_ID_MODEL,
    CONFIG_ID_SANDBOX, CONFIG_ID_SKIP_PERMISSIONS,
};

verus! {

/// A session that is put into the store is found there again: as it was where
/// its mode and effort were set, and with the defaults in their place where
/// not. The other sessions stay what they were.
pub proof fn law_put_then_restore(
    store: Map<Seq<char>, SessionView>,
    sessions: Map<Seq<char>, SessionView>,
    session_id: Seq<char>,
    session: SessionView,
    other: Seq<char>,
)
    requires
        !sessions.contains_key(session_id),
        other != session_id,
    ensures
        ({
            let after = (StoreEditView::Put { session_id, session }).applied(store);
            &&& adapter::known_session(sessions, after, session_id) == Some(session.restored())
            &&& session.configured() ==> adapter::known_session(sessions, after, session_id)
                == Some(session)
            &&& types::stored_session(after, other) == types::stored_session(store, other)
        }),
{
}

/// A session that is restored has a mode and an effort, and restoring it again
/// changes nothing.
pub proof fn law_restored_is_configured(session: SessionView)
    ensures
        session.restored().configured(),
        session.restored().restored() == session.restored(),
        SessionView::fresh().configured(),
        SessionView::fresh().restored() == SessionView::fresh(),
{
}

/// The mode and the effort are set, to values that can be chosen.
pub open spec fn valid_options(session: SessionView) -> bool {
    &&& session.configured()
    &&& config::modes().contains(session.mode->0)
    &&& config::efforts().contains(session.effort->0)
}

/// A new session has options that can be chosen. Neither an option that is set
/// nor a turn changes that, nor that a mode and an effort are set at all.
pub proof fn law_options_stay_valid(
    session: SessionView,
    config_id: Seq<char>,
    value: Seq<char>,
    end: TurnEnd,
)
    ensures
        valid_options(SessionView::fresh()),
        match config::configured(session, config_id, value) {
            Ok(next) => {
                &&& valid_options(session) ==> valid_options(next)
                &&& session.configured() ==> next.configured()
            },
            Err(_) => true,
        },
        valid_options(session) ==> valid_options(prompt::after_turn(session, end)),
        session.configured() ==> prompt::after_turn(session, end).configured(),
{
    assert(config::modes()[0] == types::DEFAULT_MODE@);
    assert(config::efforts()[1] == types::DEFAULT_EFFORT@);
}

/// A session that is deleted is known no more, neither in memory nor in the
/// store. The others are what they were.
pub proof fn law_deleted_is_unknown(
    sessions: Map<Seq<char>, SessionView>,
    store: Map<Seq<char>, SessionView>,
    session_id: Seq<char>,
    other: Seq<char>,
)
    requires
        other != session_id,
    ensures
        ({
            let after = (StoreEditView::Delete { session_id }).applied(store);
            let held = sessions.remove(session_id);
            &&& adapter::known_session(held, after, session_id) is None
            &&& adapter::known_session(held, after, other) == adapter::known_session(
                sessions,
                store,
                other,
            )
        }),
{
}

/// The store plays no part for a session that is in memory.
pub proof fn law_memory_goes_first(
    sessions: Map<Seq<char>, SessionView>,
    store: Map<Seq<char>, SessionView>,
    other_store: Map<Seq<char>, SessionView>,
    session_id: Seq<char>,
)
    requires
        sessions.contains_key(session_id),
    ensures
        adapter::known_session(sessions, store, session_id) == adapter::known_session(
            sessions,
            other_store,
            session_id,
        ),
        prompt::turn_session(sessions, store, session_id) == prompt::turn_session(
            sessions,
            other_store,
            session_id,
        ),
{
}

/// There are never more sessions in memory than the cap allows: neither when
/// one is taken in from the store or replaced, nor when a new one is opened,
/// nor when one is deleted.
pub proof fn law_session_cap(
    before: Map<Seq<char>, SessionView>,
    after: Map<Seq<char>, SessionView>,
    session_id: Seq<char>,
    session: SessionView,
)
    requires
        before.dom().finite(),
        before.dom().len() <= MAX_SESSIONS,
        adapter::taken_in(before, after, session_id, session) || handlers::opened(
            before,
            after,
            session_id,
        ) || after == before.remove(session_id),
    ensures
        after.dom().finite(),
        after.dom().len() <= MAX_SESSIONS,
{
    if after == before.remove(session_id) {
        assert(after.dom() =~= before.dom().remove(session_id));
    } else if handlers::opened(before, after, session_id) {
        let kept = choose|kept: Map<Seq<char>, SessionView>| #[trigger]
            adapter::evicted(before, kept) && after == kept.insert(
                session_id,
                SessionView::fresh(),
            );
        assert(after.dom() =~= kept.dom().insert(session_id));
        if before.dom().len() < MAX_SESSIONS {
            assert(kept == before);
        }
    } else if before.contains_key(session_id) {
        assert(after.dom() =~= before.dom());
    } else {
        let kept = after.remove(session_id);
        assert(after.dom() =~= kept.dom().insert(session_id));
    }
}

/// As long as there is room, no session has to go for another.
pub proof fn law_no_eviction_with_room(
    before: Map<Seq<char>, SessionView>,
    after: Map<Seq<char>, SessionView>,
    session_id: Seq<char>,
    session: SessionView,
)
    requires
        before.dom().len() < MAX_SESSIONS,
    ensures
        adapter::taken_in(before, after, session_id, session) ==> after == before.insert(
            session_id,
            session,
        ),
        handlers::opened(before, after, session_id) ==> after == before.insert(
            session_id,
            SessionView::fresh(),
        ),
{
    if adapter::taken_in(before, after, session_id, session) && !before.contains_key(session_id) {
        assert(after =~= before.insert(session_id, session));
    }
}

/// Whatever had to go, the session itself is there, and each of the others is
/// either gone or as it was.
pub proof fn law_others_untouched(
    before: Map<Seq<char>, SessionView>,
    after: Map<Seq<char>, SessionView>,
    session_id: Seq<char>,
    session: SessionView,
    other: Seq<char>,
)
    requires
        adapter::taken_in(before, after, session_id, session),
        other != session_id,
    ensures
        after.contains_key(session_id),
        after[session_id] == session,
        after.contains_key(other) ==> before.contains_key(other) && after[other] == before[other],
{
    if !before.contains_key(session_id) {
        let kept = after.remove(session_id);
        if after.contains_key(other) {
            assert(kept.contains_key(other));
            assert(before.contains_key(other));
        }
    }
}

/// An answer to the request `id`, with a result or an error and not both.
pub open spec fn answers(response: ResponseView, id: serde_json::Value) -> bool {
    &&& response.jsonrpc == "2.0"@
    &&& response.id == id
    &&& response.result is Some <==> response.error is None
}

/// Every answer, to a turn too, belongs to its request and has either a result
/// or an error.
pub proof fn law_one_answer(
    id: serde_json::Value,
    result: JsonView,
    code: i64,
    message: Seq<char>,
    end: TurnEnd,
)
    ensures
        answers(ResponseView::ok(id, result), id),
        answers(ResponseView::err(id, code, message), id),
        answers(prompt::turn_response(id, end), id),
{
}

/// The last message when a session is loaded is the answer; all before it are
/// the steps so far, each once and in order.
pub proof fn law_load_ends_with_the_answer(
    id: serde_json::Value,
    session_id: Seq<char>,
    session: SessionView,
    replay: Option<(Seq<serde_json::Value>, i64)>,
    models: Seq<Seq<char>>,
)
    ensures
        ({
            let messages = handlers::loaded(id, session_id, session, replay, models).1.messages;
            let steps = match replay {
                Some((updates, _)) => updates,
                None => Seq::empty(),
            };
            &&& messages.len() == steps.len() + 1
            &&& messages.last() is Response
            &&& answers(messages.last()->Response_0, id)
            &&& forall|i: int|
                0 <= i < messages.len() - 1 ==> {
                    &&& (#[trigger] messages[i]) is Notification
                    &&& messages[i]->Notification_0.params == JsonView::Object(
                        map![
                            "sessionId"@ => JsonView::Text(session_id),
                            "update"@ => JsonView::Raw(steps[i]),
                        ],
                    )
                }
        }),
{
}

proof fn lemma_option_entry(
    id: Seq<char>,
    name: Seq<char>,
    description: Seq<char>,
    category: Seq<char>,
    current: Seq<char>,
    options: Seq<JsonView>,
)
    ensures
        json::field(
            config::option_entry(id, name, description, category, current, options),
            "currentValue"@,
        ) == Some(JsonView::Text(current)),
        json::field(
            config::option_entry(id, name, description, category, current, options),
            "id"@,
        ) == Some(JsonView::Text(id)),
{
    reveal_strlit("id");
    reveal_strlit("name");
    reveal_strlit("description");
    reveal_strlit("category");
    reveal_strlit("type");
    reveal_strlit("currentValue");
    reveal_strlit("options");
    assert("id"@.len() == 2);
    assert("name"@.len() == 4);
    assert("description"@.len() == 11);
    assert("category"@.len() == 8);
    assert("type"@.len() == 4);
    assert("currentValue"@.len() == 12);
    assert("options"@.len() == 7);
}

/// The place of an option in the list of options.
pub open spec fn option_place(config_id: Seq<char>) -> int {
    if config_id == CONFIG_ID_MODE@ {
        0
    } else if config_id == CONFIG_ID_MODEL@ {
        1
    } else if config_id == CONFIG_ID_EFFORT@ {
        2
    } else if config_id == CONFIG_ID_SANDBOX@ {
        3
    } else {
        4
    }
}

/// The value that is shown once an option has been set to `value`.
pub open spec fn shown_value(config_id: Seq<char>, value: Seq<char>) -> Seq<char> {
    if config_id == CONFIG_ID_SANDBOX@ || config_id == CONFIG_ID_SKIP_PERMISSIONS@ {
        types::on_off(config::switch_position(value)->0)
    } else {
        value
    }
}

proof fn lemma_config_ids()
    ensures
        CONFIG_ID_MODE@ != CONFIG_ID_MODEL@,
        CONFIG_ID_MODE@ != CONFIG_ID_EFFORT@,
        CONFIG_ID_MODE@ != CONFIG_ID_SANDBOX@,
        CONFIG_ID_MODE@ != CONFIG_ID_SKIP_PERMISSIONS@,
        CONFIG_ID_MODEL@ != CONFIG_ID_EFFORT@,
        CONFIG_ID_MODEL@ != CONFIG_ID_SANDBOX@,
        CONFIG_ID_MODEL@ != CONFIG_ID_SKIP_PERMISSIONS@,
        CONFIG_ID_EFFORT@ != CONFIG_ID_SANDBOX@,
        CONFIG_ID_EFFORT@ != CONFIG_ID_SKIP_PERMISSIONS@,
        CONFIG_ID_SANDBOX@ != CONFIG_ID_SKIP_PERMISSIONS@,
{
    reveal_strlit("mode");
    reveal_strlit("model");
    reveal_strlit("effort");
    reveal_strlit("sandbox");
    reveal_strlit("skip_permissions");
    assert(CONFIG_ID_MODE@.len() == 4);
    assert(CONFIG_ID_MODEL@.len() == 5);
    assert(CONFIG_ID_EFFORT@.len() == 6);
    assert(CONFIG_ID_SANDBOX@.len() == 7);
    assert(CONFIG_ID_SKIP_PERMISSIONS@.len() == 16);
}

/// An option that has been set is shown with its new value from then on, also
/// when the session has been stored and restored. No other option is shown
/// differently.
pub proof fn law_option_is_shown(
    session: SessionView,
    config_id: Seq<char>,
    value: Seq<char>,
    models: Seq<Seq<char>>,
    other: int,
)
    requires
        config::configured(session, config_id, value) is Ok,
        0 <= other < 5,
        other != option_place(config_id),
    ensures
        ({
            let next = config::configured(session, config_id, value)->Ok_0;
            let entry = config::config_options(next, models)[option_place(config_id)];
            &&& json::field(entry, "id"@) == Some(JsonView::Text(config_id))
            &&& json::field(entry, "currentValue"@) == Some(
                JsonView::Text(shown_value(config_id, value)),
            )
            &&& config::config_options(next.restored(), models) == config::config_options(
                next,
                models,
            )
            &&& config::config_options(next, models)[other] == config::config_options(
                session,
                models,
            )[other]
        }),
{
    lemma_config_ids();
    let next = config::configured(session, config_id, value)->Ok_0;
    lemma_option_entry(
        CONFIG_ID_MODE@,
        "Mode"@,
        "Controls how the agent applies edits and requests review"@,
        "mode"@,
        types::or_default(next.mode, types::DEFAULT_MODE@),
        config::mode_choices(),
    );
    lemma_option_entry(
        CONFIG_ID_MODEL@,
        "Model"@,
        "Model used for this session"@,
        "model"@,
        models::current_model(next.model_id, models),
        models::model_entries(models, "value"@),
    );
    lemma_option_entry(
        CONFIG_ID_EFFORT@,
        "Effort"@,
        "Reasoning effort / thinking level"@,
        "thought_level"@,
        types::or_default(next.effort, types::DEFAULT_EFFORT@),
        config::effort_choices(),
    );
    lemma_option_entry(
        CONFIG_ID_SANDBOX@,
        "Sandbox"@,
        "Run tool commands in the OS sandbox"@,
        "_safety"@,
        types::on_off(next.sandbox),
        config::switch_choices(),
    );
    lemma_option_entry(
        CONFIG_ID_SKIP_PERMISSIONS@,
        "Skip Permissions"@,
        "Auto-approve all tool permission requests (dangerous)"@,
        "_safety"@,
        types::on_off(next.skip_permissions),
        config::switch_choices(),
    );
    assert(config::config_options(next.restored(), models) =~= config::config_options(
        next,
        models,
    ));
}

/// What is shown of a switch is accepted when it is sent back, and sets the
/// switch to where it was.
pub proof fn law_switch_round_trip(on: bool)
    ensures
        config::switch_position(types::on_off(on)) == Some(on),
        config::switches().contains(types::on_off(on)),
{
    reveal_strlit("on");
    reveal_strlit("off");
    reveal_strlit("true");
    reveal_strlit("false");
    reveal_strlit("1");
    reveal_strlit("0");
    assert(config::switches()[0] == "off"@);
    assert(config::switches()[1] == "on"@);
}

/// A request that sets an option to a truth value asks for what one with the
/// text of the switch asks for.
pub proof fn law_truth_value_is_a_switch(fields: Map<Seq<char>, JsonView>, on: bool)
    ensures
        handlers::requested_value(
            JsonView::Object(fields.insert("value"@, JsonView::Bool(on))),
        ) == handlers::requested_value(
            JsonView::Object(fields.insert("value"@, JsonView::Text(types::on_off(on)))),
        ),
{
}

/// There are two requests that select a model, and they do the same to the
/// session.
pub proof fn law_two_ways_to_select_a_model(session: SessionView, model_id: Seq<char>)
    ensures
        config::configured(session, CONFIG_ID_MODEL@, model_id) == Ok::<SessionView, Seq<char>>(
            SessionView { model_id: Some(model_id), ..session },
        ),
{
}

/// A session whose option was set is found again with all its options by an
/// adapter that has nothing in memory, also before it has a conversation.
pub proof fn law_options_survive_a_restart(
    store: Map<Seq<char>, SessionView>,
    session_id: Seq<char>,
    session: SessionView,
    config_id: Seq<char>,
    value: Seq<char>,
)
    requires
        session.configured(),
        config::configured(session, config_id, value) is Ok,
    ensures
        ({
            let next = config::configured(session, config_id, value)->Ok_0;
            let after = (StoreEditView::Put { session_id, session: next }).applied(store);
            adapter::known_session(Map::empty(), after, session_id) == Some(next)
        }),
{
}

/// The value that is shown of an option is accepted when it is sent back, and
/// changes nothing.
pub proof fn law_shown_value_changes_nothing(
    session: SessionView,
    config_id: Seq<char>,
    value: Seq<char>,
)
    requires
        config::configured(session, config_id, value) is Ok,
    ensures
        ({
            let next = config::configured(session, config_id, value)->Ok_0;
            config::configured(next, config_id, shown_value(config_id, value)) == Ok::<
                SessionView,
                Seq<char>,
            >(next)
        }),
{
    lemma_config_ids();
    law_switch_round_trip(true);
    law_switch_round_trip(false);
}

/// There is always a model on offer, whatever agy lists and whatever is cached.
/// An adapter that has filled its list keeps it.
pub proof fn law_models_are_offered(adapter: AdapterView, lists: ListsView, later: ListsView)
    ensures
        models::chosen_models(lists).0.len() > 0,
        adapter.with_models(lists).available_models.len() > 0,
        adapter.with_models(lists).with_models(later) == adapter.with_models(lists),
{
}

/// A turn leaves alone what the client has set, and never moves a session to
/// another conversation.
pub proof fn law_turn_keeps_settings(session: SessionView, end: TurnEnd)
    ensures
        ({
            let next = prompt::after_turn(session, end);
            &&& next.model_id == session.model_id
            &&& next.mode == session.mode
            &&& next.effort == session.effort
            &&& next.sandbox == session.sandbox
            &&& next.skip_permissions == session.skip_permissions
            &&& session.conversation_id is Some ==> next.conversation_id
                == session.conversation_id
            &&& end.conversation_id is None ==> next == session
        }),
{
}

/// The first turn of a session finds its conversation; each turn after it goes
/// on in that conversation, from the step that was reached.
pub proof fn law_next_turn_goes_on(
    adapter: AdapterView,
    session: SessionView,
    end: TurnEnd,
    params: JsonView,
    extra: Option<Seq<Seq<char>>>,
)
    requires
        session.conversation_id is None,
        end.conversation_id is Some,
    ensures
        ({
            let next = prompt::after_turn(session, end);
            let first = prompt::plan(adapter, Some(session), params, extra);
            let second = prompt::plan(adapter, Some(next), params, extra);
            let args = prompt::session_args(next);
            &&& first.needs_snapshot
            &&& !second.needs_snapshot
            &&& second.state.conversation_id == Some(end.conversation_id->0@)
            &&& second.state.base_step_idx == end.last_step_idx
            &&& args[0] == "--conversation"@
            &&& args[1] == end.conversation_id->0@
        }),
{
}

/// After a session has been loaded, its next turn goes on behind the steps that
/// were passed on.
pub proof fn law_turn_goes_on_after_load(
    id: serde_json::Value,
    session_id: Seq<char>,
    session: SessionView,
    updates: Seq<serde_json::Value>,
    step: i64,
    adapter: AdapterView,
    params: JsonView,
    extra: Option<Seq<Seq<char>>>,
)
    ensures
        ({
            let done = handlers::loaded(
                id,
                session_id,
                session,
                Some((updates, step)),
                adapter.available_models,
            );
            let state = prompt::plan(adapter, Some(done.0), params, extra).state;
            &&& state.base_step_idx == step
            &&& state.conversation_id == session.conversation_id
            &&& done.1.edit == (StoreEditView::Put { session_id, session: done.0 })
        }),
{
}

/// A cancelled turn is answered as such, if its process could be waited for.
pub proof fn law_cancelled_turn(id: serde_json::Value, end: TurnEnd)
    requires
        end.was_cancelled,
        end.exit is Ok,
    ensures
        prompt::turn_response(id, end) == ResponseView::ok(
            id,
            handlers::single("stopReason"@, JsonView::Text("cancelled"@)),
        ),
{
}

/// agy is always run in the working directory, and the prompt comes last. The
/// default mode is not passed on: it makes no difference whether it is set.
pub proof fn law_turn_args(
    working_dir: Seq<char>,
    dirs: Seq<Seq<char>>,
    extra: Seq<Seq<char>>,
    session: Option<SessionView>,
    prompt_text: Seq<char>,
)
    ensures
        ({
            let args = prompt::turn_args(working_dir, dirs, extra, session, prompt_text);
            let n = args.len() as int;
            &&& n >= 4
            &&& args[0] == "--add-dir"@
            &&& args[1] == working_dir
            &&& args[n - 2] == "-p"@
            &&& args[n - 1] == prompt_text
        }),
        match session {
            Some(s) => types::or_default(s.mode, types::DEFAULT_MODE@) == types::DEFAULT_MODE@
                ==> prompt::turn_args(working_dir, dirs, extra, session, prompt_text)
                == prompt::turn_args(
                working_dir,
                dirs,
                extra,
                Some(SessionView { mode: None, ..s }),
                prompt_text,
            ),
            None => true,
        },
{
}

/// What the environment adds is left out as a whole where it cannot be split.
pub proof fn law_unsplit_words_are_left_out(
    adapter: AdapterView,
    session: Option<SessionView>,
    params: JsonView,
)
    ensures
        prompt::plan(adapter, session, params, None).args == prompt::plan(
            adapter,
            session,
            params,
            Some(Seq::empty()),
        ).args,
{
}

proof fn lemma_stem(stem: Seq<char>, ext: Seq<char>)
    requires
        stem.len() > 0,
        stem != "."@,
        forall|i: int| 0 <= i < ext.len() ==> ext[i] != '.',
        ext.len() > 0,
    ensures
        paths::file_stem(stem.push('.') + ext) == stem,
{
    let name = stem.push('.') + ext;
    lemma_last_dot(stem, ext);
    reveal_strlit("..");
    assert(name.len() >= 3);
    assert(name.take(stem.len() as int) =~= stem);
}

proof fn lemma_last_dot(stem: Seq<char>, ext: Seq<char>)
    requires
        forall|i: int| 0 <= i < ext.len() ==> ext[i] != '.',
    ensures
        paths::last_dot(stem.push('.') + ext) == Some(stem.len() as int),
    decreases ext.len(),
{
    let name = stem.push('.') + ext;
    if ext.len() == 0 {
        assert(name =~= stem.push('.'));
    } else {
        assert(name.last() == ext.last());
        assert(ext.last() == ext[ext.len() - 1]);
        assert(name.drop_last() =~= stem.push('.') + ext.drop_last());
        lemma_last_dot(stem, ext.drop_last());
    }
}

/// The files that the adapter keeps are in one directory and have names of
/// their own: the store, the file that it is first written to, its lock, the
/// cache of models, and the file that the cache is first written to.
pub proof fn law_files_are_apart(home: Option<Seq<char>>)
    ensures
        ({
            let state = adapter::state_file_in(home);
            let cache = adapter::models_cache_beside(state);
            &&& cache.dir == state.dir
            &&& paths::replace_extension(state.name, "tmp"@) == "sessions.tmp"@
            &&& paths::replace_extension(state.name, "lock"@) == "sessions.lock"@
            &&& paths::replace_extension(cache.name, "tmp"@) == "models_cache.tmp"@
            &&& state.name != "sessions.tmp"@
            &&& state.name != "sessions.lock"@
            &&& state.name != cache.name
            &&& state.name != "models_cache.tmp"@
            &&& cache.name != "sessions.tmp"@
            &&& cache.name != "sessions.lock"@
            &&& cache.name != "models_cache.tmp"@
            &&& "sessions.tmp"@ != "sessions.lock"@
            &&& "sessions.tmp"@ != "models_cache.tmp"@
            &&& "sessions.lock"@ != "models_cache.tmp"@
        }),
{
    reveal_strlit("sessions.json");
    reveal_strlit("sessions.tmp");
    reveal_strlit("sessions.lock");
    reveal_strlit("models_cache.json");
    reveal_strlit("models_cache.tmp");
    reveal_strlit("tmp");
    reveal_strlit("lock");
    reveal_strlit("json");
    reveal_strlit("sessions");
    reveal_strlit("models_cache");
    reveal_strlit(".");
    assert("sessions"@.len() == 8);
    assert("models_cache"@.len() == 12);
    assert("."@.len() == 1);
    lemma_stem("sessions"@, "json"@);
    lemma_stem("models_cache"@, "json"@);
    assert("sessions"@.push('.') + "json"@ =~= "sessions.json"@);
    assert("models_cache"@.push('.') + "json"@ =~= "models_cache.json"@);
    assert("sessions"@.push('.') + "tmp"@ =~= "sessions.tmp"@);
    assert("sessions"@.push('.') + "lock"@ =~= "sessions.lock"@);
    assert("models_cache"@.push('.') + "tmp"@ =~= "models_cache.tmp"@);
    reveal_strlit("..");
    assert(".."@.len() == 2);
    assert("sessions.json"@.len() == 13);
    assert("models_cache.json"@.len() == 17);
    assert("tmp"@.len() == 3);
    assert("lock"@.len() == 4);
    assert("sessions.json"@[9] == 'j');
    assert("sessions.tmp"@[9] == 't');
    assert("sessions.lock"@[9] == 'l');
}

/// Files of one directory with different names are different files.
pub proof fn law_names_tell_files_apart(dir: Seq<char>, name: Seq<char>, other: Seq<char>)
    requires
        name != other,
        name.len() > 0 ==> name.first() != '/',
        other.len() > 0 ==> other.first() != '/',
    ensures
        (FilePathView { dir, name }).path() != (FilePathView { dir, name: other }).path(),
{
    let a = paths::join_path(dir, name);
    let b = paths::join_path(dir, other);
    if a == b {
        let k = a.len() - name.len();
        assert(b.len() - other.len() == k);
        assert(name =~= a.skip(k));
        assert(other =~= b.skip(k));
    }
}

} // verus!
