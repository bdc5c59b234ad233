//! What holds of a turn: of the command line that agy is run with, and of the
//! answer when it has ended.
use vstd::prelude::*;

use crate::adapter::AdapterView;
use crate::handlers;
use crate::json;
use crate::json::JsonView;
use crate::log_scan;
use crate::prompt;
use crate::prompt::{PlanView, TurnEnd};
use crate::request_laws;
use crate::text;
use crate::text_laws;
use crate::types::{SessionView, StoreEditView};

verus! {

/// Each setting of a session adds its own words to the command line, and each
/// can be taken out of it by itself. The default mode adds none.
pub proof fn law_session_args(s: SessionView, word: Seq<char>)
    ensures
        prompt::session_args(
            SessionView {
                conversation_id: None,
                model_id: None,
                mode: None,
                sandbox: false,
                skip_permissions: false,
                ..s
            },
        ) == seq![
            "--effort"@,
            match s.effort {
                Some(effort) => effort,
                None => "medium"@,
            },
        ],
        prompt::session_args(SessionView { conversation_id: Some(word), ..s }) == seq![
            "--conversation"@,
            word,
        ] + prompt::session_args(SessionView { conversation_id: None, ..s }),
        prompt::session_args(
            SessionView { conversation_id: None, model_id: Some(word), ..s },
        ) == seq!["--model"@, word] + prompt::session_args(
            SessionView { conversation_id: None, model_id: None, ..s },
        ),
        word != "default"@ ==> prompt::session_args(
            SessionView { conversation_id: None, model_id: None, mode: Some(word), ..s },
        ) == seq!["--mode"@, word] + prompt::session_args(
            SessionView { conversation_id: None, model_id: None, mode: None, ..s },
        ),
        prompt::session_args(SessionView { mode: Some("default"@), ..s }) == prompt::session_args(
            SessionView { mode: None, ..s },
        ),
        prompt::session_args(SessionView { skip_permissions: true, ..s }) == prompt::session_args(
            SessionView { skip_permissions: false, ..s },
        ).push("--dangerously-skip-permissions"@),
        prompt::session_args(
            SessionView { sandbox: true, skip_permissions: false, ..s },
        ) == prompt::session_args(
            SessionView { sandbox: false, skip_permissions: false, ..s },
        ).push("--sandbox"@),
{
    let off = SessionView { sandbox: false, skip_permissions: false, ..s };
    let on = SessionView { sandbox: true, ..off };
    assert(prompt::session_args(on) =~= prompt::session_args(off).push("--sandbox"@));
    let strict = SessionView { skip_permissions: false, ..s };
    let free = SessionView { skip_permissions: true, ..s };
    assert(prompt::session_args(free) =~= prompt::session_args(strict).push(
        "--dangerously-skip-permissions"@,
    ));
    let c = SessionView { conversation_id: None, ..s };
    assert(prompt::session_args(SessionView { conversation_id: Some(word), ..s }) =~= seq![
        "--conversation"@,
        word,
    ] + prompt::session_args(c));
    let m = SessionView { model_id: None, ..c };
    assert(prompt::session_args(SessionView { model_id: Some(word), ..c }) =~= seq![
        "--model"@,
        word,
    ] + prompt::session_args(m));
    if word != "default"@ {
        assert(prompt::session_args(SessionView { mode: Some(word), ..m }) =~= seq![
            "--mode"@,
            word,
        ] + prompt::session_args(SessionView { mode: None, ..m }));
    }
    let bare = SessionView { mode: None, sandbox: false, skip_permissions: false, ..m };
    let effort = match s.effort {
        Some(effort) => effort,
        None => "medium"@,
    };
    assert(prompt::session_args(bare) =~= seq!["--effort"@, effort]);
}

/// None of the texts that a session passes on is the flag itself.
pub open spec fn no_text_is(s: SessionView, flag: Seq<char>) -> bool {
    &&& s.conversation_id != Some(flag)
    &&& s.model_id != Some(flag)
    &&& s.mode != Some(flag)
    &&& s.effort != Some(flag)
}

proof fn lemma_args_contain(s: SessionView, flag: Seq<char>)
    requires
        no_text_is(s, flag),
        flag == "--sandbox"@ || flag == "--dangerously-skip-permissions"@,
    ensures
        prompt::session_args(s).contains(flag) <==> (flag == "--sandbox"@ && s.sandbox) || (flag
            == "--dangerously-skip-permissions"@ && s.skip_permissions),
{
    reveal_strlit("--conversation");
    reveal_strlit("--model");
    reveal_strlit("--mode");
    reveal_strlit("--effort");
    reveal_strlit("--sandbox");
    reveal_strlit("--dangerously-skip-permissions");
    reveal_strlit("default");
    reveal_strlit("medium");
    assert("--conversation"@.len() == 14);
    assert("--model"@.len() == 7);
    assert("--mode"@.len() == 6);
    assert("--effort"@.len() == 8);
    assert("--sandbox"@.len() == 9);
    assert("--dangerously-skip-permissions"@.len() == 30);
    assert("default"@.len() == 7);
    assert("medium"@.len() == 6);
    let args = prompt::session_args(s);
    let n = args.len();
    if s.skip_permissions {
        assert(args[n - 1] == "--dangerously-skip-permissions"@);
        if s.sandbox {
            assert(args[n - 2] == "--sandbox"@);
        }
    } else if s.sandbox {
        assert(args[n - 1] == "--sandbox"@);
    }
}

/// The sandbox is asked for exactly where it is on, and permissions are skipped
/// exactly where the session says so.
pub proof fn law_flags_are_passed_on(s: SessionView)
    requires
        no_text_is(s, "--sandbox"@),
        no_text_is(s, "--dangerously-skip-permissions"@),
    ensures
        prompt::session_args(s).contains("--sandbox"@) <==> s.sandbox,
        prompt::session_args(s).contains("--dangerously-skip-permissions"@) <==> s.skip_permissions,
{
    reveal_strlit("--sandbox");
    reveal_strlit("--dangerously-skip-permissions");
    assert("--sandbox"@.len() == 9);
    assert("--dangerously-skip-permissions"@.len() == 30);
    lemma_args_contain(s, "--sandbox"@);
    lemma_args_contain(s, "--dangerously-skip-permissions"@);
}

/// Each argument has its place: the working directory, the directories that are
/// added, the extra words, what the session asks for, and the prompt.
pub proof fn law_turn_args_places(
    working_dir: Seq<char>,
    dirs: Seq<Seq<char>>,
    extra: Seq<Seq<char>>,
    session: Option<SessionView>,
    text: Seq<char>,
    i: int,
)
    ensures
        ({
            let args = prompt::turn_args(working_dir, dirs, extra, session, text);
            let own = match session {
                Some(s) => prompt::session_args(s),
                None => Seq::empty(),
            };
            let e = 2 + 2 * dirs.len() as int;
            let s = e + extra.len();
            let p = s + own.len();
            &&& args.len() == p + 2
            &&& args[0] == "--add-dir"@
            &&& args[1] == working_dir
            &&& 0 <= i < dirs.len() ==> args[2 + 2 * i] == "--add-dir"@ && args[3 + 2 * i]
                == dirs[i]
            &&& 0 <= i < extra.len() ==> args[e + i] == extra[i]
            &&& 0 <= i < own.len() ==> args[s + i] == own[i]
            &&& args[p] == "-p"@
            &&& args[p + 1] == text
        }),
{
    lemma_dir_args(dirs, i);
}

proof fn lemma_dir_args(dirs: Seq<Seq<char>>, i: int)
    ensures
        prompt::dir_args(dirs).len() == 2 * dirs.len(),
        0 <= i < dirs.len() ==> prompt::dir_args(dirs)[2 * i] == "--add-dir"@ && prompt::dir_args(
            dirs,
        )[2 * i + 1] == dirs[i],
    decreases dirs.len(),
{
    if dirs.len() > 0 {
        lemma_dir_args(dirs.drop_last(), i);
    }
}

/// Switching one of the two flags of a session changes one word of the command
/// line, and nothing else.
pub proof fn law_one_flag_one_word(
    working_dir: Seq<char>,
    dirs: Seq<Seq<char>>,
    extra: Seq<Seq<char>>,
    s: SessionView,
    text: Seq<char>,
)
    ensures
        ({
            let with = |t: SessionView|
                prompt::turn_args(working_dir, dirs, extra, Some(t), text);
            let n = with(SessionView { sandbox: false, ..s }).len() as int;
            let m = with(SessionView { skip_permissions: false, ..s }).len() as int;
            &&& with(SessionView { sandbox: true, ..s }) == with(
                SessionView { sandbox: false, ..s },
            ).insert(
                if s.skip_permissions {
                    n - 3
                } else {
                    n - 2
                },
                "--sandbox"@,
            )
            &&& with(SessionView { skip_permissions: true, ..s }) == with(
                SessionView { skip_permissions: false, ..s },
            ).insert(m - 2, "--dangerously-skip-permissions"@)
        }),
{
    let a = SessionView { sandbox: true, ..s };
    let b = SessionView { sandbox: false, ..s };
    law_session_args(s, text);
    law_session_args(a, text);
    law_session_args(b, text);
    let x = prompt::turn_args(working_dir, dirs, extra, Some(a), text);
    let y = prompt::turn_args(working_dir, dirs, extra, Some(b), text);
    let n = y.len() as int;
    assert(x =~= y.insert(
        if s.skip_permissions {
            n - 3
        } else {
            n - 2
        },
        "--sandbox"@,
    ));
    let c = SessionView { skip_permissions: true, ..s };
    let d = SessionView { skip_permissions: false, ..s };
    let u = prompt::turn_args(working_dir, dirs, extra, Some(c), text);
    let v = prompt::turn_args(working_dir, dirs, extra, Some(d), text);
    assert(u =~= v.insert(v.len() - 2, "--dangerously-skip-permissions"@));
}

/// The texts of the blocks of a prompt are taken block by block: that of a
/// block with a text, and nothing of any other.
pub proof fn law_block_texts(a: Seq<JsonView>, b: Seq<JsonView>, block: JsonView)
    ensures
        prompt::block_texts(a + b) == prompt::block_texts(a) + prompt::block_texts(b),
        prompt::block_texts(seq![block]) == match json::field(block, "text"@) {
            Some(JsonView::Text(s)) => seq![s],
            _ => Seq::empty(),
        },
        prompt::block_texts(Seq::empty()).len() == 0,
    decreases b.len(),
{
    reveal_with_fuel(prompt::block_texts, 2);
    assert(seq![block].drop_last() =~= Seq::empty());
    if b.len() == 0 {
        assert(a + b =~= a);
        assert(prompt::block_texts(a) + prompt::block_texts(b) =~= prompt::block_texts(a));
    } else {
        law_block_texts(a, b.drop_last(), block);
        assert((a + b).drop_last() =~= a + b.drop_last());
        assert((a + b).last() == b.last());
        assert(prompt::block_texts(a + b) =~= prompt::block_texts(a) + prompt::block_texts(b));
    }
}

/// Of a list, the texts are taken in order, and nothing but texts.
pub proof fn law_list_texts(a: Seq<JsonView>, b: Seq<JsonView>, item: JsonView)
    ensures
        prompt::list_texts(a + b) == prompt::list_texts(a) + prompt::list_texts(b),
        prompt::list_texts(seq![item]) == match item {
            JsonView::Text(s) => seq![s],
            _ => Seq::empty(),
        },
        prompt::list_texts(Seq::empty()).len() == 0,
    decreases b.len(),
{
    reveal_with_fuel(prompt::list_texts, 2);
    assert(seq![item].drop_last() =~= Seq::empty());
    if b.len() == 0 {
        assert(a + b =~= a);
        assert(prompt::list_texts(a) + prompt::list_texts(b) =~= prompt::list_texts(a));
    } else {
        law_list_texts(a, b.drop_last(), item);
        assert((a + b).drop_last() =~= a + b.drop_last());
        assert((a + b).last() == b.last());
        assert(prompt::list_texts(a + b) =~= prompt::list_texts(a) + prompt::list_texts(b));
    }
}

/// The prompt is what the texts of its blocks say, each on lines of its own,
/// without the white space around it. A request without blocks has none.
pub proof fn law_prompt_text(
    params: JsonView,
    blocks: Seq<JsonView>,
    pre: Seq<char>,
    core: Seq<char>,
    post: Seq<char>,
)
    requires
        text_laws::all_white(pre),
        text_laws::all_white(post),
        core.len() > 0,
        !text::is_white_space(core.first()),
        !text::is_white_space(core.last()),
    ensures
        json::field(params, "prompt"@) == Some(JsonView::List(blocks)) && text::join(
            prompt::block_texts(blocks),
            "\n"@,
        ) == pre + core + post ==> prompt::prompt_text(params) == core,
        text::join(prompt::block_texts(blocks), "\n"@) == pre && json::field(params, "prompt"@)
            == Some(JsonView::List(blocks)) ==> prompt::prompt_text(params).len() == 0,
        !(json::field(params, "prompt"@) is Some && json::field(params, "prompt"@)->0 is List)
            ==> prompt::prompt_text(params).len() == 0,
{
    text_laws::law_trim(pre, core, post);
    text_laws::law_trim_blank(Seq::empty());
    text_laws::law_trim_blank(pre);
    law_block_texts(Seq::empty(), Seq::empty(), params);
    text_laws::law_join(Seq::empty(), Seq::empty(), Seq::empty(), "\n"@);
    if !(json::field(params, "prompt"@) is Some && json::field(params, "prompt"@)->0 is List) {
        assert(prompt::block_texts(Seq::empty()) =~= Seq::empty());
        assert(text::join(Seq::empty(), "\n"@) =~= Seq::empty());
    }
}

/// The directories that a request adds are the texts in its list of them.
pub proof fn law_added_dirs(params: JsonView, items: Seq<JsonView>)
    ensures
        json::field(params, "additionalDirectories"@) == Some(JsonView::List(items))
            ==> prompt::added_dirs(params) == prompt::list_texts(items),
        !(json::field(params, "additionalDirectories"@) is Some && json::field(
            params,
            "additionalDirectories"@,
        )->0 is List) ==> prompt::added_dirs(params).len() == 0,
{
    law_list_texts(Seq::empty(), Seq::empty(), params);
}

/// A turn is planned from where its session is: it streams on behind the last
/// step of the session's conversation, and looks for the conversation only where
/// the session has none yet.
pub proof fn law_plan(
    adapter: AdapterView,
    session: Option<SessionView>,
    params: JsonView,
    extra: Option<Seq<Seq<char>>>,
    session_id: Seq<char>,
)
    requires
        json::field(params, "sessionId"@) == Some(JsonView::Text(session_id)),
    ensures
        ({
            let r = prompt::plan(adapter, session, params, extra);
            &&& r.session_id == session_id
            &&& r.needs_snapshot <==> session is Some && session->0.conversation_id is None
            &&& r.extra_rejected <==> extra is None
            &&& extra is Some ==> r.args == prompt::turn_args(
                adapter.working_dir,
                prompt::added_dirs(params),
                extra->0,
                session,
                prompt::prompt_text(params),
            )
            &&& session is Some ==> {
                &&& r.state.conversation_id == session->0.conversation_id
                &&& r.state.base_step_idx == session->0.last_step_idx
                &&& r.state.last_step_idx == session->0.last_step_idx
            }
            &&& session is None ==> {
                &&& r.state.conversation_id is None
                &&& r.state.base_step_idx == -1
                &&& r.state.last_step_idx == -1
            }
            &&& !r.state.had_updates
            &&& r.state.agent_text_lengths.dom().len() == 0
            &&& r.state.thought_text_lengths.dom().len() == 0
            &&& r.state.emitted_tool_steps.len() == 0
            &&& r.state.last_title is None
            &&& r.state.child_pid is None
            &&& r.state.skip_naration == adapter.skip_naration
        }),
{
    request_laws::law_session_id(params, session_id);
    assert(Map::<i64, usize>::empty().dom() =~= Set::empty());
}

/// A turn is run in the session that the request names, whether it is in memory
/// or has to be taken from the store, and in none where there is no such
/// session.
pub proof fn law_prepared_turn(
    before: AdapterView,
    after: AdapterView,
    params: JsonView,
    store: Map<Seq<char>, SessionView>,
    extra: Seq<Seq<char>>,
    r: PlanView,
    session_id: Seq<char>,
    s: SessionView,
)
    requires
        prompt::prepares(before, after, params, store, Some(extra), r),
        json::field(params, "sessionId"@) == Some(JsonView::Text(session_id)),
        session_id.len() > 0,
    ensures
        request_laws::found_as(before.sessions, store, session_id, s) ==> {
            &&& request_laws::put_in(before.sessions, after.sessions, session_id, s)
            &&& r.args == prompt::turn_args(
                before.working_dir,
                prompt::added_dirs(params),
                extra,
                Some(s),
                prompt::prompt_text(params),
            )
            &&& r.state.conversation_id == s.conversation_id
            &&& r.state.base_step_idx == s.last_step_idx
            &&& r.needs_snapshot == s.conversation_id is None
        },
        !before.sessions.contains_key(session_id) && !store.contains_key(session_id) ==> {
            &&& after == before
            &&& r.args == prompt::turn_args(
                before.working_dir,
                prompt::added_dirs(params),
                extra,
                None,
                prompt::prompt_text(params),
            )
            &&& r.state.conversation_id is None
            &&& !r.needs_snapshot
        },
        r.session_id == session_id,
        after.working_dir == before.working_dir,
        after.state_file == before.state_file,
        after.available_models == before.available_models,
{
    request_laws::law_session_id(params, session_id);
    if request_laws::found_as(before.sessions, store, session_id, s) {
        request_laws::lemma_found(before.sessions, store, session_id, s);
        request_laws::lemma_put_in(before.sessions, after.sessions, session_id, s);
    }
}

/// A turn that names no session runs in none, and takes none from the store.
pub proof fn law_turn_without_session(
    before: AdapterView,
    after: AdapterView,
    params: JsonView,
    store: Map<Seq<char>, SessionView>,
    extra: Option<Seq<Seq<char>>>,
    r: PlanView,
)
    requires
        prompt::prepares(before, after, params, store, extra, r),
        request_laws::unnamed(params, "sessionId"@),
        !before.sessions.contains_key(Seq::empty()),
    ensures
        after == before,
        r == prompt::plan(before, None, params, extra),
{
    request_laws::law_session_id(params, Seq::empty());
    assert(handlers::session_id_of(params) =~= Seq::empty());
}

/// The environment adds the words of its command line, and none where it has no
/// such line. A line that cannot be split is told from one without words.
pub proof fn law_environment_words(line: Seq<char>, words: Seq<Seq<char>>)
    ensures
        prompt::environment_words(None) == Some(Seq::<Seq<char>>::empty()),
        crate::outside::shell_split(line) == Some(words) ==> prompt::environment_words(Some(line))
            == Some(words),
        crate::outside::shell_split(line) is None ==> prompt::environment_words(Some(line)) is None,
{
}

/// A turn that ended well and passed nothing on is an error exactly where the
/// logs tell of one, and then it is that one, whatever agy wrote and however its
/// status is shown.
pub proof fn law_swallowed_error_is_surfaced(
    status: Seq<char>,
    stderr: Seq<char>,
    swallowed: Option<Seq<char>>,
)
    ensures
        match log_scan::turn_error(false, true, false, status, stderr, swallowed) {
            Some((code, message)) => code == -32603 && swallowed == Some(message),
            None => swallowed is None,
        },
{
}

/// A turn that failed and passed nothing on is an error whatever the logs say:
/// with what agy wrote, without the white space behind it, or else with its
/// status.
pub proof fn law_failure_is_surfaced(
    status: Seq<char>,
    said: Seq<char>,
    white: Seq<char>,
    swallowed: Option<Seq<char>>,
)
    requires
        text_laws::all_white(white),
        said.len() > 0 ==> !text::is_white_space(said.last()),
    ensures
        match log_scan::turn_error(false, false, false, status, said + white, swallowed) {
            Some((code, message)) => {
                &&& code == -32000
                &&& (said + white).len() > 0 ==> message == "agy failed: "@ + said
                &&& (said + white).len() == 0 ==> message == "agy exited with status: "@ + status
            },
            None => false,
        },
{
    if said.len() > 0 {
        lemma_trim_said(said, white);
    } else {
        assert(said + white =~= white);
        text_laws::law_trim_blank(white);
        assert(text::trim_end(white) =~= said);
    }
}

proof fn lemma_trim_said(said: Seq<char>, white: Seq<char>)
    requires
        text_laws::all_white(white),
        said.len() > 0,
        !text::is_white_space(said.last()),
    ensures
        text::trim_end(said + white) == said,
    decreases white.len(),
{
    let s = said + white;
    if white.len() == 0 {
        assert(s =~= said);
    } else {
        assert(s.last() == white[white.len() - 1]);
        assert(s.drop_last() =~= said + white.drop_last());
        lemma_trim_said(said, white.drop_last());
    }
}

/// The logs are worth a look exactly where what they say makes a difference.
pub proof fn law_logs_matter(
    was_cancelled: bool,
    success: bool,
    had_updates: bool,
    status: Seq<char>,
    stderr: Seq<char>,
    swallowed: Seq<char>,
)
    ensures
        log_scan::logs_matter(was_cancelled, success, had_updates) <==> log_scan::turn_error(
            was_cancelled,
            success,
            had_updates,
            status,
            stderr,
            Some(swallowed),
        ) != log_scan::turn_error(was_cancelled, success, had_updates, status, stderr, None),
{
}

/// `r` is the result that a turn stopped for `reason`.
pub open spec fn stopped(
    r: crate::types::ResponseView,
    id: serde_json::Value,
    reason: Seq<char>,
) -> bool {
    &&& r.result is Some
    &&& request_laws::is_result(r, id, r.result->0)
    &&& json::field(r.result->0, "stopReason"@) == Some(JsonView::Text(reason))
}

/// How each end of a turn is answered.
pub proof fn law_turn_is_answered(id: serde_json::Value, end: TurnEnd)
    ensures
        ({
            let r = prompt::turn_response(id, end);
            let updated = end.streamed || end.flushed > 0;
            match end.exit {
                Err(e) => request_laws::is_error(
                    r,
                    id,
                    -32000,
                    "failed to wait for agy: "@ + e@,
                ),
                Ok(exit) => {
                    &&& end.was_cancelled ==> stopped(r, id, "cancelled"@)
                    &&& !end.was_cancelled && updated && exit.success ==> stopped(
                        r,
                        id,
                        "end_turn"@,
                    )
                    &&& !end.was_cancelled && updated && !exit.success ==> stopped(r, id, "error"@)
                    &&& !end.was_cancelled && !updated && !exit.success ==> request_laws::is_error(
                        r,
                        id,
                        -32000,
                        if end.stderr_text@.len() == 0 {
                            "agy exited with status: "@ + exit.display@
                        } else {
                            "agy failed: "@ + text::trim_end(end.stderr_text@)
                        },
                    )
                    &&& !end.was_cancelled && !updated && exit.success ==> match end.swallowed_error {
                        Some(details) => request_laws::is_error(r, id, -32603, details@),
                        None => stopped(r, id, "end_turn"@),
                    }
                },
            }
        }),
{
    request_laws::lemma_error_fields();
}

/// A turn that could not be started is answered with the reason.
pub proof fn law_not_started(id: serde_json::Value, error: Seq<char>)
    ensures
        request_laws::is_error(
            prompt::not_started(id, error),
            id,
            -32000,
            "failed to run agy: "@ + error,
        ),
{
    request_laws::lemma_error_fields();
}

/// After a turn, the session has the conversation that it had, or else the one
/// that the turn turned out to be in, and the step that was reached there. This
/// and nothing else is changed, in memory and in the store.
pub proof fn law_bound_turn(
    before: AdapterView,
    after: AdapterView,
    session_id: Seq<char>,
    end: TurnEnd,
    edit: StoreEditView,
    other: Seq<char>,
)
    requires
        prompt::binds(before, after, session_id, end, edit),
        other != session_id,
    ensures
        after.sessions.dom() == before.sessions.dom(),
        before.sessions.contains_key(other) ==> after.sessions[other] == before.sessions[other],
        after.working_dir == before.working_dir,
        after.available_models == before.available_models,
        after.state_file == before.state_file,
        after.conversations_dir == before.conversations_dir,
        after.skip_naration == before.skip_naration,
        !before.sessions.contains_key(session_id) || end.conversation_id is None ==> edit
            == StoreEditView::Keep,
        before.sessions.contains_key(session_id) ==> {
            let s = before.sessions[session_id];
            let n = after.sessions[session_id];
            &&& n.model_id == s.model_id
            &&& n.mode == s.mode
            &&& n.effort == s.effort
            &&& n.sandbox == s.sandbox
            &&& n.skip_permissions == s.skip_permissions
            &&& s.conversation_id is Some ==> n.conversation_id == s.conversation_id
            &&& match end.conversation_id {
                Some(c) => {
                    &&& s.conversation_id is None ==> n.conversation_id == Some(c@)
                    &&& n.last_step_idx == end.last_step_idx
                    &&& edit == (StoreEditView::Put { session_id, session: n })
                },
                None => n == s,
            }
        },
{
    if before.sessions.contains_key(session_id) {
        assert(after.sessions.dom() =~= before.sessions.dom());
    }
}

} // verus!
