//! A turn of the conversation: what agy is run with, and how the turn is
//! answered when it has ended.
use vstd::prelude::*;

use crate::adapter;
use crate::adapter::{Adapter, AdapterView};
use crate::handlers;
use crate::json;
use crate::json::{Json, JsonView};
use crate::log_scan;
use crate::models;
use crate::outside;
use crate::text;
use crate::types;
use crate::types::{
    JsonRpcResponse, ResponseView, Session, SessionStore, SessionView, StoreEdit, StoreEditView,
    StreamingState, StreamingView, DEFAULT_EFFORT, DEFAULT_MODE,
};

verus! {

/// The texts of those blocks of a prompt that have a text.
pub open spec fn block_texts(blocks: Seq<JsonView>) -> Seq<Seq<char>>
    decreases blocks.len(),
{
    if blocks.len() == 0 {
        Seq::empty()
    } else {
        match json::field(blocks.last(), "text"@) {
            Some(JsonView::Text(s)) => block_texts(blocks.drop_last()).push(s),
            _ => block_texts(blocks.drop_last()),
        }
    }
}

/// The texts among the values of a list.
pub open spec fn list_texts(items: Seq<JsonView>) -> Seq<Seq<char>>
    decreases items.len(),
{
    if items.len() == 0 {
        Seq::empty()
    } else {
        match items.last() {
            JsonView::Text(s) => list_texts(items.drop_last()).push(s),
            _ => list_texts(items.drop_last()),
        }
    }
}

/// The values of the list in the field `name`; none where there is no list.
pub open spec fn field_list(params: JsonView, name: Seq<char>) -> Seq<JsonView> {
    match json::field(params, name) {
        Some(JsonView::List(items)) => items,
        _ => Seq::empty(),
    }
}

/// The prompt of a request: the texts of its blocks on lines of their own,
/// without white space around them.
pub open spec fn prompt_text(params: JsonView) -> Seq<char> {
    text::trim(text::join(block_texts(field_list(params, "prompt"@)), "\n"@))
}

/// The directories that a request adds.
pub open spec fn added_dirs(params: JsonView) -> Seq<Seq<char>> {
    list_texts(field_list(params, "additionalDirectories"@))
}

/// The arguments that add directories.
pub open spec fn dir_args(dirs: Seq<Seq<char>>) -> Seq<Seq<char>>
    decreases dirs.len(),
{
    if dirs.len() == 0 {
        Seq::empty()
    } else {
        dir_args(dirs.drop_last()).push("--add-dir"@).push(dirs.last())
    }
}

/// An argument with its value, where there is one.
pub open spec fn opt_arg(flag: Seq<char>, value: Option<Seq<char>>) -> Seq<Seq<char>> {
    match value {
        Some(v) => seq![flag, v],
        None => Seq::empty(),
    }
}

/// A flag that is set or not.
pub open spec fn flag_arg(flag: Seq<char>, on: bool) -> Seq<Seq<char>> {
    if on {
        seq![flag]
    } else {
        Seq::empty()
    }
}

/// The arguments that a session asks for.
pub open spec fn session_args(session: SessionView) -> Seq<Seq<char>> {
    let mode = types::or_default(session.mode, DEFAULT_MODE@);
    opt_arg("--conversation"@, session.conversation_id) + opt_arg("--model"@, session.model_id)
        + opt_arg(
        "--mode"@,
        if mode == DEFAULT_MODE@ {
            None
        } else {
            Some(mode)
        },
    ) + seq!["--effort"@, types::or_default(session.effort, DEFAULT_EFFORT@)] + flag_arg(
        "--sandbox"@,
        session.sandbox,
    ) + flag_arg("--dangerously-skip-permissions"@, session.skip_permissions)
}

/// The arguments that agy is run with.
pub open spec fn turn_args(
    working_dir: Seq<char>,
    dirs: Seq<Seq<char>>,
    extra: Seq<Seq<char>>,
    session: Option<SessionView>,
    prompt: Seq<char>,
) -> Seq<Seq<char>> {
    seq!["--add-dir"@, working_dir] + dir_args(dirs) + extra + (match session {
        Some(s) => session_args(s),
        None => Seq::empty(),
    }) + seq!["-p"@, prompt]
}

/// The session that a turn is in. A request without a session id takes none
/// from the store.
pub open spec fn turn_session(
    sessions: Map<Seq<char>, SessionView>,
    store: Map<Seq<char>, SessionView>,
    session_id: Seq<char>,
) -> Option<SessionView> {
    if session_id.len() == 0 && !sessions.contains_key(session_id) {
        None
    } else {
        adapter::known_session(sessions, store, session_id)
    }
}

/// Adds an argument.
fn push_arg(args: &mut Vec<String>, arg: &str)
    ensures
        text::texts(final(args)@) == text::texts(old(args)@).push(arg@),
{
    let ghost before = text::texts(args@);
    args.push(arg.to_owned());
    assert(text::texts(args@) =~= before.push(arg@));
}

/// Adds an argument with its value, where there is one.
fn push_opt(args: &mut Vec<String>, flag: &str, value: &Option<String>)
    ensures
        text::texts(final(args)@) == text::texts(old(args)@) + opt_arg(
            flag@,
            text::opt_text(*value),
        ),
{
    let ghost before = text::texts(args@);
    if let Some(v) = value {
        push_arg(args, flag);
        push_arg(args, v.as_str());
    }
    assert(text::texts(args@) =~= before + opt_arg(flag@, text::opt_text(*value)));
}

/// Adds a flag, where it is set.
fn push_flag(args: &mut Vec<String>, flag: &str, on: bool)
    ensures
        text::texts(final(args)@) == text::texts(old(args)@) + flag_arg(flag@, on),
{
    let ghost before = text::texts(args@);
    if on {
        push_arg(args, flag);
    }
    assert(text::texts(args@) =~= before + flag_arg(flag@, on));
}

/// The texts of those blocks of a prompt that have a text.
fn collect_block_texts(blocks: &Vec<Json>) -> (r: Vec<String>)
    ensures
        text::texts(r@) == block_texts(json::list_view(blocks@)),
{
    let mut r: Vec<String> = Vec::new();
    let ghost all = json::list_view(blocks@);
    proof {
        json::lemma_list_view(blocks@);
    }
    let mut i: usize = 0;
    assert(all.take(0) =~= Seq::empty());
    assert(text::texts(r@) =~= Seq::empty());
    while i < blocks.len()
        invariant
            i <= blocks.len() == all.len(),
            forall|j: int| 0 <= j < blocks.len() ==> (#[trigger] all[j]) == blocks@[j].view(),
            text::texts(r@) == block_texts(all.take(i as int)),
        decreases blocks.len() - i,
    {
        assert(all.take(i + 1).drop_last() =~= all.take(i as int));
        assert(all.take(i + 1).last() == blocks@[i as int].view());
        if let Some(t) = blocks[i].get("text") {
            if let Some(s) = t.as_str() {
                push_arg(&mut r, s);
            }
        }
        i = i + 1;
    }
    assert(all.take(blocks.len() as int) =~= all);
    r
}

/// The texts among the values of a list.
fn collect_list_texts(items: &Vec<Json>) -> (r: Vec<String>)
    ensures
        text::texts(r@) == list_texts(json::list_view(items@)),
{
    let mut r: Vec<String> = Vec::new();
    let ghost all = json::list_view(items@);
    proof {
        json::lemma_list_view(items@);
    }
    let mut i: usize = 0;
    assert(all.take(0) =~= Seq::empty());
    assert(text::texts(r@) =~= Seq::empty());
    while i < items.len()
        invariant
            i <= items.len() == all.len(),
            forall|j: int| 0 <= j < items.len() ==> (#[trigger] all[j]) == items@[j].view(),
            text::texts(r@) == list_texts(all.take(i as int)),
        decreases items.len() - i,
    {
        assert(all.take(i + 1).drop_last() =~= all.take(i as int));
        assert(all.take(i + 1).last() == items@[i as int].view());
        if let Some(s) = items[i].as_str() {
            push_arg(&mut r, s);
        }
        i = i + 1;
    }
    assert(all.take(items.len() as int) =~= all);
    r
}

/// The prompt of a request.
pub fn prompt_of(params: &Json) -> (r: String)
    ensures
        r@ == prompt_text(params@),
{
    let mut texts: Vec<String> = Vec::new();
    assert(text::texts(texts@) =~= Seq::empty());
    if let Some(p) = params.get("prompt") {
        if let Some(blocks) = p.as_array() {
            texts = collect_block_texts(blocks);
        }
    }
    let all: String = text::joined(&texts, "\n");
    text::trimmed(all.as_str())
}

/// The directories that a request adds.
pub fn added_dirs_of(params: &Json) -> (r: Vec<String>)
    ensures
        text::texts(r@) == added_dirs(params@),
{
    if let Some(d) = params.get("additionalDirectories") {
        if let Some(items) = d.as_array() {
            return collect_list_texts(items);
        }
    }
    let r: Vec<String> = Vec::new();
    assert(text::texts(r@) =~= Seq::empty());
    r
}

/// Splits a command line into words.
pub fn split_extra_args(extra: &str) -> (r: Option<Vec<String>>)
    ensures
        models::opt_texts(r) == outside::shell_split(extra@),
{
    match outside::split_words(extra) {
        Ok(words) => Some(words),
        Err(_) => None,
    }
}

/// Adds the arguments that a session asks for.
fn push_session_args(args: &mut Vec<String>, session: &Session)
    ensures
        text::texts(final(args)@) == text::texts(old(args)@) + session_args(session@),
{
    let ghost before = text::texts(args@);
    push_opt(args, "--conversation", &session.conversation_id);
    push_opt(args, "--model", &session.model_id);
    let mode: &str = session.mode_or_default();
    if !text::same_text(mode, DEFAULT_MODE) {
        push_arg(args, "--mode");
        push_arg(args, mode);
    }
    push_arg(args, "--effort");
    push_arg(args, session.effort_or_default());
    push_flag(args, "--sandbox", session.sandbox);
    push_flag(args, "--dangerously-skip-permissions", session.skip_permissions);
    assert(text::texts(args@) =~= before + session_args(session@));
}

/// The arguments that agy is run with, where `extra` are those that the
/// environment adds.
pub fn build_args(
    working_dir: &str,
    dirs: &Vec<String>,
    extra: &Vec<String>,
    session: Option<&Session>,
    prompt: &str,
) -> (r: Vec<String>)
    ensures
        text::texts(r@) == turn_args(
            working_dir@,
            text::texts(dirs@),
            text::texts(extra@),
            match session {
                Some(s) => Some(s@),
                None => None,
            },
            prompt@,
        ),
{
    let mut args: Vec<String> = Vec::new();
    push_arg(&mut args, "--add-dir");
    push_arg(&mut args, working_dir);
    let ghost head = seq!["--add-dir"@, working_dir@];
    let ghost d = text::texts(dirs@);
    assert(text::texts(args@) =~= head);
    let mut i: usize = 0;
    assert(text::texts(args@) =~= head + dir_args(d.take(0)));
    while i < dirs.len()
        invariant
            i <= dirs.len(),
            d == text::texts(dirs@),
            text::texts(args@) == head + dir_args(d.take(i as int)),
        decreases dirs.len() - i,
    {
        push_arg(&mut args, "--add-dir");
        push_arg(&mut args, dirs[i].as_str());
        assert(d.take(i + 1).drop_last() =~= d.take(i as int));
        assert(d.take(i + 1).last() == dirs@[i as int]@);
        assert(text::texts(args@) =~= head + dir_args(d.take(i + 1)));
        i = i + 1;
    }
    assert(d.take(dirs.len() as int) =~= d);
    let ghost placed = text::texts(args@);
    let ghost e = text::texts(extra@);
    let mut k: usize = 0;
    assert(placed =~= placed + e.take(0));
    while k < extra.len()
        invariant
            k <= extra.len(),
            e == text::texts(extra@),
            text::texts(args@) == placed + e.take(k as int),
        decreases extra.len() - k,
    {
        push_arg(&mut args, extra[k].as_str());
        assert(text::texts(args@) =~= placed + e.take(k + 1));
        k = k + 1;
    }
    assert(e.take(extra.len() as int) =~= e);
    if let Some(s) = session {
        push_session_args(&mut args, s);
    }
    let ghost most = text::texts(args@);
    push_arg(&mut args, "-p");
    push_arg(&mut args, prompt);
    assert(text::texts(args@) =~= most + seq!["-p"@, prompt@]);
    assert(placed == head + dir_args(d));
    proof {
        let s: Seq<Seq<char>> = match session {
            Some(s) => session_args(s@),
            None => Seq::empty(),
        };
        assert(most =~= placed + e + s);
    }
    args
}

/// What a turn is run with.
#[derive(Debug)]
pub struct PromptPlan {
    pub session_id: String,
    pub args: Vec<String>,
    /// Whether the turn's conversation is told by what it adds to the directory.
    pub needs_snapshot: bool,
    /// Whether the arguments from the environment could not be split.
    pub extra_rejected: bool,
    pub state: StreamingState,
}

/// What a turn is run with.
#[verifier::ext_equal]
pub struct PlanView {
    pub session_id: Seq<char>,
    pub args: Seq<Seq<char>>,
    pub needs_snapshot: bool,
    pub extra_rejected: bool,
    pub state: StreamingView,
}

impl View for PromptPlan {
    type V = PlanView;

    open spec fn view(&self) -> PlanView {
        PlanView {
            session_id: self.session_id@,
            args: text::texts(self.args@),
            needs_snapshot: self.needs_snapshot,
            extra_rejected: self.extra_rejected,
            state: self.state@,
        }
    }
}

/// What a turn is run with, where the environment adds the words `extra`, or
/// `None` where what it adds cannot be split.
pub open spec fn plan(
    adapter: AdapterView,
    session: Option<SessionView>,
    params: JsonView,
    extra: Option<Seq<Seq<char>>>,
) -> PlanView {
    PlanView {
        session_id: handlers::session_id_of(params),
        args: turn_args(
            adapter.working_dir,
            added_dirs(params),
            match extra {
                Some(words) => words,
                None => Seq::empty(),
            },
            session,
            prompt_text(params),
        ),
        needs_snapshot: session is Some && session->0.conversation_id is None,
        extra_rejected: extra is None,
        state: StreamingView::starting(
            match session {
                Some(s) => s.conversation_id,
                None => None,
            },
            match session {
                Some(s) => s.last_step_idx,
                None => -1i64,
            },
            adapter.skip_naration,
        ),
    }
}

/// The words that the environment adds: none where nothing is set.
pub open spec fn environment_words(extra: Option<Seq<char>>) -> Option<Seq<Seq<char>>> {
    match extra {
        Some(line) => outside::shell_split(line),
        None => Some(Seq::empty()),
    }
}

/// How often the updates are asked for once the process of a turn has ended.
/// The last of them may reach the database after that.
pub const FINAL_POLLS: usize = 3;

/// How the process of a turn ended.
#[derive(Debug)]
pub struct ExitInfo {
    pub success: bool,
    /// The exit status as text.
    pub display: String,
}

/// How a turn ended.
#[derive(Debug)]
pub struct TurnEnd {
    pub was_cancelled: bool,
    /// How the process ended, or why it could not be waited for.
    pub exit: Result<ExitInfo, String>,
    /// Whether updates were passed on while the process ran.
    pub streamed: bool,
    /// How many updates were passed on after it ended.
    pub flushed: usize,
    /// The conversation that the turn turned out to be in.
    pub conversation_id: Option<String>,
    pub last_step_idx: i64,
    pub stderr_text: String,
    /// What the logs say, where they were worth a look.
    pub swallowed_error: Option<String>,
}

impl TurnEnd {
    /// Something was passed on to the client.
    pub open spec fn updated(self) -> bool {
        self.streamed || self.flushed > 0
    }

    /// Whether something was passed on to the client.
    pub fn had_updates(&self) -> (r: bool)
        ensures
            r == self.updated(),
    {
        self.streamed || self.flushed > 0
    }
}

/// The session after a turn: it keeps its conversation, or takes the one that
/// the turn turned out to be in.
pub open spec fn after_turn(session: SessionView, end: TurnEnd) -> SessionView {
    SessionView {
        conversation_id: if session.conversation_id is None {
            text::opt_text(end.conversation_id)
        } else {
            session.conversation_id
        },
        last_step_idx: if end.conversation_id is Some {
            end.last_step_idx
        } else {
            session.last_step_idx
        },
        ..session
    }
}

/// Why a turn stopped.
pub open spec fn stop_reason(was_cancelled: bool, success: bool) -> Seq<char> {
    if was_cancelled {
        "cancelled"@
    } else if !success {
        "error"@
    } else {
        "end_turn"@
    }
}

/// The answer to a turn.
pub open spec fn turn_response(id: serde_json::Value, end: TurnEnd) -> ResponseView {
    match end.exit {
        Err(e) => ResponseView::err(id, -32000i64, "failed to wait for agy: "@ + e@),
        Ok(exit) => match log_scan::turn_error(
            end.was_cancelled,
            exit.success,
            end.updated(),
            exit.display@,
            end.stderr_text@,
            text::opt_text(end.swallowed_error),
        ) {
            Some((code, message)) => ResponseView::err(id, code as i64, message),
            None => ResponseView::ok(
                id,
                handlers::single(
                    "stopReason"@,
                    JsonView::Text(stop_reason(end.was_cancelled, exit.success)),
                ),
            ),
        },
    }
}

/// `r` is what the turn that a request asks for is run with, and its session
/// is in memory.
pub open spec fn prepares(
    before: AdapterView,
    after: AdapterView,
    params: JsonView,
    store: Map<Seq<char>, SessionView>,
    extra: Option<Seq<Seq<char>>>,
    r: PlanView,
) -> bool {
    let session_id = handlers::session_id_of(params);
    let session = turn_session(before.sessions, store, session_id);
    &&& after == before.with_sessions(after.sessions)
    &&& r == plan(before, session, params, extra)
    &&& match session {
        Some(s) => adapter::taken_in(before.sessions, after.sessions, session_id, s),
        None => after == before,
    }
}

/// The answer to a turn for which agy could not be run.
pub open spec fn not_started(id: serde_json::Value, error: Seq<char>) -> ResponseView {
    ResponseView::err(id, -32000i64, "failed to run agy: "@ + error)
}

/// The session of a turn has taken over where its conversation is, and `edit`
/// is the change that is due in the stored sessions.
pub open spec fn binds(
    before: AdapterView,
    after: AdapterView,
    session_id: Seq<char>,
    end: TurnEnd,
    edit: StoreEditView,
) -> bool {
    if before.sessions.contains_key(session_id) {
        let next = after_turn(before.sessions[session_id], end);
        after == before.with_sessions(before.sessions.insert(session_id, next)) && edit
            == if end.conversation_id is Some {
            StoreEditView::Put { session_id, session: next }
        } else {
            StoreEditView::Keep
        }
    } else {
        after == before && edit == StoreEditView::Keep
    }
}

impl Adapter {
    /// Prepares a turn: takes its session into memory, and tells what agy is
    /// run with. `extra` is the command line that the environment adds.
    pub fn prepare_prompt(&mut self, params: &Json, store: &SessionStore, extra: Option<&str>) -> (r:
        PromptPlan)
        ensures
            prepares(
                old(self)@,
                final(self)@,
                params@,
                store@,
                environment_words(text::opt_str(extra)),
                r@,
            ),
    {
        let words: Option<Vec<String>> = match extra {
            Some(line) => split_extra_args(line),
            None => {
                let none: Vec<String> = Vec::new();
                assert(text::texts(none@) =~= Seq::empty());
                Some(none)
            },
        };
        self.prepare_prompt_with(params, store, words)
    }

    /// Prepares a turn, where the environment adds the words `extra`, or `None`
    /// where what it adds cannot be split.
    pub fn prepare_prompt_with(
        &mut self,
        params: &Json,
        store: &SessionStore,
        extra: Option<Vec<String>>,
    ) -> (r: PromptPlan)
        ensures
            prepares(old(self)@, final(self)@, params@, store@, models::opt_texts(extra), r@),
    {
        let session_id: String = params.text_field("sessionId");
        if !session_id.as_str().is_empty() && !self.sessions.contains_key(session_id.as_str()) {
            let _ = self.restore_session_state(store, session_id.as_str());
        }
        proof {
            let before = old(self)@.sessions;
            if before.contains_key(session_id@) {
                assert(before =~= before.insert(session_id@, before[session_id@]));
            }
        }
        let extra_rejected: bool = extra.is_none();
        let words: Vec<String> = match extra {
            Some(w) => w,
            None => {
                let none: Vec<String> = Vec::new();
                assert(text::texts(none@) =~= Seq::empty());
                none
            },
        };
        let prompt: String = prompt_of(params);
        let dirs: Vec<String> = added_dirs_of(params);
        let session: Option<&Session> = self.sessions.get(session_id.as_str());
        let args: Vec<String> = build_args(
            self.working_dir.as_str(),
            &dirs,
            &words,
            session,
            prompt.as_str(),
        );
        let mut needs_snapshot: bool = false;
        let mut conversation_id: Option<String> = None;
        let mut step: i64 = -1;
        if let Some(s) = session {
            needs_snapshot = s.conversation_id.is_none();
            conversation_id = s.conversation_id.clone();
            step = s.last_step_idx;
        }
        let state: StreamingState = StreamingState::starting(
            conversation_id,
            step,
            self.skip_naration,
        );
        PromptPlan { session_id, args, needs_snapshot, extra_rejected, state }
    }

    /// The answer to a turn for which agy could not be run.
    pub fn prompt_not_started(&self, id: serde_json::Value, error: &str) -> (r: JsonRpcResponse)
        ensures
            r@ == not_started(id, error@),
    {
        let mut message: String = "failed to run agy: ".to_owned();
        message.append(error);
        JsonRpcResponse::err(id, -32000, message.as_str())
    }

    /// Takes over where the conversation of a session is after a turn. Gives
    /// the change that is due in the stored sessions.
    pub fn bind_turn(&mut self, session_id: &str, end: &TurnEnd) -> (r: StoreEdit)
        ensures
            binds(old(self)@, final(self)@, session_id@, *end, r@),
    {
        let held: Option<Session> = match self.sessions.get(session_id) {
            Some(s) => Some(s.clone()),
            None => None,
        };
        if let Some(session) = held {
            let mut next: Session = session;
            if next.conversation_id.is_none() {
                next.conversation_id = end.conversation_id.clone();
            }
            if end.conversation_id.is_some() {
                next.last_step_idx = end.last_step_idx;
            }
            self.sessions.insert(session_id.to_owned(), next.clone());
            if end.conversation_id.is_some() {
                return StoreEdit::Put { session_id: session_id.to_owned(), session: next };
            }
        }
        StoreEdit::Keep
    }

    /// The answer to a turn.
    pub fn answer_prompt(&self, id: serde_json::Value, end: &TurnEnd) -> (r: JsonRpcResponse)
        ensures
            r@ == turn_response(id, *end),
    {
        match &end.exit {
            Err(e) => {
                let mut message: String = "failed to wait for agy: ".to_owned();
                message.append(e.as_str());
                JsonRpcResponse::err(id, -32000, message.as_str())
            },
            Ok(exit) => {
                let swallowed: Option<&str> = match &end.swallowed_error {
                    Some(s) => Some(s.as_str()),
                    None => None,
                };
                match log_scan::decide_turn_error(
                    end.was_cancelled,
                    exit.success,
                    end.had_updates(),
                    exit.display.as_str(),
                    end.stderr_text.as_str(),
                    swallowed,
                ) {
                    Some((code, message)) => JsonRpcResponse::err(id, code as i64, message.as_str()),
                    None => {
                        let reason: &str = if end.was_cancelled {
                            "cancelled"
                        } else if !exit.success {
                            "error"
                        } else {
                            "end_turn"
                        };
                        let mut f: Vec<(String, Json)> = Vec::new();
                        json::put_text(&mut f, "stopReason", reason);
                        JsonRpcResponse::ok(id, Json::Object(f))
                    },
                }
            },
        }
    }
}

} // verus!
