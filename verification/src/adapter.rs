//! The adapter's state: the sessions in memory, the models on offer, and the
//! places of its files.
use vstd::prelude::*;

use crate::config;
use crate::json::Json;
use crate::models;
use crate::models::{ListsView, ModelLists, ModelSource};
use crate::narration;
use crate::paths;
use crate::paths::{FilePath, FilePathView};
use crate::table::Table;
use crate::text;
use crate::types;
use crate::types::{ConversationDelta, Session, SessionStore, SessionView, StoreEditView};

verus! {

/// How many sessions are held in memory at most.
pub const MAX_SESSIONS: usize = 64;

pub struct Adapter {
    pub sessions: Table<Session>,
    pub working_dir: String,
    pub conversations_dir: FilePath,
    pub state_file: FilePath,
    pub available_models: Vec<String>,
    pub skip_naration: bool,
}

/// What an adapter holds.
#[verifier::ext_equal]
pub struct AdapterView {
    pub sessions: Map<Seq<char>, SessionView>,
    pub working_dir: Seq<char>,
    pub conversations_dir: FilePathView,
    pub state_file: FilePathView,
    pub available_models: Seq<Seq<char>>,
    pub skip_naration: bool,
}

impl View for Adapter {
    type V = AdapterView;

    open spec fn view(&self) -> AdapterView {
        AdapterView {
            sessions: self.sessions@,
            working_dir: self.working_dir@,
            conversations_dir: self.conversations_dir@,
            state_file: self.state_file@,
            available_models: text::texts(self.available_models@),
            skip_naration: self.skip_naration,
        }
    }
}

/// Some sessions had to go so that one more fits. Which ones is left open.
pub open spec fn evicted(
    before: Map<Seq<char>, SessionView>,
    after: Map<Seq<char>, SessionView>,
) -> bool {
    &&& after.submap_of(before)
    &&& after.dom().finite()
    &&& if before.dom().len() >= MAX_SESSIONS {
        after.dom().len() == MAX_SESSIONS - 1
    } else {
        after == before
    }
}

/// `after` is `before` with `session` under `session_id`, for which others may
/// have had to go where it is new.
pub open spec fn taken_in(
    before: Map<Seq<char>, SessionView>,
    after: Map<Seq<char>, SessionView>,
    session_id: Seq<char>,
    session: SessionView,
) -> bool {
    if before.contains_key(session_id) {
        after == before.insert(session_id, session)
    } else {
        &&& after.contains_key(session_id)
        &&& after[session_id] == session
        &&& evicted(before, after.remove(session_id))
    }
}

/// The session under `session_id`: in memory, or else in the store.
pub open spec fn known_session(
    sessions: Map<Seq<char>, SessionView>,
    store: Map<Seq<char>, SessionView>,
    session_id: Seq<char>,
) -> Option<SessionView> {
    if sessions.contains_key(session_id) {
        Some(sessions[session_id])
    } else {
        types::stored_session(store, session_id)
    }
}

impl AdapterView {
    /// The adapter with other sessions in memory.
    pub open spec fn with_sessions(self, sessions: Map<Seq<char>, SessionView>) -> AdapterView {
        AdapterView { sessions, ..self }
    }

    /// The adapter with its list of models filled, where it was empty.
    pub open spec fn with_models(self, lists: ListsView) -> AdapterView {
        if self.available_models.len() > 0 {
            self
        } else {
            AdapterView { available_models: models::chosen_models(lists).0, ..self }
        }
    }

    /// The session under `session_id`, or a fresh one.
    pub open spec fn session_or_fresh(self, session_id: Seq<char>) -> SessionView {
        if self.sessions.contains_key(session_id) {
            self.sessions[session_id]
        } else {
            SessionView::fresh()
        }
    }
}

/// The home directory, or a stand-in for it.
pub open spec fn home_or_tmp(home: Option<Seq<char>>) -> Seq<char> {
    types::or_default(home, "/tmp"@)
}

/// Where the sessions are stored.
pub open spec fn state_file_in(home: Option<Seq<char>>) -> FilePathView {
    FilePathView {
        dir: paths::join_path(home_or_tmp(home), ".openab/agy-acp"@),
        name: "sessions.json"@,
    }
}

/// Where agy keeps its conversations.
pub open spec fn conversations_in(home: Option<Seq<char>>) -> FilePathView {
    FilePathView {
        dir: paths::join_path(home_or_tmp(home), ".gemini/antigravity-cli"@),
        name: "conversations"@,
    }
}

/// `o`, or `/tmp` where it is missing.
fn or_tmp(o: &Option<String>) -> (r: String)
    ensures
        r@ == types::or_default(text::opt_text(*o), "/tmp"@),
{
    match o {
        Some(s) => s.clone(),
        None => "/tmp".to_owned(),
    }
}

/// Where the sessions are stored, in the home directory `home`.
pub fn state_file_of(home: &Option<String>) -> (r: FilePath)
    ensures
        r@ == state_file_in(text::opt_text(*home)),
{
    let base: String = or_tmp(home);
    FilePath {
        dir: paths::joined_path(base.as_str(), ".openab/agy-acp"),
        name: "sessions.json".to_owned(),
    }
}

/// The `agy` binary to run.
pub open spec fn agy_binary(
    bin_path: Option<Seq<char>>,
    install_path: Option<Seq<char>>,
) -> Seq<char> {
    if bin_path is Some && bin_path->0.len() > 0 {
        bin_path->0
    } else if install_path is Some && install_path->0.len() > 0 {
        paths::join_path(install_path->0, "agy"@)
    } else {
        "agy"@
    }
}

/// The cache of models beside a state file.
pub open spec fn models_cache_beside(state_file: FilePathView) -> FilePathView {
    FilePathView { name: "models_cache.json"@, ..state_file }
}

/// The cache of models beside a state file.
pub fn models_cache_of(state_file: &FilePath) -> (r: FilePath)
    ensures
        r@ == models_cache_beside(state_file@),
{
    state_file.with_file_name("models_cache.json")
}

/// The file that another one is written to before it is renamed.
pub open spec fn temp_beside(file: FilePathView) -> FilePathView {
    FilePathView { name: paths::replace_extension(file.name, "tmp"@), ..file }
}

/// The file whose lock keeps two processes from writing a state file at once.
pub open spec fn lock_beside(state_file: FilePathView) -> FilePathView {
    FilePathView { name: paths::replace_extension(state_file.name, "lock"@), ..state_file }
}

/// The directory of agy's logs, beside its conversations.
pub open spec fn logs_beside(conversations_dir: FilePathView) -> FilePathView {
    FilePathView { name: "log"@, ..conversations_dir }
}

/// An adapter without sessions.
pub open spec fn starting(
    skip_naration: bool,
    home: Option<Seq<char>>,
    current_dir: Option<Seq<char>>,
    lists: ListsView,
) -> AdapterView {
    AdapterView {
        sessions: Map::empty(),
        working_dir: types::or_default(current_dir, "/tmp"@),
        conversations_dir: conversations_in(home),
        state_file: state_file_in(home),
        available_models: models::chosen_models(lists).0,
        skip_naration,
    }
}

/// The stored sessions once one of them has another conversation, step and
/// model, and what else is known of it.
pub open spec fn rebound(
    sessions: Map<Seq<char>, SessionView>,
    store: Map<Seq<char>, SessionView>,
    session_id: Seq<char>,
    conversation_id: Option<Seq<char>>,
    last_step_idx: i64,
    model_id: Option<Seq<char>>,
) -> Map<Seq<char>, SessionView> {
    let known = match known_session(sessions, store, session_id) {
        Some(s) => s,
        None => SessionView::fresh(),
    };
    store.insert(
        session_id,
        SessionView { conversation_id, last_step_idx, model_id, ..known },
    )
}

/// A session was taken from the store into memory, if it is there.
pub open spec fn restores(
    before: AdapterView,
    after: AdapterView,
    store: Map<Seq<char>, SessionView>,
    session_id: Seq<char>,
    r: bool,
) -> bool {
    &&& r == store.contains_key(session_id)
    &&& after == before.with_sessions(after.sessions)
    &&& match types::stored_session(store, session_id) {
        Some(s) => taken_in(before.sessions, after.sessions, session_id, s),
        None => after == before,
    }
}

/// A file that is due to be written: `content` goes to `tmp`, which is then
/// renamed to `target`.
#[derive(Debug)]
pub struct FileWrite {
    pub tmp: FilePath,
    pub target: FilePath,
    pub content: String,
}

impl Adapter {
    /// An adapter that passes narration on. See `new_with_skip_naration`.
    pub fn new(
        home: Option<String>,
        current_dir: Option<String>,
        lists: ModelLists,
    ) -> (r: Adapter)
        ensures
            r@ == starting(
                false,
                text::opt_text(home),
                text::opt_text(current_dir),
                lists@,
            ),
            r@.available_models.len() > 0,
    {
        Adapter::new_with_skip_naration(false, home, current_dir, lists).0
    }

    /// An adapter without sessions, for the home directory and the current
    /// directory as far as they are known, that offers the models that agy
    /// lists, or else those in the cache, or else the fallback.
    pub fn new_with_skip_naration(
        skip_naration: bool,
        home: Option<String>,
        current_dir: Option<String>,
        lists: ModelLists,
    ) -> (r: (Adapter, ModelSource))
        ensures
            r.0@ == starting(
                skip_naration,
                text::opt_text(home),
                text::opt_text(current_dir),
                lists@,
            ),
            r.1 == models::chosen_models(lists@).1,
            r.0@.available_models.len() > 0,
    {
        let base: String = or_tmp(&home);
        let (available_models, source) = models::choose_models(lists);
        let adapter: Adapter = Adapter {
            sessions: Table::new(),
            working_dir: or_tmp(&current_dir),
            conversations_dir: FilePath {
                dir: paths::joined_path(base.as_str(), ".gemini/antigravity-cli"),
                name: "conversations".to_owned(),
            },
            state_file: state_file_of(&home),
            available_models,
            skip_naration,
        };
        (adapter, source)
    }

    pub fn models_cache_path(&self) -> (r: FilePath)
        ensures
            r@ == models_cache_beside(self@.state_file),
    {
        models_cache_of(&self.state_file)
    }

    /// The models in the cache file with this content, if it could be read.
    pub fn load_cached_models(&self, content: Option<&str>) -> (r: Option<Vec<String>>)
        ensures
            models::opt_texts(r) == models::cached_models(text::opt_str(content)),
    {
        models::load_cached_models(content)
    }

    /// The write by which `models` get into the cache.
    pub fn save_models_cache(&self, models: &Vec<String>) -> (r: Option<FileWrite>)
        ensures
            r is Some,
            r->0.content@ == crate::outside::string_list_json(text::texts(models@)),
            models::cached_models(Some(r->0.content@)) == models::usable(
                Some(text::texts(models@)),
            ),
            r->0.target@ == models_cache_beside(self@.state_file),
            r->0.tmp@ == temp_beside(models_cache_beside(self@.state_file)),
    {
        match models::models_cache_content(models) {
            Some(content) => {
                let target: FilePath = self.models_cache_path();
                Some(FileWrite { tmp: target.with_extension("tmp"), target, content })
            },
            None => None,
        }
    }

    pub fn static_fallback_models() -> (r: Vec<String>)
        ensures
            text::texts(r@) == models::fallback_models(),
    {
        models::static_fallback_models()
    }

    /// The `agy` binary to run: the one at `bin_path`, or else the one in the
    /// directory `install_path`, or else the one on the caller's `PATH`. An
    /// empty text counts as missing.
    pub fn agy_bin(bin_path: Option<&str>, install_path: Option<&str>) -> (r: String)
        ensures
            r@ == agy_binary(text::opt_str(bin_path), text::opt_str(install_path)),
    {
        if let Some(path) = bin_path {
            if !path.is_empty() {
                return path.to_owned();
            }
        }
        if let Some(dir) = install_path {
            if !dir.is_empty() {
                return paths::joined_path(dir, "agy");
            }
        }
        "agy".to_owned()
    }

    /// Fills the list of models where it is empty. Then there is one to show.
    pub fn get_available_models(&mut self, lists: ModelLists) -> (r: ModelSource)
        ensures
            final(self)@ == old(self)@.with_models(lists@),
            final(self)@.available_models.len() > 0,
            r == if old(self)@.available_models.len() > 0 {
                ModelSource::Kept
            } else {
                models::chosen_models(lists@).1
            },
    {
        if self.available_models.len() > 0 {
            return ModelSource::Kept;
        }
        let (chosen, source) = models::choose_models(lists);
        self.available_models = chosen;
        source
    }

    /// The file whose lock keeps two processes from writing the store at once.
    pub fn lock_file(&self) -> (r: FilePath)
        ensures
            r@ == lock_beside(self@.state_file),
    {
        self.state_file.with_extension("lock")
    }

    /// The file that the store is written to before it is renamed.
    pub fn temp_file(&self) -> (r: FilePath)
        ensures
            r@ == temp_beside(self@.state_file),
    {
        self.state_file.with_extension("tmp")
    }

    /// The directory of agy's logs, beside its conversations.
    pub fn log_dir(&self) -> (r: FilePath)
        ensures
            r@ == logs_beside(self@.conversations_dir),
    {
        self.conversations_dir.with_file_name("log")
    }

    /// The models on offer, for a session with the model `model_id`. An empty
    /// list is filled first.
    pub fn session_models_json(&mut self, model_id: Option<&str>, lists: ModelLists) -> (r: Json)
        ensures
            final(self)@ == old(self)@.with_models(lists@),
            r@ == config::models_entry(text::opt_str(model_id), final(self)@.available_models),
    {
        let _ = self.get_available_models(lists);
        let selected: Option<String> = match model_id {
            Some(m) => Some(m.to_owned()),
            None => None,
        };
        config::models_json(&selected, &self.available_models)
    }

    /// The session under `session_id`, or a fresh one.
    pub fn session_config_snapshot(&self, session_id: &str) -> (r: Session)
        ensures
            r@ == self@.session_or_fresh(session_id@),
    {
        match self.sessions.get(session_id) {
            Some(s) => s.clone(),
            None => Session::default(),
        }
    }

    /// All options of a session: mode, model, effort, sandbox, permissions. An
    /// empty list of models is filled first.
    pub fn session_config_options_json(&mut self, session: &Session, lists: ModelLists) -> (r: Json)
        ensures
            final(self)@ == old(self)@.with_models(lists@),
            r@ == crate::json::JsonView::List(
                config::config_options(session@, final(self)@.available_models),
            ),
    {
        let _ = self.get_available_models(lists);
        config::config_options_json(session, &self.available_models)
    }

    /// What the client is told of a session that it has opened. An empty list
    /// of models is filled first.
    pub fn session_config_result_json(&mut self, session_id: &str, lists: ModelLists) -> (r: Json)
        ensures
            final(self)@ == old(self)@.with_models(lists@),
            r@ == config::session_entry(
                session_id@,
                old(self)@.session_or_fresh(session_id@),
                final(self)@.available_models,
            ),
    {
        let _ = self.get_available_models(lists);
        let session: Session = self.session_config_snapshot(session_id);
        config::session_json(session_id, &session, &self.available_models)
    }

    /// Puts a session into the store.
    pub fn persist_session_state(
        &self,
        store: &mut SessionStore,
        session_id: &str,
        session: &Session,
    )
        ensures
            final(store)@ == (StoreEditView::Put {
                session_id: session_id@,
                session: session@,
            }).applied(old(store)@),
    {
        store.put(session_id, session);
    }

    /// The store as it was read; an empty one where there is none that can be
    /// read.
    pub fn load_store(&self, parsed: Option<SessionStore>) -> (r: SessionStore)
        ensures
            r@ == store_or_empty(parsed),
    {
        match parsed {
            Some(store) => store,
            None => SessionStore::default(),
        }
    }

    /// The session that the store has under `session_id`. It may be there with
    /// its options alone, before it has a conversation.
    pub fn restore_session(&self, store: &SessionStore, session_id: &str) -> (r: Option<Session>)
        ensures
            types::opt_session(r) == types::stored_session(store@, session_id@),
    {
        store.restore(session_id)
    }

    /// Puts a session into the store with another conversation, step and
    /// model. What else is known of it is kept.
    pub fn persist_session(
        &self,
        store: &mut SessionStore,
        session_id: &str,
        conversation_id: Option<&str>,
        last_step_idx: i64,
        model_id: Option<&str>,
    )
        ensures
            final(store)@ == rebound(
                self@.sessions,
                old(store)@,
                session_id@,
                text::opt_str(conversation_id),
                last_step_idx,
                text::opt_str(model_id),
            ),
    {
        let mut session: Session = match self.sessions.get(session_id) {
            Some(s) => s.clone(),
            None => match store.restore(session_id) {
                Some(s) => s,
                None => Session::default(),
            },
        };
        session.conversation_id =
        match conversation_id {
            Some(c) => Some(c.to_owned()),
            None => None,
        };
        session.last_step_idx = last_step_idx;
        session.model_id =
        match model_id {
            Some(m) => Some(m.to_owned()),
            None => None,
        };
        self.persist_session_state(store, session_id, &session);
    }

    /// Makes room for one more session.
    pub fn evict_if_needed(&mut self)
        ensures
            evicted(old(self)@.sessions, final(self)@.sessions),
            final(self)@ == old(self)@.with_sessions(final(self)@.sessions),
    {
        let ghost before = self@;
        let mut n: usize = self.sessions.len();
        while n >= MAX_SESSIONS
            invariant
                n == self@.sessions.dom().len(),
                self@.sessions.dom().finite(),
                self@ == before.with_sessions(self@.sessions),
                self@.sessions.submap_of(before.sessions),
                n >= MAX_SESSIONS - 1 || self@.sessions == before.sessions,
                n < before.sessions.dom().len() ==> before.sessions.dom().len() >= MAX_SESSIONS,
                n <= before.sessions.dom().len(),
                n == before.sessions.dom().len() ==> self@.sessions == before.sessions,
            decreases n,
        {
            let ghost held = self@.sessions;
            let gone: Option<String> = self.sessions.remove_first();
            proof {
                match gone {
                    Some(key) => {
                        assert(self@.sessions.dom() =~= held.dom().remove(key@));
                    },
                    None => {
                        assert(held.dom() =~= Set::empty());
                    },
                }
            }
            n = self.sessions.len();
        }
    }

    /// Takes a session from the store into memory. Tells whether it is there.
    pub fn restore_session_state(&mut self, store: &SessionStore, session_id: &str) -> (r: bool)
        ensures
            restores(old(self)@, final(self)@, store@, session_id@, r),
    {
        match self.restore_session(store, session_id) {
            Some(session) => {
                if !self.sessions.contains_key(session_id) {
                    self.evict_if_needed();
                    proof {
                        let kept = self@.sessions;
                        assert(kept.insert(session_id@, session@).remove(session_id@) =~= kept);
                    }
                }
                self.sessions.insert(session_id.to_owned(), session);
                true
            },
            None => false,
        }
    }

    /// The conversations that the files in agy's directory are of: those whose
    /// extension is `db`.
    pub fn conversation_snapshot(&self, names: &Vec<String>) -> (r: Table<()>)
        ensures
            r@.dom() == conversation_ids(text::texts(names@)),
    {
        let mut r: Table<()> = Table::new();
        let ghost all = text::texts(names@);
        let mut i: usize = 0;
        assert(r@.dom() =~= conversation_ids(all.take(0)));
        while i < names.len()
            invariant
                i <= names.len(),
                all == text::texts(names@),
                r@.dom() == conversation_ids(all.take(i as int)),
            decreases names.len() - i,
        {
            let ghost before = r@.dom();
            assert(all.take(i + 1).drop_last() =~= all.take(i as int));
            assert(all.take(i + 1).last() == names@[i as int]@);
            if let Some(stem) = paths::stem_with_extension(names[i].as_str(), "db") {
                let ghost id = stem@;
                r.insert(stem, ());
                assert(r@.dom() =~= before.insert(id));
            }
            i = i + 1;
        }
        assert(all.take(names.len() as int) =~= all);
        r
    }

    /// The conversation that is new, where exactly one is.
    pub fn new_conversation_id(&self, before: &Table<()>, after: &Table<()>) -> (r: Option<String>)
        ensures
            is_new_conversation(before@.dom(), after@.dom(), text::opt_text(r)),
    {
        let n: usize = after.len();
        let ghost created = after@.dom().difference(before@.dom());
        let mut found: Option<String> = None;
        let mut several: bool = false;
        let mut i: usize = 0;
        while i < n
            invariant
                i <= n == after.keys().len(),
                after.keys().no_duplicates(),
                after.keys().to_set() == after@.dom(),
                created == after@.dom().difference(before@.dom()),
                match found {
                    Some(id) => created.contains(id@) && exists|j: int|
                        0 <= j < i && after.keys()[j] == id@,
                    None => !several,
                },
                several ==> exists|j: int, k: int|
                    0 <= j < k < i && created.contains(#[trigger] after.keys()[j])
                        && created.contains(#[trigger] after.keys()[k]),
                !several ==> forall|j: int|
                    0 <= j < i && created.contains(#[trigger] after.keys()[j]) ==> found is Some
                        && found->0@ == after.keys()[j],
            decreases n - i,
        {
            let key: &String = after.key_at(i);
            if !before.contains_key(key.as_str()) {
                assert(created.contains(key@));
                if found.is_some() {
                    proof {
                        let id = found->0@;
                        let j = choose|j: int| 0 <= j < i && after.keys()[j] == id;
                        assert(created.contains(after.keys()[j]));
                        assert(created.contains(after.keys()[i as int]));
                    }
                    several = true;
                } else {
                    found = Some(key.clone());
                }
            }
            i = i + 1;
        }
        proof {
            let keys = after.keys();
            assert forall|k: Seq<char>| created.contains(k) implies exists|j: int|
                0 <= j < n && keys[j] == k by {
                assert(keys.to_set().contains(k));
            }
        }
        if several {
            proof {
                let (j, k) = choose|j: int, k: int|
                    0 <= j < k < n && created.contains(#[trigger] after.keys()[j])
                        && created.contains(#[trigger] after.keys()[k]);
                if created.len() == 1 {
                    vstd::set_lib::lemma_set_subset_finite(after@.dom(), created);
                    let one = created.remove(after.keys()[j]);
                    assert(one.contains(after.keys()[k]));
                    assert(one.len() == 0);
                }
            }
            return None;
        }
        match found {
            Some(id) => {
                assert(created =~= set![id@]);
                Some(id)
            },
            None => {
                assert(created =~= Set::empty());
                None
            },
        }
    }

    /// The text that is new in a conversation, and its last step.
    pub fn read_response_from_db(&self, delta: Option<ConversationDelta>) -> (r: Option<
        (String, i64),
    >)
        ensures
            r == new_text(delta),
    {
        match delta {
            Some(d) => match d.text {
                Some(new_text) => Some((new_text, d.max_step_idx)),
                None => None,
            },
            None => None,
        }
    }

    /// Joins the parts from the first one on that is not narration.
    pub fn filter_narration(parts: &[String]) -> (r: Option<String>)
        ensures
            text::opt_text(r) == narration::filtered(text::texts(parts@)),
    {
        narration::filter_narration(parts)
    }

    /// Whether every line that is not blank starts with "I will" or "I'll", and
    /// there is such a line.
    pub fn is_narration(part: &str) -> (r: bool)
        ensures
            r == narration::narration(part@),
    {
        narration::is_narration(part)
    }
}

/// The stored sessions as they were read, or none.
pub open spec fn store_or_empty(parsed: Option<SessionStore>) -> Map<Seq<char>, SessionView> {
    match parsed {
        Some(store) => store@,
        None => Map::empty(),
    }
}

/// `r` is the conversation that is new, where exactly one is.
pub open spec fn is_new_conversation(
    before: Set<Seq<char>>,
    after: Set<Seq<char>>,
    r: Option<Seq<char>>,
) -> bool {
    match r {
        Some(id) => after.difference(before) == set![id],
        None => after.difference(before).len() != 1,
    }
}

/// The text that was read of a conversation, and its last step.
pub open spec fn new_text(delta: Option<ConversationDelta>) -> Option<(String, i64)> {
    match delta {
        Some(d) => match d.text {
            Some(t) => Some((t, d.max_step_idx)),
            None => None,
        },
        None => None,
    }
}

/// The conversations that files with these names are of.
pub open spec fn conversation_ids(names: Seq<Seq<char>>) -> Set<Seq<char>>
    decreases names.len(),
{
    if names.len() == 0 {
        Set::empty()
    } else {
        let before = conversation_ids(names.drop_last());
        match paths::stem_before(names.last(), "db"@) {
            Some(id) => before.insert(id),
            None => before,
        }
    }
}

} // verus!
