//! What holds of the names of files: where the adapter keeps its own, and which
//! of agy's are conversations and logs.
use vstd::prelude::*;

use crate::adapter;
use crate::log_scan;
use crate::models;
use crate::models::ListsView;
use crate::paths;
use crate::paths::FilePathView;

verus! {

/// A relative path is taken in a directory with one slash between the two. An
/// absolute one stands for itself.
pub proof fn law_join_path(base: Seq<char>, rel: Seq<char>)
    ensures
        base.len() > 0 && base.last() != '/' && (rel.len() == 0 || rel.first() != '/')
            ==> paths::join_path(base, rel) == base + seq!['/'] + rel,
        base.len() > 0 && base.last() == '/' && (rel.len() == 0 || rel.first() != '/')
            ==> paths::join_path(base, rel) == base + rel,
        rel.len() > 0 && rel.first() == '/' ==> paths::join_path(base, rel) == rel,
        paths::join_path(Seq::empty(), rel) == rel,
{
    assert(base.push('/') + rel =~= base + seq!['/'] + rel);
}

proof fn lemma_home_path(
    home: Seq<char>,
    rel: Seq<char>,
    name: Seq<char>,
)
    requires
        home.len() > 0,
        home.last() != '/',
        rel.len() > 0,
        rel.first() != '/',
        rel.last() != '/',
        name.len() > 0,
        name.first() != '/',
    ensures
        (FilePathView { dir: paths::join_path(home, rel), name }).path() == home + (seq!['/'] + rel
            + seq!['/'] + name),
{
    let dir = paths::join_path(home, rel);
    assert(dir =~= home + seq!['/'] + rel);
    assert(dir.last() == rel.last());
    assert((FilePathView { dir, name }).path() =~= home + (seq!['/'] + rel + seq!['/'] + name));
}

/// Where the adapter keeps its files, in the home directory or else in `/tmp`,
/// and where agy keeps its conversations and logs.
pub proof fn law_places(home: Seq<char>)
    requires
        home.len() > 0,
        home.last() != '/',
    ensures
        ({
            let state = adapter::state_file_in(Some(home));
            let cache = adapter::models_cache_beside(state);
            let conversations = adapter::conversations_in(Some(home));
            &&& state.path() == home + "/.openab/agy-acp/sessions.json"@
            &&& adapter::temp_beside(state).path() == home + "/.openab/agy-acp/sessions.tmp"@
            &&& adapter::lock_beside(state).path() == home + "/.openab/agy-acp/sessions.lock"@
            &&& cache.path() == home + "/.openab/agy-acp/models_cache.json"@
            &&& adapter::temp_beside(cache).path() == home + "/.openab/agy-acp/models_cache.tmp"@
            &&& conversations.path() == home + "/.gemini/antigravity-cli/conversations"@
            &&& adapter::logs_beside(conversations).path() == home
                + "/.gemini/antigravity-cli/log"@
        }),
        adapter::state_file_in(None) == adapter::state_file_in(Some("/tmp"@)),
        adapter::conversations_in(None) == adapter::conversations_in(Some("/tmp"@)),
{
    reveal_strlit(".openab/agy-acp");
    reveal_strlit(".gemini/antigravity-cli");
    reveal_strlit("sessions.json");
    reveal_strlit("sessions.tmp");
    reveal_strlit("sessions.lock");
    reveal_strlit("models_cache.json");
    reveal_strlit("models_cache.tmp");
    reveal_strlit("conversations");
    reveal_strlit("log");
    reveal_strlit("/.openab/agy-acp/sessions.json");
    reveal_strlit("/.openab/agy-acp/sessions.tmp");
    reveal_strlit("/.openab/agy-acp/sessions.lock");
    reveal_strlit("/.openab/agy-acp/models_cache.json");
    reveal_strlit("/.openab/agy-acp/models_cache.tmp");
    reveal_strlit("/.gemini/antigravity-cli/conversations");
    reveal_strlit("/.gemini/antigravity-cli/log");
    lemma_own_names();
    lemma_home_path(home, ".openab/agy-acp"@, "sessions.json"@);
    lemma_home_path(home, ".openab/agy-acp"@, "sessions.tmp"@);
    lemma_home_path(home, ".openab/agy-acp"@, "sessions.lock"@);
    lemma_home_path(home, ".openab/agy-acp"@, "models_cache.json"@);
    lemma_home_path(home, ".openab/agy-acp"@, "models_cache.tmp"@);
    lemma_home_path(home, ".gemini/antigravity-cli"@, "conversations"@);
    lemma_home_path(home, ".gemini/antigravity-cli"@, "log"@);
    assert(seq!['/'] + ".openab/agy-acp"@ + seq!['/'] + "sessions.json"@
        =~= "/.openab/agy-acp/sessions.json"@);
    assert(seq!['/'] + ".openab/agy-acp"@ + seq!['/'] + "sessions.tmp"@
        =~= "/.openab/agy-acp/sessions.tmp"@);
    assert(seq!['/'] + ".openab/agy-acp"@ + seq!['/'] + "sessions.lock"@
        =~= "/.openab/agy-acp/sessions.lock"@);
    assert(seq!['/'] + ".openab/agy-acp"@ + seq!['/'] + "models_cache.json"@
        =~= "/.openab/agy-acp/models_cache.json"@);
    assert(seq!['/'] + ".openab/agy-acp"@ + seq!['/'] + "models_cache.tmp"@
        =~= "/.openab/agy-acp/models_cache.tmp"@);
    assert(seq!['/'] + ".gemini/antigravity-cli"@ + seq!['/'] + "conversations"@
        =~= "/.gemini/antigravity-cli/conversations"@);
    assert(seq!['/'] + ".gemini/antigravity-cli"@ + seq!['/'] + "log"@
        =~= "/.gemini/antigravity-cli/log"@);
}

proof fn lemma_own_names()
    ensures
        paths::replace_extension("sessions.json"@, "tmp"@) == "sessions.tmp"@,
        paths::replace_extension("sessions.json"@, "lock"@) == "sessions.lock"@,
        paths::replace_extension("models_cache.json"@, "tmp"@) == "models_cache.tmp"@,
{
    reveal_strlit("sessions.json");
    reveal_strlit("sessions.tmp");
    reveal_strlit("sessions.lock");
    reveal_strlit("models_cache.json");
    reveal_strlit("models_cache.tmp");
    reveal_strlit("sessions");
    reveal_strlit("models_cache");
    reveal_strlit("json");
    reveal_strlit("tmp");
    reveal_strlit("lock");
    assert("sessions"@ + seq!['.'] + "json"@ =~= "sessions.json"@);
    assert("models_cache"@ + seq!['.'] + "json"@ =~= "models_cache.json"@);
    law_replace_extension("sessions"@, "json"@, "tmp"@);
    law_replace_extension("sessions"@, "json"@, "lock"@);
    law_replace_extension("models_cache"@, "json"@, "tmp"@);
    assert("sessions"@ + seq!['.'] + "tmp"@ =~= "sessions.tmp"@);
    assert("sessions"@ + seq!['.'] + "lock"@ =~= "sessions.lock"@);
    assert("models_cache"@ + seq!['.'] + "tmp"@ =~= "models_cache.tmp"@);
}

proof fn lemma_last_dot(stem: Seq<char>, ext: Seq<char>)
    requires
        !ext.contains('.'),
    ensures
        paths::last_dot(stem + seq!['.'] + ext) == Some(stem.len() as int),
    decreases ext.len(),
{
    let name = stem + seq!['.'] + ext;
    if ext.len() > 0 {
        assert(ext.last() != '.') by {
            assert(ext.contains(ext[ext.len() - 1]));
        }
        assert(name.last() == ext.last());
        assert(name.drop_last() =~= stem + seq!['.'] + ext.drop_last());
        assert forall|i: int| 0 <= i < ext.drop_last().len() implies ext.drop_last()[i] != '.' by {
            assert(ext.contains(ext[i]));
        }
        lemma_last_dot(stem, ext.drop_last());
    }
}

proof fn lemma_no_dot(name: Seq<char>)
    requires
        !name.contains('.'),
    ensures
        paths::last_dot(name) is None,
    decreases name.len(),
{
    if name.len() > 0 {
        assert(name.contains(name[name.len() - 1]));
        assert forall|i: int| 0 <= i < name.drop_last().len() implies name.drop_last()[i] != '.' by {
            assert(name.contains(name[i]));
        }
        lemma_no_dot(name.drop_last());
    }
}

proof fn lemma_dot_is_there(name: Seq<char>)
    ensures
        match paths::last_dot(name) {
            Some(i) => 0 <= i < name.len() && name[i] == '.',
            None => true,
        },
    decreases name.len(),
{
    if name.len() > 0 && name.last() != '.' {
        lemma_dot_is_there(name.drop_last());
    }
}

/// An extension is replaced by another, or added where there is none.
pub proof fn law_replace_extension(stem: Seq<char>, ext: Seq<char>, new_ext: Seq<char>)
    requires
        stem.len() > 0,
        ext.len() > 0,
        !ext.contains('.'),
        new_ext.len() > 0,
    ensures
        paths::replace_extension(stem + seq!['.'] + ext, new_ext) == stem + seq!['.'] + new_ext,
        !stem.contains('.') ==> paths::replace_extension(stem, new_ext) == stem + seq!['.']
            + new_ext,
        paths::replace_extension(stem + seq!['.'] + ext, Seq::empty()) == stem,
{
    let name = stem + seq!['.'] + ext;
    lemma_last_dot(stem, ext);
    reveal_strlit(".");
    reveal_strlit("..");
    assert("."@.len() == 1);
    assert(".."@.len() == 2);
    assert(name.len() >= 3);
    assert(name.take(stem.len() as int) =~= stem);
    assert(stem.push('.') + new_ext =~= stem + seq!['.'] + new_ext);
    if !stem.contains('.') {
        lemma_no_dot(stem);
        if stem == "."@ {
            assert(stem.contains(stem[0]));
        }
        if stem == ".."@ {
            assert(stem.contains(stem[0]));
        }
    }
}

proof fn lemma_conversation_file(name: Seq<char>, id: Seq<char>)
    ensures
        paths::stem_before(name, "db"@) == Some(id) <==> id.len() > 0 && name == id + ".db"@,
{
    reveal_strlit("db");
    reveal_strlit(".db");
    reveal_strlit("..");
    assert(".."@.len() == 2);
    if id.len() > 0 && name == id + ".db"@ {
        assert(!"db"@.contains('.'));
        assert(name =~= id + seq!['.'] + "db"@);
        lemma_last_dot(id, "db"@);
        assert(name.skip(id.len() as int + 1) =~= "db"@);
        assert(name.take(id.len() as int) =~= id);
    }
    if paths::stem_before(name, "db"@) == Some(id) {
        lemma_dot_is_there(name);
        let i = paths::last_dot(name)->0;
        assert(name =~= name.take(i) + seq!['.'] + name.skip(i + 1));
        assert(name =~= id + ".db"@);
    }
}

/// The conversations are told by their files: `id` is one of them exactly where
/// there is a file `id.db`.
pub proof fn law_conversations(names: Seq<Seq<char>>, id: Seq<char>)
    ensures
        adapter::conversation_ids(names).contains(id) <==> id.len() > 0 && names.contains(
            id + ".db"@,
        ),
    decreases names.len(),
{
    if names.len() > 0 {
        let rest = names.drop_last();
        law_conversations(rest, id);
        lemma_conversation_file(names.last(), id);
        if rest.contains(id + ".db"@) {
            let i = rest.index_of(id + ".db"@);
            assert(names[i] == id + ".db"@);
        }
        if names.contains(id + ".db"@) {
            let i = names.index_of(id + ".db"@);
            if i < names.len() - 1 {
                assert(rest[i] == id + ".db"@);
            }
        }
        assert(names[names.len() - 1] == names.last());
    }
}

/// The logs that count are those named `cli-...log`, whatever stands between.
pub proof fn law_cli_logs(name: Seq<char>, middle: Seq<char>)
    ensures
        log_scan::cli_log("cli-"@ + middle + ".log"@),
        log_scan::cli_log(name) ==> name.len() >= 8 && name == "cli-"@ + name.subrange(
            4,
            name.len() - 4,
        ) + ".log"@,
{
    reveal_strlit("cli-");
    reveal_strlit(".log");
    let made = "cli-"@ + middle + ".log"@;
    assert(made.subrange(0, 4) =~= "cli-"@);
    assert(made.subrange(made.len() - 4, made.len() as int) =~= ".log"@);
    if log_scan::cli_log(name) {
        let a = name.subrange(0, 4);
        let z = name.subrange(name.len() - 4, name.len() as int);
        assert(a[0] == 'c' && a[1] == 'l' && a[2] == 'i' && a[3] == '-');
        assert(z[0] == '.' && z[1] == 'l' && z[2] == 'o' && z[3] == 'g');
        assert(name[0] == 'c' && name[1] == 'l' && name[2] == 'i' && name[3] == '-');
        let n = name.len() as int;
        assert(name[n - 4] == '.' && name[n - 3] == 'l' && name[n - 2] == 'o' && name[n - 1]
            == 'g');
        assert(name =~= "cli-"@ + name.subrange(4, n - 4) + ".log"@);
    }
}

/// The binary is the one that is named, or else the one in the directory that is
/// named, or else the one on the path. A name that is empty does not count.
pub proof fn law_agy_binary(bin: Seq<char>, dir: Seq<char>, install: Option<Seq<char>>)
    requires
        bin.len() > 0,
        dir.len() > 0,
    ensures
        adapter::agy_binary(Some(bin), install) == bin,
        dir.last() != '/' ==> adapter::agy_binary(None, Some(dir)) == dir + "/agy"@,
        dir.last() == '/' ==> adapter::agy_binary(None, Some(dir)) == dir + "agy"@,
        adapter::agy_binary(Some(Seq::empty()), install) == adapter::agy_binary(None, install),
        adapter::agy_binary(None, Some(Seq::empty())) == "agy"@,
        adapter::agy_binary(None, None) == "agy"@,
{
    reveal_strlit("agy");
    reveal_strlit("/agy");
    assert("agy"@.len() == 3 && "agy"@[0] == 'a');
    assert(dir.push('/') + "agy"@ =~= dir + "/agy"@);
}

/// A new adapter has no sessions, works in the current directory, and keeps its
/// files in the home directory; each is `/tmp` where it is not known.
pub proof fn law_starting(
    skip_naration: bool,
    home: Option<Seq<char>>,
    dir: Seq<char>,
    lists: ListsView,
)
    ensures
        ({
            let a = adapter::starting(skip_naration, home, Some(dir), lists);
            let b = adapter::starting(skip_naration, home, None, lists);
            &&& a.sessions.dom().len() == 0
            &&& a.working_dir == dir
            &&& b.working_dir == "/tmp"@
            &&& a.skip_naration == skip_naration
            &&& a.state_file == adapter::state_file_in(home)
            &&& a.conversations_dir == adapter::conversations_in(home)
            &&& a.available_models == models::chosen_models(lists).0
        }),
{
    assert(Map::<Seq<char>, crate::types::SessionView>::empty().dom() =~= Set::empty());
}

/// A conversation counts as new where it is the only one that has come. Where
/// none has come, or several, none is taken.
pub proof fn law_new_conversation(
    before: Set<Seq<char>>,
    after: Set<Seq<char>>,
    r: Option<Seq<char>>,
    id: Seq<char>,
    other: Seq<char>,
)
    requires
        adapter::is_new_conversation(before, after, r),
        after.finite(),
    ensures
        after.contains(id) && !before.contains(id) && (forall|x: Seq<char>|
            #[trigger] after.contains(x) && !before.contains(x) ==> x == id) ==> r == Some(id),
        (forall|x: Seq<char>| #[trigger] after.contains(x) ==> before.contains(x)) ==> r is None,
        id != other && after.contains(id) && !before.contains(id) && after.contains(other)
            && !before.contains(other) ==> r is None,
{
    let new = after.difference(before);
    if after.contains(id) && !before.contains(id) && (forall|x: Seq<char>|
        #[trigger] after.contains(x) && !before.contains(x) ==> x == id) {
        assert(new =~= set![id]);
        assert(Set::<Seq<char>>::empty().insert(id).len() == 1);
        assert(new =~= Set::<Seq<char>>::empty().insert(id));
        if let Some(found) = r {
            assert(set![found].contains(id));
        }
    }
    if forall|x: Seq<char>| #[trigger] after.contains(x) ==> before.contains(x) {
        if let Some(found) = r {
            assert(new.contains(found));
        }
    }
    if id != other && after.contains(id) && !before.contains(id) && after.contains(other)
        && !before.contains(other) {
        if let Some(found) = r {
            assert(new.contains(id));
            assert(new.contains(other));
        }
    }
}

} // verus!
