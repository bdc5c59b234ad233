//! What holds of the list of models: how it is read, chosen and filled.
use vstd::prelude::*;

use crate::adapter::AdapterView;
use crate::models;
use crate::models::{AgyOutput, ListsView, ModelSource};
use crate::outside;
use crate::text;

verus! {

/// The models are listed line by line: the name on a line, without the white
/// space around it, and nothing for a blank line.
pub proof fn law_model_lines(a: Seq<Seq<char>>, b: Seq<Seq<char>>, line: Seq<char>)
    ensures
        models::filled_lines(a + b) == models::filled_lines(a) + models::filled_lines(b),
        text::trim(line).len() > 0 ==> models::filled_lines(seq![line]) == seq![text::trim(line)],
        text::trim(line).len() == 0 ==> models::filled_lines(seq![line]).len() == 0,
        models::filled_lines(Seq::empty()).len() == 0,
    decreases b.len(),
{
    reveal_with_fuel(models::filled_lines, 2);
    assert(seq![line].drop_last() =~= Seq::empty());
    if text::trim(line).len() > 0 {
        assert(models::filled_lines(seq![line]) =~= seq![text::trim(line)]);
    }
    if b.len() == 0 {
        assert(a + b =~= a);
        assert(models::filled_lines(a) + models::filled_lines(b) =~= models::filled_lines(a));
    } else {
        law_model_lines(a, b.drop_last(), line);
        assert((a + b).drop_last() =~= a + b.drop_last());
        assert((a + b).last() == b.last());
        assert(models::filled_lines(a + b) =~= models::filled_lines(a) + models::filled_lines(b));
    }
}

/// A run of `agy models` lists what stands on its lines where it ended well,
/// and nothing where it failed or did not take place.
pub proof fn law_listed_models(ran: AgyOutput)
    ensures
        ran.success ==> models::listed_models(Some(ran)) == models::filled_lines(
            text::lines(outside::utf8_lossy(ran.stdout@)),
        ),
        !ran.success ==> models::listed_models(Some(ran)).len() == 0,
        models::listed_models(None).len() == 0,
{
}

/// What agy lists goes before what is cached, and that before the fallback. A
/// list without models is passed over, and no list is changed on the way.
pub proof fn law_chosen_models(
    fetched: Seq<Seq<char>>,
    cached: Option<Seq<Seq<char>>>,
    some: Seq<Seq<char>>,
)
    requires
        some.len() > 0,
    ensures
        models::chosen_models(ListsView { fetched: some, cached }) == (some, ModelSource::Fetched),
        models::chosen_models(ListsView { fetched: Seq::empty(), cached: Some(some) }) == (
            some,
            ModelSource::Cached,
        ),
        models::chosen_models(
            ListsView { fetched: Seq::empty(), cached: Some(Seq::empty()) },
        ) == models::chosen_models(ListsView { fetched: Seq::empty(), cached: None }),
        ({
            let last = models::chosen_models(ListsView { fetched: Seq::empty(), cached: None });
            &&& last.1 == ModelSource::Fallback
            &&& last.0.len() == 5
            &&& last.0[0] == "Gemini 3.5 Flash (Medium)"@
            &&& last.0[1] == "Gemini 3.5 Flash (High)"@
            &&& last.0[2] == "Gemini 3.5 Flash (Low)"@
            &&& last.0[3] == "Gemini 3.1 Pro (Low)"@
            &&& last.0[4] == "Gemini 3.1 Pro (High)"@
        }),
{
}

/// A cache that cannot be read, or that names no model, is as good as none. A
/// list of models in it is taken as it is.
pub proof fn law_cached_models(content: Seq<char>, some: Seq<Seq<char>>)
    requires
        some.len() > 0,
    ensures
        models::cached_models(None) is None,
        outside::json_string_list(content) is None ==> models::cached_models(Some(content)) is None,
        outside::json_string_list(content) == Some(some) ==> models::cached_models(Some(content))
            == Some(some),
        outside::json_string_list(content) == Some(Seq::<Seq<char>>::empty())
            ==> models::cached_models(Some(content)) is None,
{
}

/// The model in use is the one that was selected, on offer or not, and the first
/// one on offer until then.
pub proof fn law_current_model(selected: Seq<char>, offered: Seq<Seq<char>>)
    ensures
        models::current_model(Some(selected), offered) == selected,
        offered.len() > 0 ==> models::current_model(None, offered) == offered[0],
        models::current_model(None, Seq::empty()).len() == 0,
{
}

/// A list that is there is kept. An empty one is filled, and nothing else of the
/// adapter changes.
pub proof fn law_models_are_filled(adapter: AdapterView, lists: ListsView)
    ensures
        ({
            let after = adapter.with_models(lists);
            &&& after.available_models == if adapter.available_models.len() > 0 {
                adapter.available_models
            } else {
                models::chosen_models(lists).0
            }
            &&& after.sessions == adapter.sessions
            &&& after.working_dir == adapter.working_dir
            &&& after.conversations_dir == adapter.conversations_dir
            &&& after.state_file == adapter.state_file
            &&& after.skip_naration == adapter.skip_naration
        }),
{
}

} // verus!
