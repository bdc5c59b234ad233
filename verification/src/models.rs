//! The list of models that agy offers: where it comes from, and how it is
//! shown to the client.
use vstd::prelude::*;
use vstd::utf8::*;

use crate::json;
use crate::json::{Json, JsonView};
use crate::outside;
use crate::text;

verus! {

/// The models to offer where agy cannot be asked and nothing is cached.
pub open spec fn fallback_models() -> Seq<Seq<char>> {
    seq![
        "Gemini 3.5 Flash (Medium)"@,
        "Gemini 3.5 Flash (High)"@,
        "Gemini 3.5 Flash (Low)"@,
        "Gemini 3.1 Pro (Low)"@,
        "Gemini 3.1 Pro (High)"@,
    ]
}

/// The models to offer where agy cannot be asked and nothing is cached.
pub fn static_fallback_models() -> (r: Vec<String>)
    ensures
        text::texts(r@) == fallback_models(),
{
    let mut r: Vec<String> = Vec::new();
    r.push("Gemini 3.5 Flash (Medium)".to_owned());
    r.push("Gemini 3.5 Flash (High)".to_owned());
    r.push("Gemini 3.5 Flash (Low)".to_owned());
    r.push("Gemini 3.1 Pro (Low)".to_owned());
    r.push("Gemini 3.1 Pro (High)".to_owned());
    assert(text::texts(r@) =~= fallback_models());
    r
}

/// The lines that are not blank, trimmed.
pub open spec fn filled_lines(ls: Seq<Seq<char>>) -> Seq<Seq<char>>
    decreases ls.len(),
{
    if ls.len() == 0 {
        Seq::empty()
    } else if text::trim(ls.last()).len() > 0 {
        filled_lines(ls.drop_last()).push(text::trim(ls.last()))
    } else {
        filled_lines(ls.drop_last())
    }
}

/// The models that the output of `agy models` lists: one on each line that is
/// not blank.
pub fn parse_models(output: &str) -> (r: Vec<String>)
    ensures
        text::texts(r@) == filled_lines(text::lines(output@)),
{
    let c: Vec<char> = text::chars_of(output);
    let ranges: Vec<(usize, usize)> = text::line_ranges(&c);
    let mut r: Vec<String> = Vec::new();
    let ghost ls = text::lines(output@);
    let mut i: usize = 0;
    assert(ls.take(0) =~= Seq::empty());
    assert(text::texts(r@) =~= Seq::empty());
    while i < ranges.len()
        invariant
            i <= ranges.len(),
            c@ == output@,
            ls == text::lines(output@),
            text::cuts(c@, ranges@) == ls,
            forall|i: int|
                0 <= i < ranges.len() ==> (#[trigger] ranges@[i]).0 <= ranges@[i].1 <= c.len(),
            text::texts(r@) == filled_lines(ls.take(i as int)),
        decreases ranges.len() - i,
    {
        let (from, to) = ranges[i];
        let start: usize = text::skip_white(&c, from, to);
        let end: usize = text::skip_white_back(&c, start, to);
        assert(ls.take(i + 1).last() == c@.subrange(from as int, to as int));
        assert(ls.take(i + 1).drop_last() =~= ls.take(i as int));
        if start < end {
            let name: String = text::piece(output, start, end);
            let ghost before = r@;
            r.push(name);
            assert(text::texts(r@) =~= text::texts(before).push(name@));
        }
        i = i + 1;
    }
    assert(ls.take(ranges.len() as int) =~= ls);
    r
}

/// What a run of `agy models` came to.
#[derive(Debug)]
pub struct AgyOutput {
    pub success: bool,
    pub stdout: Vec<u8>,
}

/// The models that a run of `agy models` lists; none where it failed or did not
/// take place.
pub open spec fn listed_models(ran: Option<AgyOutput>) -> Seq<Seq<char>> {
    match ran {
        Some(o) => if o.success {
            filled_lines(text::lines(outside::utf8_lossy(o.stdout@)))
        } else {
            Seq::empty()
        },
        None => Seq::empty(),
    }
}

/// The models that a run of `agy models` lists.
pub fn fetched_models(ran: &Option<AgyOutput>) -> (r: Vec<String>)
    ensures
        text::texts(r@) == listed_models(*ran),
        match *ran {
            Some(o) => o.success && valid_utf8(o.stdout@) ==> text::texts(r@) == filled_lines(
                text::lines(decode_utf8(o.stdout@)),
            ),
            None => true,
        },
{
    if let Some(o) = ran {
        if o.success {
            let output: String = outside::decode_lossy(o.stdout.as_slice());
            return parse_models(output.as_str());
        }
    }
    let r: Vec<String> = Vec::new();
    assert(text::texts(r@) =~= Seq::empty());
    r
}

/// The texts of a list that may be missing.
pub open spec fn opt_texts(o: Option<Vec<String>>) -> Option<Seq<Seq<char>>> {
    match o {
        Some(v) => Some(text::texts(v@)),
        None => None,
    }
}

/// A cached list counts only where it names a model.
pub open spec fn usable(list: Option<Seq<Seq<char>>>) -> Option<Seq<Seq<char>>> {
    match list {
        Some(l) => if l.len() > 0 {
            Some(l)
        } else {
            None
        },
        None => None,
    }
}

/// A cached list counts only where it names a model.
pub fn usable_models(list: Option<Vec<String>>) -> (r: Option<Vec<String>>)
    ensures
        opt_texts(r) == usable(opt_texts(list)),
{
    match list {
        Some(l) => {
            if l.len() > 0 {
                Some(l)
            } else {
                None
            }
        },
        None => None,
    }
}

/// The models in the cache file with this content, if it could be read.
pub open spec fn cached_models(content: Option<Seq<char>>) -> Option<Seq<Seq<char>>> {
    match content {
        Some(json) => usable(outside::json_string_list(json)),
        None => None,
    }
}

/// The models in the cache file with this content, if it could be read.
pub fn load_cached_models(content: Option<&str>) -> (r: Option<Vec<String>>)
    ensures
        opt_texts(r) == cached_models(text::opt_str(content)),
{
    match content {
        Some(json) => match outside::parse_string_list(json) {
            Ok(list) => usable_models(Some(list)),
            Err(_) => None,
        },
        None => None,
    }
}

/// The content of a cache file that holds `models`.
pub fn models_cache_content(models: &Vec<String>) -> (r: Option<String>)
    ensures
        text::opt_text(r) == Some(outside::string_list_json(text::texts(models@))),
        cached_models(text::opt_text(r)) == usable(Some(text::texts(models@))),
{
    match outside::write_string_list(models) {
        Ok(json) => Some(json),
        Err(_) => None,
    }
}

/// Where a list of models comes from.
#[derive(Debug, Clone, Copy, PartialEq, Eq)]
pub enum ModelSource {
    /// The list was there already.
    Kept,
    /// `agy models` listed it: the cache is due to be written.
    Fetched,
    Cached,
    Fallback,
}

/// What an empty list of models is filled from: what agy lists, and what the
/// cache holds. Neither is needed for a list that is not empty.
#[derive(Debug)]
pub struct ModelLists {
    pub fetched: Vec<String>,
    pub cached: Option<Vec<String>>,
}

/// What a list of models is filled from.
#[verifier::ext_equal]
pub struct ListsView {
    pub fetched: Seq<Seq<char>>,
    pub cached: Option<Seq<Seq<char>>>,
}

impl View for ModelLists {
    type V = ListsView;

    open spec fn view(&self) -> ListsView {
        ListsView { fetched: text::texts(self.fetched@), cached: opt_texts(self.cached) }
    }
}

impl Default for ModelLists {
    fn default() -> (r: Self)
        ensures
            r@ == (ListsView { fetched: Seq::empty(), cached: None }),
    {
        let r: ModelLists = ModelLists { fetched: Vec::new(), cached: None };
        assert(r@.fetched =~= Seq::empty());
        r
    }
}

impl ModelLists {
    /// Where a list that is filled from these comes from.
    pub fn source(&self) -> (r: ModelSource)
        ensures
            r == chosen_models(self@).1,
    {
        if self.fetched.len() > 0 {
            return ModelSource::Fetched;
        }
        match &self.cached {
            Some(list) => {
                if list.len() > 0 {
                    ModelSource::Cached
                } else {
                    ModelSource::Fallback
                }
            },
            None => ModelSource::Fallback,
        }
    }
}

/// The list to offer: what agy lists, or else the cache, or else the fallback.
/// A list without a model counts for nothing, so there is always one on offer.
pub open spec fn chosen_models(lists: ListsView) -> (Seq<Seq<char>>, ModelSource) {
    if lists.fetched.len() > 0 {
        (lists.fetched, ModelSource::Fetched)
    } else {
        match usable(lists.cached) {
            Some(list) => (list, ModelSource::Cached),
            None => (fallback_models(), ModelSource::Fallback),
        }
    }
}

/// Chooses the list to offer.
pub fn choose_models(lists: ModelLists) -> (r: (Vec<String>, ModelSource))
    ensures
        (text::texts(r.0@), r.1) == chosen_models(lists@),
        text::texts(r.0@).len() > 0,
{
    if lists.fetched.len() > 0 {
        return (lists.fetched, ModelSource::Fetched);
    }
    match usable_models(lists.cached) {
        Some(list) => (list, ModelSource::Cached),
        None => (static_fallback_models(), ModelSource::Fallback),
    }
}

/// The model in use: the one selected, or else the first one offered.
pub open spec fn current_model(model_id: Option<Seq<char>>, models: Seq<Seq<char>>) -> Seq<char> {
    match model_id {
        Some(m) => m,
        None => if models.len() > 0 {
            models[0]
        } else {
            Seq::empty()
        },
    }
}

/// The model in use.
pub fn current_model_of(model_id: &Option<String>, models: &Vec<String>) -> (r: String)
    ensures
        r@ == current_model(text::opt_text(*model_id), text::texts(models@)),
{
    match model_id {
        Some(m) => m.clone(),
        None => {
            if models.len() > 0 {
                models[0].clone()
            } else {
                String::new()
            }
        },
    }
}

/// How each model of the list is shown: as an object that has its name under
/// `key` and under `name`.
pub open spec fn model_entries(models: Seq<Seq<char>>, key: Seq<char>) -> Seq<JsonView> {
    models.map_values(
        |m: Seq<char>|
            JsonView::Object(map![key => JsonView::Text(m), "name"@ => JsonView::Text(m)]),
    )
}

/// How each model of the list is shown.
pub fn model_list(models: &Vec<String>, key: &str) -> (r: Vec<Json>)
    ensures
        json::list_view(r@) == model_entries(text::texts(models@), key@),
{
    let mut r: Vec<Json> = Vec::new();
    let ghost all = text::texts(models@);
    let mut i: usize = 0;
    assert(json::list_view(r@) =~= model_entries(all.take(0), key@));
    while i < models.len()
        invariant
            i <= models.len(),
            all == text::texts(models@),
            json::list_view(r@) == model_entries(all.take(i as int), key@),
        decreases models.len() - i,
    {
        let mut entry: Vec<(String, Json)> = Vec::new();
        json::put_text(&mut entry, key, models[i].as_str());
        json::put_text(&mut entry, "name", models[i].as_str());
        json::push_item(&mut r, Json::Object(entry));
        assert(json::list_view(r@) =~= model_entries(all.take(i + 1), key@));
        i = i + 1;
    }
    assert(all.take(models.len() as int) =~= all);
    r
}

} // verus!
