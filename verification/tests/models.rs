use agy_acp::adapter::Adapter;
use agy_acp::models::{
    choose_models, current_model_of, fetched_models, load_cached_models, models_cache_content,
    parse_models, AgyOutput, ModelLists, ModelSource,
};
use agy_acp::narration::{filter_narration, is_narration};
use agy_acp::paths::{joined_path, stem_with_extension, FilePath};
use agy_acp::text::{joined, trimmed, trimmed_end};

fn list(names: &[&str]) -> Vec<String> {
    names.iter().map(|s| s.to_string()).collect()
}

fn lists(fetched: &[&str], cached: Option<&[&str]>) -> ModelLists {
    ModelLists { fetched: list(fetched), cached: cached.map(list) }
}

#[test]
fn models_stand_one_on_a_line() {
    assert_eq!(parse_models("  A \r\n\n\tB (x)\n   \nC"), ["A", "B (x)", "C"]);
    assert!(parse_models("\n \n").is_empty());
}

#[test]
fn a_failed_run_lists_no_models() {
    let ran = |success| Some(AgyOutput { success, stdout: b"A\n\xff\n".to_vec() });
    assert_eq!(fetched_models(&ran(true)), ["A", "\u{fffd}"]);
    assert!(fetched_models(&ran(false)).is_empty());
    assert!(fetched_models(&None).is_empty());
}

#[test]
fn the_cache_gives_back_what_was_written() {
    let models = list(&["A \"q\"", "B\n\\", "é😀\u{1}"]);
    let content = models_cache_content(&models).unwrap();
    assert_eq!(content, "[\"A \\\"q\\\"\",\"B\\n\\\\\",\"é😀\\u0001\"]");
    assert_eq!(load_cached_models(Some(&content)), Some(models));
}

#[test]
fn a_cache_without_models_counts_as_none() {
    assert_eq!(load_cached_models(None), None);
    assert_eq!(load_cached_models(Some("[]")), None);
    assert_eq!(load_cached_models(Some("{\"a\":1}")), None);
    assert_eq!(load_cached_models(Some("[1]")), None);
    assert_eq!(load_cached_models(Some(" [ \"A\" ] ")), Some(list(&["A"])));
}

#[test]
fn agy_goes_before_the_cache_and_the_cache_before_the_fallback() {
    assert_eq!(
        choose_models(lists(&["F"], Some(&["C"]))),
        (list(&["F"]), ModelSource::Fetched)
    );
    assert_eq!(choose_models(lists(&[], Some(&["C"]))), (list(&["C"]), ModelSource::Cached));
    // A cached list without a model counts for nothing.
    assert_eq!(choose_models(lists(&[], Some(&[]))), choose_models(lists(&[], None)));
    let a = Adapter::new(None, None, lists(&[], Some(&[])));
    assert_eq!(a.available_models.len(), 5);
    assert_eq!(
        choose_models(lists(&[], None)),
        (
            list(&[
                "Gemini 3.5 Flash (Medium)",
                "Gemini 3.5 Flash (High)",
                "Gemini 3.5 Flash (Low)",
                "Gemini 3.1 Pro (Low)",
                "Gemini 3.1 Pro (High)",
            ]),
            ModelSource::Fallback
        )
    );
}

#[test]
fn a_list_that_is_there_is_kept() {
    let (mut a, source) = Adapter::new_with_skip_naration(false, None, None, lists(&[], None));
    assert_eq!(source, ModelSource::Fallback);
    assert_eq!(a.available_models, Adapter::static_fallback_models());
    assert_eq!(a.get_available_models(lists(&["F"], None)), ModelSource::Kept);
    assert_eq!(a.available_models.len(), 5);
    a.available_models.clear();
    assert_eq!(a.get_available_models(lists(&["F"], None)), ModelSource::Fetched);
    assert_eq!(a.available_models, ["F"]);
}

#[test]
fn an_empty_list_is_filled_before_it_is_shown() {
    for (given, current, source) in [
        (lists(&["F", "G"], Some(&["C"])), "F", ModelSource::Fetched),
        (lists(&[], Some(&["C"])), "C", ModelSource::Cached),
        (lists(&[], Some(&[])), "Gemini 3.5 Flash (Medium)", ModelSource::Fallback),
        (ModelLists::default(), "Gemini 3.5 Flash (Medium)", ModelSource::Fallback),
    ] {
        let mut a = Adapter::new(None, None, ModelLists::default());
        a.available_models.clear();
        assert_eq!(given.source(), source);
        let shown = a.session_models_json(None, given);
        assert_eq!(shown.get("currentModelId").and_then(|v| v.as_str()), Some(current));
        // From then on the list is kept.
        let shown = a.session_models_json(None, lists(&["Z"], None));
        assert_eq!(shown.get("currentModelId").and_then(|v| v.as_str()), Some(current));
    }
    let mut a = Adapter::new(None, None, ModelLists::default());
    a.available_models.clear();
    let id = serde_json::Value::Null;
    let response = a.open_session(id, "s".to_string(), lists(&["F"], None));
    let models = response.result.unwrap();
    assert_eq!(
        models.get("models").and_then(|m| m.get("currentModelId")).and_then(|v| v.as_str()),
        Some("F")
    );
    assert_eq!(a.available_models, ["F"]);
}

#[test]
fn the_cache_is_written_beside_the_store() {
    let a = Adapter::new(Some("/h".to_string()), None, lists(&["A"], None));
    let write = a.save_models_cache(&a.available_models).unwrap();
    assert_eq!(write.tmp.to_text(), "/h/.openab/agy-acp/models_cache.tmp");
    assert_eq!(write.target.to_text(), "/h/.openab/agy-acp/models_cache.json");
    assert_eq!(write.content, "[\"A\"]");
    assert_eq!(a.load_cached_models(Some(&write.content)), Some(list(&["A"])));
}

#[test]
fn the_first_model_is_in_use_until_one_is_selected() {
    let models = list(&["A", "B"]);
    assert_eq!(current_model_of(&None, &models), "A");
    assert_eq!(current_model_of(&Some("Z".to_string()), &models), "Z");
    assert_eq!(current_model_of(&None, &vec![]), "");
    let mut a = Adapter::new(None, None, lists(&["A", "B"], None));
    let shown = a.session_models_json(Some("B"), ModelLists::default());
    assert_eq!(shown.get("currentModelId").and_then(|v| v.as_str()), Some("B"));
}

#[test]
fn the_binary_is_the_one_asked_for() {
    assert_eq!(Adapter::agy_bin(Some("/x/agy2"), Some("/opt")), "/x/agy2");
    assert_eq!(Adapter::agy_bin(Some(""), Some("/opt")), "/opt/agy");
    assert_eq!(Adapter::agy_bin(None, Some("/opt/")), "/opt/agy");
    assert_eq!(Adapter::agy_bin(None, Some("")), "agy");
    assert_eq!(Adapter::agy_bin(None, None), "agy");
}

#[test]
fn narration_says_on_every_line_what_comes_next() {
    assert!(is_narration("I will look.\n\n  I'll run it."));
    assert!(is_narration("I\u{2019}ll see"));
    assert!(!is_narration("I will look.\nDone."));
    assert!(!is_narration("Well, I will"));
    assert!(!is_narration(""));
    assert!(!is_narration(" \n\t\n"));
    assert!(Adapter::is_narration("I will"));
}

#[test]
fn leading_narration_is_taken_out() {
    let parts = list(&["I will look.", "I'll count.", "It is 4.", "I'll stop.", "Bye."]);
    assert_eq!(filter_narration(&parts).as_deref(), Some("It is 4.\nI'll stop.\nBye."));
    assert_eq!(Adapter::filter_narration(&parts), filter_narration(&parts));
    // Narration behind the answer stays.
    let parts = list(&["The answer is 4", "I will stop here"]);
    assert_eq!(filter_narration(&parts).as_deref(), Some("The answer is 4\nI will stop here"));
    assert_eq!(filter_narration(&list(&["I will look.", "I'll go."])), None);
    assert_eq!(filter_narration(&[]), None);
    assert_eq!(filter_narration(&list(&[""])), None);
    // What is left stays when it is filtered again.
    let parts = list(&["I will look.", "It is 4.", "I'll stop."]);
    let kept = list(&["It is 4.", "I'll stop."]);
    assert_eq!(filter_narration(&kept), filter_narration(&parts));
    let joined = filter_narration(&parts).unwrap();
    assert_eq!(filter_narration(&[joined.clone()]), Some(joined));
    // A blank part in front is kept; the text then starts with narration.
    let parts = list(&["", "I will go."]);
    assert_eq!(filter_narration(&parts).as_deref(), Some("\nI will go."));
    assert_eq!(filter_narration(&list(&["\nI will go."])), None);
    // Narration goes on over a line feed, blank texts apart.
    assert!(is_narration("I will\n \nI'll\r\n"));
}

#[test]
fn paths_are_joined_and_renamed() {
    assert_eq!(joined_path("/a", "b"), "/a/b");
    assert_eq!(joined_path("/a/", "b"), "/a/b");
    assert_eq!(joined_path("/a", "/b"), "/b");
    assert_eq!(joined_path("", "b"), "b");
    let file = FilePath::new("/a", "x.tar.gz");
    assert_eq!(file.with_extension("tmp").to_text(), "/a/x.tar.tmp");
    assert_eq!(file.with_file_name("y").to_text(), "/a/y");
    assert_eq!(FilePath::new("/a", ".hidden").with_extension("tmp").name, ".hidden.tmp");
    assert_eq!(file.with_extension("").name, "x.tar");
    assert_eq!(FilePath::new("/a", "x").with_extension("").name, "x");
    for name in ["", ".", ".."] {
        assert_eq!(FilePath::new("/a", name).with_extension("tmp").name, name);
    }
    assert_eq!(file.clone(), file);
    assert_eq!(stem_with_extension("a.db", "db").as_deref(), Some("a"));
    assert_eq!(stem_with_extension(".db", "db"), None);
    assert_eq!(stem_with_extension("a.", ""), Some("a".to_string()));
}

#[test]
fn text_is_trimmed_by_unicode_white_space() {
    assert_eq!(trimmed("\u{2003} a b\u{85}\u{3000}"), "a b");
    assert_eq!(trimmed_end(" a \n"), " a");
    assert_eq!(trimmed("\u{200b}"), "\u{200b}");
    assert_eq!(joined(&list(&["a", "", "b"]), ", "), "a, , b");
    for c in '\0'..=char::MAX {
        assert_eq!(trimmed(&c.to_string()).is_empty(), c.is_whitespace());
    }
}
