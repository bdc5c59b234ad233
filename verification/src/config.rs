//! The options of a session: how they are shown to the client, and how the
//! client sets them.
use vstd::prelude::*;

use crate::json;
use crate::json::{Json, JsonView};
use crate::models;
use crate::text;
use crate::types;
use crate::types::{
    Session, SessionView, CONFIG_ID_EFFORT, CONFIG_ID_MODE, CONFIG_ID_MODEL, CONFIG_ID_SANDBOX,
    CONFIG_ID_SKIP_PERMISSIONS, DEFAULT_EFFORT, DEFAULT_MODE, EFFORT_VALUES, MODE_VALUES,
    ON_OFF_VALUES,
};

verus! {

/// The texts of constants.
pub open spec fn const_texts(values: Seq<&str>) -> Seq<Seq<char>> {
    values.map_values(|v: &str| v@)
}

/// The modes that a session can be in.
pub open spec fn modes() -> Seq<Seq<char>> {
    const_texts(MODE_VALUES@)
}

/// The levels of effort.
pub open spec fn efforts() -> Seq<Seq<char>> {
    const_texts(EFFORT_VALUES@)
}

/// The positions of a switch.
pub open spec fn switches() -> Seq<Seq<char>> {
    const_texts(ON_OFF_VALUES@)
}

/// The position of a switch that `value` stands for.
pub open spec fn switch_position(value: Seq<char>) -> Option<bool> {
    if value == "on"@ || value == "true"@ || value == "1"@ {
        Some(true)
    } else if value == "off"@ || value == "false"@ || value == "0"@ {
        Some(false)
    } else {
        None
    }
}

/// The position of a switch that `value` stands for.
pub fn parse_on_off(value: &str) -> (r: Option<bool>)
    ensures
        r == switch_position(value@),
{
    if text::same_text(value, "on") || text::same_text(value, "true") || text::same_text(
        value,
        "1",
    ) {
        Some(true)
    } else if text::same_text(value, "off") || text::same_text(value, "false") || text::same_text(
        value,
        "0",
    ) {
        Some(false)
    } else {
        None
    }
}

/// Whether `value` is one of `values`.
fn is_one_of(value: &str, values: &[&'static str]) -> (r: bool)
    ensures
        r == const_texts(values@).contains(value@),
{
    let mut i: usize = 0;
    while i < values.len()
        invariant
            i <= values.len(),
            forall|j: int| 0 <= j < i ==> values@[j]@ != value@,
        decreases values.len() - i,
    {
        if text::same_text(values[i], value) {
            assert(const_texts(values@)[i as int] == value@);
            return true;
        }
        i = i + 1;
    }
    proof {
        if const_texts(values@).contains(value@) {
            let j = const_texts(values@).index_of(value@);
            assert(values@[j]@ == value@);
        }
    }
    false
}

/// The complaint about a value that an option cannot have.
pub open spec fn invalid_value(
    option: Seq<char>,
    value: Seq<char>,
    valid: Seq<Seq<char>>,
) -> Seq<char> {
    "invalid "@ + option + " `"@ + value + "` (valid: "@ + text::join(valid, ", "@) + ")"@
}

/// The complaint about a value that an option cannot have.
fn invalid_value_message(option: &str, value: &str, valid: &[&'static str]) -> (r: String)
    ensures
        r@ == invalid_value(option@, value@, const_texts(valid@)),
{
    let mut list: Vec<String> = Vec::new();
    let ghost all = const_texts(valid@);
    let mut i: usize = 0;
    assert(text::texts(list@) =~= all.take(0));
    while i < valid.len()
        invariant
            i <= valid.len(),
            all == const_texts(valid@),
            text::texts(list@) == all.take(i as int),
        decreases valid.len() - i,
    {
        let v: &'static str = valid[i];
        let ghost before = text::texts(list@);
        list.push(v.to_owned());
        assert(text::texts(list@) =~= before.push(v@));
        assert(text::texts(list@) =~= all.take(i + 1));
        i = i + 1;
    }
    assert(all.take(valid.len() as int) =~= all);
    let mut r: String = "invalid ".to_owned();
    r.append(option);
    r.append(" `");
    r.append(value);
    r.append("` (valid: ");
    let values: String = text::joined(&list, ", ");
    r.append(values.as_str());
    r.append(")");
    r
}

/// The session after an option has been set, or why it cannot be.
pub open spec fn configured(
    session: SessionView,
    config_id: Seq<char>,
    value: Seq<char>,
) -> Result<SessionView, Seq<char>> {
    if config_id == CONFIG_ID_MODEL@ {
        Ok(SessionView { model_id: Some(value), ..session })
    } else if config_id == CONFIG_ID_MODE@ {
        if modes().contains(value) {
            Ok(SessionView { mode: Some(value), ..session })
        } else {
            Err(invalid_value("mode"@, value, modes()))
        }
    } else if config_id == CONFIG_ID_EFFORT@ {
        if efforts().contains(value) {
            Ok(SessionView { effort: Some(value), ..session })
        } else {
            Err(invalid_value("effort"@, value, efforts()))
        }
    } else if config_id == CONFIG_ID_SANDBOX@ {
        match switch_position(value) {
            Some(on) => Ok(SessionView { sandbox: on, ..session }),
            None => Err(invalid_value("sandbox"@, value, switches())),
        }
    } else if config_id == CONFIG_ID_SKIP_PERMISSIONS@ {
        match switch_position(value) {
            Some(on) => Ok(SessionView { skip_permissions: on, ..session }),
            None => Err(invalid_value("skip_permissions"@, value, switches())),
        }
    } else {
        Err("unknown configId: "@ + config_id)
    }
}

/// What came of setting an option.
pub open spec fn config_result(r: Result<Session, String>) -> Result<SessionView, Seq<char>> {
    match r {
        Ok(s) => Ok(s@),
        Err(e) => Err(e@),
    }
}

/// Sets an option of a session.
pub fn configure(session: &Session, config_id: &str, value: &str) -> (r: Result<Session, String>)
    ensures
        config_result(r) == configured(session@, config_id@, value@),
{
    let mut next: Session = session.clone();
    if text::same_text(config_id, CONFIG_ID_MODEL) {
        next.model_id = Some(value.to_owned());
        Ok(next)
    } else if text::same_text(config_id, CONFIG_ID_MODE) {
        if !is_one_of(value, &MODE_VALUES) {
            return Err(invalid_value_message("mode", value, &MODE_VALUES));
        }
        next.mode = Some(value.to_owned());
        Ok(next)
    } else if text::same_text(config_id, CONFIG_ID_EFFORT) {
        if !is_one_of(value, &EFFORT_VALUES) {
            return Err(invalid_value_message("effort", value, &EFFORT_VALUES));
        }
        next.effort = Some(value.to_owned());
        Ok(next)
    } else if text::same_text(config_id, CONFIG_ID_SANDBOX) {
        match parse_on_off(value) {
            Some(on) => {
                next.sandbox = on;
                Ok(next)
            },
            None => Err(invalid_value_message("sandbox", value, &ON_OFF_VALUES)),
        }
    } else if text::same_text(config_id, CONFIG_ID_SKIP_PERMISSIONS) {
        match parse_on_off(value) {
            Some(on) => {
                next.skip_permissions = on;
                Ok(next)
            },
            None => Err(invalid_value_message("skip_permissions", value, &ON_OFF_VALUES)),
        }
    } else {
        let mut message: String = "unknown configId: ".to_owned();
        message.append(config_id);
        Err(message)
    }
}

/// One of the values to choose from.
pub open spec fn choice(
    value: Seq<char>,
    name: Seq<char>,
    description: Seq<char>,
) -> JsonView {
    JsonView::Object(
        map![
            "value"@ => JsonView::Text(value),
            "name"@ => JsonView::Text(name),
            "description"@ => JsonView::Text(description),
        ],
    )
}

/// The two positions to choose from.
pub open spec fn switch_choices() -> Seq<JsonView> {
    seq![choice("off"@, "Off"@, "Disabled"@), choice("on"@, "On"@, "Enabled"@)]
}

/// The modes to choose from.
pub open spec fn mode_choices() -> Seq<JsonView> {
    seq![
        choice("default"@, "Default"@, "Request review before applying file writes"@),
        choice("accept-edits"@, "Accept Edits"@, "Apply file edits automatically"@),
        choice("plan"@, "Plan"@, "Plan without applying edits"@),
    ]
}

/// The levels of effort to choose from.
pub open spec fn effort_choices() -> Seq<JsonView> {
    seq![
        choice("low"@, "Low"@, "Faster, less deliberation"@),
        choice("medium"@, "Medium"@, "Balanced reasoning effort"@),
        choice("high"@, "High"@, "Deeper reasoning"@),
    ]
}

/// An option, with its value and those to choose from.
pub open spec fn option_entry(
    id: Seq<char>,
    name: Seq<char>,
    description: Seq<char>,
    category: Seq<char>,
    current: Seq<char>,
    options: Seq<JsonView>,
) -> JsonView {
    JsonView::Object(
        map![
            "id"@ => JsonView::Text(id),
            "name"@ => JsonView::Text(name),
            "description"@ => JsonView::Text(description),
            "category"@ => JsonView::Text(category),
            "type"@ => JsonView::Text("select"@),
            "currentValue"@ => JsonView::Text(current),
            "options"@ => JsonView::List(options),
        ],
    )
}

/// All options of a session. Their order is that of their importance to the
/// client: mode, model, effort, sandbox, permissions.
pub open spec fn config_options(session: SessionView, models: Seq<Seq<char>>) -> Seq<JsonView> {
    seq![
        option_entry(
            CONFIG_ID_MODE@,
            "Mode"@,
            "Controls how the agent applies edits and requests review"@,
            "mode"@,
            types::or_default(session.mode, DEFAULT_MODE@),
            mode_choices(),
        ),
        option_entry(
            CONFIG_ID_MODEL@,
            "Model"@,
            "Model used for this session"@,
            "model"@,
            models::current_model(session.model_id, models),
            models::model_entries(models, "value"@),
        ),
        option_entry(
            CONFIG_ID_EFFORT@,
            "Effort"@,
            "Reasoning effort / thinking level"@,
            "thought_level"@,
            types::or_default(session.effort, DEFAULT_EFFORT@),
            effort_choices(),
        ),
        option_entry(
            CONFIG_ID_SANDBOX@,
            "Sandbox"@,
            "Run tool commands in the OS sandbox"@,
            "_safety"@,
            types::on_off(session.sandbox),
            switch_choices(),
        ),
        option_entry(
            CONFIG_ID_SKIP_PERMISSIONS@,
            "Skip Permissions"@,
            "Auto-approve all tool permission requests (dangerous)"@,
            "_safety"@,
            types::on_off(session.skip_permissions),
            switch_choices(),
        ),
    ]
}

/// One of the values to choose from.
pub fn select_option(value: &str, name: &str, description: &str) -> (r: Json)
    ensures
        r@ == choice(value@, name@, description@),
{
    let mut f: Vec<(String, Json)> = Vec::new();
    json::put_text(&mut f, "value", value);
    json::put_text(&mut f, "name", name);
    json::put_text(&mut f, "description", description);
    Json::Object(f)
}

/// The two positions to choose from.
pub fn on_off_options() -> (r: Vec<Json>)
    ensures
        json::list_view(r@) == switch_choices(),
{
    let mut r: Vec<Json> = Vec::new();
    json::push_item(&mut r, select_option("off", "Off", "Disabled"));
    json::push_item(&mut r, select_option("on", "On", "Enabled"));
    assert(json::list_view(r@) =~= switch_choices());
    r
}

/// The modes to choose from.
fn mode_options() -> (r: Vec<Json>)
    ensures
        json::list_view(r@) == mode_choices(),
{
    let mut r: Vec<Json> = Vec::new();
    json::push_item(
        &mut r,
        select_option("default", "Default", "Request review before applying file writes"),
    );
    json::push_item(
        &mut r,
        select_option("accept-edits", "Accept Edits", "Apply file edits automatically"),
    );
    json::push_item(&mut r, select_option("plan", "Plan", "Plan without applying edits"));
    assert(json::list_view(r@) =~= mode_choices());
    r
}

/// The levels of effort to choose from.
fn effort_options() -> (r: Vec<Json>)
    ensures
        json::list_view(r@) == effort_choices(),
{
    let mut r: Vec<Json> = Vec::new();
    json::push_item(&mut r, select_option("low", "Low", "Faster, less deliberation"));
    json::push_item(&mut r, select_option("medium", "Medium", "Balanced reasoning effort"));
    json::push_item(&mut r, select_option("high", "High", "Deeper reasoning"));
    assert(json::list_view(r@) =~= effort_choices());
    r
}

/// An option, with its value and those to choose from.
fn option_json(
    id: &str,
    name: &str,
    description: &str,
    category: &str,
    current: &str,
    options: Vec<Json>,
) -> (r: Json)
    ensures
        r@ == option_entry(
            id@,
            name@,
            description@,
            category@,
            current@,
            json::list_view(options@),
        ),
{
    let mut f: Vec<(String, Json)> = Vec::new();
    json::put_text(&mut f, "id", id);
    json::put_text(&mut f, "name", name);
    json::put_text(&mut f, "description", description);
    json::put_text(&mut f, "category", category);
    json::put_text(&mut f, "type", "select");
    json::put_text(&mut f, "currentValue", current);
    json::put(&mut f, "options", Json::List(options));
    Json::Object(f)
}

/// All options of a session.
pub fn config_options_json(session: &Session, models: &Vec<String>) -> (r: Json)
    ensures
        r@ == JsonView::List(config_options(session@, text::texts(models@))),
{
    let current: String = models::current_model_of(&session.model_id, models);
    let mut r: Vec<Json> = Vec::new();
    json::push_item(
        &mut r,
        option_json(
            CONFIG_ID_MODE,
            "Mode",
            "Controls how the agent applies edits and requests review",
            "mode",
            session.mode_or_default(),
            mode_options(),
        ),
    );
    json::push_item(
        &mut r,
        option_json(
            CONFIG_ID_MODEL,
            "Model",
            "Model used for this session",
            "model",
            current.as_str(),
            models::model_list(models, "value"),
        ),
    );
    json::push_item(
        &mut r,
        option_json(
            CONFIG_ID_EFFORT,
            "Effort",
            "Reasoning effort / thinking level",
            "thought_level",
            session.effort_or_default(),
            effort_options(),
        ),
    );
    json::push_item(
        &mut r,
        option_json(
            CONFIG_ID_SANDBOX,
            "Sandbox",
            "Run tool commands in the OS sandbox",
            "_safety",
            session.sandbox_value(),
            on_off_options(),
        ),
    );
    json::push_item(
        &mut r,
        option_json(
            CONFIG_ID_SKIP_PERMISSIONS,
            "Skip Permissions",
            "Auto-approve all tool permission requests (dangerous)",
            "_safety",
            session.skip_permissions_value(),
            on_off_options(),
        ),
    );
    assert(json::list_view(r@) =~= config_options(session@, text::texts(models@)));
    Json::List(r)
}

/// The models on offer, and the one in use.
pub open spec fn models_entry(model_id: Option<Seq<char>>, models: Seq<Seq<char>>) -> JsonView {
    JsonView::Object(
        map![
            "currentModelId"@ => JsonView::Text(models::current_model(model_id, models)),
            "availableModels"@ => JsonView::List(models::model_entries(models, "modelId"@)),
        ],
    )
}

/// The models on offer, and the one in use.
pub fn models_json(model_id: &Option<String>, models: &Vec<String>) -> (r: Json)
    ensures
        r@ == models_entry(text::opt_text(*model_id), text::texts(models@)),
{
    let current: String = models::current_model_of(model_id, models);
    let mut f: Vec<(String, Json)> = Vec::new();
    json::put_text(&mut f, "currentModelId", current.as_str());
    json::put(&mut f, "availableModels", Json::List(models::model_list(models, "modelId")));
    Json::Object(f)
}

/// A mode, for clients that know of modes and not of options.
pub open spec fn mode_entry(id: Seq<char>, name: Seq<char>, description: Seq<char>) -> JsonView {
    JsonView::Object(
        map![
            "id"@ => JsonView::Text(id),
            "name"@ => JsonView::Text(name),
            "description"@ => JsonView::Text(description),
        ],
    )
}

/// All modes, for clients that know of modes and not of options.
pub open spec fn mode_entries() -> Seq<JsonView> {
    seq![
        mode_entry("default"@, "Default"@, "Request review before applying file writes"@),
        mode_entry("accept-edits"@, "Accept Edits"@, "Apply file edits automatically"@),
        mode_entry("plan"@, "Plan"@, "Plan without applying edits"@),
    ]
}

fn mode_json(id: &str, name: &str, description: &str) -> (r: Json)
    ensures
        r@ == mode_entry(id@, name@, description@),
{
    let mut f: Vec<(String, Json)> = Vec::new();
    json::put_text(&mut f, "id", id);
    json::put_text(&mut f, "name", name);
    json::put_text(&mut f, "description", description);
    Json::Object(f)
}

fn modes_json(session: &Session) -> (r: Json)
    ensures
        r@ == modes_entry(session@),
{
    let mut list: Vec<Json> = Vec::new();
    json::push_item(
        &mut list,
        mode_json("default", "Default", "Request review before applying file writes"),
    );
    json::push_item(
        &mut list,
        mode_json("accept-edits", "Accept Edits", "Apply file edits automatically"),
    );
    json::push_item(&mut list, mode_json("plan", "Plan", "Plan without applying edits"));
    assert(json::list_view(list@) =~= mode_entries());
    let mut f: Vec<(String, Json)> = Vec::new();
    json::put_text(&mut f, "currentModeId", session.mode_or_default());
    json::put(&mut f, "availableModes", Json::List(list));
    Json::Object(f)
}

/// The mode of a session, and all modes.
pub open spec fn modes_entry(session: SessionView) -> JsonView {
    JsonView::Object(
        map![
            "currentModeId"@ => JsonView::Text(types::or_default(session.mode, DEFAULT_MODE@)),
            "availableModes"@ => JsonView::List(mode_entries()),
        ],
    )
}

/// What the client is told of a session that it has opened. The modes stand
/// there twice, for clients that do not use the options yet.
pub open spec fn session_entry(
    session_id: Seq<char>,
    session: SessionView,
    models: Seq<Seq<char>>,
) -> JsonView {
    JsonView::Object(
        map![
            "sessionId"@ => JsonView::Text(session_id),
            "models"@ => models_entry(session.model_id, models),
            "modes"@ => modes_entry(session),
            "configOptions"@ => JsonView::List(config_options(session, models)),
        ],
    )
}

/// What the client is told of a session that it has opened.
pub fn session_json(session_id: &str, session: &Session, models: &Vec<String>) -> (r: Json)
    ensures
        r@ == session_entry(session_id@, session@, text::texts(models@)),
{
    let mut f: Vec<(String, Json)> = Vec::new();
    json::put_text(&mut f, "sessionId", session_id);
    json::put(&mut f, "models", models_json(&session.model_id, models));
    json::put(&mut f, "modes", modes_json(session));
    json::put(&mut f, "configOptions", config_options_json(session, models));
    Json::Object(f)
}

} // verus!
