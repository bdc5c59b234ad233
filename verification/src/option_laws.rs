//! What holds of the options of a session: what setting one does, which values
//! are accepted, and what is shown.
use vstd::prelude::*;

use crate::config;
use crate::json;
use crate::json::JsonView;
use crate::models;
use crate::text;
use crate::text_laws;
use crate::types::SessionView;

verus! {

/// The position of a switch that a text stands for.
pub open spec fn switched(value: Seq<char>, on: bool) -> bool {
    if on {
        value == "on"@ || value == "true"@ || value == "1"@
    } else {
        value == "off"@ || value == "false"@ || value == "0"@
    }
}

proof fn lemma_ids()
    ensures
        "mode"@ != "model"@,
        "mode"@ != "effort"@,
        "mode"@ != "sandbox"@,
        "mode"@ != "skip_permissions"@,
        "model"@ != "effort"@,
        "model"@ != "sandbox"@,
        "model"@ != "skip_permissions"@,
        "effort"@ != "sandbox"@,
        "effort"@ != "skip_permissions"@,
        "sandbox"@ != "skip_permissions"@,
{
    reveal_strlit("mode");
    reveal_strlit("model");
    reveal_strlit("effort");
    reveal_strlit("sandbox");
    reveal_strlit("skip_permissions");
    assert("mode"@.len() == 4);
    assert("model"@.len() == 5);
    assert("effort"@.len() == 6);
    assert("sandbox"@.len() == 7);
    assert("skip_permissions"@.len() == 16);
}

proof fn lemma_switch_texts()
    ensures
        forall|value: Seq<char>| #![auto] !(switched(value, true) && switched(value, false)),
{
    reveal_strlit("on");
    reveal_strlit("off");
    reveal_strlit("true");
    reveal_strlit("false");
    reveal_strlit("1");
    reveal_strlit("0");
    assert("on"@.len() == 2);
    assert("off"@.len() == 3);
    assert("true"@.len() == 4);
    assert("false"@.len() == 5);
    assert("1"@.len() == 1 && "1"@[0] == '1');
    assert("0"@.len() == 1 && "0"@[0] == '0');
}

/// Setting an option changes the one field that the option names, to the value
/// that was asked for, and no other. The session stays in its conversation, at
/// its step.
pub proof fn law_option_sets_one_field(session: SessionView, config_id: Seq<char>, value: Seq<char>)
    ensures
        match config::configured(session, config_id, value) {
            Ok(next) => {
                &&& next.conversation_id == session.conversation_id
                &&& next.last_step_idx == session.last_step_idx
                &&& next.model_id == if config_id == "model"@ {
                    Some(value)
                } else {
                    session.model_id
                }
                &&& next.mode == if config_id == "mode"@ {
                    Some(value)
                } else {
                    session.mode
                }
                &&& next.effort == if config_id == "effort"@ {
                    Some(value)
                } else {
                    session.effort
                }
                &&& if config_id == "sandbox"@ {
                    switched(value, next.sandbox)
                } else {
                    next.sandbox == session.sandbox
                }
                &&& if config_id == "skip_permissions"@ {
                    switched(value, next.skip_permissions)
                } else {
                    next.skip_permissions == session.skip_permissions
                }
            },
            Err(_) => true,
        },
{
    lemma_ids();
    lemma_switch_texts();
}

/// Which values each option accepts, whatever the session is like.
pub proof fn law_accepted_values(session: SessionView, config_id: Seq<char>, value: Seq<char>)
    ensures
        config::configured(session, "model"@, value) is Ok,
        config::configured(session, "mode"@, value) is Ok <==> value == "default"@ || value
            == "accept-edits"@ || value == "plan"@,
        config::configured(session, "effort"@, value) is Ok <==> value == "low"@ || value
            == "medium"@ || value == "high"@,
        config::configured(session, "sandbox"@, value) is Ok <==> switched(value, true) || switched(
            value,
            false,
        ),
        config::configured(session, "skip_permissions"@, value) is Ok <==> switched(value, true)
            || switched(value, false),
        config_id != "model"@ && config_id != "mode"@ && config_id != "effort"@ && config_id
            != "sandbox"@ && config_id != "skip_permissions"@ ==> config::configured(
            session,
            config_id,
            value,
        ) is Err,
{
    lemma_ids();
    lemma_switch_texts();
    lemma_three(config::modes(), "default"@, "accept-edits"@, "plan"@, value);
    lemma_three(config::efforts(), "low"@, "medium"@, "high"@, value);
}

proof fn lemma_three(
    list: Seq<Seq<char>>,
    a: Seq<char>,
    b: Seq<char>,
    c: Seq<char>,
    value: Seq<char>,
)
    requires
        list.len() == 3,
        list[0] == a,
        list[1] == b,
        list[2] == c,
    ensures
        list.contains(value) <==> value == a || value == b || value == c,
        text::join(list, ", "@) == a + ", "@ + b + ", "@ + c,
{
    if list.contains(value) {
        let i = list.index_of(value);
        assert(list[i] == value);
    }
    text_laws::law_join(seq![a], seq![b], a, ", "@);
    text_laws::law_join(seq![a, b], seq![c], c, ", "@);
    text_laws::law_join(seq![a], seq![b], b, ", "@);
    assert(seq![a] + seq![b] =~= seq![a, b]);
    assert(seq![a, b] + seq![c] =~= list);
}

/// A refusal names the option, the value, and the values that are accepted.
pub proof fn law_refusals(session: SessionView, config_id: Seq<char>, value: Seq<char>)
    ensures
        config_id == "mode"@ ==> match config::configured(session, config_id, value) {
            Ok(_) => true,
            Err(e) => e == "invalid "@ + "mode"@ + " `"@ + value + "` (valid: "@ + ("default"@
                + ", "@ + "accept-edits"@ + ", "@ + "plan"@) + ")"@,
        },
        config_id == "effort"@ ==> match config::configured(session, config_id, value) {
            Ok(_) => true,
            Err(e) => e == "invalid "@ + "effort"@ + " `"@ + value + "` (valid: "@ + ("low"@ + ", "@
                + "medium"@ + ", "@ + "high"@) + ")"@,
        },
        config_id == "sandbox"@ || config_id == "skip_permissions"@ ==> match config::configured(
            session,
            config_id,
            value,
        ) {
            Ok(_) => true,
            Err(e) => e == "invalid "@ + config_id + " `"@ + value + "` (valid: "@ + ("off"@ + ", "@
                + "on"@) + ")"@,
        },
        config_id != "model"@ && config_id != "mode"@ && config_id != "effort"@ && config_id
            != "sandbox"@ && config_id != "skip_permissions"@ ==> match config::configured(
            session,
            config_id,
            value,
        ) {
            Ok(_) => true,
            Err(e) => e == "unknown configId: "@ + config_id,
        },
{
    lemma_ids();
    lemma_three(config::modes(), "default"@, "accept-edits"@, "plan"@, value);
    lemma_three(config::efforts(), "low"@, "medium"@, "high"@, value);
    text_laws::law_join(seq!["off"@], seq!["on"@], "off"@, ", "@);
    text_laws::law_join(seq!["off"@], seq!["on"@], "on"@, ", "@);
    assert(seq!["off"@] + seq!["on"@] =~= config::switches());
}

/// `entry` is the option `id` with the value `current`, and is called `name`.
pub open spec fn is_option(
    entry: JsonView,
    id: Seq<char>,
    name: Seq<char>,
    category: Seq<char>,
    current: Seq<char>,
) -> bool {
    &&& json::field(entry, "id"@) == Some(JsonView::Text(id))
    &&& json::field(entry, "name"@) == Some(JsonView::Text(name))
    &&& json::field(entry, "category"@) == Some(JsonView::Text(category))
    &&& json::field(entry, "type"@) == Some(JsonView::Text("select"@))
    &&& json::field(entry, "currentValue"@) == Some(JsonView::Text(current))
}

/// Choice `i` of an option is `value`.
pub open spec fn offers(entry: JsonView, i: int, value: Seq<char>) -> bool {
    match json::field(entry, "options"@) {
        Some(JsonView::List(list)) => 0 <= i < list.len() && json::field(list[i], "value"@) == Some(
            JsonView::Text(value),
        ),
        _ => false,
    }
}

/// How many choices an option has.
pub open spec fn choices(entry: JsonView) -> int {
    match json::field(entry, "options"@) {
        Some(JsonView::List(list)) => list.len() as int,
        _ => -1,
    }
}

proof fn lemma_option_fields(
    id: Seq<char>,
    name: Seq<char>,
    description: Seq<char>,
    category: Seq<char>,
    current: Seq<char>,
    options: Seq<JsonView>,
)
    ensures
        is_option(
            config::option_entry(id, name, description, category, current, options),
            id,
            name,
            category,
            current,
        ),
        json::field(
            config::option_entry(id, name, description, category, current, options),
            "options"@,
        ) == Some(JsonView::List(options)),
{
    reveal_strlit("id");
    reveal_strlit("name");
    reveal_strlit("description");
    reveal_strlit("category");
    reveal_strlit("type");
    reveal_strlit("currentValue");
    reveal_strlit("options");
    assert("id"@.len() == 2);
    assert("name"@.len() == 4 && "name"@[0] == 'n');
    assert("description"@.len() == 11);
    assert("category"@.len() == 8);
    assert("type"@.len() == 4 && "type"@[0] == 't');
    assert("currentValue"@.len() == 12);
    assert("options"@.len() == 7);
}

proof fn lemma_choice(value: Seq<char>, name: Seq<char>, description: Seq<char>)
    ensures
        json::field(config::choice(value, name, description), "value"@) == Some(
            JsonView::Text(value),
        ),
{
    reveal_strlit("value");
    reveal_strlit("name");
    reveal_strlit("description");
    assert("value"@.len() == 5);
    assert("name"@.len() == 4);
    assert("description"@.len() == 11);
}

/// The five options are shown in a fixed order, each with the value that the
/// session has and with the values to choose from. A session without a mode, an
/// effort or a model shows the default mode, medium effort and the first model.
pub proof fn law_options_are_shown(s: SessionView, offered: Seq<Seq<char>>, i: int)
    requires
        offered.len() > 0,
    ensures
        ({
            let all = config::config_options(s, offered);
            &&& all.len() == 5
            &&& is_option(
                all[0],
                "mode"@,
                "Mode"@,
                "mode"@,
                match s.mode {
                    Some(mode) => mode,
                    None => "default"@,
                },
            )
            &&& is_option(
                all[1],
                "model"@,
                "Model"@,
                "model"@,
                match s.model_id {
                    Some(model) => model,
                    None => offered[0],
                },
            )
            &&& is_option(
                all[2],
                "effort"@,
                "Effort"@,
                "thought_level"@,
                match s.effort {
                    Some(effort) => effort,
                    None => "medium"@,
                },
            )
            &&& is_option(
                all[3],
                "sandbox"@,
                "Sandbox"@,
                "_safety"@,
                if s.sandbox {
                    "on"@
                } else {
                    "off"@
                },
            )
            &&& is_option(
                all[4],
                "skip_permissions"@,
                "Skip Permissions"@,
                "_safety"@,
                if s.skip_permissions {
                    "on"@
                } else {
                    "off"@
                },
            )
            &&& choices(all[0]) == 3
            &&& offers(all[0], 0, "default"@)
            &&& offers(all[0], 1, "accept-edits"@)
            &&& offers(all[0], 2, "plan"@)
            &&& choices(all[1]) == offered.len()
            &&& 0 <= i < offered.len() ==> offers(all[1], i, offered[i])
            &&& choices(all[2]) == 3
            &&& offers(all[2], 0, "low"@)
            &&& offers(all[2], 1, "medium"@)
            &&& offers(all[2], 2, "high"@)
            &&& choices(all[3]) == 2
            &&& offers(all[3], 0, "off"@)
            &&& offers(all[3], 1, "on"@)
            &&& choices(all[4]) == 2
            &&& offers(all[4], 0, "off"@)
            &&& offers(all[4], 1, "on"@)
        }),
{
    let all = config::config_options(s, offered);
    lemma_option_fields(
        "mode"@,
        "Mode"@,
        "Controls how the agent applies edits and requests review"@,
        "mode"@,
        match s.mode {
            Some(mode) => mode,
            None => "default"@,
        },
        config::mode_choices(),
    );
    lemma_option_fields(
        "model"@,
        "Model"@,
        "Model used for this session"@,
        "model"@,
        match s.model_id {
            Some(model) => model,
            None => offered[0],
        },
        models::model_entries(offered, "value"@),
    );
    lemma_option_fields(
        "effort"@,
        "Effort"@,
        "Reasoning effort / thinking level"@,
        "thought_level"@,
        match s.effort {
            Some(effort) => effort,
            None => "medium"@,
        },
        config::effort_choices(),
    );
    lemma_option_fields(
        "sandbox"@,
        "Sandbox"@,
        "Run tool commands in the OS sandbox"@,
        "_safety"@,
        if s.sandbox {
            "on"@
        } else {
            "off"@
        },
        config::switch_choices(),
    );
    lemma_option_fields(
        "skip_permissions"@,
        "Skip Permissions"@,
        "Auto-approve all tool permission requests (dangerous)"@,
        "_safety"@,
        if s.skip_permissions {
            "on"@
        } else {
            "off"@
        },
        config::switch_choices(),
    );
    lemma_choice("default"@, "Default"@, "Request review before applying file writes"@);
    lemma_choice("accept-edits"@, "Accept Edits"@, "Apply file edits automatically"@);
    lemma_choice("plan"@, "Plan"@, "Plan without applying edits"@);
    lemma_choice("low"@, "Low"@, "Faster, less deliberation"@);
    lemma_choice("medium"@, "Medium"@, "Balanced reasoning effort"@);
    lemma_choice("high"@, "High"@, "Deeper reasoning"@);
    lemma_choice("off"@, "Off"@, "Disabled"@);
    lemma_choice("on"@, "On"@, "Enabled"@);
    lemma_model_entry(offered, "value"@, i);
}

proof fn lemma_model_entry(offered: Seq<Seq<char>>, key: Seq<char>, i: int)
    requires
        key == "value"@ || key == "modelId"@,
    ensures
        models::model_entries(offered, key).len() == offered.len(),
        0 <= i < offered.len() ==> {
            let entry = models::model_entries(offered, key)[i];
            &&& json::field(entry, key) == Some(JsonView::Text(offered[i]))
            &&& json::field(entry, "name"@) == Some(JsonView::Text(offered[i]))
        },
{
    reveal_strlit("value");
    reveal_strlit("modelId");
    reveal_strlit("name");
    assert("value"@.len() == 5);
    assert("modelId"@.len() == 7);
    assert("name"@.len() == 4);
}

/// A session that was opened is described by its id, its model among all of
/// them, its mode among the three, and its options.
pub proof fn law_session_is_described(
    session_id: Seq<char>,
    s: SessionView,
    offered: Seq<Seq<char>>,
    i: int,
)
    requires
        offered.len() > 0,
    ensures
        ({
            let v = config::session_entry(session_id, s, offered);
            let m = json::field(v, "models"@)->0;
            let available = json::field(m, "availableModels"@)->0->List_0;
            let modes = json::field(v, "modes"@)->0;
            let three = json::field(modes, "availableModes"@)->0->List_0;
            &&& json::field(v, "sessionId"@) == Some(JsonView::Text(session_id))
            &&& json::field(v, "configOptions"@) == Some(
                JsonView::List(config::config_options(s, offered)),
            )
            &&& json::field(v, "models"@) == Some(config::models_entry(s.model_id, offered))
            &&& json::field(m, "currentModelId"@) == Some(
                JsonView::Text(
                    match s.model_id {
                        Some(model) => model,
                        None => offered[0],
                    },
                ),
            )
            &&& json::field(m, "availableModels"@) == Some(JsonView::List(available))
            &&& available.len() == offered.len()
            &&& 0 <= i < offered.len() ==> json::field(available[i], "modelId"@) == Some(
                JsonView::Text(offered[i]),
            ) && json::field(available[i], "name"@) == Some(JsonView::Text(offered[i]))
            &&& json::field(modes, "currentModeId"@) == Some(
                JsonView::Text(
                    match s.mode {
                        Some(mode) => mode,
                        None => "default"@,
                    },
                ),
            )
            &&& json::field(modes, "availableModes"@) == Some(JsonView::List(three))
            &&& three.len() == 3
            &&& json::field(three[0], "id"@) == Some(JsonView::Text("default"@))
            &&& json::field(three[1], "id"@) == Some(JsonView::Text("accept-edits"@))
            &&& json::field(three[2], "id"@) == Some(JsonView::Text("plan"@))
        }),
{
    reveal_strlit("sessionId");
    reveal_strlit("models");
    reveal_strlit("modes");
    reveal_strlit("configOptions");
    reveal_strlit("currentModelId");
    reveal_strlit("availableModels");
    reveal_strlit("currentModeId");
    reveal_strlit("availableModes");
    reveal_strlit("id");
    reveal_strlit("name");
    reveal_strlit("description");
    assert("sessionId"@.len() == 9);
    assert("models"@.len() == 6);
    assert("modes"@.len() == 5);
    assert("configOptions"@.len() == 13);
    assert("currentModelId"@.len() == 14);
    assert("availableModels"@.len() == 15);
    assert("currentModeId"@.len() == 13);
    assert("availableModes"@.len() == 14);
    assert("id"@.len() == 2);
    assert("name"@.len() == 4);
    assert("description"@.len() == 11);
    lemma_model_entry(offered, "modelId"@, i);
}

} // verus!
