//! What the options and the models of a session come to.

use vstd::prelude::*;

use crate::bridge::BridgeView;
use crate::calls::ProblemView;
use crate::config::{
    after_write, all_capitalized, all_upserted, default_options, distinct_ids, label_of,
    option_index_is_first, options_of_config, refresh_keeps_ids_distinct, upserted,
    upsert_keeps_ids_distinct, write_request, ConfigCategory, ConfigOptionView,
};
use crate::json::{found_in_more, Json, JsonView};
use crate::laws::words::option_ids;
use crate::models::{
    latest_model, listed_models, model_among, model_in_use, model_with_id, ModelView,
};
use crate::table::at;
use crate::text::{
    joined, signed_value, split, split_at_separator, split_without_separator, uppercase_of,
};

verus! {

/// That an option can take exactly some values, in their order.
pub open spec fn offers(option: ConfigOptionView, values: Seq<Seq<char>>) -> bool {
    &&& option.values.len() == values.len()
    &&& forall|i: int|
        0 <= i < values.len() ==> (#[trigger] option.values[i]).value == values[i]
            && option.values[i].label == label_of(values[i])
}

/// A configuration always gives the effort, the policy for approvals and the sandbox, each
/// with the value that is set or else the default, and the verbosity and the web search
/// exactly where they are set.
pub proof fn options_have_the_values_that_are_set(config: JsonView)
    ensures
        ({
            let options = options_of_config(config);
            let effort = config.text_at("model_reasoning_effort"@);
            let policy = config.text_at("approval_policy"@);
            let sandbox = config.text_at("sandbox_mode"@);
            let verbosity = config.text_at("model_verbosity"@);
            let search = config.text_at("web_search"@);
            let fourth = if verbosity is Some {
                1int
            } else {
                0
            };
            let fifth = if search is Some {
                1int
            } else {
                0
            };
            &&& options.len() == 3 + fourth + fifth
            &&& options[0].id == "model_reasoning_effort"@
            &&& options[0].name == "Reasoning"@
            &&& options[0].category == Some(ConfigCategory::ThoughtLevel)
            &&& options[0].current_value == (match effort {
                Some(value) => value,
                None => "xhigh"@,
            })
            &&& offers(options[0], seq!["low"@, "medium"@, "high"@, "xhigh"@])
            &&& options[1].id == "approval_policy"@
            &&& options[1].name == "Approvals"@
            &&& options[1].current_value == (match policy {
                Some(value) => value,
                None => "never"@,
            })
            &&& offers(options[1], seq!["untrusted"@, "on-failure"@, "on-request"@, "never"@])
            &&& options[2].id == "sandbox_mode"@
            &&& options[2].name == "Sandbox"@
            &&& options[2].current_value == (match sandbox {
                Some(value) => value,
                None => "danger-full-access"@,
            })
            &&& offers(
                options[2],
                seq!["read-only"@, "workspace-write"@, "danger-full-access"@],
            )
            &&& verbosity is Some ==> {
                &&& options[3].id == "model_verbosity"@
                &&& Some(options[3].current_value) == verbosity
                &&& offers(options[3], seq!["low"@, "medium"@, "high"@])
            }
            &&& search is Some ==> {
                &&& options.last().id == "web_search"@
                &&& Some(options.last().current_value) == search
                &&& offers(options.last(), seq!["disabled"@, "cached"@, "indexed"@, "live"@])
            }
        }),
{
}

/// The value of a default option is one that it offers.
pub proof fn defaults_are_offered(i: int)
    requires
        0 <= i < default_options().len(),
    ensures
        exists|j: int|
            0 <= j < default_options()[i].values.len() && (
            #[trigger] default_options()[i].values[j]).value == default_options()[i].current_value,
{
    let options = default_options();
    assert(options[0].values[3].value == "xhigh"@);
    assert(options[1].values[3].value == "never"@);
    assert(options[2].values[2].value == "danger-full-access"@);
}

/// Whether a value has a label of its own.
pub open spec fn has_own_label(value: Seq<char>) -> bool {
    ||| value == "gpt-5.5"@
    ||| value == "gpt-5.4"@
    ||| value == "gpt-5.4-mini"@
    ||| value == "xhigh"@
    ||| value == "on-request"@
    ||| value == "on-failure"@
    ||| value == "read-only"@
    ||| value == "workspace-write"@
    ||| value == "danger-full-access"@
}

/// The values that have labels of their own: models are spelled as their makers spell them, and
/// what is written with dashes is written with spaces.
pub proof fn own_labels()
    ensures
        label_of("gpt-5.5"@) == "GPT-5.5"@,
        label_of("gpt-5.4"@) == "GPT-5.4"@,
        label_of("gpt-5.4-mini"@) == "GPT-5.4 Mini"@,
        label_of("xhigh"@) == "Extra High"@,
        label_of("on-request"@) == "On Request"@,
        label_of("on-failure"@) == "On Failure"@,
        label_of("read-only"@) == "Read Only"@,
        label_of("workspace-write"@) == "Workspace Write"@,
        label_of("danger-full-access"@) == "Danger Full Access"@,
{
    reveal_strlit("gpt-5.5");
    reveal_strlit("gpt-5.4");
    reveal_strlit("gpt-5.4-mini");
    reveal_strlit("xhigh");
    reveal_strlit("on-request");
    reveal_strlit("on-failure");
    reveal_strlit("read-only");
    reveal_strlit("workspace-write");
    reveal_strlit("danger-full-access");
    assert("gpt-5.5"@.len() == 7 && "gpt-5.5"@[6] == '5');
    assert("gpt-5.4"@.len() == 7 && "gpt-5.4"@[6] == '4');
    assert("gpt-5.4-mini"@.len() == 12 && "xhigh"@.len() == 5);
    assert("on-request"@.len() == 10 && "on-request"@[3] == 'r');
    assert("on-failure"@.len() == 10 && "on-failure"@[3] == 'f');
    assert("read-only"@.len() == 9 && "workspace-write"@.len() == 15);
    assert("danger-full-access"@.len() == 18);
}

/// A value of several words is labelled word by word: each starts with a capital, and a space
/// stands for each separator.
pub proof fn labels_go_word_by_word(word: Seq<char>, separator: char, rest: Seq<char>)
    requires
        !has_own_label(word),
        !has_own_label(rest),
        !has_own_label(word.push(separator) + rest),
        separator == '_' || separator == '-',
        word.len() > 0,
        forall|i: int|
            0 <= i < word.len() ==> #[trigger] word[i] != '_' && word[i] != '-',
    ensures
        label_of(word) == uppercase_of(word[0]) + word.skip(1),
        label_of(word.push(separator) + rest) == label_of(word) + " "@ + label_of(rest),
{
    let separators = seq!['_', '-'];
    assert(separators.contains(separator)) by {
        assert(separators[0] == '_' && separators[1] == '-');
    }
    split_without_separator(word, separators);
    split_at_separator(word, separator, rest, separators);
    crate::text::split_is_not_empty(rest, separators);
    let first = seq![word];
    let others = split(rest, separators);
    assert(first.drop_last() =~= Seq::<Seq<char>>::empty());
    reveal_with_fuel(all_capitalized, 2);
    all_capitalized_add_up(first, others);
    all_capitalized_keep_their_number(others);
    let a = all_capitalized(first);
    assert(a =~= seq![uppercase_of(word[0]) + word.skip(1)]);
    joined_add_up(a, all_capitalized(others), " "@);
    assert(joined(a, " "@) == a[0]);
}

proof fn all_capitalized_keep_their_number(words: Seq<Seq<char>>)
    ensures
        all_capitalized(words).len() == words.len(),
    decreases words.len(),
{
    if words.len() > 0 {
        all_capitalized_keep_their_number(words.drop_last());
    }
}

proof fn all_capitalized_add_up(a: Seq<Seq<char>>, b: Seq<Seq<char>>)
    ensures
        all_capitalized(a + b) == all_capitalized(a) + all_capitalized(b),
    decreases b.len(),
{
    if b.len() == 0 {
        assert(a + b =~= a);
        assert(all_capitalized(a) + all_capitalized(b) =~= all_capitalized(a));
    } else {
        assert((a + b).drop_last() =~= a + b.drop_last());
        all_capitalized_add_up(a, b.drop_last());
        assert(all_capitalized(a + b) =~= all_capitalized(a) + all_capitalized(b));
    }
}

/// Texts that are joined one after the other are all joined.
pub proof fn joined_add_up(a: Seq<Seq<char>>, b: Seq<Seq<char>>, separator: Seq<char>)
    requires
        a.len() > 0,
        b.len() > 0,
    ensures
        joined(a + b, separator) == joined(a, separator) + separator + joined(b, separator),
    decreases b.len(),
{
    let init = b.drop_last();
    assert((a + b).drop_last() =~= a + init);
    if b.len() == 1 {
        assert(a + init =~= a);
        assert((a + b).last() == b[0]);
    } else {
        joined_add_up(a, init, separator);
        assert(joined(a, separator) + separator + joined(init, separator) + separator + b.last()
            =~= joined(a, separator) + separator + (joined(init, separator) + separator
            + b.last()));
    }
}

/// Reading the configuration of a session puts in every option that it sets, and leaves every
/// other option of the session where it is.
pub proof fn read_options_are_put_in<T, S, W>(
    state: BridgeView<T, S, W>,
    session: Seq<char>,
    response: JsonView,
    config: JsonView,
    j: int,
    k: int,
)
    requires
        state.options.contains_key(session),
        distinct_ids(state.options[session]),
        response.get("config"@) == Some(config),
        0 <= j < options_of_config(config).len(),
        0 <= k < state.options[session].len(),
    ensures
        ({
            let after = state.after_reading(session, response);
            let options = after.options[session];
            let incoming = options_of_config(config);
            let before = state.options[session][k];
            &&& distinct_ids(options)
            &&& options.contains(incoming[j])
            &&& (forall|i: int|
                0 <= i < incoming.len() ==> (#[trigger] incoming[i]).id != before.id)
                ==> options[k] == before
            &&& after.models == state.models
            &&& after.turns == state.turns
        }),
{
    let incoming = options_of_config(config);
    incoming_ids_are_distinct(config);
    refresh_keeps_ids_distinct(state.options[session], incoming);
    all_upserted_are_in(state.options[session], incoming, j);
    if forall|i: int|
        0 <= i < incoming.len() ==> (#[trigger] incoming[i]).id != state.options[session][k].id {
        others_stay_in_place(state.options[session], incoming, k);
    }
}

proof fn incoming_ids_are_distinct(config: JsonView)
    ensures
        distinct_ids(options_of_config(config)),
{
    option_ids();
}

proof fn all_upserted_are_in(
    options: Seq<ConfigOptionView>,
    incoming: Seq<ConfigOptionView>,
    j: int,
)
    requires
        distinct_ids(options),
        distinct_ids(incoming),
        0 <= j < incoming.len(),
    ensures
        all_upserted(options, incoming).contains(incoming[j]),
    decreases incoming.len(),
{
    let init = incoming.drop_last();
    let before = all_upserted(options, init);
    refresh_keeps_ids_distinct(options, init);
    upsert_keeps_ids_distinct(before, incoming.last());
    let after = upserted(before, incoming.last());
    if j < init.len() {
        assert(distinct_ids(init)) by {
            assert forall|a: int, b: int| 0 <= a < b < init.len() implies (
            #[trigger] init[a]).id != (#[trigger] init[b]).id by {
                assert(incoming[a].id != incoming[b].id);
            }
        }
        all_upserted_are_in(options, init, j);
        let at = choose|i: int| 0 <= i < before.len() && before[i] == init[j];
        assert(incoming[j].id != incoming[incoming.len() - 1].id);
        option_index_is_first(before, incoming.last().id);
        assert(after[at] == before[at]);
        assert(after[at] == incoming[j]);
    } else {
        let at = choose|i: int| 0 <= i < after.len() && #[trigger] after[i] == incoming.last();
        assert(after[at] == incoming[j]);
    }
}

proof fn others_stay_in_place(
    options: Seq<ConfigOptionView>,
    incoming: Seq<ConfigOptionView>,
    k: int,
)
    requires
        0 <= k < options.len(),
        forall|i: int| 0 <= i < incoming.len() ==> (#[trigger] incoming[i]).id != options[k].id,
    ensures
        k < all_upserted(options, incoming).len(),
        all_upserted(options, incoming)[k] == options[k],
    decreases incoming.len(),
{
    if incoming.len() > 0 {
        let init = incoming.drop_last();
        assert forall|i: int| 0 <= i < init.len() implies (#[trigger] init[i]).id
            != options[k].id by {
            assert(init[i] == incoming[i]);
        }
        others_stay_in_place(options, init, k);
        let before = all_upserted(options, init);
        option_index_is_first(before, incoming.last().id);
        assert(incoming[incoming.len() - 1].id != options[k].id);
    }
}

/// Reading the configuration for a session without options changes nothing.
pub proof fn unknown_sessions_are_not_read<T, S, W>(
    state: BridgeView<T, S, W>,
    session: Seq<char>,
    response: JsonView,
    other: Seq<char>,
)
    ensures
        !state.options.contains_key(session) ==> state.after_reading(session, response) == state,
        other != session ==> at(state.after_reading(session, response).options, other) == at(
            state.options,
            other,
        ),
{
}

/// A configuration that could not be read changes nothing, and one that was read is taken over.
pub proof fn unread_configurations_change_nothing<T, S, W>(
    state: BridgeView<T, S, W>,
    session: Seq<char>,
    response: &Json,
    error: &str,
)
    ensures
        state.after_rereading(session, Err(error)) == state,
        state.after_rereading(session, Ok(response)) == state.after_reading(session, response@),
{
}

/// An option is written under its id, and put in beside the others: as a number where the
/// option is a size and the value is one, and else as it was given.
pub proof fn options_are_written_as_given(id: Seq<char>, value: Seq<char>)
    ensures
        ({
            let call = write_request(id, value);
            let sized = id == "model_context_window"@ || id == "model_auto_compact_token_limit"@;
            &&& call.method == "config/value/write"@
            &&& call.params.text_at("keyPath"@) == Some(id)
            &&& call.params.text_at("mergeStrategy"@) == Some("upsert"@)
            &&& call.params.get("value"@) == Some(
                if sized && signed_value(value) is Some {
                    JsonView::Int(signed_value(value)->0)
                } else {
                    JsonView::Text(value)
                },
            )
        }),
{
    broadcast use found_in_more;

    reveal_strlit("keyPath");
    reveal_strlit("value");
    reveal_strlit("mergeStrategy");
    assert("keyPath"@.len() == 7 && "value"@.len() == 5 && "mergeStrategy"@.len() == 13);
}

/// Once an option was written the configuration is read again; where it could not be written
/// that is the problem, with the option and the cause.
pub proof fn written_options_are_read_again(id: Seq<char>, reply: Result<(), &str>)
    ensures
        match reply {
            Ok(()) => {
                &&& after_write(id, reply) is Ok
                &&& after_write(id, reply)->Ok_0.method == "config/read"@
                &&& after_write(id, reply)->Ok_0.params.bool_at("includeLayers"@) == Some(false)
            },
            Err(cause) => {
                &&& after_write(id, reply) is Err
                &&& after_write(id, reply)->Err_0 == (ProblemView {
                    message: "failed to write native Codex config option `"@ + id + "`"@,
                    cause: Some(cause@),
                })
            },
        },
{
    broadcast use found_in_more;

}

/// The id that a listed model has.
pub open spec fn id_in(value: JsonView) -> Option<JsonView> {
    match value.get("model"@) {
        Some(id) => Some(id),
        None => value.get("id"@),
    }
}

/// That a model is what a list says of it.
pub open spec fn is_listed_as(model: ModelView, value: JsonView) -> bool {
    let named = match value.get("displayName"@) {
        Some(name) => Some(name),
        None => value.get("name"@),
    };
    &&& id_in(value) == Some(JsonView::Text(model.id))
    &&& model.name == (match named {
        Some(JsonView::Text(name)) => name,
        _ => model.id,
    })
    &&& model.description == (match value.text_at("description"@) {
        Some(text) => if text.len() > 0 {
            Some(text)
        } else {
            None
        },
        None => None,
    })
    &&& model.is_latest <==> value.bool_at("isDefault"@) == Some(true)
}

/// Models that all have an id are listed one by one, as the list says of them.
pub proof fn models_are_listed_one_by_one(values: Seq<JsonView>)
    requires
        forall|i: int|
            0 <= i < values.len() ==> id_in(#[trigger] values[i]) matches Some(JsonView::Text(_)),
    ensures
        listed_models(values).len() == values.len(),
        forall|i: int|
            0 <= i < values.len() ==> is_listed_as(#[trigger] listed_models(values)[i], values[i]),
    decreases values.len(),
{
    if values.len() > 0 {
        let init = values.drop_last();
        assert(forall|i: int| 0 <= i < init.len() ==> #[trigger] init[i] == values[i]);
        models_are_listed_one_by_one(init);
        let last = values[values.len() - 1];
        assert(id_in(last) matches Some(JsonView::Text(_)));
        let models = listed_models(values);
        assert forall|i: int| 0 <= i < values.len() implies is_listed_as(
            #[trigger] models[i],
            values[i],
        ) by {
            if i < init.len() {
                assert(models[i] == listed_models(init)[i]);
                assert(init[i] == values[i]);
            }
        }
    }
}

/// What has no id is left out of a list of models.
pub proof fn models_without_an_id_are_left_out(values: Seq<JsonView>, value: JsonView)
    requires
        !(id_in(value) matches Some(JsonView::Text(_))),
    ensures
        listed_models(values.push(value)) == listed_models(values),
{
    assert(values.push(value).drop_last() =~= values);
}

/// Whether a model stands first among those with its id.
pub open spec fn is_first_with_id(models: Seq<ModelView>, i: int, id: Seq<char>) -> bool {
    &&& 0 <= i < models.len()
    &&& models[i].id == id
    &&& forall|j: int| 0 <= j < i ==> (#[trigger] models[j]).id != id
}

/// Whether no model has an id.
pub open spec fn is_not_listed(models: Seq<ModelView>, id: Option<Seq<char>>) -> bool {
    id is Some ==> forall|j: int|
        0 <= j < models.len() ==> (#[trigger] models[j]).id != id->0
}

/// Of the models that a response lists, the one that was selected is used; else the default;
/// else the one that the list says is the default; else the first. Where none is listed, what
/// was selected is used as it is, or else the default, or none.
pub proof fn the_selected_model_is_used(
    models: Seq<ModelView>,
    selected: Option<Seq<char>>,
    default: Option<Seq<char>>,
    i: int,
)
    ensures
        ({
            let used = model_in_use(models, selected, default);
            &&& selected is Some && is_first_with_id(models, i, selected->0) ==> used == Some(
                models[i],
            )
            &&& is_not_listed(models, selected) && default is Some && is_first_with_id(
                models,
                i,
                default->0,
            ) ==> used == Some(models[i])
            &&& is_not_listed(models, selected) && is_not_listed(models, default) && 0 <= i
                < models.len() && models[i].is_latest && (forall|j: int|
                0 <= j < i ==> !(#[trigger] models[j]).is_latest) ==> used == Some(models[i])
            &&& is_not_listed(models, selected) && is_not_listed(models, default) && models.len()
                > 0 && (forall|j: int|
                0 <= j < models.len() ==> !(#[trigger] models[j]).is_latest) ==> used == Some(
                models[0],
            )
            &&& models.len() == 0 ==> match (selected, default) {
                (Some(id), _) => used is Some && used->0.id == id && used->0.name == id,
                (None, Some(id)) => used is Some && used->0.id == id && used->0.name == id,
                (None, None) => used is None,
            }
        }),
{
    if let Some(id) = selected {
        if is_first_with_id(models, i, id) {
            first_with_id_is_found(models, i, id);
        }
        if is_not_listed(models, selected) {
            absent_id_is_not_found(models, id);
        }
    }
    if let Some(id) = default {
        if is_first_with_id(models, i, id) {
            first_with_id_is_found(models, i, id);
        }
        if is_not_listed(models, default) {
            absent_id_is_not_found(models, id);
        }
    }
    if 0 <= i < models.len() && models[i].is_latest && (forall|j: int|
        0 <= j < i ==> !(#[trigger] models[j]).is_latest) {
        first_latest_is_found(models, i);
    }
    if forall|j: int| 0 <= j < models.len() ==> !(#[trigger] models[j]).is_latest {
        first_latest_is_found(models, models.len() as int);
    }
}

/// The same holds of the models that a response lists.
pub proof fn listed_models_are_chosen_from(
    response: JsonView,
    values: Seq<JsonView>,
    selected: Option<Seq<char>>,
    default: Option<Seq<char>>,
)
    requires
        response.get("data"@) == Some(JsonView::Array(values)),
    ensures
        model_among(response, selected, default) == model_in_use(
            listed_models(values),
            selected,
            default,
        ),
{
}

proof fn first_with_id_is_found(models: Seq<ModelView>, i: int, id: Seq<char>)
    requires
        is_first_with_id(models, i, id),
    ensures
        model_with_id(models, id) == Some(models[i]),
    decreases models.len(),
{
    let init = models.drop_last();
    assert(forall|j: int| 0 <= j < init.len() ==> #[trigger] init[j] == models[j]);
    if i < init.len() {
        first_with_id_is_found(init, i, id);
    } else {
        absent_id_is_not_found(init, id);
    }
}

proof fn absent_id_is_not_found(models: Seq<ModelView>, id: Seq<char>)
    requires
        forall|j: int| 0 <= j < models.len() ==> (#[trigger] models[j]).id != id,
    ensures
        model_with_id(models, id) is None,
    decreases models.len(),
{
    if models.len() > 0 {
        let init = models.drop_last();
        assert(forall|j: int| 0 <= j < init.len() ==> #[trigger] init[j] == models[j]);
        assert(models[models.len() - 1].id != id);
        absent_id_is_not_found(init, id);
    }
}

proof fn first_latest_is_found(models: Seq<ModelView>, i: int)
    requires
        0 <= i <= models.len(),
        i < models.len() ==> models[i].is_latest,
        forall|j: int| 0 <= j < i ==> !(#[trigger] models[j]).is_latest,
    ensures
        latest_model(models) == (if i < models.len() {
            Some(models[i])
        } else {
            None
        }),
    decreases models.len(),
{
    if models.len() > 0 {
        let init = models.drop_last();
        assert(forall|j: int| 0 <= j < init.len() ==> #[trigger] init[j] == models[j]);
        if i < init.len() {
            first_latest_is_found(init, i);
        } else {
            first_latest_is_found(init, init.len() as int);
            if i == models.len() {
                assert(!models[models.len() - 1].is_latest);
            }
        }
    }
}

} // verus!
