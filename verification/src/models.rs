//! The models that Codex offers, and which of them a session uses.

use vstd::prelude::*;

use crate::json::{
    fields, no_entries, read_text, ref_views, text_in, with, Json, JsonView,
};
use crate::text::{
    either, opt_string, opt_text, or_text, owned, same_text, take_all, take_step, text_or,
};

verus! {

/// A model that can be chosen.
#[derive(Debug, PartialEq, Eq)]
pub struct AgentModelInfo {
    pub id: String,
    pub name: String,
    pub description: Option<String>,
    pub is_latest: bool,
}

/// What is said of a model.
pub struct ModelView {
    pub id: Seq<char>,
    pub name: Seq<char>,
    pub description: Option<Seq<char>>,
    pub is_latest: bool,
}

impl View for AgentModelInfo {
    type V = ModelView;

    open spec fn view(&self) -> ModelView {
        ModelView {
            id: self.id@,
            name: self.name@,
            description: opt_string(self.description),
            is_latest: self.is_latest,
        }
    }
}

/// What is said of some models.
pub open spec fn model_views(models: Seq<AgentModelInfo>) -> Seq<ModelView> {
    Seq::new(models.len(), |i: int| models[i]@)
}

/// A model that Codex lists; nothing where it has no id.
pub open spec fn listed_model(value: JsonView) -> Option<ModelView> {
    match text_in(value.get_either("model"@, "id"@)) {
        Some(id) => Some(
            ModelView {
                id,
                name: text_or(text_in(value.get_either("displayName"@, "name"@)), id),
                description: match value.text_at("description"@) {
                    Some(description) => if description.len() == 0 {
                        None
                    } else {
                        Some(description)
                    },
                    None => None,
                },
                is_latest: value.bool_at("isDefault"@) == Some(true),
            },
        ),
        None => None,
    }
}

/// The models that Codex lists.
pub open spec fn listed_models(values: Seq<JsonView>) -> Seq<ModelView>
    decreases values.len(),
{
    if values.len() == 0 {
        Seq::empty()
    } else {
        let models = listed_models(values.drop_last());
        match listed_model(values.last()) {
            Some(model) => models.push(model),
            None => models,
        }
    }
}

/// A model of which nothing but the id is known.
pub open spec fn bare_model(id: Seq<char>) -> ModelView {
    ModelView { id, name: id, description: None, is_latest: false }
}

/// The first model with an id.
pub open spec fn model_with_id(models: Seq<ModelView>, id: Seq<char>) -> Option<ModelView>
    decreases models.len(),
{
    if models.len() == 0 {
        None
    } else {
        match model_with_id(models.drop_last(), id) {
            Some(model) => Some(model),
            None => if models.last().id == id {
                Some(models.last())
            } else {
                None
            },
        }
    }
}

/// The first model that is the latest.
pub open spec fn latest_model(models: Seq<ModelView>) -> Option<ModelView>
    decreases models.len(),
{
    if models.len() == 0 {
        None
    } else {
        match latest_model(models.drop_last()) {
            Some(model) => Some(model),
            None => if models.last().is_latest {
                Some(models.last())
            } else {
                None
            },
        }
    }
}

/// The listed model that an optional id names.
pub open spec fn named_model(models: Seq<ModelView>, id: Option<Seq<char>>) -> Option<ModelView> {
    match id {
        Some(id) => model_with_id(models, id),
        None => None,
    }
}

/// The listed model that a session uses: the one that was selected, or else the
/// default, the latest, or the first.
pub open spec fn preferred_model(
    models: Seq<ModelView>,
    selected: Option<Seq<char>>,
    default: Option<Seq<char>>,
) -> Option<ModelView> {
    let first = if models.len() == 0 {
        None
    } else {
        Some(models[0])
    };
    either(
        named_model(models, selected),
        either(named_model(models, default), either(latest_model(models), first)),
    )
}

/// The model that a session uses, listed or not; nothing where no model is known at all.
pub open spec fn model_in_use(
    models: Seq<ModelView>,
    selected: Option<Seq<char>>,
    default: Option<Seq<char>>,
) -> Option<ModelView> {
    match preferred_model(models, selected, default) {
        Some(model) => Some(model),
        None => match either(selected, default) {
            Some(id) => Some(bare_model(id)),
            None => None,
        },
    }
}

/// The model that a thread was set to.
pub open spec fn thread_model(response: JsonView) -> Option<Seq<char>> {
    let settings = either(response.get2("thread"@, "settings"@), response.get("threadSettings"@));
    match settings {
        Some(settings) => settings.text_at("model"@),
        None => None,
    }
}

/// The parameters with which models are listed.
pub open spec fn model_list_query() -> JsonView {
    JsonView::Object(
        fields().push(("cursor"@, JsonView::Null)).push(("limit"@, JsonView::Null)).push(
            ("includeHidden"@, JsonView::Bool(true)),
        ),
    )
}

/// The parameters with which models are listed.
pub fn model_list_params() -> (params: Json)
    ensures
        params@ == model_list_query(),
{
    let entries = with(no_entries(), "cursor", Json::Null);
    let entries = with(entries, "limit", Json::Null);
    Json::object(with(entries, "includeHidden", Json::Bool(true)))
}

/// A model that Codex lists.
pub fn agent_model_info_from_value(value: &Json) -> (model: Option<AgentModelInfo>)
    ensures
        match model {
            Some(model) => listed_model(value@) == Some(model@),
            None => listed_model(value@) is None,
        },
{
    let id = match read_text(value.get_either("model", "id")) {
        Some(id) => id,
        None => return None,
    };
    let name = or_text(read_text(value.get_either("displayName", "name")), id);
    let description = match value.text_at("description") {
        Some(description) => if description.is_empty() {
            None
        } else {
            Some(description.to_owned())
        },
        None => None,
    };
    let is_latest = match value.bool_at("isDefault") {
        Some(default) => default,
        None => false,
    };
    Some(AgentModelInfo { id: id.to_owned(), name: name.to_owned(), description, is_latest })
}

/// The models that Codex lists.
pub fn agent_model_infos_from_response(response: &Json) -> (models: Vec<AgentModelInfo>)
    ensures
        model_views(models@) == listed_models(response@.items_at("data"@)),
{
    let values = response.items_at("data");
    let ghost all = ref_views(values@);
    let mut models: Vec<AgentModelInfo> = Vec::new();
    let mut i: usize = 0;
    proof {
        take_all(all);
        assert(model_views(models@) =~= listed_models(all.take(0)));
    }
    while i < values.len()
        invariant
            i <= values@.len(),
            all == ref_views(values@),
            model_views(models@) == listed_models(all.take(i as int)),
        decreases values@.len() - i,
    {
        proof {
            take_step(all, i as int);
        }
        let ghost before = models@;
        if let Some(model) = agent_model_info_from_value(values[i]) {
            models.push(model);
            assert(model_views(models@) =~= model_views(before).push(model@));
        }
        i = i + 1;
    }
    proof {
        take_all(all);
    }
    models
}

/// A model of which nothing but the id is known.
pub fn fallback_agent_model_info(id: &str) -> (model: AgentModelInfo)
    ensures
        model@ == bare_model(id@),
{
    AgentModelInfo { id: id.to_owned(), name: id.to_owned(), description: None, is_latest: false }
}

/// The listed model that an optional id names.
fn find_model<'a>(models: &'a Vec<AgentModelInfo>, id: Option<&str>) -> (model: Option<
    &'a AgentModelInfo,
>)
    ensures
        match model {
            Some(model) => named_model(model_views(models@), opt_text(id)) == Some(model@),
            None => named_model(model_views(models@), opt_text(id)) is None,
        },
{
    let wanted = match id {
        Some(id) => id,
        None => return None,
    };
    let ghost all = model_views(models@);
    let mut i: usize = 0;
    proof {
        take_all(all);
    }
    while i < models.len()
        invariant
            i <= models@.len(),
            all == model_views(models@),
            opt_text(id) == Some(wanted@),
            model_with_id(all.take(i as int), wanted@) is None,
        decreases models@.len() - i,
    {
        proof {
            take_step(all, i as int);
        }
        if same_text(models[i].id.as_str(), wanted) {
            proof {
                found_model_stays(all, wanted@, i + 1);
            }
            return Some(&models[i]);
        }
        i = i + 1;
    }
    proof {
        take_all(all);
    }
    None
}

proof fn found_model_stays(models: Seq<ModelView>, id: Seq<char>, i: int)
    requires
        0 <= i <= models.len(),
        model_with_id(models.take(i), id) is Some,
    ensures
        model_with_id(models, id) == model_with_id(models.take(i), id),
    decreases models.len(),
{
    if i == models.len() {
        take_all(models);
    } else {
        assert(models.drop_last().take(i) =~= models.take(i));
        found_model_stays(models.drop_last(), id, i);
    }
}

/// The first model that is the latest.
fn find_latest<'a>(models: &'a Vec<AgentModelInfo>) -> (model: Option<&'a AgentModelInfo>)
    ensures
        match model {
            Some(model) => latest_model(model_views(models@)) == Some(model@),
            None => latest_model(model_views(models@)) is None,
        },
{
    let ghost all = model_views(models@);
    let mut i: usize = 0;
    proof {
        take_all(all);
    }
    while i < models.len()
        invariant
            i <= models@.len(),
            all == model_views(models@),
            latest_model(all.take(i as int)) is None,
        decreases models@.len() - i,
    {
        proof {
            take_step(all, i as int);
        }
        if models[i].is_latest {
            proof {
                found_latest_stays(all, i + 1);
            }
            return Some(&models[i]);
        }
        i = i + 1;
    }
    proof {
        take_all(all);
    }
    None
}

proof fn found_latest_stays(models: Seq<ModelView>, i: int)
    requires
        0 <= i <= models.len(),
        latest_model(models.take(i)) is Some,
    ensures
        latest_model(models) == latest_model(models.take(i)),
    decreases models.len(),
{
    if i == models.len() {
        take_all(models);
    } else {
        assert(models.drop_last().take(i) =~= models.take(i));
        found_latest_stays(models.drop_last(), i);
    }
}

/// The listed model that a session uses.
pub fn selected_agent_model<'a>(
    models: &'a Vec<AgentModelInfo>,
    selected: Option<&str>,
    default: Option<&str>,
) -> (model: Option<&'a AgentModelInfo>)
    ensures
        match model {
            Some(model) => preferred_model(
                model_views(models@),
                opt_text(selected),
                opt_text(default),
            ) == Some(model@),
            None => preferred_model(
                model_views(models@),
                opt_text(selected),
                opt_text(default),
            ) is None,
        },
{
    if let Some(model) = find_model(models, selected) {
        return Some(model);
    }
    if let Some(model) = find_model(models, default) {
        return Some(model);
    }
    if let Some(model) = find_latest(models) {
        return Some(model);
    }
    if models.len() == 0 {
        None
    } else {
        Some(&models[0])
    }
}

/// That Codex lists no model, and none was named.
#[derive(Clone, Copy, Debug, PartialEq, Eq, Structural)]
pub struct NoModel;

impl NoModel {
    /// What is said of it.
    pub fn to_text(&self) -> (text: String)
        ensures
            text@ == "Codex model list was empty"@,
    {
        "Codex model list was empty".to_owned()
    }
}

/// The model that a session uses, of those that a response lists.
pub open spec fn model_among(
    response: JsonView,
    selected: Option<Seq<char>>,
    default: Option<Seq<char>>,
) -> Option<ModelView> {
    model_in_use(listed_models(response.items_at("data"@)), selected, default)
}

/// The model that a session uses, of those that a response lists.
pub fn selected_model(response: &Json, selected: Option<&str>, default: Option<&str>) -> (model:
    Result<AgentModelInfo, NoModel>)
    ensures
        match model {
            Ok(model) => model_among(response@, opt_text(selected), opt_text(default)) == Some(
                model@,
            ),
            Err(_) => model_among(response@, opt_text(selected), opt_text(default)) is None,
        },
{
    let models = agent_model_infos_from_response(response);
    if let Some(model) = selected_agent_model(&models, selected, default) {
        let description = match &model.description {
            Some(description) => Some(description.clone()),
            None => None,
        };
        return Ok(
            AgentModelInfo {
                id: model.id.clone(),
                name: model.name.clone(),
                description,
                is_latest: model.is_latest,
            },
        );
    }
    match selected {
        Some(id) => Ok(fallback_agent_model_info(id)),
        None => match default {
            Some(id) => Ok(fallback_agent_model_info(id)),
            None => Err(NoModel),
        },
    }
}

/// The model that a thread was set to.
pub fn remembered_model(response: &Json) -> (model: Option<String>)
    ensures
        opt_string(model) == thread_model(response@),
{
    let settings = match response.get2("thread", "settings") {
        Some(settings) => Some(settings),
        None => response.get("threadSettings"),
    };
    match settings {
        Some(settings) => owned(settings.text_at("model")),
        None => None,
    }
}

/// A listed model that was selected is the one that is used, whatever the default; a
/// selected model that is not listed gives way to a default that is.
pub proof fn selection_goes_before_default(
    models: Seq<ModelView>,
    selected: Seq<char>,
    default: Option<Seq<char>>,
)
    ensures
        model_with_id(models, selected) is Some ==> model_in_use(models, Some(selected), default)
            == model_with_id(models, selected),
        model_with_id(models, selected) is None && named_model(models, default) is Some
            ==> model_in_use(models, Some(selected), default) == named_model(models, default),
{
}

/// Where any model is listed, a listed model is used.
pub proof fn listed_models_are_used(
    models: Seq<ModelView>,
    selected: Option<Seq<char>>,
    default: Option<Seq<char>>,
)
    requires
        models.len() > 0,
    ensures
        model_in_use(models, selected, default) is Some,
        models.contains(model_in_use(models, selected, default)->0),
{
    if let Some(id) = selected {
        found_model_is_listed(models, id);
    }
    if let Some(id) = default {
        found_model_is_listed(models, id);
    }
    latest_model_is_listed(models);
    assert(models.contains(models[0]));
}

proof fn found_model_is_listed(models: Seq<ModelView>, id: Seq<char>)
    ensures
        match model_with_id(models, id) {
            Some(model) => models.contains(model) && model.id == id,
            None => true,
        },
    decreases models.len(),
{
    if models.len() > 0 {
        found_model_is_listed(models.drop_last(), id);
        assert(models[models.len() - 1] == models.last());
        if let Some(model) = model_with_id(models.drop_last(), id) {
            let i = choose|i: int| 0 <= i < models.drop_last().len() && models.drop_last()[i]
                == model;
            assert(models[i] == model);
        }
    }
}

proof fn latest_model_is_listed(models: Seq<ModelView>)
    ensures
        match latest_model(models) {
            Some(model) => models.contains(model) && model.is_latest,
            None => true,
        },
    decreases models.len(),
{
    if models.len() > 0 {
        latest_model_is_listed(models.drop_last());
        assert(models[models.len() - 1] == models.last());
        if let Some(model) = latest_model(models.drop_last()) {
            let i = choose|i: int| 0 <= i < models.drop_last().len() && models.drop_last()[i]
                == model;
            assert(models[i] == model);
        }
    }
}

} // verus!
