//! The models that a session has used.

use vstd::prelude::*;

use crate::json::{as_text, either_field, json_of_ref, Json, JsonValue};
use crate::session::{models_of, HistoryView, ModelUsageEntry, ModelView, SessionHistory};
use crate::text::{owned_text, same_text, slice_text_of, text_of};

verus! {

/// Whether the first model with the id `id` stands at `i`.
pub open spec fn is_first_with(models: Seq<ModelView>, id: Seq<char>, i: int) -> bool {
    &&& 0 <= i < models.len()
    &&& models[i].id == id
    &&& forall|j: int| 0 <= j < i ==> (#[trigger] models[j]).id != id
}

/// The newer of two optional texts: the second, where there is one.
pub open spec fn newer(old_text: Option<Seq<char>>, new_text: Option<Seq<char>>) -> Option<
    Seq<char>,
> {
    match new_text {
        Some(text) => Some(text),
        None => old_text,
    }
}

/// The models once `id` has been observed under the name `display_name` at the
/// time `timestamp`. A known model keeps its place and what is not said anew; an
/// unknown one is added at the end.
pub open spec fn models_after(
    models: Seq<ModelView>,
    id: Seq<char>,
    display_name: Option<Seq<char>>,
    timestamp: Option<Seq<char>>,
) -> Seq<ModelView> {
    if exists|i: int| is_first_with(models, id, i) {
        let i = choose|i: int| is_first_with(models, id, i);
        models.update(
            i,
            ModelView {
                id,
                display_name: newer(models[i].display_name, display_name),
                last_used_at: newer(models[i].last_used_at, timestamp),
            },
        )
    } else {
        models.push(ModelView { id, display_name, last_used_at: timestamp })
    }
}

/// The id that a model document gives.
pub open spec fn model_id_of(model: Json) -> Option<Seq<char>> {
    as_text(either_field(model, "id"@, "model_id"@))
}

/// The name that a model document gives.
pub open spec fn model_name_of(model: Json) -> Option<Seq<char>> {
    as_text(either_field(model, "display_name"@, "displayName"@))
}

/// The models once the model document `model` has been observed at the time
/// `timestamp`. Without a document or an id in it nothing was observed.
pub open spec fn models_observed(
    models: Seq<ModelView>,
    model: Option<Json>,
    timestamp: Option<Seq<char>>,
) -> Seq<ModelView> {
    match model {
        Some(model) => match model_id_of(model) {
            Some(id) => models_after(models, id, model_name_of(model), timestamp),
            None => models,
        },
        None => models,
    }
}

/// The place of the first entry with the id `id`.
fn find_model(entries: &Vec<ModelUsageEntry>, id: &str) -> (place: Option<usize>)
    ensures
        match place {
            Some(i) => is_first_with(models_of(entries@), id@, i as int),
            None => forall|i: int| !is_first_with(models_of(entries@), id@, i),
        },
{
    let mut i: usize = 0;
    while i < entries.len()
        invariant
            i <= entries@.len(),
            forall|j: int| 0 <= j < i ==> (#[trigger] models_of(entries@)[j]).id != id@,
        decreases entries@.len() - i,
    {
        assert(models_of(entries@)[i as int].id == entries@[i as int].id@);
        if same_text(&entries[i].id, id) {
            return Some(i);
        }
        i = i + 1;
    }
    None
}

/// Records that the model document `model` was observed at the time
/// `timestamp`.
pub fn update_model_usage(
    history: &mut SessionHistory,
    model: Option<&JsonValue>,
    timestamp: Option<&str>,
)
    ensures
        final(history)@ == (HistoryView {
            model_usage: models_observed(
                old(history)@.model_usage,
                json_of_ref(model),
                slice_text_of(timestamp),
            ),
            ..old(history)@
        }),
{
    let model: &JsonValue = match model {
        Some(model) => model,
        None => {
            return ;
        },
    };
    let id: &str = match model.get_either("id", "model_id") {
        Some(value) => match value.as_str() {
            Some(id) => id,
            None => {
                return ;
            },
        },
        None => {
            return ;
        },
    };
    let display_name: Option<String> = match model.get_either("display_name", "displayName") {
        Some(value) => owned_text(value.as_str()),
        None => None,
    };
    let timestamp: Option<String> = owned_text(timestamp);
    let ghost known = history.model_usage@;
    match find_model(&history.model_usage, id) {
        Some(i) => {
            let ghost first = choose|j: int| is_first_with(models_of(known), id@, j);
            assert(first == i) by {
                assert(models_of(known)[i as int].id == id@);
                assert(models_of(known)[first].id == id@);
            }
            if display_name.is_some() {
                history.model_usage[i].display_name = display_name;
            }
            if timestamp.is_some() {
                history.model_usage[i].last_used_at = timestamp;
            }
        },
        None => {
            history.model_usage.push(
                ModelUsageEntry { id: id.to_owned(), display_name, last_used_at: timestamp },
            );
        },
    }
    assert(history@.model_usage =~= models_observed(
        models_of(known),
        Some(model@),
        text_of(timestamp),
    ));
}

} // verus!
