//! What holds of documents: of their members, of what is read from them and of
//! what is kept of them.
//!
//! The statements speak of the members of objects by their literal keys.

use vstd::prelude::*;

use crate::document::{double_bits_of, number_of, signed_of, unsigned_of};
use crate::input::{
    cost_of, model_of, project_path_of, session_id_of, timestamp_of, transcript_path_of,
};
use crate::json::{
    as_text, as_unsigned, either_field, field, json_of_ref, Json, JsonNumber, JsonObject, JsonValue,
};
use crate::sanitize::{cleaned, is_vacant, law_items_are_kept_in_order, sanitized};

verus! {

/// Law: a member that is set is found, one that is removed is not, and setting
/// or removing a member leaves the others as they are.
pub proof fn law_members_are_found_by_their_keys(
    map: Map<Seq<char>, Json>,
    key: Seq<char>,
    other: Seq<char>,
    value: Json,
)
    ensures
        field(Json::Object(map.insert(key, value)), key) == Some(value),
        field(Json::Object(map.remove(key)), key) is None,
        key != other ==> field(Json::Object(map.insert(other, value)), key) == field(
            Json::Object(map),
            key,
        ),
        key != other ==> field(Json::Object(map.remove(other)), key) == field(
            Json::Object(map),
            key,
        ),
        map.contains_key(key) ==> field(Json::Object(map), key) == Some(map[key]),
        !map.contains_key(key) ==> field(Json::Object(map), key) is None,
{
}

/// Law: only objects have members.
pub proof fn law_only_objects_have_members(json: Json, first: Seq<char>, second: Seq<char>)
    requires
        !(json is Object),
    ensures
        field(json, first) is None,
        either_field(json, first, second) is None,
{
}

/// Law: of two spellings the first one counts where it is there, whatever its
/// value, and the second one only where the first is not.
pub proof fn law_first_spelling_comes_first(
    map: Map<Seq<char>, Json>,
    first: Seq<char>,
    second: Seq<char>,
    value: Json,
)
    ensures
        either_field(Json::Object(map.insert(first, value)), first, second) == Some(value),
        first != second ==> either_field(
            Json::Object(map.remove(first).insert(second, value)),
            first,
            second,
        ) == Some(value),
        either_field(Json::Object(map.remove(first).remove(second)), first, second) is None,
{
}

/// Law: text is read from text alone, and a count from a number alone that is
/// an unsigned integer.
pub proof fn law_values_are_read_by_their_type(json: Json, text: Seq<char>, number: JsonNumber)
    ensures
        as_text(Some(Json::Text(text))) == Some(text),
        as_text(Some(json)) is Some ==> json is Text,
        as_text(None) is None,
        as_unsigned(Some(Json::Number(number))) == number.unsigned,
        as_unsigned(Some(json)) is Some ==> json is Number,
        as_unsigned(None) is None,
{
}

/// Law: a value is seen as the document that it is built as.
pub proof fn law_values_are_seen_as_they_are(
    truth: bool,
    number: JsonNumber,
    text: String,
    items: Vec<JsonValue>,
    object: JsonObject,
    value: &JsonValue,
)
    ensures
        JsonValue::Null@ == Json::Null,
        JsonValue::Bool(truth)@ == Json::Bool(truth),
        JsonValue::Number(number)@ == Json::Number(number),
        JsonValue::Text(text)@ == Json::Text(text@),
        JsonValue::Array(items)@ matches Json::Array(seen) && seen.len() == items@.len() && (forall|
            i: int,
        |
            0 <= i < items@.len() ==> #[trigger] seen[i] == items@[i]@),
        JsonValue::Object(object)@ == Json::Object(object@),
        json_of_ref(Some(value)) == Some(value@),
        json_of_ref(None) is None,
{
}

/// Law: a number of serde_json is seen as its three readings.
pub proof fn law_numbers_are_seen_as_they_are(number: serde_json::Number)
    ensures
        number_of(number).unsigned == unsigned_of(number),
        number_of(number).signed == signed_of(number),
        number_of(number).double_bits == double_bits_of(number),
{
}

/// Whether the members of an object give `json` under the spelling `first` or,
/// where that is not there, under the spelling `second`.
pub open spec fn gives(
    map: Map<Seq<char>, Json>,
    first: Seq<char>,
    second: Seq<char>,
    json: Json,
) -> bool {
    if map.contains_key(first) {
        map[first] == json
    } else {
        map.contains_key(second) && map[second] == json
    }
}

/// Whether the member `key` of an object is the text `text`.
pub open spec fn holds_text(
    map: Map<Seq<char>, Json>,
    key: Seq<char>,
    text: Seq<char>,
) -> bool {
    map.contains_key(key) && map[key] == Json::Text(text)
}

/// Law: what is set under the first spelling is given, and nothing else; what is
/// set under the second one is given where the first is not there; and without
/// either nothing is.
pub proof fn law_spellings_give_what_was_set(
    map: Map<Seq<char>, Json>,
    first: Seq<char>,
    second: Seq<char>,
    value: Json,
    json: Json,
)
    requires
        first != second,
    ensures
        gives(map.insert(first, value), first, second, json) <==> value == json,
        gives(map.remove(first).insert(second, value), first, second, json) <==> value == json,
        !gives(map.remove(first).remove(second), first, second, json),
{
}

/// Law: the session, the transcript, the cost and the model are what the
/// document gives under one of two spellings; the first two count only as text.
pub proof fn law_input_is_read_under_two_spellings(
    map: Map<Seq<char>, Json>,
    text: Seq<char>,
    json: Json,
)
    ensures
        session_id_of(Json::Object(map)) == Some(text) <==> gives(
            map,
            "session_id"@,
            "sessionId"@,
            Json::Text(text),
        ),
        transcript_path_of(Json::Object(map)) == Some(text) <==> gives(
            map,
            "transcript_path"@,
            "transcriptPath"@,
            Json::Text(text),
        ),
        cost_of(Json::Object(map)) == Some(json) <==> gives(map, "cost"@, "sessionCost"@, json),
        model_of(Json::Object(map)) == Some(json) <==> gives(map, "model"@, "modelInfo"@, json),
{
}

/// Law: the time is that of the member `timestamp` where it is text, and else
/// that of the member `last_update_time` where that is text.
pub proof fn law_timestamp_comes_first(map: Map<Seq<char>, Json>, text: Seq<char>)
    ensures
        holds_text(map, "timestamp"@, text) ==> timestamp_of(Json::Object(map)) == Some(text),
        (forall|other: Seq<char>| !#[trigger] holds_text(map, "timestamp"@, other)) ==> (
        timestamp_of(Json::Object(map)) == Some(text) <==> holds_text(
            map,
            "last_update_time"@,
            text,
        )),
{
    if map.contains_key("timestamp"@) {
        if let Json::Text(other) = map["timestamp"@] {
            assert(holds_text(map, "timestamp"@, other));
        }
    }
}

/// Law: a document that is no object says nothing.
pub proof fn law_other_documents_say_nothing(
    json: Json,
    existing: Option<Seq<char>>,
    current_dir: Option<Seq<char>>,
)
    requires
        !(json is Object),
    ensures
        session_id_of(json) is None,
        transcript_path_of(json) is None,
        cost_of(json) is None,
        model_of(json) is None,
        timestamp_of(json) is None,
        existing is Some ==> project_path_of(json, existing, current_dir) == existing,
        existing is None ==> project_path_of(json, existing, current_dir) == current_dir,
{
}

/// Law: the project directory of the workspace is the path of the project,
/// whatever else is known.
pub proof fn law_workspace_names_the_project(
    map: Map<Seq<char>, Json>,
    workspace: Map<Seq<char>, Json>,
    path: Seq<char>,
    existing: Option<Seq<char>>,
    current_dir: Option<Seq<char>>,
)
    requires
        gives(map, "workspace"@, "workspaceInfo"@, Json::Object(workspace)),
        gives(workspace, "project_dir"@, "projectDir"@, Json::Text(path)),
    ensures
        project_path_of(Json::Object(map), existing, current_dir) == Some(path),
{
}

/// Whether the workspace of a document, if there is one, names no project
/// directory.
pub open spec fn names_no_project(map: Map<Seq<char>, Json>) -> bool {
    forall|workspace: Map<Seq<char>, Json>, path: Seq<char>|
        gives(map, "workspace"@, "workspaceInfo"@, Json::Object(workspace)) ==> !#[trigger] gives(
            workspace,
            "project_dir"@,
            "projectDir"@,
            Json::Text(path),
        )
}

/// Law: without a project directory of the workspace, the directory that the
/// document names is the path of the project: `cwd`, or `currentDir` where there
/// is no `cwd`. Without any, what is known stays, and the directory of the
/// process is the last resort.
pub proof fn law_directory_names_the_project(
    map: Map<Seq<char>, Json>,
    directory: Seq<char>,
    existing: Option<Seq<char>>,
    current_dir: Option<Seq<char>>,
)
    requires
        names_no_project(map),
    ensures
        gives(map, "cwd"@, "currentDir"@, Json::Text(directory)) ==> project_path_of(
            Json::Object(map),
            existing,
            current_dir,
        ) == Some(directory),
        (forall|other: Seq<char>|
            !#[trigger] gives(map, "cwd"@, "currentDir"@, Json::Text(other))) ==> project_path_of(
            Json::Object(map),
            existing,
            current_dir,
        ) == match existing {
            Some(path) => Some(path),
            None => current_dir,
        },
{
    let input = Json::Object(map);
    if let Some(Json::Object(workspace)) = either_field(
        input,
        "workspace"@,
        "workspaceInfo"@,
    ) {
        if let Some(Json::Text(path)) = either_field(
            Json::Object(workspace),
            "project_dir"@,
            "projectDir"@,
        ) {
            assert(gives(workspace, "project_dir"@, "projectDir"@, Json::Text(path)));
        }
    }
    if let Some(Json::Text(other)) = either_field(input, "cwd"@, "currentDir"@) {
        assert(gives(map, "cwd"@, "currentDir"@, Json::Text(other)));
    }
}

/// Law: in a document without a workspace the text at `cwd` is the path of the
/// project, and the text at `currentDir` only where there is no `cwd`.
pub proof fn law_cwd_names_the_project(
    map: Map<Seq<char>, Json>,
    directory: Seq<char>,
    existing: Option<Seq<char>>,
    current_dir: Option<Seq<char>>,
)
    requires
        !map.contains_key("workspace"@),
        !map.contains_key("workspaceInfo"@),
    ensures
        holds_text(map, "cwd"@, directory) ==> project_path_of(
            Json::Object(map),
            existing,
            current_dir,
        ) == Some(directory),
        !map.contains_key("cwd"@) && holds_text(map, "currentDir"@, directory) ==> project_path_of(
            Json::Object(map),
            existing,
            current_dir,
        ) == Some(directory),
{
}

/// Law: null and what is empty say nothing, and everything else says something,
/// zero, false and the empty text too.
pub proof fn law_what_says_nothing(json: Json)
    ensures
        is_vacant(json) <==> (json == Json::Null || json == Json::Array(Seq::empty()) || json
            == Json::Object(Map::empty())),
        says_something(json) <==> (json != Json::Null && json != Json::Array(Seq::empty()) && json
            != Json::Object(Map::empty())),
{
    lemma_says_something(json);
    if let Json::Array(items) = json {
        if items.len() == 0 {
            assert(items =~= Seq::empty());
        }
    }
}

/// Whether `json` is neither null nor empty.
pub open spec fn says_something(json: Json) -> bool {
    match json {
        Json::Null => false,
        Json::Array(items) => items.len() > 0,
        Json::Object(map) => exists|key: Seq<char>| map.contains_key(key),
        _ => true,
    }
}

proof fn lemma_says_something(json: Json)
    ensures
        says_something(json) == !is_vacant(json),
{
    if let Json::Object(map) = json {
        if forall|key: Seq<char>| !map.contains_key(key) {
            assert(map =~= Map::<Seq<char>, Json>::empty());
        }
    }
}

/// Law: numbers, texts, truth values and null are kept as they are, on their
/// own.
pub proof fn law_plain_values_are_kept(json: Json)
    requires
        !(json is Object),
        !(json is Array),
    ensures
        sanitized(json) == json,
{
}

/// Law: a member other than `cost` is kept if and only if what is kept of its
/// value says something, and then with that value. No member comes out of
/// nothing.
pub proof fn law_members_are_sanitized_one_by_one(map: Map<Seq<char>, Json>, key: Seq<char>)
    requires
        key != "cost"@,
    ensures
        sanitized(Json::Object(map)) matches Json::Object(after) && (after.contains_key(key) <==> (
        map.contains_key(key) && says_something(sanitized(map[key])))) && (after.contains_key(key)
            ==> after[key] == sanitized(map[key])),
{
    reveal_with_fuel(cleaned, 2);
    lemma_says_something(sanitized(map[key]));
}

/// A cost object without its token counters.
pub open spec fn without_token_counters(map: Map<Seq<char>, Json>) -> Map<Seq<char>, Json> {
    map.remove("input_tokens"@).remove("output_tokens"@).remove("total_tokens"@).remove(
        "cache_read_tokens"@,
    ).remove("cache_write_tokens"@)
}

proof fn lemma_cost_is_cleaned(cost: Map<Seq<char>, Json>)
    ensures
        cleaned(Json::Object(cost), true) == sanitized(
            Json::Object(without_token_counters(cost)),
        ),
{
    reveal_with_fuel(cleaned, 2);
    let left = cleaned(Json::Object(cost), true)->Object_0;
    let right = sanitized(Json::Object(without_token_counters(cost)))->Object_0;
    assert forall|key: Seq<char>| left.contains_key(key) == #[trigger] right.contains_key(key) by {
        assert(without_token_counters(cost).contains_key(key) ==> without_token_counters(
            cost,
        )[key] == cost[key]);
    }
    assert(left =~= right);
}

/// Law: the member `cost` is kept as the object without its five token counters
/// is, and dropped where nothing of that says anything.
pub proof fn law_cost_loses_its_token_counters(
    map: Map<Seq<char>, Json>,
    cost: Map<Seq<char>, Json>,
)
    requires
        map.contains_key("cost"@),
        map["cost"@] == Json::Object(cost),
    ensures
        sanitized(Json::Object(map)) matches Json::Object(after) && (after.contains_key("cost"@)
            <==> says_something(sanitized(Json::Object(without_token_counters(cost))))) && (
        after.contains_key("cost"@) ==> after["cost"@] == sanitized(
            Json::Object(without_token_counters(cost)),
        )),
{
    reveal_with_fuel(cleaned, 2);
    lemma_cost_is_cleaned(cost);
    lemma_says_something(sanitized(Json::Object(without_token_counters(cost))));
}

/// Law: a member `cost` that is no object is kept as any other member.
pub proof fn law_other_costs_are_ordinary(map: Map<Seq<char>, Json>)
    requires
        !(map.contains_key("cost"@) && map["cost"@] is Object),
    ensures
        sanitized(Json::Object(map)) matches Json::Object(after) && (after.contains_key("cost"@)
            <==> (map.contains_key("cost"@) && says_something(sanitized(map["cost"@])))) && (
        after.contains_key("cost"@) ==> after["cost"@] == sanitized(map["cost"@])),
{
    reveal_with_fuel(cleaned, 2);
    lemma_says_something(sanitized(map["cost"@]));
}

/// Law: a member of a cost object that is a number, a text or a truth value is
/// kept as it is, unless its key is one of the five token counters, and those
/// are gone.
pub proof fn law_other_cost_members_are_kept(
    map: Map<Seq<char>, Json>,
    cost: Map<Seq<char>, Json>,
    key: Seq<char>,
)
    requires
        map.contains_key("cost"@),
        map["cost"@] == Json::Object(cost),
        cost.contains_key(key),
        cost[key] is Number || cost[key] is Text || cost[key] is Bool,
    ensures
        key != "input_tokens"@ && key != "output_tokens"@ && key != "total_tokens"@ && key
            != "cache_read_tokens"@ && key != "cache_write_tokens"@ ==> (sanitized(
            Json::Object(map),
        ) matches Json::Object(after) && after.contains_key("cost"@) && (
        after["cost"@] matches Json::Object(kept) && kept.contains_key(key) && kept[key]
            == cost[key])),
        key == "input_tokens"@ || key == "output_tokens"@ || key == "total_tokens"@ || key
            == "cache_read_tokens"@ || key == "cache_write_tokens"@ ==> (sanitized(
            Json::Object(map),
        ) matches Json::Object(after) && (after.contains_key("cost"@) ==> (
        after["cost"@] matches Json::Object(kept) && !kept.contains_key(key)))),
{
    reveal_with_fuel(cleaned, 3);
    let kept = cleaned(Json::Object(cost), true)->Object_0;
    if kept.contains_key(key) {
        assert(kept != Map::<Seq<char>, Json>::empty());
    }
}

/// Law: outside of a cost object the token counters are members like any
/// others.
pub proof fn law_token_counters_elsewhere_are_kept(map: Map<Seq<char>, Json>, key: Seq<char>)
    requires
        map.contains_key(key),
        map[key] is Number || map[key] is Text || map[key] is Bool,
    ensures
        sanitized(Json::Object(map)) matches Json::Object(after) && after.contains_key(key)
            && after[key] == map[key],
{
    reveal_with_fuel(cleaned, 2);
}

/// Law: an array is kept as its sanitized items that say something, in their
/// order.
pub proof fn law_items_are_sanitized_one_by_one(items: Seq<Json>)
    ensures
        sanitized(Json::Array(items)) == Json::Array(
            items.map_values(|item: Json| sanitized(item)).filter(
                |item: Json| says_something(item),
            ),
        ),
{
    law_items_are_kept_in_order(items);
    let clean = |item: Json| cleaned(item, false);
    let sanitize = |item: Json| sanitized(item);
    let vacant = |item: Json| !is_vacant(item);
    let says = |item: Json| says_something(item);
    assert(items.map_values(clean) =~= items.map_values(sanitize));
    assert forall|item: Json| #[trigger] vacant(item) == says(item) by {
        lemma_says_something(item);
    }
    assert(vacant =~= says);
}

} // verus!
