//! Reduction of an input document to what is worth keeping.
//!
//! Nothing that says nothing is kept: neither nulls nor empty objects and
//! arrays, as members or as items, also where they only become empty on the
//! way. The token counters of a `cost` object are dropped, since token usage is
//! taken from the transcript.

use vstd::prelude::*;

use crate::json::{
    distinct_keys, key_at, lemma_item_is_smaller, lemma_members, members, Json,
    JsonObject, JsonValue,
};
use crate::text::same_text;

verus! {

/// Whether `key` names one of the token counters of a cost object.
pub open spec fn is_token_counter(key: Seq<char>) -> bool {
    ||| key == "input_tokens"@
    ||| key == "output_tokens"@
    ||| key == "total_tokens"@
    ||| key == "cache_read_tokens"@
    ||| key == "cache_write_tokens"@
}

/// Whether `key` names a cost object.
pub open spec fn names_cost(key: Seq<char>) -> bool {
    key == "cost"@
}

/// Whether `json` says nothing.
pub open spec fn is_vacant(json: Json) -> bool {
    match json {
        Json::Null => true,
        Json::Array(items) => items.len() == 0,
        Json::Object(map) => map == Map::<Seq<char>, Json>::empty(),
        _ => false,
    }
}

/// What is kept of `json`; `is_cost` says whether it is the value of a member
/// `cost`.
pub open spec fn cleaned(json: Json, is_cost: bool) -> Json
    decreases json,
{
    match json {
        Json::Array(items) => Json::Array(cleaned_items(items)),
        Json::Object(map) => Json::Object(
            Map::new(
                |key: Seq<char>|
                    map.contains_key(key) && !(is_cost && is_token_counter(key)) && !is_vacant(
                        cleaned(map[key], names_cost(key)),
                    ),
                |key: Seq<char>|
                    if map.contains_key(key) {
                        cleaned(map[key], names_cost(key))
                    } else {
                        Json::Null
                    },
            ),
        ),
        _ => json,
    }
}

/// What is kept of the items of an array.
pub open spec fn cleaned_items(items: Seq<Json>) -> Seq<Json>
    decreases items,
{
    if items.len() == 0 {
        Seq::empty()
    } else {
        let before = cleaned_items(items.drop_last());
        let last = cleaned(items.last(), false);
        if is_vacant(last) {
            before
        } else {
            before.push(last)
        }
    }
}

/// What is kept of the input document `json`.
pub open spec fn sanitized(json: Json) -> Json {
    cleaned(json, false)
}

/// Whether the value says nothing.
fn says_nothing(value: &JsonValue) -> (vacant: bool)
    ensures
        vacant == is_vacant(value@),
{
    match value {
        JsonValue::Null => true,
        JsonValue::Array(items) => items.len() == 0,
        JsonValue::Object(object) => object.is_empty(),
        _ => false,
    }
}

/// Whether `key` names one of the token counters of a cost object.
fn names_token_counter(key: &String) -> (counter: bool)
    ensures
        counter == is_token_counter(key@),
{
    same_text(key, "input_tokens") || same_text(key, "output_tokens") || same_text(
        key,
        "total_tokens",
    ) || same_text(key, "cache_read_tokens") || same_text(key, "cache_write_tokens")
}

/// The document that is kept of `value`; `is_cost` says whether it is the value
/// of a member `cost`.
pub fn kept(value: &JsonValue, is_cost: bool) -> (result: JsonValue)
    ensures
        result@ == cleaned(value@, is_cost),
    decreases value,
{
    match value {
        JsonValue::Array(items) => {
            let ghost all = value@->Array_0;
            let mut rest: Vec<JsonValue> = Vec::new();
            let ghost mut said: Seq<Json> = Seq::empty();
            let mut i: usize = 0;
            while i < items.len()
                invariant
                    i <= items@.len(),
                    *value == JsonValue::Array(*items),
                    all == value@->Array_0,
                    said == cleaned_items(all.take(i as int)),
                    said.len() == rest@.len(),
                    forall|j: int| 0 <= j < rest@.len() ==> (#[trigger] rest@[j])@ == said[j],
                decreases items@.len() - i,
            {
                proof {
                    lemma_item_is_smaller(*value, i as int);
                    assert(all.take(i + 1).drop_last() =~= all.take(i as int));
                }
                let item: JsonValue = kept(&items[i], false);
                if !says_nothing(&item) {
                    proof {
                        said = said.push(item@);
                    }
                    rest.push(item);
                }
                i = i + 1;
            }
            let result = JsonValue::Array(rest);
            assert(all.take(all.len() as int) =~= all);
            assert(result@->Array_0 =~= said);
            result
        },
        JsonValue::Object(object) => JsonValue::Object(sanitize_object(object, is_cost)),
        _ => value.clone(),
    }
}

/// The members that are kept of `object`; `is_cost` says whether it is the
/// value of a member `cost`.
fn sanitize_object(object: &JsonObject, is_cost: bool) -> (result: JsonObject)
    ensures
        Json::Object(result@) == cleaned(Json::Object(object@), is_cost),
    decreases object,
{
    let count: usize = object.len();
    let ghost pairs = object.pairs();
    let ghost target = cleaned(Json::Object(object@), is_cost)->Object_0;
    proof {
        lemma_members(pairs);
    }
    let mut result: JsonObject = JsonObject::new();
    let mut i: usize = 0;
    while i < count
        invariant
            i <= count,
            count == pairs.len(),
            pairs == object.pairs(),
            distinct_keys(pairs),
            object@ == members(pairs),
            target == cleaned(Json::Object(object@), is_cost)->Object_0,
            forall|key: Seq<char>| #[trigger]
                result@.contains_key(key) ==> target.contains_key(key) && result@[key]
                    == target[key],
            forall|j: int|
                0 <= j < i && target.contains_key((#[trigger] pairs[j]).0)
                    ==> result@.contains_key(pairs[j].0),
        decreases count - i,
    {
        let key: &String = object.key(i);
        proof {
            lemma_members(pairs);
            assert(object@.contains_key(pairs[i as int].0));
        }
        if !(is_cost && names_token_counter(key)) {
            let cleaned_value: JsonValue = kept(object.value(i), same_text(key, "cost"));
            if !says_nothing(&cleaned_value) {
                result.insert(key.clone(), cleaned_value);
            }
        }
        i = i + 1;
    }
    assert forall|key: Seq<char>| #[trigger] target.contains_key(key) implies result@.contains_key(
        key,
    ) by {
        let j = choose|j: int| key_at(pairs, key, j);
        assert(pairs[j].0 == key);
    }
    assert(result@ =~= target);
    result
}

/// Reduces `value` to what is worth keeping.
pub fn sanitize_latest_value(value: &mut JsonValue)
    ensures
        final(value)@ == sanitized(old(value)@),
{
    let result: JsonValue = kept(value, false);
    *value = result;
}

/// Whether `json` holds nothing at any depth that is dropped; `is_cost` says
/// whether it is the value of a member `cost`.
pub open spec fn is_clean(json: Json, is_cost: bool) -> bool
    decreases json,
{
    match json {
        Json::Array(items) => forall|i: int|
            0 <= i < items.len() ==> !is_vacant(#[trigger] items[i]) && is_clean(items[i], false),
        Json::Object(map) => forall|key: Seq<char>| #[trigger]
            map.contains_key(key) ==> !(is_cost && is_token_counter(key)) && !is_vacant(map[key])
                && is_clean(map[key], names_cost(key)),
        _ => true,
    }
}

proof fn lemma_cleaned_is_clean(json: Json, is_cost: bool)
    ensures
        is_clean(cleaned(json, is_cost), is_cost),
    decreases json,
{
    match json {
        Json::Array(items) => {
            lemma_cleaned_items_are_clean(items);
            let rest = cleaned_items(items);
            assert(cleaned(json, is_cost) == Json::Array(rest));
            assert forall|i: int| 0 <= i < rest.len() implies !is_vacant(#[trigger] rest[i])
                && is_clean(rest[i], false) by {
                assert(is_clean(cleaned_items(items)[i], false));
            }
        },
        Json::Object(map) => {
            let target = cleaned(json, is_cost)->Object_0;
            assert forall|key: Seq<char>| #[trigger] target.contains_key(key) implies is_clean(
                target[key],
                names_cost(key),
            ) by {
                lemma_cleaned_is_clean(map[key], names_cost(key));
            }
        },
        _ => {},
    }
}

proof fn lemma_cleaned_items_are_clean(items: Seq<Json>)
    ensures
        forall|i: int|
            0 <= i < cleaned_items(items).len() ==> !is_vacant(#[trigger] cleaned_items(items)[i])
                && is_clean(cleaned_items(items)[i], false),
    decreases items,
{
    if items.len() > 0 {
        let before = cleaned_items(items.drop_last());
        lemma_cleaned_items_are_clean(items.drop_last());
        lemma_cleaned_is_clean(items.last(), false);
        assert forall|i: int| 0 <= i < cleaned_items(items).len() implies !is_vacant(
            #[trigger] cleaned_items(items)[i],
        ) && is_clean(cleaned_items(items)[i], false) by {
            if i < before.len() {
                assert(cleaned_items(items)[i] == before[i]);
                assert(is_clean(cleaned_items(items.drop_last())[i], false));
            }
        }
    }
}

proof fn lemma_clean_is_kept(json: Json, is_cost: bool)
    requires
        is_clean(json, is_cost),
    ensures
        cleaned(json, is_cost) == json,
    decreases json,
{
    match json {
        Json::Array(items) => {
            lemma_clean_items_are_kept(items);
        },
        Json::Object(map) => {
            let target = cleaned(json, is_cost)->Object_0;
            assert forall|key: Seq<char>| map.contains_key(key) implies #[trigger] cleaned(
                map[key],
                names_cost(key),
            ) == map[key] by {
                lemma_clean_is_kept(map[key], names_cost(key));
            }
            assert forall|key: Seq<char>| target.contains_key(key) == #[trigger] map.contains_key(
                key,
            ) by {
                assert(map.contains_key(key) ==> cleaned(map[key], names_cost(key)) == map[key]);
            }
            assert forall|key: Seq<char>| #[trigger] map.contains_key(key) implies target[key]
                == map[key] by {
                assert(cleaned(map[key], names_cost(key)) == map[key]);
            }
            assert(target =~= map);
        },
        _ => {},
    }
}

proof fn lemma_clean_items_are_kept(items: Seq<Json>)
    requires
        forall|i: int|
            0 <= i < items.len() ==> !is_vacant(#[trigger] items[i]) && is_clean(items[i], false),
    ensures
        cleaned_items(items) == items,
    decreases items,
{
    if items.len() > 0 {
        assert forall|i: int| 0 <= i < items.drop_last().len() implies !is_vacant(
            #[trigger] items.drop_last()[i],
        ) && is_clean(items.drop_last()[i], false) by {
            assert(items.drop_last()[i] == items[i]);
        }
        lemma_clean_items_are_kept(items.drop_last());
        lemma_clean_is_kept(items.last(), false);
        assert(items.drop_last().push(items.last()) =~= items);
    } else {
        assert(cleaned_items(items) =~= items);
    }
}

/// Law: nothing that is to be dropped is left at any depth of a sanitized
/// document.
pub proof fn law_sanitized_is_clean(json: Json)
    ensures
        is_clean(sanitized(json), false),
{
    lemma_cleaned_is_clean(json, false);
}

/// Law: a document in which nothing is to be dropped is kept as it is.
pub proof fn law_clean_document_is_kept(json: Json)
    requires
        is_clean(json, false),
    ensures
        sanitized(json) == json,
{
    lemma_clean_is_kept(json, false);
}

/// Law: the items of an array that are kept are those that still say something
/// once they are cleaned, in their order.
pub proof fn law_items_are_kept_in_order(items: Seq<Json>)
    ensures
        cleaned_items(items) == items.map_values(|item: Json| cleaned(item, false)).filter(
            |item: Json| !is_vacant(item),
        ),
    decreases items.len(),
{
    let clean = |item: Json| cleaned(item, false);
    let says = |item: Json| !is_vacant(item);
    reveal(Seq::filter);
    if items.len() > 0 {
        law_items_are_kept_in_order(items.drop_last());
        assert(items.map_values(clean).drop_last() =~= items.drop_last().map_values(clean));
    } else {
        assert(items.map_values(clean).filter(says) =~= Seq::empty());
    }
}

/// Law: sanitizing a sanitized document changes nothing.
pub proof fn law_sanitizing_is_idempotent(json: Json)
    ensures
        sanitized(sanitized(json)) == sanitized(json),
{
    law_sanitized_is_clean(json);
    law_clean_document_is_kept(sanitized(json));
}

/// Cleaning first as an ordinary value and then as the value of a member `cost`
/// is cleaning as the latter.
proof fn lemma_cleaned_as_cost_later(json: Json)
    ensures
        cleaned(cleaned(json, false), true) == cleaned(json, true),
{
    match json {
        Json::Array(items) => {
            lemma_cleaned_items_are_clean(items);
            lemma_clean_items_are_kept(cleaned_items(items));
        },
        Json::Object(map) => {
            let first = cleaned(json, false)->Object_0;
            let second = cleaned(cleaned(json, false), true)->Object_0;
            let target = cleaned(json, true)->Object_0;
            assert forall|key: Seq<char>| map.contains_key(key) implies cleaned(
                cleaned(map[key], names_cost(key)),
                names_cost(key),
            ) == #[trigger] cleaned(map[key], names_cost(key)) by {
                lemma_cleaned_is_clean(map[key], names_cost(key));
                lemma_clean_is_kept(cleaned(map[key], names_cost(key)), names_cost(key));
            }
            assert forall|key: Seq<char>| #[trigger] second.contains_key(key)
                == target.contains_key(key) by {
                assert(map.contains_key(key) ==> cleaned(
                    cleaned(map[key], names_cost(key)),
                    names_cost(key),
                ) == cleaned(map[key], names_cost(key)));
            }
            assert forall|key: Seq<char>| #[trigger] second.contains_key(key) implies second[key]
                == target[key] by {
                assert(first.contains_key(key));
                assert(cleaned(cleaned(map[key], names_cost(key)), names_cost(key)) == cleaned(
                    map[key],
                    names_cost(key),
                ));
            }
            assert(second =~= target);
        },
        _ => {},
    }
}

/// The members of a cost object once its token counters are gone, each value is
/// sanitized on its own and those that say nothing are dropped.
pub open spec fn cost_members(map: Map<Seq<char>, Json>) -> Map<Seq<char>, Json> {
    Map::new(
        |key: Seq<char>|
            map.contains_key(key) && !is_token_counter(key) && !is_vacant(sanitized(map[key])),
        |key: Seq<char>| sanitized(map[key]),
    )
}

/// Law: sanitizing the members of a cost object before the object that holds it
/// is sanitized makes no difference.
pub proof fn law_cost_members_may_go_first(map: Map<Seq<char>, Json>)
    ensures
        sanitized(Json::Object(cost_members(map))) == cleaned(Json::Object(map), true),
{
    let first = cost_members(map);
    let second = sanitized(Json::Object(first))->Object_0;
    let target = cleaned(Json::Object(map), true)->Object_0;
    assert forall|key: Seq<char>| map.contains_key(key) implies cleaned(
        #[trigger] sanitized(map[key]),
        names_cost(key),
    ) == cleaned(map[key], names_cost(key)) && (is_vacant(sanitized(map[key])) ==> is_vacant(
        cleaned(map[key], names_cost(key)),
    )) by {
        law_sanitizing_is_idempotent(map[key]);
        lemma_cleaned_as_cost_later(map[key]);
        if is_vacant(sanitized(map[key])) {
            lemma_vacant_stays_vacant(sanitized(map[key]), names_cost(key));
        }
    }
    assert forall|key: Seq<char>| second.contains_key(key) == #[trigger] target.contains_key(
        key,
    ) by {
        if map.contains_key(key) {
            assert(cleaned(sanitized(map[key]), names_cost(key)) == cleaned(
                map[key],
                names_cost(key),
            ));
        }
    }
    assert(second =~= target);
}

proof fn lemma_vacant_stays_vacant(json: Json, is_cost: bool)
    requires
        is_vacant(json),
    ensures
        is_vacant(cleaned(json, is_cost)),
{
    match json {
        Json::Object(map) => {
            assert(cleaned(json, is_cost)->Object_0 =~= Map::<Seq<char>, Json>::empty());
        },
        Json::Array(items) => {
            assert(cleaned_items(items).len() == 0);
        },
        _ => {},
    }
}

} // verus!
