//! JSON documents as plain values.
//!
//! `JsonValue` is the executable document, `Json` the mathematical one. An
//! object is a list of members with pairwise distinct keys in the former and a
//! map from keys to values in the latter, so the order of members is not part
//! of what a document is.

use vstd::prelude::*;

use crate::text::{same_text, slice_text_of};

verus! {

/// A JSON number: the integer it is, if it is one that fits, and the bit
/// pattern of the IEEE 754 double nearest to it.
#[derive(Clone, Copy, PartialEq, Eq, Structural, Debug)]
pub struct JsonNumber {
    /// The number as an unsigned integer, where it is one.
    pub unsigned: Option<u64>,
    /// The number as a signed integer, where it is one.
    pub signed: Option<i64>,
    /// The bit pattern of the number as a double.
    pub double_bits: u64,
}

/// The mathematical JSON document.
pub enum Json {
    Null,
    Bool(bool),
    Number(JsonNumber),
    Text(Seq<char>),
    Array(Seq<Json>),
    Object(Map<Seq<char>, Json>),
}

/// Whether no key occurs twice among `pairs`.
pub open spec fn distinct_keys(pairs: Seq<(Seq<char>, Json)>) -> bool {
    forall|i: int, j: int|
        0 <= i < pairs.len() && 0 <= j < pairs.len() && i != j ==> (#[trigger] pairs[i]).0 != (
        #[trigger] pairs[j]).0
}

/// Whether `pairs` holds the key `key` at `i`.
pub open spec fn key_at(pairs: Seq<(Seq<char>, Json)>, key: Seq<char>, i: int) -> bool {
    0 <= i < pairs.len() && pairs[i].0 == key
}

/// The map that `pairs` lists.
pub open spec fn members(pairs: Seq<(Seq<char>, Json)>) -> Map<Seq<char>, Json> {
    Map::new(
        |key: Seq<char>| exists|i: int| key_at(pairs, key, i),
        |key: Seq<char>| pairs[choose|i: int| key_at(pairs, key, i)].1,
    )
}

/// A JSON value.
#[derive(Debug)]
pub enum JsonValue {
    Null,
    Bool(bool),
    Number(JsonNumber),
    Text(String),
    Array(Vec<JsonValue>),
    Object(JsonObject),
}

/// The members of a JSON object. No key occurs twice.
#[derive(Debug)]
pub struct JsonObject {
    entries: Vec<(String, JsonValue)>,
}

impl JsonValue {
    /// The document that the value is.
    pub open spec fn model(self) -> Json
        decreases self,
    {
        match self {
            JsonValue::Null => Json::Null,
            JsonValue::Bool(b) => Json::Bool(b),
            JsonValue::Number(n) => Json::Number(n),
            JsonValue::Text(s) => Json::Text(s@),
            JsonValue::Array(items) => Json::Array(
                Seq::new(
                    items@.len(),
                    |i: int|
                        if 0 <= i < items@.len() {
                            items@[i].model()
                        } else {
                            Json::Null
                        },
                ),
            ),
            JsonValue::Object(object) => Json::Object(members(object.pairs())),
        }
    }
}

impl JsonObject {
    /// The members in the order in which they are held.
    pub closed spec fn pairs(self) -> Seq<(Seq<char>, Json)>
        decreases self,
    {
        Seq::new(
            self.entries@.len(),
            |i: int|
                if 0 <= i < self.entries@.len() {
                    (self.entries@[i].0@, self.entries@[i].1.model())
                } else {
                    (Seq::empty(), Json::Null)
                },
        )
    }

    #[verifier::type_invariant]
    spec fn keys_are_distinct(self) -> bool {
        distinct_keys(self.pairs())
    }
}

impl View for JsonValue {
    type V = Json;

    open spec fn view(&self) -> Json {
        self.model()
    }
}

impl View for JsonObject {
    type V = Map<Seq<char>, Json>;

    open spec fn view(&self) -> Map<Seq<char>, Json> {
        members(self.pairs())
    }
}

/// The member `key` of the document `json`; a document that is no object has
/// no members.
pub open spec fn field(json: Json, key: Seq<char>) -> Option<Json> {
    match json {
        Json::Object(map) => if map.contains_key(key) {
            Some(map[key])
        } else {
            None
        },
        _ => None,
    }
}

/// The member `first` of `json` or, where there is none, the member `second`.
pub open spec fn either_field(json: Json, first: Seq<char>, second: Seq<char>) -> Option<Json> {
    match field(json, first) {
        Some(value) => Some(value),
        None => field(json, second),
    }
}

/// The text that `json` is, where it is present and text.
pub open spec fn as_text(json: Option<Json>) -> Option<Seq<char>> {
    match json {
        Some(Json::Text(text)) => Some(text),
        _ => None,
    }
}

/// The unsigned integer that `json` is, where it is present and one.
pub open spec fn as_unsigned(json: Option<Json>) -> Option<u64> {
    match json {
        Some(Json::Number(number)) => number.unsigned,
        _ => None,
    }
}

/// What an optional reference to a value holds.
pub open spec fn json_of_ref(value: Option<&JsonValue>) -> Option<Json> {
    match value {
        Some(value) => Some(value@),
        None => None,
    }
}

/// Each listed member is found under its key.
pub proof fn lemma_members(pairs: Seq<(Seq<char>, Json)>)
    requires
        distinct_keys(pairs),
    ensures
        forall|i: int|
            0 <= i < pairs.len() ==> members(pairs).contains_key((#[trigger] pairs[i]).0)
                && members(pairs)[pairs[i].0] == pairs[i].1,
        forall|key: Seq<char>| #[trigger]
            members(pairs).contains_key(key) ==> exists|i: int| key_at(pairs, key, i),
        members(pairs).dom().finite(),
{
    let keys = Seq::new(pairs.len(), |i: int| pairs[i].0);
    assert(members(pairs).dom() =~= keys.to_set()) by {
        assert forall|key: Seq<char>| members(pairs).dom().contains(key) == #[trigger] keys.to_set().contains(
            key,
        ) by {
            if keys.contains(key) {
                let i = choose|i: int| 0 <= i < keys.len() && keys[i] == key;
                assert(key_at(pairs, key, i));
            }
            if members(pairs).dom().contains(key) {
                let i = choose|i: int| key_at(pairs, key, i);
                assert(keys[i] == key);
            }
        }
    }
    assert forall|i: int| 0 <= i < pairs.len() implies members(pairs).contains_key(
        (#[trigger] pairs[i]).0,
    ) && members(pairs)[pairs[i].0] == pairs[i].1 by {
        assert(key_at(pairs, pairs[i].0, i));
        let j = choose|j: int| key_at(pairs, pairs[i].0, j);
        assert(pairs[j].0 == pairs[i].0);
    }
}

impl JsonObject {
    /// An object without members.
    pub fn new() -> (object: JsonObject)
        ensures
            object@ == Map::<Seq<char>, Json>::empty(),
    {
        let object = JsonObject { entries: Vec::new() };
        assert(object@ =~= Map::<Seq<char>, Json>::empty());
        object
    }

    /// The number of members.
    pub fn len(&self) -> (count: usize)
        ensures
            count == self.pairs().len(),
            distinct_keys(self.pairs()),
    {
        proof {
            use_type_invariant(self);
        }
        self.entries.len()
    }

    /// Whether there are no members.
    pub fn is_empty(&self) -> (empty: bool)
        ensures
            empty == (self@ == Map::<Seq<char>, Json>::empty()),
    {
        proof {
            use_type_invariant(self);
            lemma_members(self.pairs());
            if self.pairs().len() == 0 {
                assert(self@ =~= Map::<Seq<char>, Json>::empty());
            } else {
                assert(self@.contains_key(self.pairs()[0].0));
            }
        }
        self.entries.len() == 0
    }

    /// The key of the `i`th member.
    pub fn key(&self, i: usize) -> (key: &String)
        requires
            i < self.pairs().len(),
        ensures
            key@ == self.pairs()[i as int].0,
    {
        &self.entries[i].0
    }

    /// The value of the `i`th member.
    pub fn value(&self, i: usize) -> (value: &JsonValue)
        requires
            i < self.pairs().len(),
        ensures
            value@ == self.pairs()[i as int].1,
            decreases_to!(self => value),
    {
        &self.entries[i].1
    }

    /// The value of the member `key`.
    pub fn get(&self, key: &str) -> (value: Option<&JsonValue>)
        ensures
            json_of_ref(value) == field(Json::Object(self@), key@),
    {
        proof {
            use_type_invariant(self);
            lemma_members(self.pairs());
            assert(self.pairs() =~= entry_pairs(self.entries@));
        }
        match position(&self.entries, key) {
            Some(i) => {
                assert(entry_pairs(self.entries@)[i as int].0 == key@);
                Some(&self.entries[i].1)
            },
            None => None,
        }
    }

    /// Sets the member `key` to `value`.
    pub fn insert(&mut self, key: String, value: JsonValue)
        ensures
            final(self)@ == old(self)@.insert(key@, value@),
    {
        proof {
            use_type_invariant(&*self);
            lemma_members(self.pairs());
            assert(self.pairs() =~= entry_pairs(self.entries@));
        }
        let ghost before = self.pairs();
        let mut entries: Vec<(String, JsonValue)> = Vec::new();
        assert(entry_pairs(entries@) =~= Seq::empty());
        std::mem::swap(&mut entries, &mut self.entries);
        let ghost given = entries@;
        let ghost entry = (key@, value@);
        match position(&entries, key.as_str()) {
            Some(i) => {
                assert(before[i as int].0 == key@);
                entries[i] = (key, value);
                assert(entry_pairs(entries@) =~= before.update(i as int, entry));
                proof {
                    lemma_replace_member(before, i as int, entry);
                }
            },
            None => {
                assert forall|i: int| 0 <= i < before.len() implies (#[trigger] before[i]).0
                    != key@ by {
                    assert(given[i].0@ != key@);
                }
                entries.push((key, value));
                assert(entry_pairs(entries@) =~= before.push(entry));
                proof {
                    lemma_append_member(before, entry);
                }
            },
        }
        let ghost after = entry_pairs(entries@);
        assert(JsonObject { entries }.pairs() =~= after);
        self.entries = entries;
    }
}

/// Writing over the value of a listed key sets that key.
proof fn lemma_replace_member(pairs: Seq<(Seq<char>, Json)>, i: int, entry: (Seq<char>, Json))
    requires
        distinct_keys(pairs),
        key_at(pairs, entry.0, i),
    ensures
        distinct_keys(pairs.update(i, entry)),
        members(pairs.update(i, entry)) == members(pairs).insert(entry.0, entry.1),
{
    let after = pairs.update(i, entry);
    assert forall|j: int, k: int|
        0 <= j < after.len() && 0 <= k < after.len() && j != k implies (#[trigger] after[j]).0 != (
    #[trigger] after[k]).0 by {
        assert(after[j].0 == pairs[j].0 && after[k].0 == pairs[k].0);
    }
    lemma_members(pairs);
    lemma_members(after);
    assert forall|key: Seq<char>|
        members(after).contains_key(key) == members(pairs).contains_key(key) by {
        assert forall|j: int| key_at(after, key, j) == key_at(pairs, key, j) by {
            assert(0 <= j < pairs.len() ==> after[j].0 == pairs[j].0);
        }
    }
    assert(after[i] == entry);
    assert forall|key: Seq<char>| members(after).contains_key(key) && key != entry.0 implies members(
        after,
    )[key] == members(pairs)[key] by {
        let j = choose|j: int| key_at(after, key, j);
        assert(after[j] == pairs[j]);
    }
    assert(members(pairs).contains_key(pairs[i].0));
    assert(members(after) =~= members(pairs).insert(entry.0, entry.1));
}

/// Listing a new key adds it.
proof fn lemma_append_member(pairs: Seq<(Seq<char>, Json)>, entry: (Seq<char>, Json))
    requires
        distinct_keys(pairs),
        forall|i: int| 0 <= i < pairs.len() ==> (#[trigger] pairs[i]).0 != entry.0,
    ensures
        distinct_keys(pairs.push(entry)),
        members(pairs.push(entry)) == members(pairs).insert(entry.0, entry.1),
{
    let after = pairs.push(entry);
    lemma_members(pairs);
    lemma_members(after);
    assert(after[pairs.len() as int] == entry);
    assert forall|key: Seq<char>|
        members(after).contains_key(key) == (members(pairs).contains_key(key) || key
            == entry.0) by {
        if members(pairs).contains_key(key) {
            let j = choose|j: int| key_at(pairs, key, j);
            assert(key_at(after, key, j));
        }
        if members(after).contains_key(key) && key != entry.0 {
            let j = choose|j: int| key_at(after, key, j);
            assert(key_at(pairs, key, j));
        }
    }
    assert forall|key: Seq<char>| members(after).contains_key(key) && key != entry.0 implies members(
        after,
    )[key] == members(pairs)[key] by {
        let j = choose|j: int| key_at(after, key, j);
        assert(after[j] == pairs[j]);
    }
    assert(members(after) =~= members(pairs).insert(entry.0, entry.1));
}

/// What the members in `entries` are.
spec fn entry_pairs(entries: Seq<(String, JsonValue)>) -> Seq<(Seq<char>, Json)> {
    Seq::new(entries.len(), |i: int| (entries[i].0@, entries[i].1@))
}

/// The items of an array are smaller than the array.
pub proof fn lemma_item_is_smaller(value: JsonValue, i: int)
    requires
        value is Array,
        0 <= i < value->Array_0@.len(),
    ensures
        decreases_to!(value => value->Array_0@[i]),
{
}

/// The values of the members of an object are smaller than the object.
proof fn lemma_member_is_smaller(value: JsonValue, i: int)
    requires
        value is Object,
        0 <= i < value->Object_0.entries@.len(),
    ensures
        decreases_to!(value => value->Object_0.entries@[i].1),
{
}

/// The first place in `entries` that holds the key `key`.
fn position(entries: &Vec<(String, JsonValue)>, key: &str) -> (place: Option<usize>)
    ensures
        match place {
            Some(i) => i < entries@.len() && entries@[i as int].0@ == key@,
            None => forall|i: int| 0 <= i < entries@.len() ==> (#[trigger] entries@[i]).0@ != key@,
        },
{
    let mut i: usize = 0;
    while i < entries.len()
        invariant
            i <= entries@.len(),
            forall|j: int| 0 <= j < i ==> (#[trigger] entries@[j]).0@ != key@,
        decreases entries@.len() - i,
    {
        if same_text(&entries[i].0, key) {
            return Some(i);
        }
        i = i + 1;
    }
    None
}

impl JsonValue {
    /// The value of the member `key` of an object. No other value has members.
    pub fn get(&self, key: &str) -> (value: Option<&JsonValue>)
        ensures
            json_of_ref(value) == field(self@, key@),
    {
        match self {
            JsonValue::Object(object) => object.get(key),
            _ => None,
        }
    }

    /// The value of the member `first` or, where there is none, of the member
    /// `second`.
    pub fn get_either(&self, first: &str, second: &str) -> (value: Option<&JsonValue>)
        ensures
            json_of_ref(value) == either_field(self@, first@, second@),
    {
        match self.get(first) {
            Some(value) => Some(value),
            None => self.get(second),
        }
    }

    /// The text, if the value is text.
    pub fn as_str(&self) -> (text: Option<&str>)
        ensures
            slice_text_of(text) == as_text(Some(self@)),
    {
        match self {
            JsonValue::Text(text) => Some(text.as_str()),
            _ => None,
        }
    }

    /// The truth value, if the value is one.
    pub fn as_bool(&self) -> (truth: Option<bool>)
        ensures
            truth == match self@ {
                Json::Bool(b) => Some(b),
                _ => None,
            },
    {
        match self {
            JsonValue::Bool(b) => Some(*b),
            _ => None,
        }
    }

    /// The unsigned integer, if the value is one.
    pub fn as_u64(&self) -> (number: Option<u64>)
        ensures
            number == as_unsigned(Some(self@)),
    {
        match self {
            JsonValue::Number(number) => number.unsigned,
            _ => None,
        }
    }
}

impl Clone for JsonValue {
    /// A value that is the same document.
    fn clone(&self) -> (copy: JsonValue)
        ensures
            copy@ == self@,
        decreases self,
    {
        match self {
            JsonValue::Null => JsonValue::Null,
            JsonValue::Bool(b) => JsonValue::Bool(*b),
            JsonValue::Number(number) => JsonValue::Number(*number),
            JsonValue::Text(text) => JsonValue::Text(text.clone()),
            JsonValue::Array(items) => {
                let mut copies: Vec<JsonValue> = Vec::new();
                let mut i: usize = 0;
                while i < items.len()
                    invariant
                        i <= items@.len(),
                        *self == JsonValue::Array(*items),
                        copies@.len() == i,
                        forall|j: int| 0 <= j < i ==> (#[trigger] copies@[j])@ == items@[j]@,
                    decreases items@.len() - i,
                {
                    proof {
                        lemma_item_is_smaller(*self, i as int);
                    }
                    copies.push(items[i].clone());
                    i = i + 1;
                }
                let copy = JsonValue::Array(copies);
                assert(copy@->Array_0 =~= self@->Array_0);
                copy
            },
            JsonValue::Object(object) => {
                proof {
                    use_type_invariant(object);
                }
                let mut entries: Vec<(String, JsonValue)> = Vec::new();
                let mut i: usize = 0;
                while i < object.entries.len()
                    invariant
                        i <= object.entries@.len(),
                        *self == JsonValue::Object(*object),
                        entries@.len() == i,
                        forall|j: int|
                            0 <= j < i ==> (#[trigger] entries@[j]).0@ == object.entries@[j].0@
                                && entries@[j].1@ == object.entries@[j].1@,
                    decreases object.entries@.len() - i,
                {
                    proof {
                        lemma_member_is_smaller(*self, i as int);
                    }
                    entries.push((object.entries[i].0.clone(), object.entries[i].1.clone()));
                    i = i + 1;
                }
                assert(entry_pairs(entries@) =~= object.pairs());
                assert(JsonObject { entries }.pairs() =~= object.pairs());
                JsonValue::Object(JsonObject { entries })
            },
        }
    }
}

} // verus!
