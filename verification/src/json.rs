//! A JSON document as plain data, with its mathematical model.
//!
//! Objects keep their members as a list of key/value pairs in the order in
//! which the parser hands them out; a lookup takes the first member with the
//! wanted key. New members are appended at the end. In a parsed document no
//! object holds a key twice (`well_keyed`); a document that is built by hand
//! may.

use serde_json::Value;
use vstd::prelude::*;

verus! {

/// A JSON number: an unsigned or signed integer, or any other number kept as
/// its decimal text.
#[derive(Debug, Clone, PartialEq, Eq)]
pub enum JsonNumber {
    Unsigned(u64),
    Signed(i64),
    Decimal(String),
}

/// A JSON document.
#[derive(Debug, PartialEq, Eq)]
pub enum Json {
    Null,
    Bool(bool),
    Number(JsonNumber),
    Str(String),
    Array(Vec<Json>),
    Object(Vec<(String, Json)>),
}

/// Model of a [`JsonNumber`].
pub enum NumberModel {
    Unsigned(u64),
    Signed(i64),
    Decimal(Seq<char>),
}

/// Model of a [`Json`] document.
pub enum JsonModel {
    Null,
    Bool(bool),
    Number(NumberModel),
    Str(Seq<char>),
    Array(Seq<JsonModel>),
    Object(Seq<(Seq<char>, JsonModel)>),
}

/// The members of an object model.
pub type Members = Seq<(Seq<char>, JsonModel)>;

/// Why a text is not a JSON document.
#[derive(Debug, Clone, Copy, PartialEq, Eq, Structural)]
pub enum ParseFailure {
    /// The text ended before the document was complete.
    Incomplete,
    /// The text is not JSON, however it might go on.
    Malformed,
}

impl View for JsonNumber {
    type V = NumberModel;

    open spec fn view(&self) -> NumberModel {
        match self {
            JsonNumber::Unsigned(u) => NumberModel::Unsigned(*u),
            JsonNumber::Signed(i) => NumberModel::Signed(*i),
            JsonNumber::Decimal(t) => NumberModel::Decimal(t@),
        }
    }
}

/// The model of a document.
pub open spec fn model_of(value: Json) -> JsonModel
    decreases value,
{
    match value {
        Json::Null => JsonModel::Null,
        Json::Bool(b) => JsonModel::Bool(b),
        Json::Number(n) => JsonModel::Number(n@),
        Json::Str(s) => JsonModel::Str(s@),
        Json::Array(items) => JsonModel::Array(
            Seq::new(
                items@.len(),
                |i: int|
                    if 0 <= i < items@.len() {
                        model_of(items@[i])
                    } else {
                        JsonModel::Null
                    },
            ),
        ),
        Json::Object(members) => JsonModel::Object(
            Seq::new(
                members@.len(),
                |i: int|
                    if 0 <= i < members@.len() {
                        (members@[i].0@, model_of(members@[i].1))
                    } else {
                        (Seq::empty(), JsonModel::Null)
                    },
            ),
        ),
    }
}

impl View for Json {
    type V = JsonModel;

    open spec fn view(&self) -> JsonModel {
        model_of(*self)
    }
}

/// The models of a list of documents, item by item.
pub open spec fn items_view(items: Seq<Json>) -> Seq<JsonModel> {
    Seq::new(items.len(), |i: int| items[i]@)
}

/// The models of a list of object members, member by member.
pub open spec fn members_view(members: Seq<(String, Json)>) -> Members {
    Seq::new(members.len(), |i: int| (members[i].0@, members[i].1@))
}

/// The index of the first member from `start` on whose key is `key`, or the
/// number of members where there is none.
pub open spec fn find_from(members: Members, key: Seq<char>, start: int) -> int
    decreases members.len() - start,
{
    if start < 0 || start >= members.len() {
        members.len() as int
    } else if members[start].0 == key {
        start
    } else {
        find_from(members, key, start + 1)
    }
}

/// The index of the first member whose key is `key`, or the number of
/// members where there is none.
pub open spec fn find_key(members: Members, key: Seq<char>) -> int {
    find_from(members, key, 0)
}

/// The value of the first member whose key is `key`.
pub open spec fn lookup(members: Members, key: Seq<char>) -> Option<JsonModel> {
    let i = find_key(members, key);
    if i < members.len() {
        Some(members[i].1)
    } else {
        None
    }
}

/// The members with `key` bound to `value`: in place where the key is
/// present, as a new last member where it is not.
pub open spec fn upsert(members: Members, key: Seq<char>, value: JsonModel) -> Members {
    let i = find_key(members, key);
    if i < members.len() {
        members.update(i, (key, value))
    } else {
        members.push((key, value))
    }
}

/// The members without the first one whose key is `key`.
pub open spec fn without_key(members: Members, key: Seq<char>) -> Members {
    let i = find_key(members, key);
    if i < members.len() {
        members.remove(i)
    } else {
        members
    }
}

impl JsonModel {
    /// The member `key` of an object; `None` for anything else.
    pub open spec fn field(self, key: Seq<char>) -> Option<JsonModel> {
        match self {
            JsonModel::Object(members) => lookup(members, key),
            _ => None,
        }
    }

    /// The text of a string; `None` for anything else.
    pub open spec fn text(self) -> Option<Seq<char>> {
        match self {
            JsonModel::Str(s) => Some(s),
            _ => None,
        }
    }

    /// The first item of a non-empty array; `None` for anything else.
    pub open spec fn first_item(self) -> Option<JsonModel> {
        match self {
            JsonModel::Array(items) => if items.len() > 0 {
                Some(items[0])
            } else {
                None
            },
            _ => None,
        }
    }

    /// The value of an unsigned integer; `None` for anything else.
    pub open spec fn unsigned(self) -> Option<u64> {
        match self {
            JsonModel::Number(NumberModel::Unsigned(u)) => Some(u),
            _ => None,
        }
    }
}

/// `field` applied to an optional document.
pub open spec fn field_of(value: Option<JsonModel>, key: Seq<char>) -> Option<JsonModel> {
    match value {
        Some(v) => v.field(key),
        None => None,
    }
}

/// `first_item` applied to an optional document.
pub open spec fn first_of(value: Option<JsonModel>) -> Option<JsonModel> {
    match value {
        Some(v) => v.first_item(),
        None => None,
    }
}

/// Whether no two members share a key.
pub open spec fn distinct_keys(members: Members) -> bool {
    forall|i: int, j: int| 0 <= i < j < members.len() ==> members[i].0 != members[j].0
}

/// Whether the members have distinct keys and hold well-keyed documents.
pub open spec fn well_keyed_members(members: Members) -> bool {
    &&& distinct_keys(members)
    &&& forall|i: int| 0 <= i < members.len() ==> well_keyed((#[trigger] members[i]).1)
}

/// Whether all documents of a list are well keyed.
pub open spec fn all_well_keyed(items: Seq<JsonModel>) -> bool {
    forall|i: int| 0 <= i < items.len() ==> well_keyed(#[trigger] items[i])
}

/// Whether no object in a document, at any depth, holds a key twice.
pub open spec fn well_keyed(value: JsonModel) -> bool
    decreases value,
{
    match value {
        JsonModel::Array(items) => forall|i: int|
            0 <= i < items.len() ==> well_keyed(#[trigger] items[i]),
        JsonModel::Object(members) => distinct_keys(members) && forall|i: int|
            0 <= i < members.len() ==> well_keyed((#[trigger] members[i]).1),
        _ => true,
    }
}

/// The view of an array is the list of its items' views.
pub proof fn lemma_array_view(items: Vec<Json>)
    ensures
        Json::Array(items)@ == JsonModel::Array(items_view(items@)),
{
    let a = Json::Array(items)@->Array_0;
    assert(a.len() == items@.len());
    assert forall|i: int| 0 <= i < a.len() implies a[i] == items_view(items@)[i] by {}
    assert(a =~= items_view(items@));
}

/// The view of an object is the list of its members' views.
pub proof fn lemma_object_view(members: Vec<(String, Json)>)
    ensures
        Json::Object(members)@ == JsonModel::Object(members_view(members@)),
{
    let a = Json::Object(members)@->Object_0;
    assert(a.len() == members@.len());
    assert forall|i: int| 0 <= i < a.len() implies a[i] == members_view(members@)[i] by {}
    assert(a =~= members_view(members@));
}

/// Where no member before `i` has the key and member `i` has it, `i` is
/// the key's index; where none has it, the index is the number of members.
pub proof fn lemma_find_key(members: Members, key: Seq<char>, i: int)
    requires
        0 <= i <= members.len(),
        forall|j: int| 0 <= j < i ==> members[j].0 != key,
        i < members.len() ==> members[i].0 == key,
    ensures
        find_key(members, key) == i,
{
    lemma_find_from(members, key, 0, i);
}

proof fn lemma_find_from(members: Members, key: Seq<char>, start: int, i: int)
    requires
        0 <= start <= i <= members.len(),
        forall|j: int| start <= j < i ==> members[j].0 != key,
        i < members.len() ==> members[i].0 == key,
    ensures
        find_from(members, key, start) == i,
    decreases i - start,
{
    if start < i {
        lemma_find_from(members, key, start + 1, i);
    }
}

/// The index of a key lies within the members and points at the key.
pub proof fn lemma_find_key_bounds(members: Members, key: Seq<char>)
    ensures
        0 <= find_key(members, key) <= members.len(),
        find_key(members, key) < members.len() ==> members[find_key(members, key)].0 == key,
        forall|j: int| 0 <= j < find_key(members, key) ==> members[j].0 != key,
{
    lemma_find_from_bounds(members, key, 0);
}

proof fn lemma_find_from_bounds(members: Members, key: Seq<char>, start: int)
    requires
        0 <= start <= members.len(),
    ensures
        start <= find_from(members, key, start) <= members.len(),
        find_from(members, key, start) < members.len() ==> members[find_from(
            members,
            key,
            start,
        )].0 == key,
        forall|j: int| start <= j < find_from(members, key, start) ==> members[j].0 != key,
    decreases members.len() - start,
{
    if start < members.len() && members[start].0 != key {
        lemma_find_from_bounds(members, key, start + 1);
    }
}

/// A pushed member is the last member of the model.
pub proof fn lemma_members_push(members: Seq<(String, Json)>, key: String, value: Json)
    ensures
        members_view(members.push((key, value))) == members_view(members).push((key@, value@)),
{
    assert(members_view(members.push((key, value))) =~= members_view(members).push(
        (key@, value@),
    ));
}

/// Replacing an item changes the model at that item only.
pub proof fn lemma_items_update(items: Seq<Json>, i: int, value: Json)
    requires
        0 <= i < items.len(),
    ensures
        items_view(items.update(i, value)) == items_view(items).update(i, value@),
{
    assert(items_view(items.update(i, value)) =~= items_view(items).update(i, value@));
}

/// A pushed item is the last item of the model.
pub proof fn lemma_items_push(items: Seq<Json>, value: Json)
    ensures
        items_view(items.push(value)) == items_view(items).push(value@),
{
    assert(items_view(items.push(value)) =~= items_view(items).push(value@));
}


/// A key that was bound is found with the value it was bound to.
pub proof fn lemma_upsert_lookup(members: Members, key: Seq<char>, value: JsonModel)
    ensures
        lookup(upsert(members, key, value), key) == Some(value),
{
    lemma_find_key_bounds(members, key);
    let i = find_key(members, key);
    lemma_find_key(upsert(members, key, value), key, i);
}

/// A new last member leaves what is found under a key that is present.
pub proof fn lemma_push_keeps_lookup(
    members: Members,
    key: Seq<char>,
    other: Seq<char>,
    value: JsonModel,
)
    requires
        lookup(members, key).is_some(),
    ensures
        lookup(members.push((other, value)), key) == lookup(members, key),
{
    lemma_find_key_bounds(members, key);
    let i = find_key(members, key);
    lemma_find_key(members.push((other, value)), key, i);
}

impl Clone for Json {
    fn clone(&self) -> (r: Self)
        ensures
            r@ == self@,
    {
        self.duplicate()
    }
}

impl Json {
    /// An object without members.
    pub fn empty_object() -> (r: Json)
        ensures
            r@ == JsonModel::Object(Seq::empty()),
    {
        let members: Vec<(String, Json)> = Vec::new();
        proof {
            lemma_object_view(members);
            assert(members_view(members@) =~= Seq::empty());
        }
        Json::Object(members)
    }

    /// A deep copy.
    pub fn duplicate(&self) -> (r: Json)
        ensures
            r@ == self@,
        decreases self,
    {
        match self {
            Json::Null => Json::Null,
            Json::Bool(b) => Json::Bool(*b),
            Json::Number(JsonNumber::Unsigned(u)) => Json::Number(JsonNumber::Unsigned(*u)),
            Json::Number(JsonNumber::Signed(i)) => Json::Number(JsonNumber::Signed(*i)),
            Json::Number(JsonNumber::Decimal(t)) => Json::Number(JsonNumber::Decimal(t.clone())),
            Json::Str(s) => Json::Str(s.clone()),
            Json::Array(items) => {
                let mut copy: Vec<Json> = Vec::new();
                let mut i: usize = 0;
                while i < items.len()
                    invariant
                        i <= items.len(),
                        copy.len() == i,
                        *self == Json::Array(*items),
                        forall|j: int| 0 <= j < i ==> copy@[j]@ == items@[j]@,
                    decreases items.len() - i,
                {
                    proof {
                        vstd::std_specs::vec::axiom_vec_index_decreases(*items, i as int);
                        assert(self is Array);
                        assert(decreases_to!(*self => self->Array_0));
                    }
                    let item = items[i].duplicate();
                    copy.push(item);
                    i = i + 1;
                }
                proof {
                    lemma_array_view(copy);
                    lemma_array_view(*items);
                    assert(items_view(copy@) =~= items_view(items@));
                }
                Json::Array(copy)
            },
            Json::Object(members) => {
                let mut copy: Vec<(String, Json)> = Vec::new();
                let mut i: usize = 0;
                while i < members.len()
                    invariant
                        i <= members.len(),
                        copy.len() == i,
                        *self == Json::Object(*members),
                        forall|j: int|
                            0 <= j < i ==> copy@[j].0@ == members@[j].0@ && copy@[j].1@
                                == members@[j].1@,
                    decreases members.len() - i,
                {
                    proof {
                        vstd::std_specs::vec::axiom_vec_index_decreases(*members, i as int);
                        assert(self is Object);
                        assert(decreases_to!(*self => self->Object_0));
                    }
                    let value = members[i].1.duplicate();
                    copy.push((members[i].0.clone(), value));
                    i = i + 1;
                }
                proof {
                    lemma_object_view(copy);
                    lemma_object_view(*members);
                    assert(members_view(copy@) =~= members_view(members@));
                }
                Json::Object(copy)
            },
        }
    }

    /// Whether this is `null`.
    pub fn is_null(&self) -> (r: bool)
        ensures
            r == (self@ == JsonModel::Null),
    {
        match self {
            Json::Null => true,
            _ => false,
        }
    }

    /// The text of a string.
    pub fn as_text(&self) -> (r: Option<&String>)
        ensures
            match r {
                Some(s) => self@.text() == Some(s@),
                None => self@.text().is_none(),
            },
    {
        match self {
            Json::Str(s) => Some(s),
            _ => None,
        }
    }

    /// The value of an unsigned integer.
    pub fn as_unsigned(&self) -> (r: Option<u64>)
        ensures
            r == self@.unsigned(),
    {
        match self {
            Json::Number(JsonNumber::Unsigned(u)) => Some(*u),
            _ => None,
        }
    }

    /// The first item of a non-empty array.
    pub fn first(&self) -> (r: Option<&Json>)
        ensures
            match r {
                Some(j) => self@.first_item() == Some(j@),
                None => self@.first_item().is_none(),
            },
    {
        match self {
            Json::Array(items) => {
                proof {
                    lemma_array_view(*items);
                }
                if items.len() > 0 {
                    Some(&items[0])
                } else {
                    None
                }
            },
            _ => None,
        }
    }

    /// The member `key` of an object.
    pub fn get(&self, key: &str) -> (r: Option<&Json>)
        ensures
            match r {
                Some(j) => self@.field(key@) == Some(j@),
                None => self@.field(key@).is_none(),
            },
    {
        match self {
            Json::Object(members) => {
                proof {
                    lemma_object_view(*members);
                }
                let i = position(members, key);
                if i < members.len() {
                    Some(&members[i].1)
                } else {
                    None
                }
            },
            _ => None,
        }
    }
}

/// The index of the first member whose key is `key`, or the number of
/// members.
pub fn position(members: &Vec<(String, Json)>, key: &str) -> (r: usize)
    ensures
        r == find_key(members_view(members@), key@),
        r <= members.len(),
{
    let wanted = key.to_owned();
    let mut i: usize = 0;
    while i < members.len()
        invariant
            i <= members.len(),
            wanted@ == key@,
            forall|j: int| 0 <= j < i ==> members_view(members@)[j].0 != key@,
        decreases members.len() - i,
    {
        if members[i].0 == wanted {
            proof {
                lemma_find_key(members_view(members@), key@, i as int);
            }
            return i;
        }
        i = i + 1;
    }
    proof {
        lemma_find_key(members_view(members@), key@, i as int);
    }
    i
}


/// `serde_json::Value`, as an opaque value that is carried from the parser
/// to the copy.
#[verifier::external_type_specification]
#[verifier::external_body]
pub struct ExValue(serde_json::Value);

/// The document that a `serde_json::Value` holds: its scalars as they are,
/// a number as unsigned where it is one, else as signed where it is one,
/// else as its decimal text, and the members of an object in the order in
/// which the value's map hands them out.
pub uninterp spec fn value_model(value: serde_json::Value) -> JsonModel;

/// What `serde_json::from_str` makes of a text: the document that the
/// parsed value holds, or the way in which the text fails to be one.
pub uninterp spec fn text_meaning(text: Seq<char>) -> Result<JsonModel, ParseFailure>;

/// Calls `serde_json::from_str` for a `serde_json::Value`. The result is
/// the one that `text_meaning` names; an error is told apart by
/// `serde_json::Error::is_eof` only.
#[verifier::external_body]
fn parse_value(text: &str) -> (r: Result<serde_json::Value, ParseFailure>)
    ensures
        match r {
            Ok(value) => text_meaning(text@) == Ok::<JsonModel, ParseFailure>(value_model(value)),
            Err(failure) => text_meaning(text@) == Err::<JsonModel, ParseFailure>(failure),
        },
{
    match serde_json::from_str::<serde_json::Value>(text) {
        Ok(value) => Ok(value),
        Err(e) => if e.is_eof() {
            Err(ParseFailure::Incomplete)
        } else {
            Err(ParseFailure::Malformed)
        },
    }
}

/// Tells the scalar variants of `serde_json::Value` apart and copies what
/// they hold: `None` for an array or an object, else the scalar, which is
/// the document that `value_model` names. A number is copied by
/// `Number::as_u64`, else `Number::as_i64`, else as its `to_string` text.
#[verifier::external_body]
fn value_scalar(value: &Value) -> (r: Option<Json>)
    ensures
        match r {
            Some(scalar) => scalar@ == value_model(*value) && !(scalar is Array) && !(scalar
                is Object),
            None => value_model(*value) is Array || value_model(*value) is Object,
        },
{
    match value {
        Value::Null => Some(Json::Null),
        Value::Bool(b) => Some(Json::Bool(*b)),
        Value::Number(n) => Some(Json::Number(match (n.as_u64(), n.as_i64()) {
            (Some(u), _) => JsonNumber::Unsigned(u),
            (_, Some(i)) => JsonNumber::Signed(i),
            _ => JsonNumber::Decimal(n.to_string()),
        })),
        Value::String(s) => Some(Json::Str(s.clone())),
        _ => None,
    }
}

/// Hands out the items of a `serde_json::Value` that is an array, in
/// order, and `None` for any other value.
#[verifier::external_body]
fn value_items<'a>(value: &'a Value) -> (r: Option<Vec<&'a Value>>)
    ensures
        match r {
            Some(items) => {
                &&& value_model(*value) matches JsonModel::Array(models)
                &&& models.len() == items.len()
                &&& forall|i: int|
                    0 <= i < items.len() ==> value_model(*#[trigger] items[i]) == models[i]
            },
            None => !(value_model(*value) is Array),
        },
{
    match value {
        Value::Array(items) => Some(items.iter().collect()),
        _ => None,
    }
}

/// Hands out the members of a `serde_json::Value` that is an object, each
/// key with its value, in the order in which the value's map iterates, and
/// `None` for any other value. The map holds each key once, so the keys
/// that are handed out differ from one another.
#[verifier::external_body]
fn value_members<'a>(value: &'a Value) -> (r: Option<Vec<(String, &'a Value)>>)
    ensures
        match r {
            Some(members) => {
                &&& value_model(*value) matches JsonModel::Object(models)
                &&& models.len() == members.len()
                &&& distinct_keys(models)
                &&& forall|i: int|
                    0 <= i < members.len() ==> (#[trigger] members[i]).0@ == models[i].0
                        && value_model(*members[i].1) == models[i].1
            },
            None => !(value_model(*value) is Object),
        },
{
    match value {
        Value::Object(map) => Some(map.iter().map(|(k, v)| (k.clone(), v)).collect()),
        _ => None,
    }
}

/// The document that a parsed value holds.
fn json_from_value(value: &Value) -> (r: Json)
    ensures
        r@ == value_model(*value),
        well_keyed(r@),
    decreases value_model(*value),
{
    match value_items(value) {
        Some(items) => {
            let ghost models = value_model(*value)->Array_0;
            let mut copy: Vec<Json> = Vec::new();
            let mut i: usize = 0;
            while i < items.len()
                invariant
                    i <= items.len(),
                    copy.len() == i,
                    value_model(*value) == JsonModel::Array(models),
                    models.len() == items.len(),
                    forall|j: int|
                        0 <= j < items.len() ==> value_model(*#[trigger] items[j]) == models[j],
                    forall|j: int| 0 <= j < i ==> copy@[j]@ == models[j],
                    forall|j: int| 0 <= j < i ==> well_keyed(#[trigger] models[j]),
                decreases items.len() - i,
            {
                proof {
                    vstd::seq::axiom_seq_index_decreases(models, i as int);
                    assert(decreases_to!(value_model(*value) => value_model(*value)->Array_0));
                }
                let item = json_from_value(items[i]);
                copy.push(item);
                i = i + 1;
            }
            proof {
                lemma_array_view(copy);
                assert(items_view(copy@) =~= models);
            }
            Json::Array(copy)
        },
        None => match value_members(value) {
            Some(members) => {
                let ghost models = value_model(*value)->Object_0;
                let mut copy: Vec<(String, Json)> = Vec::new();
                let mut i: usize = 0;
                while i < members.len()
                    invariant
                        i <= members.len(),
                        copy.len() == i,
                        value_model(*value) == JsonModel::Object(models),
                        models.len() == members.len(),
                        forall|j: int|
                            0 <= j < members.len() ==> (#[trigger] members[j]).0@ == models[j].0
                                && value_model(*members[j].1) == models[j].1,
                        forall|j: int|
                            0 <= j < i ==> copy@[j].0@ == models[j].0 && copy@[j].1@
                                == models[j].1,
                        forall|j: int| 0 <= j < i ==> well_keyed((#[trigger] models[j]).1),
                        distinct_keys(models),
                    decreases members.len() - i,
                {
                    proof {
                        vstd::seq::axiom_seq_index_decreases(models, i as int);
                        assert(decreases_to!(value_model(*value) => value_model(*value)->Object_0));
                        assert(decreases_to!(models[i as int] => models[i as int].1));
                    }
                    let member = json_from_value(members[i].1);
                    copy.push((members[i].0.clone(), member));
                    i = i + 1;
                }
                proof {
                    lemma_object_view(copy);
                    assert(members_view(copy@) =~= models);
                }
                Json::Object(copy)
            },
            None => {
                let scalar = value_scalar(value);
                scalar.unwrap()
            },
        },
    }
}

/// Parses a text as one JSON document. No object of a parsed document
/// holds a key twice.
pub fn parse_json(text: &str) -> (r: Result<Json, ParseFailure>)
    ensures
        match r {
            Ok(value) => text_meaning(text@) == Ok::<JsonModel, ParseFailure>(value@)
                && well_keyed(value@),
            Err(failure) => text_meaning(text@) == Err::<JsonModel, ParseFailure>(failure),
        },
{
    match parse_value(text) {
        Ok(value) => Ok(json_from_value(&value)),
        Err(failure) => Err(failure),
    }
}


} // verus!
