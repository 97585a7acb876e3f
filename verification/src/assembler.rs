//! Folding the fragments of a streamed response into one document, and
//! picking from each fragment the text that is shown while the stream runs.

use vstd::prelude::*;
use vstd::string::*;
use crate::json::{
    find_from, distinct_keys, lemma_find_key, lemma_push_keeps_lookup, lemma_upsert_lookup, field_of, find_key, first_of, items_view, lemma_array_view, lemma_find_key_bounds,
    lemma_items_push, lemma_items_update, lemma_members_push, lemma_object_view, lookup,
    members_view, position, upsert, without_key, Json, JsonModel, Members,
};

verus! {

/// An object without members.
pub open spec fn empty_object() -> JsonModel {
    JsonModel::Object(Seq::empty())
}

/// The members of a function description after the text `more` was added to
/// its `arguments`: a missing `arguments` starts as `more`, a text grows by
/// `more`, anything else stays.
pub open spec fn grown_arguments(function: Members, more: Seq<char>) -> Members {
    match lookup(function, "arguments"@) {
        None => function.push(("arguments"@, JsonModel::Str(more))),
        Some(JsonModel::Str(text)) => upsert(function, "arguments"@, JsonModel::Str(text + more)),
        Some(_) => function,
    }
}

/// The members of a tool call after the `function.arguments` text of
/// `addition`, where it has one, was added to the call's own function
/// description, where it has one.
pub open spec fn with_arguments(call: Members, addition: JsonModel) -> Members {
    match field_of(addition.field("function"@), "arguments"@) {
        Some(JsonModel::Str(more)) => match lookup(call, "function"@) {
            Some(JsonModel::Object(function)) => upsert(
                call,
                "function"@,
                JsonModel::Object(grown_arguments(function, more)),
            ),
            _ => call,
        },
        _ => call,
    }
}

/// The members of a tool call with `key` taken from `addition` where the
/// call has no such member yet and `addition` has one.
pub open spec fn with_missing(call: Members, addition: JsonModel, key: Seq<char>) -> Members {
    if lookup(call, key).is_none() {
        match addition.field(key) {
            Some(value) => call.push((key, value)),
            None => call,
        }
    } else {
        call
    }
}

/// The members of a function description with the name `name`, where the
/// description has no name yet.
pub open spec fn named_function(function: Members, name: JsonModel) -> Members {
    if lookup(function, "name"@).is_none() {
        function.push(("name"@, name))
    } else {
        function
    }
}

/// The members of a tool call after the `function.name` of `addition`,
/// where it has one, was given to the call's own function description,
/// where it has one that lacks a name.
pub open spec fn with_name(call: Members, addition: JsonModel) -> Members {
    match field_of(addition.field("function"@), "name"@) {
        Some(name) => match lookup(call, "function"@) {
            Some(JsonModel::Object(function)) => upsert(
                call,
                "function"@,
                JsonModel::Object(named_function(function, name)),
            ),
            _ => call,
        },
        None => call,
    }
}

/// One tool call merged with a fragment of it. The arguments text grows
/// first; then the function's name is taken over where the call's function
/// lacks one; then `function`, `id` and `type` are taken over where the
/// call lacks them. What the call was given first, it keeps. A call that
/// is no object stays as it is.
pub open spec fn merged_tool_call(call: JsonModel, addition: JsonModel) -> JsonModel {
    match call {
        JsonModel::Object(members) => JsonModel::Object(
            with_missing(
                with_missing(
                    with_missing(
                        with_name(with_arguments(members, addition), addition),
                        addition,
                        "function"@,
                    ),
                    addition,
                    "id"@,
                ),
                addition,
                "type"@,
            ),
        ),
        _ => call,
    }
}

/// `calls`, extended by empty objects to at least `count` items.
pub open spec fn padded(calls: Seq<JsonModel>, count: int) -> Seq<JsonModel> {
    if calls.len() >= count {
        calls
    } else {
        calls + Seq::new((count - calls.len()) as nat, |i: int| empty_object())
    }
}

/// A fragment without its `index` member.
pub open spec fn strip_index(item: JsonModel) -> JsonModel {
    match item {
        JsonModel::Object(members) => JsonModel::Object(without_key(members, "index"@)),
        _ => item,
    }
}

/// The tool calls after one fragment. A fragment with an unsigned `index`
/// goes to the call at that position, the list growing by empty objects as
/// needed; one with another kind of `index` is dropped, as is one whose
/// index no list can reach; one without `index` goes to the first call, if
/// there is one.
pub open spec fn merged_call_item(calls: Seq<JsonModel>, item: JsonModel) -> Seq<JsonModel> {
    match item.field("index"@) {
        Some(index) => match index.unsigned() {
            Some(at) => if at < usize::MAX {
                let grown = padded(calls, at + 1);
                grown.update(at as int, merged_tool_call(grown[at as int], strip_index(item)))
            } else {
                calls
            },
            None => calls,
        },
        None => if calls.len() > 0 {
            calls.update(0, merged_tool_call(calls[0], item))
        } else {
            calls
        },
    }
}

/// The tool calls after the first `count` fragments of `additions`, taken
/// in order.
pub open spec fn merged_tool_calls(
    calls: Seq<JsonModel>,
    additions: Seq<JsonModel>,
    count: nat,
) -> Seq<JsonModel>
    decreases count,
{
    if count == 0 || count > additions.len() {
        calls
    } else {
        merged_call_item(
            merged_tool_calls(calls, additions, (count - 1) as nat),
            additions[count - 1],
        )
    }
}

/// The accumulator `base` after the fragment `addition`.
///
/// Two objects are merged member by member, two arrays in their first
/// items only; in every other case the fragment takes the place of what
/// was there.
pub open spec fn merged(base: JsonModel, addition: JsonModel) -> JsonModel
    decreases addition, 0nat,
{
    match (base, addition) {
        (JsonModel::Object(members), JsonModel::Object(more)) => JsonModel::Object(
            merged_members(members, more, more.len()),
        ),
        (JsonModel::Array(items), JsonModel::Array(more)) => if more.len() > 0 && items.len()
            > 0 {
            JsonModel::Array(items.update(0, merged(items[0], more[0])))
        } else {
            base
        },
        _ => addition,
    }
}

/// The members of an object after the first `count` members of `more`.
pub open spec fn merged_members(members: Members, more: Members, count: nat) -> Members
    decreases more, count,
{
    if count == 0 || count > more.len() {
        members
    } else {
        merge_entry(
            merged_members(members, more, (count - 1) as nat),
            more[count - 1].0,
            more[count - 1].1,
        )
    }
}

/// The members of an object after one member `key: value` of a fragment.
///
/// `content` grows an existing text by a text and is ignored otherwise, so
/// a `null` never overwrites. `tool_calls` merges call by call where both
/// sides are arrays, and is installed as it comes otherwise. Any other key
/// is merged with what the object holds under it, `null` where it holds
/// nothing.
pub open spec fn merge_entry(members: Members, key: Seq<char>, value: JsonModel) -> Members
    decreases value, 1nat,
{
    if key == "content"@ {
        match (lookup(members, key), value) {
            (Some(JsonModel::Str(text)), JsonModel::Str(more)) => upsert(
                members,
                key,
                JsonModel::Str(text + more),
            ),
            _ => members,
        }
    } else if key == "tool_calls"@ {
        match (lookup(members, key), value) {
            (Some(JsonModel::Array(calls)), JsonModel::Array(more)) => upsert(
                members,
                key,
                JsonModel::Array(merged_tool_calls(calls, more, more.len())),
            ),
            _ => upsert(members, key, value),
        }
    } else {
        let current = match lookup(members, key) {
            Some(held) => held,
            None => JsonModel::Null,
        };
        upsert(members, key, merged(current, value))
    }
}

/// The text that one streamed choice contributes to the live display: the
/// `delta.content` text; else the name of the first tool call of `delta`,
/// where it has a `function.name`, and nothing where that name is no text;
/// else whatever the first member of the choice contributes.
pub open spec fn delta_of(choice: JsonModel) -> Option<Seq<char>>
    decreases choice,
{
    match choice {
        JsonModel::Object(members) => {
            let delta = lookup(members, "delta"@);
            let name = field_of(
                field_of(first_of(field_of(delta, "tool_calls"@)), "function"@),
                "name"@,
            );
            match field_of(delta, "content"@) {
                Some(JsonModel::Str(text)) => Some(text),
                _ => match name {
                    Some(value) => value.text(),
                    None => if members.len() > 0 {
                        delta_of(members[0].1)
                    } else {
                        None
                    },
                },
            }
        },
        _ => None,
    }
}

/// The text that a whole fragment contributes to the live display: that of
/// its first choice.
pub open spec fn fragment_delta(fragment: JsonModel) -> Option<Seq<char>> {
    match first_of(fragment.field("choices"@)) {
        Some(choice) => delta_of(choice),
        None => None,
    }
}

/// Takes the value of member `i` out and leaves `null` in its place.
fn take_value(members: &mut Vec<(String, Json)>, i: usize) -> (r: Json)
    requires
        i < old(members).len(),
    ensures
        r == old(members)@[i as int].1,
        final(members)@ == old(members)@.update(i as int, (old(members)@[i as int].0, Json::Null)),
{
    let mut taken = Json::Null;
    core::mem::swap(&mut members[i].1, &mut taken);
    taken
}

/// Puts `value` in the place of the value of member `i`.
fn put_value(members: &mut Vec<(String, Json)>, i: usize, value: Json)
    requires
        i < old(members).len(),
    ensures
        final(members)@ == old(members)@.update(i as int, (old(members)@[i as int].0, value)),
{
    members[i].1 = value;
}

/// Takes item `i` out and leaves `null` in its place.
fn take_item(items: &mut Vec<Json>, i: usize) -> (r: Json)
    requires
        i < old(items).len(),
    ensures
        r == old(items)@[i as int],
        final(items)@ == old(items)@.update(i as int, Json::Null),
{
    let mut taken = Json::Null;
    core::mem::swap(&mut items[i], &mut taken);
    taken
}

/// Puts `value` in the place of item `i`.
fn put_item(items: &mut Vec<Json>, i: usize, value: Json)
    requires
        i < old(items).len(),
    ensures
        final(items)@ == old(items)@.update(i as int, value),
{
    items[i] = value;
}

/// Taking a member's value out and putting `value` back binds the
/// member's key to `value`.
proof fn lemma_put_back(
    before: Seq<(String, Json)>,
    after: Seq<(String, Json)>,
    i: int,
    value: Json,
    key: Seq<char>,
)
    requires
        0 <= i < before.len(),
        after == before.update(i, (before[i].0, Json::Null)).update(i, (before[i].0, value)),
        find_key(members_view(before), key) == i,
    ensures
        members_view(after) == upsert(members_view(before), key, value@),
        value == before[i].1 ==> after == before,
{
    lemma_find_key_bounds(members_view(before), key);
    assert(members_view(after) =~= members_view(before).update(i, (key, value@)));
    if value == before[i].1 {
        assert(after =~= before);
    }
}

/// Pushing a member under a key that is not there yet binds the key.
proof fn lemma_pushed(before: Seq<(String, Json)>, name: String, value: Json, key: Seq<char>)
    requires
        name@ == key,
        find_key(members_view(before), key) == before.len(),
    ensures
        members_view(before.push((name, value))) == upsert(members_view(before), key, value@),
        members_view(before.push((name, value))) == members_view(before).push((key, value@)),
{
    lemma_members_push(before, name, value);
}

/// Adds the text `more` to the `arguments` of a function description.
fn grow_arguments(function: &mut Vec<(String, Json)>, more: &String)
    ensures
        members_view(final(function)@) == grown_arguments(members_view(old(function)@), more@),
{
    let ghost before = function@;
    let j = position(function, "arguments");
    if j < function.len() {
        let existing = take_value(function, j);
        match existing {
            Json::Str(mut text) => {
                text.append(more.as_str());
                put_value(function, j, Json::Str(text));
                proof {
                    lemma_put_back(before, function@, j as int, Json::Str(text), "arguments"@);
                }
            },
            other => {
                put_value(function, j, other);
                proof {
                    lemma_put_back(before, function@, j as int, other, "arguments"@);
                }
            },
        }
    } else {
        let name = "arguments".to_owned();
        let value = Json::Str(more.clone());
        proof {
            lemma_pushed(before, name, value, "arguments"@);
        }
        function.push((name, value));
    }
}

/// Adds the `function.arguments` text of `addition` to a tool call.
fn append_arguments(call: &mut Vec<(String, Json)>, addition: &Json)
    ensures
        members_view(final(call)@) == with_arguments(members_view(old(call)@), addition@),
{
    let ghost before = call@;
    let arguments = match addition.get("function") {
        Some(function) => function.get("arguments"),
        None => None,
    };
    let more = match arguments {
        Some(value) => value.as_text(),
        None => None,
    };
    match more {
        Some(text) => {
            let i = position(call, "function");
            if i < call.len() {
                let current = take_value(call, i);
                match current {
                    Json::Object(mut function) => {
                        proof {
                            lemma_object_view(function);
                        }
                        grow_arguments(&mut function, text);
                        proof {
                            lemma_object_view(function);
                        }
                        put_value(call, i, Json::Object(function));
                        proof {
                            lemma_put_back(
                                before,
                                call@,
                                i as int,
                                Json::Object(function),
                                "function"@,
                            );
                        }
                    },
                    other => {
                        put_value(call, i, other);
                        proof {
                            lemma_put_back(before, call@, i as int, other, "function"@);
                        }
                    },
                }
            }
        },
        None => {},
    }
}

/// Gives the call's function the `function.name` of `addition`, where the
/// function lacks a name.
fn install_name(call: &mut Vec<(String, Json)>, addition: &Json)
    ensures
        members_view(final(call)@) == with_name(members_view(old(call)@), addition@),
{
    let ghost before = call@;
    let found = match addition.get("function") {
        Some(function) => function.get("name"),
        None => None,
    };
    match found {
        Some(name) => {
            let i = position(call, "function");
            if i < call.len() {
                let current = take_value(call, i);
                match current {
                    Json::Object(mut function) => {
                        proof {
                            lemma_object_view(function);
                        }
                        let j = position(&function, "name");
                        if j >= function.len() {
                            let key = "name".to_owned();
                            let copy = name.duplicate();
                            proof {
                                lemma_pushed(function@, key, copy, "name"@);
                            }
                            function.push((key, copy));
                        }
                        proof {
                            lemma_object_view(function);
                        }
                        put_value(call, i, Json::Object(function));
                        proof {
                            lemma_put_back(
                                before,
                                call@,
                                i as int,
                                Json::Object(function),
                                "function"@,
                            );
                        }
                    },
                    other => {
                        put_value(call, i, other);
                        proof {
                            lemma_put_back(before, call@, i as int, other, "function"@);
                        }
                    },
                }
            }
        },
        None => {},
    }
}

/// Takes the member `key` over from `addition` where the call lacks it.
fn install_missing(call: &mut Vec<(String, Json)>, addition: &Json, key: &str)
    ensures
        members_view(final(call)@) == with_missing(members_view(old(call)@), addition@, key@),
{
    let i = position(call, key);
    if i >= call.len() {
        match addition.get(key) {
            Some(value) => {
                let name = key.to_owned();
                let copy = value.duplicate();
                proof {
                    lemma_pushed(call@, name, copy, key@);
                }
                call.push((name, copy));
            },
            None => {},
        }
    }
}

/// Merges one fragment of a tool call into the call.
pub fn merge_tool_call(base_item: &mut Json, addition_item: &Json)
    ensures
        final(base_item)@ == merged_tool_call(old(base_item)@, addition_item@),
{
    let mut current = Json::Null;
    core::mem::swap(base_item, &mut current);
    let result = match current {
        Json::Object(mut members) => {
            proof {
                lemma_object_view(members);
            }
            append_arguments(&mut members, addition_item);
            install_name(&mut members, addition_item);
            install_missing(&mut members, addition_item, "function");
            install_missing(&mut members, addition_item, "id");
            install_missing(&mut members, addition_item, "type");
            proof {
                lemma_object_view(members);
            }
            Json::Object(members)
        },
        other => other,
    };
    *base_item = result;
}

/// A copy of a fragment without its `index` member.
fn without_index(item: &Json) -> (r: Json)
    ensures
        r@ == strip_index(item@),
{
    let copy = item.duplicate();
    match copy {
        Json::Object(mut members) => {
            proof {
                lemma_object_view(members);
            }
            let ghost before = members@;
            let i = position(&members, "index");
            if i < members.len() {
                let _ = members.remove(i);
                proof {
                    assert(members_view(members@) =~= members_view(before).remove(i as int));
                }
            }
            proof {
                lemma_object_view(members);
            }
            Json::Object(members)
        },
        other => other,
    }
}

/// Merges one fragment into the call at `at`.
fn merge_call_at(base_array: &mut Vec<Json>, at: usize, addition: &Json)
    requires
        at < old(base_array).len(),
    ensures
        items_view(final(base_array)@) == items_view(old(base_array)@).update(
            at as int,
            merged_tool_call(old(base_array)@[at as int]@, addition@),
        ),
{
    let ghost before = base_array@;
    let mut target = take_item(base_array, at);
    merge_tool_call(&mut target, addition);
    put_item(base_array, at, target);
    proof {
        assert(base_array@ =~= before.update(at as int, target));
        lemma_items_update(before, at as int, target);
    }
}

/// Extends the calls by empty objects to at least `count` items.
fn pad_calls(base_array: &mut Vec<Json>, count: usize)
    ensures
        items_view(final(base_array)@) == padded(items_view(old(base_array)@), count as int),
        final(base_array).len() >= count,
{
    let ghost before = base_array@;
    while base_array.len() < count
        invariant
            base_array.len() >= before.len(),
            base_array.len() <= count || base_array.len() == before.len(),
            items_view(base_array@) =~= items_view(before) + Seq::new(
                (base_array.len() - before.len()) as nat,
                |i: int| empty_object(),
            ),
        decreases count - base_array.len(),
    {
        let ghost current = base_array@;
        let fresh = Json::empty_object();
        base_array.push(fresh);
        proof {
            lemma_items_push(current, fresh);
        }
    }
    proof {
        if before.len() >= count {
            assert(items_view(base_array@) =~= items_view(before));
        }
    }
}

/// Merges the fragments of tool calls into the calls, in order.
pub fn merge_tool_calls(base_array: &mut Vec<Json>, addition_array: &Vec<Json>)
    ensures
        items_view(final(base_array)@) == merged_tool_calls(
            items_view(old(base_array)@),
            items_view(addition_array@),
            addition_array@.len(),
        ),
{
    let ghost before = items_view(base_array@);
    let ghost additions = items_view(addition_array@);
    let mut n: usize = 0;
    while n < addition_array.len()
        invariant
            n <= addition_array.len(),
            additions == items_view(addition_array@),
            items_view(base_array@) == merged_tool_calls(before, additions, n as nat),
        decreases addition_array.len() - n,
    {
        let item = &addition_array[n];
        assert(additions[n as int] == item@);
        match item.get("index") {
            Some(index) => match index.as_unsigned() {
                Some(at) => {
                    if at < usize::MAX as u64 {
                        let place = at as usize;
                        pad_calls(base_array, place + 1);
                        let trimmed = without_index(item);
                        merge_call_at(base_array, place, &trimmed);
                    }
                },
                None => {},
            },
            None => {
                if base_array.len() > 0 {
                    merge_call_at(base_array, 0, item);
                }
            },
        }
        n = n + 1;
    }
}

/// Merges one member of a fragment into the members of the accumulator.
fn merge_member(members: &mut Vec<(String, Json)>, key: &String, value: &Json)
    ensures
        members_view(final(members)@) == merge_entry(members_view(old(members)@), key@, value@),
    decreases value, 1nat,
{
    let ghost before = members@;
    let content_key = "content".to_owned();
    let calls_key = "tool_calls".to_owned();
    let i = position(members, key.as_str());
    if *key == content_key {
        if i < members.len() {
            match value {
                Json::Str(more) => {
                    let current = take_value(members, i);
                    match current {
                        Json::Str(mut text) => {
                            text.append(more.as_str());
                            put_value(members, i, Json::Str(text));
                            proof {
                                lemma_put_back(before, members@, i as int, Json::Str(text), key@);
                            }
                        },
                        other => {
                            put_value(members, i, other);
                            proof {
                                lemma_put_back(before, members@, i as int, other, key@);
                            }
                        },
                    }
                },
                _ => {},
            }
        }
    } else if *key == calls_key {
        let mut installed = false;
        if i < members.len() {
            match value {
                Json::Array(more) => {
                    proof {
                        lemma_array_view(*more);
                    }
                    let current = take_value(members, i);
                    match current {
                        Json::Array(mut calls) => {
                            proof {
                                lemma_array_view(calls);
                            }
                            merge_tool_calls(&mut calls, more);
                            proof {
                                lemma_array_view(calls);
                            }
                            put_value(members, i, Json::Array(calls));
                            proof {
                                lemma_put_back(
                                    before,
                                    members@,
                                    i as int,
                                    Json::Array(calls),
                                    key@,
                                );
                            }
                            installed = true;
                        },
                        other => {
                            put_value(members, i, other);
                            proof {
                                lemma_put_back(before, members@, i as int, other, key@);
                            }
                        },
                    }
                },
                _ => {},
            }
        }
        if !installed {
            let copy = value.duplicate();
            if i < members.len() {
                let _ = take_value(members, i);
                put_value(members, i, copy);
                proof {
                    lemma_put_back(before, members@, i as int, copy, key@);
                }
            } else {
                let name = key.clone();
                proof {
                    lemma_pushed(before, name, copy, key@);
                }
                members.push((name, copy));
            }
        }
    } else {
        if i < members.len() {
            let mut current = take_value(members, i);
            merge_json(&mut current, value);
            put_value(members, i, current);
            proof {
                lemma_put_back(before, members@, i as int, current, key@);
            }
        } else {
            let mut current = Json::Null;
            merge_json(&mut current, value);
            let name = key.clone();
            proof {
                lemma_pushed(before, name, current, key@);
            }
            members.push((name, current));
        }
    }
}

/// Merges the fragment `addition` into the accumulator `base`.
pub fn merge_json(base: &mut Json, addition: &Json)
    ensures
        final(base)@ == merged(old(base)@, addition@),
    decreases addition, 0nat,
{
    let mut current = Json::Null;
    core::mem::swap(base, &mut current);
    let result = match current {
        Json::Object(mut members) => match addition {
            Json::Object(more) => {
                proof {
                    lemma_object_view(members);
                    lemma_object_view(*more);
                }
                let ghost before = members_view(members@);
                let mut n: usize = 0;
                while n < more.len()
                    invariant
                        n <= more.len(),
                        *addition == Json::Object(*more),
                        members_view(members@) == merged_members(
                            before,
                            members_view(more@),
                            n as nat,
                        ),
                    decreases more.len() - n,
                {
                    proof {
                        vstd::std_specs::vec::axiom_vec_index_decreases(*more, n as int);
                        assert(addition is Object);
                        assert(decreases_to!(*addition => addition->Object_0));
                    }
                    merge_member(&mut members, &more[n].0, &more[n].1);
                    n = n + 1;
                }
                proof {
                    lemma_object_view(members);
                }
                Json::Object(members)
            },
            _ => addition.duplicate(),
        },
        Json::Array(mut items) => match addition {
            Json::Array(more) => {
                proof {
                    lemma_array_view(items);
                    lemma_array_view(*more);
                }
                if more.len() > 0 && items.len() > 0 {
                    let ghost before = items@;
                    let mut first = take_item(&mut items, 0);
                    proof {
                        vstd::std_specs::vec::axiom_vec_index_decreases(*more, 0);
                        assert(addition is Array);
                        assert(decreases_to!(*addition => addition->Array_0));
                    }
                    merge_json(&mut first, &more[0]);
                    put_item(&mut items, 0, first);
                    proof {
                        assert(items@ =~= before.update(0, first));
                        lemma_items_update(before, 0, first);
                        lemma_array_view(items);
                    }
                }
                Json::Array(items)
            },
            _ => addition.duplicate(),
        },
        _ => addition.duplicate(),
    };
    *base = result;
}

/// The text that one streamed choice contributes to the live display.
pub fn obtain_delta(choice: &Json) -> (r: Option<String>)
    ensures
        match r {
            Some(text) => delta_of(choice@) == Some(text@),
            None => delta_of(choice@).is_none(),
        },
    decreases choice,
{
    match choice {
        Json::Object(members) => {
            proof {
                lemma_object_view(*members);
            }
            let delta = choice.get("delta");
            let content = match delta {
                Some(d) => d.get("content"),
                None => None,
            };
            let text = match content {
                Some(c) => c.as_text(),
                None => None,
            };
            match text {
                Some(t) => {
                    return Some(t.clone());
                },
                None => {},
            }
            let calls = match delta {
                Some(d) => d.get("tool_calls"),
                None => None,
            };
            let first = match calls {
                Some(c) => c.first(),
                None => None,
            };
            let function = match first {
                Some(f) => f.get("function"),
                None => None,
            };
            let name = match function {
                Some(f) => f.get("name"),
                None => None,
            };
            match name {
                Some(value) => {
                    return match value.as_text() {
                        Some(t) => Some(t.clone()),
                        None => None,
                    };
                },
                None => {},
            }
            if members.len() > 0 {
                proof {
                    vstd::std_specs::vec::axiom_vec_index_decreases(*members, 0);
                    assert(choice is Object);
                    assert(decreases_to!(*choice => choice->Object_0));
                }
                obtain_delta(&members[0].1)
            } else {
                None
            }
        },
        _ => None,
    }
}

/// Merges a fragment into the accumulator and hands back the text to show
/// for it.
pub fn handle_json(composable_response: &mut Json, json_value: &Json) -> (r: Option<String>)
    ensures
        final(composable_response)@ == merged(old(composable_response)@, json_value@),
        match r {
            Some(text) => fragment_delta(json_value@) == Some(text@),
            None => fragment_delta(json_value@).is_none(),
        },
{
    merge_json(composable_response, json_value);
    let choices = json_value.get("choices");
    let first = match choices {
        Some(c) => c.first(),
        None => None,
    };
    match first {
        Some(choice) => obtain_delta(choice),
        None => None,
    }
}


/// What a fragment does to an object depends on the members that were
/// merged only, not on those that follow.
pub proof fn lemma_merged_members_prefix(members: Members, one: Members, other: Members, count: nat)
    requires
        count <= one.len(),
        count <= other.len(),
        forall|i: int| 0 <= i < count ==> one[i] == other[i],
    ensures
        merged_members(members, one, count) == merged_members(members, other, count),
    decreases count,
{
    if count > 0 {
        lemma_merged_members_prefix(members, one, other, (count - 1) as nat);
    }
}

/// A whole response merged into an empty object is the response itself.
///
/// For a response that is an object this asks that its keys differ from
/// one another and that none of them is `content`, which is only ever
/// appended to.
pub proof fn lemma_merge_into_empty(response: JsonModel)
    requires
        response matches JsonModel::Object(members) ==> distinct_keys(members) && lookup(
            members,
            "content"@,
        ).is_none(),
    ensures
        merged(empty_object(), response) == response,
{
    match response {
        JsonModel::Object(members) => {
            lemma_fill_empty(members, members.len());
            assert(members.take(members.len() as int) =~= members);
        },
        _ => {},
    }
}

proof fn lemma_fill_empty(members: Members, count: nat)
    requires
        distinct_keys(members),
        lookup(members, "content"@).is_none(),
        count <= members.len(),
    ensures
        merged_members(Seq::empty(), members, count) == members.take(count as int),
    decreases count,
{
    if count == 0 {
        assert(members.take(0) =~= Seq::empty());
    } else {
        lemma_fill_empty(members, (count - 1) as nat);
        let filled = members.take(count - 1);
        let key = members[count - 1].0;
        let value = members[count - 1].1;
        lemma_find_key_bounds(members, "content"@);
        assert(key != "content"@);
        assert forall|j: int| 0 <= j < filled.len() implies filled[j].0 != key by {
            assert(filled[j] == members[j]);
        }
        lemma_find_key(filled, key, filled.len() as int);
        assert(lookup(filled, key).is_none());
        assert(merged(JsonModel::Null, value) == value);
        assert(upsert(filled, key, value) == filled.push((key, value)));
        assert(merge_entry(filled, key, value) == filled.push((key, value)));
        assert(filled.push((key, value)) =~= members.take(count as int));
        assert(merged_members(Seq::empty(), members, count) == merge_entry(
            merged_members(Seq::empty(), members, (count - 1) as nat),
            key,
            value,
        ));
    }
}

/// A `content` that is `null` leaves the members of an object as they are.
pub proof fn lemma_null_content_keeps_members(members: Members)
    ensures
        merge_entry(members, "content"@, JsonModel::Null) == members,
{
}

/// A fragment with a `content` that is `null` does to an object what the
/// fragment without that member does.
pub proof fn lemma_null_content_is_ignored(base: Members, fragment: Members, at: int)
    requires
        0 <= at < fragment.len(),
        fragment[at] == ("content"@, JsonModel::Null),
    ensures
        merged(JsonModel::Object(base), JsonModel::Object(fragment)) == merged(
            JsonModel::Object(base),
            JsonModel::Object(fragment.remove(at)),
        ),
{
    lemma_skip_null_content(base, fragment, at, fragment.len());
}

proof fn lemma_skip_null_content(base: Members, fragment: Members, at: int, count: nat)
    requires
        0 <= at < fragment.len(),
        fragment[at] == ("content"@, JsonModel::Null),
        at < count <= fragment.len(),
    ensures
        merged_members(base, fragment, count) == merged_members(
            base,
            fragment.remove(at),
            (count - 1) as nat,
        ),
    decreases count,
{
    let shorter = fragment.remove(at);
    if count == at + 1 {
        lemma_merged_members_prefix(base, fragment, shorter, at as nat);
        lemma_null_content_keeps_members(merged_members(base, fragment, at as nat));
    } else {
        lemma_skip_null_content(base, fragment, at, (count - 1) as nat);
        assert(shorter[count - 2] == fragment[count - 1]);
    }
}

/// A `content` that is a text is appended to the text that the object
/// holds under `content`.
pub proof fn lemma_content_is_appended(members: Members, text: Seq<char>, more: Seq<char>)
    requires
        lookup(members, "content"@) == Some(JsonModel::Str(text)),
    ensures
        lookup(merge_entry(members, "content"@, JsonModel::Str(more)), "content"@) == Some(
            JsonModel::Str(text + more),
        ),
{
    lemma_upsert_lookup(members, "content"@, JsonModel::Str(text + more));
}

/// What a merged tool call holds as its function description is what the
/// call holds after the arguments and the name were seen to: the members
/// that are taken over where they are missing leave it alone.
proof fn lemma_function_is_settled(call: Members, addition: JsonModel)
    requires
        lookup(call, "function"@).is_some(),
    ensures
        merged_tool_call(JsonModel::Object(call), addition).field("function"@) == lookup(
            with_name(with_arguments(call, addition), addition),
            "function"@,
        ),
        lookup(with_name(with_arguments(call, addition), addition), "function"@).is_some(),
{
    let grown = with_arguments(call, addition);
    assert(lookup(grown, "function"@).is_some()) by {
        match field_of(addition.field("function"@), "arguments"@) {
            Some(JsonModel::Str(more)) => match lookup(call, "function"@) {
                Some(JsonModel::Object(function)) => {
                    lemma_upsert_lookup(
                        call,
                        "function"@,
                        JsonModel::Object(grown_arguments(function, more)),
                    );
                },
                _ => {},
            },
            _ => {},
        }
    }
    let named = with_name(grown, addition);
    assert(lookup(named, "function"@).is_some()) by {
        match field_of(addition.field("function"@), "name"@) {
            Some(name) => match lookup(grown, "function"@) {
                Some(JsonModel::Object(function)) => {
                    lemma_upsert_lookup(
                        grown,
                        "function"@,
                        JsonModel::Object(named_function(function, name)),
                    );
                },
                _ => {},
            },
            None => {},
        }
    }
    let second = with_missing(named, addition, "function"@);
    assert(second == named);
    let third = with_missing(second, addition, "id"@);
    if third != second {
        lemma_push_keeps_lookup(second, "function"@, "id"@, addition.field("id"@).unwrap());
    }
    let fourth = with_missing(third, addition, "type"@);
    if fourth != third {
        lemma_push_keeps_lookup(third, "function"@, "type"@, addition.field("type"@).unwrap());
    }
}

/// The `function.arguments` text of a fragment is appended to the
/// arguments that the tool call holds.
pub proof fn lemma_arguments_are_appended(
    call: Members,
    function: Members,
    text: Seq<char>,
    addition: JsonModel,
    more: Seq<char>,
)
    requires
        lookup(call, "function"@) == Some(JsonModel::Object(function)),
        lookup(function, "arguments"@) == Some(JsonModel::Str(text)),
        field_of(addition.field("function"@), "arguments"@) == Some(JsonModel::Str(more)),
    ensures
        field_of(
            merged_tool_call(JsonModel::Object(call), addition).field("function"@),
            "arguments"@,
        ) == Some(JsonModel::Str(text + more)),
{
    lemma_function_is_settled(call, addition);
    let grown = grown_arguments(function, more);
    lemma_upsert_lookup(function, "arguments"@, JsonModel::Str(text + more));
    let first = with_arguments(call, addition);
    lemma_upsert_lookup(call, "function"@, JsonModel::Object(grown));
    match field_of(addition.field("function"@), "name"@) {
        Some(name) => {
            let named = named_function(grown, name);
            if named != grown {
                lemma_push_keeps_lookup(grown, "arguments"@, "name"@, name);
            }
            lemma_upsert_lookup(first, "function"@, JsonModel::Object(named));
        },
        None => {},
    }
}

/// The function of a tool call takes its name from the first fragment
/// that brings one: a function without a name gets the fragment's, and a
/// function with a name keeps it.
pub proof fn lemma_name_is_first_written(
    call: Members,
    function: Members,
    addition: JsonModel,
    name: JsonModel,
)
    requires
        lookup(call, "function"@) == Some(JsonModel::Object(function)),
        field_of(addition.field("function"@), "name"@) == Some(name),
    ensures
        field_of(
            merged_tool_call(JsonModel::Object(call), addition).field("function"@),
            "name"@,
        ) == match lookup(function, "name"@) {
            Some(held) => Some(held),
            None => Some(name),
        },
{
    lemma_function_is_settled(call, addition);
    let first = with_arguments(call, addition);
    let grown = match lookup(first, "function"@) {
        Some(JsonModel::Object(members)) => members,
        _ => function,
    };
    assert(lookup(first, "function"@) == Some(JsonModel::Object(grown)) && lookup(grown, "name"@)
        == lookup(function, "name"@)) by {
        lemma_keys_differ();
        match field_of(addition.field("function"@), "arguments"@) {
            Some(JsonModel::Str(more)) => {
                let after = grown_arguments(function, more);
                lemma_upsert_lookup(call, "function"@, JsonModel::Object(after));
                lemma_other_key_stays(function, more);
            },
            _ => {},
        }
    }
    let named = named_function(grown, name);
    lemma_upsert_lookup(first, "function"@, JsonModel::Object(named));
    if lookup(grown, "name"@).is_none() {
        lemma_find_key_bounds(grown, "name"@);
        lemma_find_key(named, "name"@, grown.len() as int);
    }
}

/// Growing the arguments of a function description leaves its name as it
/// is.
proof fn lemma_other_key_stays(function: Members, more: Seq<char>)
    ensures
        lookup(grown_arguments(function, more), "name"@) == lookup(function, "name"@),
{
    reveal_strlit("name");
    reveal_strlit("arguments");
    assert("name"@.len() == 4);
    assert("arguments"@.len() == 9);
    let after = grown_arguments(function, more);
    lemma_find_key_bounds(function, "name"@);
    lemma_find_key_bounds(function, "arguments"@);
    let i = find_key(function, "name"@);
    if i < function.len() {
        lemma_find_key(after, "name"@, i);
    } else {
        assert forall|j: int| 0 <= j < after.len() implies after[j].0 != "name"@ by {
            if j < function.len() {
                assert(after[j].0 == function[j].0);
            }
        }
        lemma_find_key(after, "name"@, after.len() as int);
    }
}

/// What a response holds as the content of the delta of its first choice.
pub open spec fn streamed_content(response: JsonModel) -> Option<JsonModel> {
    field_of(field_of(first_of(response.field("choices"@)), "delta"@), "content"@)
}

/// The fragment that carries nothing but a content for the delta of the
/// first choice.
pub open spec fn content_fragment(content: JsonModel) -> JsonModel {
    JsonModel::Object(
        seq![
            (
                "choices"@,
                JsonModel::Array(
                    seq![
                        JsonModel::Object(
                            seq![("delta"@, JsonModel::Object(seq![("content"@, content)]))],
                        ),
                    ],
                ),
            ),
        ],
    )
}

proof fn lemma_keys_differ()
    ensures
        "choices"@ != "content"@,
        "choices"@ != "tool_calls"@,
        "choices"@ != "delta"@,
        "delta"@ != "content"@,
        "delta"@ != "tool_calls"@,
        "content"@ != "tool_calls"@,
{
    reveal_strlit("choices");
    reveal_strlit("content");
    reveal_strlit("tool_calls");
    reveal_strlit("delta");
    assert("choices"@[1] == 'h');
    assert("content"@[1] == 'o');
    assert("choices"@.len() == 7);
    assert("content"@.len() == 7);
    assert("delta"@.len() == 5);
    assert("tool_calls"@.len() == 10);
}

/// What a content fragment does to a response that already holds a delta
/// for its first choice: the delta is merged with the content.
proof fn lemma_content_fragment_reaches_delta(
    response: Members,
    choices: Seq<JsonModel>,
    choice: Members,
    delta: Members,
    content: JsonModel,
)
    requires
        lookup(response, "choices"@) == Some(JsonModel::Array(choices)),
        choices.len() > 0,
        choices[0] == JsonModel::Object(choice),
        lookup(choice, "delta"@) == Some(JsonModel::Object(delta)),
    ensures
        merged(JsonModel::Object(response), content_fragment(content)) == JsonModel::Object(
            upsert(
                response,
                "choices"@,
                JsonModel::Array(
                    choices.update(
                        0,
                        JsonModel::Object(
                            upsert(
                                choice,
                                "delta"@,
                                JsonModel::Object(merge_entry(delta, "content"@, content)),
                            ),
                        ),
                    ),
                ),
            ),
        ),
{
    lemma_keys_differ();
    let inner = seq![("content"@, content)];
    let middle = seq![("delta"@, JsonModel::Object(inner))];
    let outer = seq![("choices"@, JsonModel::Array(seq![JsonModel::Object(middle)]))];
    assert(content_fragment(content) == JsonModel::Object(outer));
    reveal_with_fuel(merged_members, 2);
    assert(merged_members(delta, inner, 1) == merge_entry(delta, "content"@, content));
    assert(merged(JsonModel::Object(delta), JsonModel::Object(inner)) == JsonModel::Object(
        merge_entry(delta, "content"@, content),
    ));
    assert(merged_members(choice, middle, 1) == merge_entry(
        choice,
        "delta"@,
        JsonModel::Object(inner),
    ));
    assert(merged(JsonModel::Object(choice), JsonModel::Object(middle)) == JsonModel::Object(
        upsert(choice, "delta"@, JsonModel::Object(merge_entry(delta, "content"@, content))),
    ));
    let pieces = seq![JsonModel::Object(middle)];
    assert(merged(JsonModel::Array(choices), JsonModel::Array(pieces)) == JsonModel::Array(
        choices.update(0, merged(choices[0], pieces[0])),
    ));
    assert(merged_members(response, outer, 1) == merge_entry(
        response,
        "choices"@,
        JsonModel::Array(pieces),
    ));
}

/// A streamed content grows by the text of each fragment, and that text
/// is what the fragment shows.
pub proof fn lemma_streamed_content_grows(response: JsonModel, text: Seq<char>, more: Seq<char>)
    requires
        streamed_content(response) == Some(JsonModel::Str(text)),
    ensures
        streamed_content(merged(response, content_fragment(JsonModel::Str(more)))) == Some(
            JsonModel::Str(text + more),
        ),
        fragment_delta(content_fragment(JsonModel::Str(more))) == Some(more),
{
    lemma_keys_differ();
    let members = response->Object_0;
    let choices = lookup(members, "choices"@).unwrap()->Array_0;
    let choice = choices[0]->Object_0;
    let delta = lookup(choice, "delta"@).unwrap()->Object_0;
    let content = JsonModel::Str(more);
    lemma_content_fragment_reaches_delta(members, choices, choice, delta, content);
    let grown = merge_entry(delta, "content"@, content);
    lemma_upsert_lookup(delta, "content"@, JsonModel::Str(text + more));
    lemma_upsert_lookup(choice, "delta"@, JsonModel::Object(grown));
    let after = choices.update(
        0,
        JsonModel::Object(upsert(choice, "delta"@, JsonModel::Object(grown))),
    );
    lemma_upsert_lookup(members, "choices"@, JsonModel::Array(after));
    lemma_shown_content(content);
}

/// Whether a response has a place for a streamed content: it is an object
/// whose `choices` are an array that is empty or starts with an object
/// whose `delta` is an object.
pub open spec fn holds_delta(response: JsonModel) -> bool {
    match response.field("choices"@) {
        Some(JsonModel::Array(choices)) => choices.len() == 0 || field_of(
            Some(choices[0]),
            "delta"@,
        ) matches Some(JsonModel::Object(_)),
        _ => false,
    }
}

/// A fragment whose content is `null` leaves a response that has a place
/// for a streamed content as it is, and shows nothing.
pub proof fn lemma_null_content_changes_nothing(response: JsonModel)
    requires
        holds_delta(response),
    ensures
        merged(response, content_fragment(JsonModel::Null)) == response,
        fragment_delta(content_fragment(JsonModel::Null)).is_none(),
{
    lemma_keys_differ();
    lemma_shown_content(JsonModel::Null);
    let members = response->Object_0;
    let choices = lookup(members, "choices"@).unwrap()->Array_0;
    lemma_find_key_bounds(members, "choices"@);
    if choices.len() == 0 {
        let inner = seq![("content"@, JsonModel::Null)];
        let middle = seq![("delta"@, JsonModel::Object(inner))];
        let pieces = seq![JsonModel::Object(middle)];
        let outer = seq![("choices"@, JsonModel::Array(pieces))];
        assert(content_fragment(JsonModel::Null) == JsonModel::Object(outer));
        reveal_with_fuel(merged_members, 2);
        assert(merged(JsonModel::Array(choices), JsonModel::Array(pieces)) == JsonModel::Array(
            choices,
        ));
        assert(merged_members(members, outer, 1) == merge_entry(
            members,
            "choices"@,
            JsonModel::Array(pieces),
        ));
        assert(upsert(members, "choices"@, JsonModel::Array(choices)) =~= members);
    } else {
        let choice = choices[0]->Object_0;
        let delta = lookup(choice, "delta"@).unwrap()->Object_0;
        lemma_content_fragment_reaches_delta(members, choices, choice, delta, JsonModel::Null);
        lemma_find_key_bounds(choice, "delta"@);
        let kept = upsert(choice, "delta"@, JsonModel::Object(delta));
        assert(kept =~= choice);
        assert(choices.update(0, JsonModel::Object(kept)) =~= choices);
        assert(upsert(members, "choices"@, JsonModel::Array(choices)) =~= members);
    }
}

/// What a content fragment shows: its content where that is a text,
/// nothing where it is `null`.
proof fn lemma_shown_content(content: JsonModel)
    requires
        content is Str || content is Null,
    ensures
        fragment_delta(content_fragment(content)) == content.text(),
{
    lemma_keys_differ();
    reveal_with_fuel(find_from, 3);
    reveal_with_fuel(delta_of, 4);
    let inner = seq![("content"@, content)];
    let middle = seq![("delta"@, JsonModel::Object(inner))];
    let pieces = seq![JsonModel::Object(middle)];
    let outer = seq![("choices"@, JsonModel::Array(pieces))];
    assert(content_fragment(content) == JsonModel::Object(outer));
    assert(lookup(outer, "choices"@) == Some(JsonModel::Array(pieces)));
    assert(first_of(Some(JsonModel::Array(pieces))) == Some(JsonModel::Object(middle)));
    assert(lookup(middle, "delta"@) == Some(JsonModel::Object(inner)));
    assert(lookup(inner, "content"@) == Some(content));
    assert(lookup(inner, "tool_calls"@).is_none());
    assert(lookup(inner, "delta"@).is_none());
    if content is Null {
        assert(delta_of(JsonModel::Object(inner)) == delta_of(content));
        assert(delta_of(JsonModel::Object(middle)) == delta_of(JsonModel::Object(inner)));
    }
}

} // verus!
