//! Keys stay distinct: what the assembler makes of documents in which no
//! object holds a key twice is again such a document.

use vstd::prelude::*;
use crate::assembler::{
    empty_object, grown_arguments, lemma_merge_into_empty, merge_entry, merged, merged_call_item, merged_members,
    merged_tool_call, merged_tool_calls, named_function, padded, strip_index, with_arguments,
    with_missing, with_name,
};
use crate::json::{
    all_well_keyed, distinct_keys, field_of, find_key, lemma_find_key_bounds, lookup, upsert,
    well_keyed, well_keyed_members, without_key, JsonModel, Members,
};

verus! {

/// An object is well keyed where its members are, and an array where its
/// items are.
pub proof fn lemma_well_keyed_parts(value: JsonModel)
    ensures
        value matches JsonModel::Object(members) ==> (well_keyed(value) <==> well_keyed_members(
            members,
        )),
        value matches JsonModel::Array(items) ==> (well_keyed(value) <==> all_well_keyed(items)),
        !(value is Object) && !(value is Array) ==> well_keyed(value),
{
}

/// What is found under a key of well-keyed members is well keyed; where
/// nothing is found, no member has the key.
pub proof fn lemma_lookup_well_keyed(members: Members, key: Seq<char>)
    requires
        well_keyed_members(members),
    ensures
        lookup(members, key) matches Some(value) ==> well_keyed(value),
        lookup(members, key).is_none() ==> forall|j: int|
            0 <= j < members.len() ==> (#[trigger] members[j]).0 != key,
{
    lemma_find_key_bounds(members, key);
}

/// What a well-keyed document holds under a key is well keyed.
pub proof fn lemma_field_well_keyed(value: Option<JsonModel>, key: Seq<char>)
    requires
        value matches Some(v) ==> well_keyed(v),
    ensures
        field_of(value, key) matches Some(found) ==> well_keyed(found),
{
    match value {
        Some(JsonModel::Object(members)) => {
            lemma_lookup_well_keyed(members, key);
        },
        _ => {},
    }
}

/// A new last member under a key that no member has keeps the members
/// well keyed.
pub proof fn lemma_push_well_keyed(members: Members, key: Seq<char>, value: JsonModel)
    requires
        well_keyed_members(members),
        lookup(members, key).is_none(),
        well_keyed(value),
    ensures
        well_keyed_members(members.push((key, value))),
{
    lemma_lookup_well_keyed(members, key);
    let after = members.push((key, value));
    assert forall|i: int, j: int| 0 <= i < j < after.len() implies after[i].0 != after[j].0 by {
        assert(after[i] == members[i]);
        if j < members.len() {
            assert(after[j] == members[j]);
        }
    }
    assert forall|i: int| 0 <= i < after.len() implies well_keyed((#[trigger] after[i]).1) by {
        if i < members.len() {
            assert(after[i] == members[i]);
        }
    }
}

/// Binding a key to a well-keyed value keeps the members well keyed.
pub proof fn lemma_upsert_well_keyed(members: Members, key: Seq<char>, value: JsonModel)
    requires
        well_keyed_members(members),
        well_keyed(value),
    ensures
        well_keyed_members(upsert(members, key, value)),
{
    lemma_find_key_bounds(members, key);
    let at = find_key(members, key);
    if at < members.len() {
        let after = members.update(at, (key, value));
        assert forall|i: int, j: int| 0 <= i < j < after.len() implies after[i].0
            != after[j].0 by {
            assert(after[i].0 == members[i].0);
            assert(after[j].0 == members[j].0);
        }
        assert forall|i: int| 0 <= i < after.len() implies well_keyed((#[trigger] after[i]).1) by {
            if i != at {
                assert(after[i] == members[i]);
            }
        }
    } else {
        lemma_push_well_keyed(members, key, value);
    }
}

/// Taking a member out keeps the members well keyed.
pub proof fn lemma_without_key_well_keyed(members: Members, key: Seq<char>)
    requires
        well_keyed_members(members),
    ensures
        well_keyed_members(without_key(members, key)),
{
    lemma_find_key_bounds(members, key);
    let at = find_key(members, key);
    if at < members.len() {
        let after = members.remove(at);
        assert forall|i: int| 0 <= i < after.len() implies #[trigger] after[i] == members[if i
            < at {
            i
        } else {
            i + 1
        }] by {}
        assert forall|i: int, j: int| 0 <= i < j < after.len() implies after[i].0
            != after[j].0 by {
            let a = if i < at {
                i
            } else {
                i + 1
            };
            let b = if j < at {
                j
            } else {
                j + 1
            };
            assert(after[i] == members[a]);
            assert(after[j] == members[b]);
        }
        assert forall|i: int| 0 <= i < after.len() implies well_keyed((#[trigger] after[i]).1) by {
            let a = if i < at {
                i
            } else {
                i + 1
            };
            assert(after[i] == members[a]);
        }
    }
}

/// One tool call merged with a fragment is well keyed where both are.
pub proof fn lemma_merged_tool_call_well_keyed(call: JsonModel, addition: JsonModel)
    requires
        well_keyed(call),
        well_keyed(addition),
    ensures
        well_keyed(merged_tool_call(call, addition)),
{
    match call {
        JsonModel::Object(members) => {
            let first = with_arguments(members, addition);
            assert(well_keyed_members(first)) by {
                match field_of(addition.field("function"@), "arguments"@) {
                    Some(JsonModel::Str(more)) => match lookup(members, "function"@) {
                        Some(JsonModel::Object(function)) => {
                            lemma_lookup_well_keyed(members, "function"@);
                            lemma_lookup_well_keyed(function, "arguments"@);
                            let grown = grown_arguments(function, more);
                            match lookup(function, "arguments"@) {
                                None => {
                                    lemma_push_well_keyed(
                                        function,
                                        "arguments"@,
                                        JsonModel::Str(more),
                                    );
                                },
                                Some(JsonModel::Str(text)) => {
                                    lemma_upsert_well_keyed(
                                        function,
                                        "arguments"@,
                                        JsonModel::Str(text + more),
                                    );
                                },
                                Some(_) => {},
                            }
                            lemma_upsert_well_keyed(
                                members,
                                "function"@,
                                JsonModel::Object(grown),
                            );
                        },
                        _ => {},
                    },
                    _ => {},
                }
            }
            let second = with_name(first, addition);
            assert(well_keyed_members(second)) by {
                lemma_field_well_keyed(Some(addition), "function"@);
                lemma_field_well_keyed(addition.field("function"@), "name"@);
                match field_of(addition.field("function"@), "name"@) {
                    Some(name) => match lookup(first, "function"@) {
                        Some(JsonModel::Object(function)) => {
                            lemma_lookup_well_keyed(first, "function"@);
                            if lookup(function, "name"@).is_none() {
                                lemma_push_well_keyed(function, "name"@, name);
                            }
                            lemma_upsert_well_keyed(
                                first,
                                "function"@,
                                JsonModel::Object(named_function(function, name)),
                            );
                        },
                        _ => {},
                    },
                    None => {},
                }
            }
            lemma_with_missing_well_keyed(second, addition, "function"@);
            let third = with_missing(second, addition, "function"@);
            lemma_with_missing_well_keyed(third, addition, "id"@);
            let fourth = with_missing(third, addition, "id"@);
            lemma_with_missing_well_keyed(fourth, addition, "type"@);
        },
        _ => {},
    }
}

proof fn lemma_with_missing_well_keyed(call: Members, addition: JsonModel, key: Seq<char>)
    requires
        well_keyed_members(call),
        well_keyed(addition),
    ensures
        well_keyed_members(with_missing(call, addition, key)),
{
    lemma_field_well_keyed(Some(addition), key);
    if lookup(call, key).is_none() {
        match addition.field(key) {
            Some(value) => {
                lemma_push_well_keyed(call, key, value);
            },
            None => {},
        }
    }
}

/// The tool calls after one fragment are well keyed where the calls and
/// the fragment are.
proof fn lemma_merged_call_item_well_keyed(calls: Seq<JsonModel>, item: JsonModel)
    requires
        all_well_keyed(calls),
        well_keyed(item),
    ensures
        all_well_keyed(merged_call_item(calls, item)),
{
    match item.field("index"@) {
        Some(index) => match index.unsigned() {
            Some(at) => {
                if at < usize::MAX {
                    let grown = padded(calls, at + 1);
                    assert(well_keyed(empty_object()));
                    assert forall|i: int| 0 <= i < grown.len() implies well_keyed(
                        #[trigger] grown[i],
                    ) by {
                        if i < calls.len() {
                            assert(grown[i] == calls[i]);
                        } else {
                            assert(grown[i] == empty_object());
                        }
                    }
                    let stripped = strip_index(item);
                    assert(well_keyed(stripped)) by {
                        match item {
                            JsonModel::Object(members) => {
                                lemma_without_key_well_keyed(members, "index"@);
                            },
                            _ => {},
                        }
                    }
                    lemma_merged_tool_call_well_keyed(grown[at as int], stripped);
                    let after = grown.update(at as int, merged_tool_call(grown[at as int], stripped));
                    assert forall|i: int| 0 <= i < after.len() implies well_keyed(
                        #[trigger] after[i],
                    ) by {
                        if i != at {
                            assert(after[i] == grown[i]);
                        }
                    }
                }
            },
            None => {},
        },
        None => {
            if calls.len() > 0 {
                lemma_merged_tool_call_well_keyed(calls[0], item);
                let after = calls.update(0, merged_tool_call(calls[0], item));
                assert forall|i: int| 0 <= i < after.len() implies well_keyed(
                    #[trigger] after[i],
                ) by {
                    if i != 0 {
                        assert(after[i] == calls[i]);
                    }
                }
            }
        },
    }
}

/// Merged tool calls are well keyed where the calls and the fragments are.
pub proof fn lemma_merged_tool_calls_well_keyed(
    calls: Seq<JsonModel>,
    additions: Seq<JsonModel>,
    count: nat,
)
    requires
        all_well_keyed(calls),
        all_well_keyed(additions),
    ensures
        all_well_keyed(merged_tool_calls(calls, additions, count)),
    decreases count,
{
    if count > 0 && count <= additions.len() {
        lemma_merged_tool_calls_well_keyed(calls, additions, (count - 1) as nat);
        lemma_merged_call_item_well_keyed(
            merged_tool_calls(calls, additions, (count - 1) as nat),
            additions[count - 1],
        );
    }
}

/// Merging keeps keys distinct: where no object of the accumulator and no
/// object of the fragment holds a key twice, none of the merged document
/// does.
pub proof fn lemma_merged_well_keyed(base: JsonModel, addition: JsonModel)
    requires
        well_keyed(base),
        well_keyed(addition),
    ensures
        well_keyed(merged(base, addition)),
    decreases addition, 0nat,
{
    match (base, addition) {
        (JsonModel::Object(members), JsonModel::Object(more)) => {
            lemma_merged_members_well_keyed(members, more, more.len());
        },
        (JsonModel::Array(items), JsonModel::Array(more)) => {
            if more.len() > 0 && items.len() > 0 {
                lemma_merged_well_keyed(items[0], more[0]);
                let after = items.update(0, merged(items[0], more[0]));
                assert forall|i: int| 0 <= i < after.len() implies well_keyed(
                    #[trigger] after[i],
                ) by {
                    if i != 0 {
                        assert(after[i] == items[i]);
                    }
                }
            }
        },
        _ => {},
    }
}

/// The members of an object stay well keyed under the members of a
/// fragment.
pub proof fn lemma_merged_members_well_keyed(members: Members, more: Members, count: nat)
    requires
        well_keyed_members(members),
        well_keyed_members(more),
    ensures
        well_keyed_members(merged_members(members, more, count)),
    decreases more, count,
{
    if count > 0 && count <= more.len() {
        lemma_merged_members_well_keyed(members, more, (count - 1) as nat);
        lemma_merge_entry_well_keyed(
            merged_members(members, more, (count - 1) as nat),
            more[count - 1].0,
            more[count - 1].1,
        );
    }
}

/// The members of an object stay well keyed under one member of a
/// fragment.
pub proof fn lemma_merge_entry_well_keyed(members: Members, key: Seq<char>, value: JsonModel)
    requires
        well_keyed_members(members),
        well_keyed(value),
    ensures
        well_keyed_members(merge_entry(members, key, value)),
    decreases value, 1nat,
{
    lemma_lookup_well_keyed(members, key);
    if key == "content"@ {
        match (lookup(members, key), value) {
            (Some(JsonModel::Str(text)), JsonModel::Str(more)) => {
                lemma_upsert_well_keyed(members, key, JsonModel::Str(text + more));
            },
            _ => {},
        }
    } else if key == "tool_calls"@ {
        match (lookup(members, key), value) {
            (Some(JsonModel::Array(calls)), JsonModel::Array(more)) => {
                lemma_merged_tool_calls_well_keyed(calls, more, more.len());
                lemma_upsert_well_keyed(
                    members,
                    key,
                    JsonModel::Array(merged_tool_calls(calls, more, more.len())),
                );
            },
            _ => {
                lemma_upsert_well_keyed(members, key, value);
            },
        }
    } else {
        let current = match lookup(members, key) {
            Some(held) => held,
            None => JsonModel::Null,
        };
        lemma_merged_well_keyed(current, value);
        lemma_upsert_well_keyed(members, key, merged(current, value));
    }
}

/// Binding a key keeps the keys distinct.
pub proof fn lemma_upsert_keeps_distinct_keys(members: Members, key: Seq<char>, value: JsonModel)
    requires
        distinct_keys(members),
    ensures
        distinct_keys(upsert(members, key, value)),
{
    lemma_find_key_bounds(members, key);
    let after = upsert(members, key, value);
    assert forall|i: int, j: int| 0 <= i < j < after.len() implies after[i].0 != after[j].0 by {
        if i < members.len() {
            assert(after[i].0 == members[i].0);
        }
        if j < members.len() {
            assert(after[j].0 == members[j].0);
        }
    }
}

/// The keys of a merged object differ from one another where those of the
/// accumulator do, whatever the fragment holds.
pub proof fn lemma_merged_keeps_distinct_keys(members: Members, more: Members, count: nat)
    requires
        distinct_keys(members),
    ensures
        distinct_keys(merged_members(members, more, count)),
    decreases count,
{
    if count > 0 && count <= more.len() {
        lemma_merged_keeps_distinct_keys(members, more, (count - 1) as nat);
        let before = merged_members(members, more, (count - 1) as nat);
        let key = more[count - 1].0;
        let value = more[count - 1].1;
        if key == "content"@ {
            match (lookup(before, key), value) {
                (Some(JsonModel::Str(text)), JsonModel::Str(more_text)) => {
                    lemma_upsert_keeps_distinct_keys(before, key, JsonModel::Str(text + more_text));
                },
                _ => {},
            }
        } else if key == "tool_calls"@ {
            match (lookup(before, key), value) {
                (Some(JsonModel::Array(calls)), JsonModel::Array(fragments)) => {
                    lemma_upsert_keeps_distinct_keys(
                        before,
                        key,
                        JsonModel::Array(merged_tool_calls(calls, fragments, fragments.len())),
                    );
                },
                _ => {
                    lemma_upsert_keeps_distinct_keys(before, key, value);
                },
            }
        } else {
            let current = match lookup(before, key) {
                Some(held) => held,
                None => JsonModel::Null,
            };
            lemma_upsert_keeps_distinct_keys(before, key, merged(current, value));
        }
        assert(distinct_keys(merge_entry(before, key, value)));
        assert(merged_members(members, more, count) == merge_entry(before, key, value));
    }
}

/// A whole response in which no object holds a key twice, and which has
/// no `content` at its top, merged into an empty object is the response
/// itself.
pub proof fn lemma_well_keyed_into_empty(response: JsonModel)
    requires
        well_keyed(response),
        response.field("content"@).is_none(),
    ensures
        merged(empty_object(), response) == response,
        well_keyed(merged(empty_object(), response)),
{
    lemma_merge_into_empty(response);
}

} // verus!
