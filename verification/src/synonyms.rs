//! Reduction of a thesaurus document to a flat list of synonyms.
//!
//! The document is expected to be a non-empty array of entries, each an
//! object whose `meta` field is an object. The `syns` field of the first
//! entry's metadata holds the synonym groups: an array of arrays of strings.
//! Any node that departs from this shape invalidates the whole answer.

use crate::json::{models, JsonNode, JsonObject, JsonValue};
use crate::reason::Reason;
use vstd::prelude::*;

verus! {

/// An entry: an object whose `meta` field is itself an object.
pub open spec fn is_entry(entry: JsonValue) -> bool {
    &&& entry matches JsonValue::Object(fields)
    &&& fields.contains_key("meta"@)
    &&& fields["meta"@] is Object
}

/// The metadata of an entry.
pub open spec fn entry_meta(entry: JsonValue) -> Map<Seq<char>, JsonValue>
    recommends
        is_entry(entry),
{
    entry->Object_0["meta"@]->Object_0
}

/// A payload: a non-empty array of entries.
pub open spec fn is_payload(payload: JsonValue) -> bool {
    &&& payload matches JsonValue::Array(entries)
    &&& entries.len() > 0
    &&& forall|i: int| 0 <= i < entries.len() ==> is_entry(#[trigger] entries[i])
}

/// A synonym group: an array of strings.
pub open spec fn is_group(group: JsonValue) -> bool {
    &&& group matches JsonValue::Array(words)
    &&& forall|j: int| 0 <= j < words.len() ==> #[trigger] words[j] is Text
}

/// The strings of a synonym group, in order.
pub open spec fn group_words(group: JsonValue) -> Seq<Seq<char>>
    recommends
        is_group(group),
{
    Seq::new(group->Array_0.len(), |j: int| group->Array_0[j]->Text_0)
}

/// A list of synonym groups: an array of arrays of strings.
pub open spec fn is_group_list(syns: JsonValue) -> bool {
    &&& syns matches JsonValue::Array(groups)
    &&& forall|i: int| 0 <= i < groups.len() ==> is_group(#[trigger] groups[i])
}

/// The word lists of a run of groups, one list per group.
pub open spec fn word_lists(groups: Seq<JsonValue>) -> Seq<Seq<Seq<char>>> {
    Seq::new(groups.len(), |i: int| group_words(groups[i]))
}

/// All strings of a list of synonym groups, in the order they occur.
pub open spec fn flattened(syns: JsonValue) -> Seq<Seq<char>>
    recommends
        is_group_list(syns),
{
    word_lists(syns->Array_0).flatten()
}

/// Number of strings in the first `count` groups.
pub open spec fn words_before(groups: Seq<JsonValue>, count: int) -> int
    decreases count,
{
    if count <= 0 {
        0
    } else {
        words_before(groups, count - 1) + group_words(groups[count - 1]).len()
    }
}

/// The strings of the first `count` groups, flattened, are as many as the
/// groups hold, and each stands behind all strings of the groups before it.
proof fn lemma_prefix_flattened(groups: Seq<JsonValue>, count: int)
    requires
        0 <= count <= groups.len(),
    ensures
        word_lists(groups).take(count).flatten().len() == words_before(groups, count),
        forall|i: int|
            0 <= i < count ==> 0 <= #[trigger] words_before(groups, i) && words_before(groups, i)
                + group_words(groups[i]).len() <= words_before(groups, count),
        forall|i: int, j: int|
            0 <= i < count && 0 <= j < group_words(groups[i]).len() ==> word_lists(groups).take(
                count,
            ).flatten()[words_before(groups, i) + j] == #[trigger] group_words(groups[i])[j],
    decreases count,
{
    let lists = word_lists(groups);
    if count == 0 {
        assert(lists.take(0).flatten() =~= Seq::<Seq<char>>::empty());
    } else {
        lemma_prefix_flattened(groups, count - 1);
        assert(lists.take(count) =~= lists.take(count - 1).push(lists[count - 1]));
        lists.take(count - 1).lemma_flatten_push(lists[count - 1]);
        let shorter = lists.take(count - 1).flatten();
        let whole = lists.take(count).flatten();
        assert(whole =~= shorter + lists[count - 1]);
        assert forall|i: int, j: int|
            0 <= i < count && 0 <= j < group_words(groups[i]).len() implies whole[words_before(
            groups,
            i,
        ) + j] == #[trigger] group_words(groups[i])[j] by {
            if i < count - 1 {
                assert(0 <= words_before(groups, i));
                assert(shorter[words_before(groups, i) + j] == group_words(groups[i])[j]);
            } else {
                assert(whole[shorter.len() + j] == lists[count - 1][j]);
            }
        }
    }
}

/// Flattening keeps every string and the order of the document: string `j`
/// of group `i` stands behind all strings of the groups before `i` and
/// behind the `j` strings before it in its own group, and nothing else is
/// in the result.
pub proof fn flattened_keeps_order(syns: JsonValue, i: int, j: int)
    requires
        is_group_list(syns),
        0 <= i < syns->Array_0.len(),
        0 <= j < syns->Array_0[i]->Array_0.len(),
    ensures
        flattened(syns).len() == words_before(syns->Array_0, syns->Array_0.len() as int),
        0 <= words_before(syns->Array_0, i) + j < flattened(syns).len(),
        flattened(syns)[words_before(syns->Array_0, i) + j] == syns->Array_0[i]->Array_0[j]->Text_0,
{
    let groups = syns->Array_0;
    lemma_prefix_flattened(groups, groups.len() as int);
    assert(word_lists(groups).take(groups.len() as int) =~= word_lists(groups));
    assert(0 <= words_before(groups, i));
    assert(group_words(groups[i])[j] == groups[i]->Array_0[j]->Text_0);
}

/// What a list of synonym groups reduces to.
pub open spec fn flattened_groups(syns: JsonValue) -> Result<Seq<Seq<char>>, Reason> {
    if is_group_list(syns) {
        Ok(flattened(syns))
    } else {
        Err(Reason::UnexpectedShape)
    }
}

/// One node out of place spoils the whole list: if a group is no array, or
/// one of its items is no string, the list is no list of synonym groups.
pub proof fn one_stray_node_spoils_the_list(syns: JsonValue, i: int, j: int)
    requires
        syns is Array,
        0 <= i < syns->Array_0.len(),
        !(syns->Array_0[i] is Array) || (0 <= j < syns->Array_0[i]->Array_0.len()
            && !(syns->Array_0[i]->Array_0[j] is Text)),
    ensures
        !is_group_list(syns),
        flattened_groups(syns) == Err::<Seq<Seq<char>>, Reason>(Reason::UnexpectedShape),
{
    assert(!is_group(syns->Array_0[i]));
}

/// What a thesaurus document reduces to: its synonyms, or the first reason
/// it departs from the expected shape.
pub open spec fn normalized(payload: JsonValue) -> Result<Seq<Seq<char>>, Reason> {
    if !is_payload(payload) {
        Err(Reason::MalformedPayload)
    } else {
        let meta = entry_meta(payload->Array_0[0]);
        if !meta.contains_key("syns"@) {
            Err(Reason::MissingSynonymsField)
        } else {
            flattened_groups(meta["syns"@])
        }
    }
}

/// A document whose shape is the expected one, down to every string.
pub open spec fn is_well_formed(payload: JsonValue) -> bool {
    &&& is_payload(payload)
    &&& entry_meta(payload->Array_0[0]).contains_key("syns"@)
    &&& is_group_list(entry_meta(payload->Array_0[0])["syns"@])
}

/// A document reduces to synonyms exactly when it is well formed, and then
/// to all strings of the synonym groups of its first entry, as many as the
/// groups hold.
pub proof fn well_formed_documents_reduce(payload: JsonValue)
    ensures
        normalized(payload) is Ok <==> is_well_formed(payload),
        is_well_formed(payload) ==> {
            let syns = entry_meta(payload->Array_0[0])["syns"@];
            &&& normalized(payload) == Ok::<Seq<Seq<char>>, Reason>(flattened(syns))
            &&& flattened(syns).len() == words_before(syns->Array_0, syns->Array_0.len() as int)
        },
{
    if is_well_formed(payload) {
        let groups = entry_meta(payload->Array_0[0])["syns"@]->Array_0;
        lemma_prefix_flattened(groups, groups.len() as int);
        assert(word_lists(groups).take(groups.len() as int) =~= word_lists(groups));
    }
}

/// A result of the reduction, with its words taken as sequences of characters.
pub open spec fn words_model(result: Result<Vec<String>, Reason>) -> Result<
    Seq<Seq<char>>,
    Reason,
> {
    match result {
        Ok(words) => Ok(words.deep_view()),
        Err(reason) => Err(reason),
    }
}

/// The metadata of `entry`, if it has the shape of an entry.
fn metadata(entry: &JsonNode) -> (meta: Option<&JsonObject>)
    ensures
        meta is Some <==> is_entry(entry@),
        meta matches Some(object) ==> object@ == entry_meta(entry@),
{
    let fields = match entry.as_object() {
        Some(fields) => fields,
        None => {
            return None;
        },
    };
    match fields.get("meta") {
        Some(node) => node.as_object(),
        None => None,
    }
}

/// Appends the strings of `group` to `words`. Fails on the first item that
/// is not a string; `words` then holds nothing the caller may use.
fn collect_group(group: &JsonNode, words: &mut Vec<String>) -> (outcome: Result<(), Reason>)
    ensures
        outcome is Ok <==> is_group(group@),
        outcome is Ok ==> final(words).deep_view() == old(words).deep_view() + group_words(
            group@,
        ),
        outcome matches Err(reason) ==> reason == Reason::UnexpectedShape,
{
    let items = match group.as_array() {
        Some(items) => items,
        None => {
            return Err(Reason::UnexpectedShape);
        },
    };
    let mut j: usize = 0;
    while j < items.len()
        invariant
            group@ == JsonValue::Array(models(items@)),
            j <= items@.len(),
            forall|k: int| 0 <= k < j ==> #[trigger] items@[k]@ is Text,
            words.deep_view() == old(words).deep_view() + group_words(group@).take(j as int),
        decreases items@.len() - j,
    {
        match items[j].as_str() {
            Some(text) => {
                let ghost before = words.deep_view();
                words.push(text.to_owned());
                assert(words.deep_view() =~= before.push(text@));
                assert(group_words(group@).take(j + 1) =~= group_words(group@).take(j as int).push(
                    text@,
                ));
            },
            None => {
                assert(!(models(items@)[j as int] is Text));
                return Err(Reason::UnexpectedShape);
            },
        }
        j += 1;
    }
    assert(group_words(group@).take(j as int) =~= group_words(group@));
    assert forall|k: int| 0 <= k < models(items@).len() implies #[trigger] models(
        items@,
    )[k] is Text by {
        assert(items@[k]@ is Text);
    }
    Ok(())
}

/// Reduces a list of synonym groups to its strings, in the order they occur.
/// Fails, with nothing extracted, unless `syns` is an array of arrays of
/// strings.
pub fn flatten_groups(syns: &JsonNode) -> (result: Result<Vec<String>, Reason>)
    ensures
        words_model(result) == flattened_groups(syns@),
{
    let groups = match syns.as_array() {
        Some(groups) => groups,
        None => {
            return Err(Reason::UnexpectedShape);
        },
    };
    let mut words: Vec<String> = Vec::new();
    let mut i: usize = 0;
    assert(words.deep_view() =~= word_lists(models(groups@)).take(0).flatten());
    while i < groups.len()
        invariant
            syns@ == JsonValue::Array(models(groups@)),
            i <= groups@.len(),
            forall|k: int| 0 <= k < i ==> is_group(#[trigger] models(groups@)[k]),
            words.deep_view() == word_lists(models(groups@)).take(i as int).flatten(),
        decreases groups@.len() - i,
    {
        let ghost lists = word_lists(models(groups@));
        match collect_group(&groups[i], &mut words) {
            Ok(()) => {
                proof {
                    assert(lists.take(i + 1) =~= lists.take(i as int).push(lists[i as int]));
                    lists.take(i as int).lemma_flatten_push(lists[i as int]);
                }
            },
            Err(reason) => {
                assert(!is_group(models(groups@)[i as int]));
                return Err(reason);
            },
        }
        i += 1;
    }
    assert(word_lists(models(groups@)).take(i as int) =~= word_lists(models(groups@)));
    Ok(words)
}

/// Tells whether every node of `entries` has the shape of an entry.
fn all_entries(entries: &Vec<JsonNode>) -> (all: bool)
    ensures
        all == forall|k: int| 0 <= k < entries@.len() ==> is_entry(#[trigger] models(entries@)[k]),
{
    let mut i: usize = 0;
    while i < entries.len()
        invariant
            i <= entries@.len(),
            forall|k: int| 0 <= k < i ==> is_entry(#[trigger] models(entries@)[k]),
        decreases entries@.len() - i,
    {
        if metadata(&entries[i]).is_none() {
            assert(!is_entry(models(entries@)[i as int]));
            return false;
        }
        i += 1;
    }
    true
}

/// Reduces a thesaurus document to the synonyms of its first entry.
///
/// Succeeds exactly on a non-empty array of entries whose first entry's
/// metadata has a `syns` field that is an array of arrays of strings, and
/// then returns every string of that field in the order it occurs. On any
/// other document it fails with the first departure from that shape and
/// returns no strings at all.
pub fn normalize_synonyms(payload: &JsonNode) -> (result: Result<Vec<String>, Reason>)
    ensures
        words_model(result) == normalized(payload@),
{
    let entries = match payload.as_array() {
        Some(entries) => entries,
        None => {
            return Err(Reason::MalformedPayload);
        },
    };
    if entries.len() == 0 || !all_entries(entries) {
        return Err(Reason::MalformedPayload);
    }
    assert(is_entry(models(entries@)[0]));
    let meta = match metadata(&entries[0]) {
        Some(meta) => meta,
        None => {
            return Err(Reason::MalformedPayload);
        },
    };
    match meta.get("syns") {
        Some(syns) => flatten_groups(syns),
        None => Err(Reason::MissingSynonymsField),
    }
}

/// Normalizing is a function of the document alone: whatever two runs on
/// documents with the same content return, the two results are the same.
pub proof fn normalization_is_repeatable(
    first: JsonNode,
    second: JsonNode,
    first_result: Result<Vec<String>, Reason>,
    second_result: Result<Vec<String>, Reason>,
)
    requires
        first@ == second@,
        words_model(first_result) == normalized(first@),
        words_model(second_result) == normalized(second@),
    ensures
        words_model(first_result) == words_model(second_result),
        first_result is Ok <==> second_result is Ok,
        first_result matches Ok(words) ==> words.deep_view() == second_result->Ok_0.deep_view(),
        first_result matches Err(reason) ==> second_result == Err::<Vec<String>, Reason>(reason),
{
}

} // verus!
