//! JSON text and bytes, read and printed by `serde_json`.

use vstd::prelude::*;

use crate::json::{Json, JsonNumber, JsonView, NumberView, entries_view, items_view, json_view, printable};
use crate::text::same_text;

verus! {

/// `serde_json`'s tree of a JSON document.
#[verifier::external_type_specification]
#[verifier::external_body]
pub struct ExValue(serde_json::Value);

/// What a `serde_json::Value` holds: a number as the integer that it is, or
/// else by the text that it prints as; the members of an object by their names,
/// without an order.
pub uninterp spec fn document(value: serde_json::Value) -> JsonView;

/// What `serde_json::from_str` reads out of a text as a `Value`; nothing where
/// it gives an error.
pub uninterp spec fn parsed_text(text: Seq<char>) -> Option<JsonView>;

/// What `serde_json::from_slice` reads out of bytes as a `Value`; nothing where
/// it gives an error.
pub uninterp spec fn parsed_bytes(bytes: Seq<u8>) -> Option<JsonView>;

/// The compact text that a `serde_json::Value` with these contents prints as.
pub uninterp spec fn printed(json: JsonView) -> Seq<char>;

/// The outermost layer of a `serde_json::Value` that is looked at.
enum Layer<'a> {
    Null,
    Bool(bool),
    Number(JsonNumber),
    String(&'a String),
    Array(&'a Vec<serde_json::Value>),
    Object(Vec<(&'a String, &'a serde_json::Value)>),
}

/// The outermost layer of a `serde_json::Value` that is to be built.
enum Node {
    Null,
    Bool(bool),
    Unsigned(u64),
    Negative(i64),
    String(String),
    Array(Vec<serde_json::Value>),
    Object(Vec<(String, serde_json::Value)>),
}

/// What a list of values holds, in its order.
spec fn documents(values: Seq<serde_json::Value>) -> Seq<JsonView> {
    Seq::new(values.len(), |i: int| document(values[i]))
}

/// The members that borrowed entries give.
spec fn borrowed_members<'a>(entries: Seq<(&'a String, &'a serde_json::Value)>) -> Map<
    Seq<char>,
    JsonView,
>
    decreases entries.len(),
{
    if entries.len() == 0 {
        Map::empty()
    } else {
        borrowed_members(entries.drop_last()).insert(entries.last().0@, document(*entries.last().1))
    }
}

/// The members that entries give.
spec fn owned_members(entries: Seq<(String, serde_json::Value)>) -> Map<Seq<char>, JsonView>
    decreases entries.len(),
{
    if entries.len() == 0 {
        Map::empty()
    } else {
        owned_members(entries.drop_last()).insert(entries.last().0@, document(entries.last().1))
    }
}

/// Whether no two entries of an object that is to be built have the same name.
spec fn owned_distinct(entries: Seq<(String, serde_json::Value)>) -> bool {
    forall|i: int, j: int|
        0 <= i < j < entries.len() ==> (#[trigger] entries[i]).0@ != (#[trigger] entries[j]).0@
}

/// Whether no two entries have the same name.
spec fn distinct_names<'a>(entries: Seq<(&'a String, &'a serde_json::Value)>) -> bool {
    forall|i: int, j: int|
        0 <= i < j < entries.len() ==> (#[trigger] entries[i]).0@ != (#[trigger] entries[j]).0@
}

/// The document of which a layer is the outermost.
spec fn layer_document<'a>(layer: Layer<'a>) -> JsonView {
    match layer {
        Layer::Null => JsonView::Null,
        Layer::Bool(b) => JsonView::Bool(b),
        Layer::Number(n) => JsonView::Number(n@),
        Layer::String(s) => JsonView::String(s@),
        Layer::Array(values) => JsonView::Array(documents(values@)),
        Layer::Object(entries) => JsonView::Object(borrowed_members(entries@)),
    }
}

/// The document of which a node is the outermost.
spec fn node_document(node: Node) -> JsonView {
    match node {
        Node::Null => JsonView::Null,
        Node::Bool(b) => JsonView::Bool(b),
        Node::Unsigned(n) => JsonView::Number(NumberView::Unsigned(n)),
        Node::Negative(n) => JsonView::Number(NumberView::Negative(n)),
        Node::String(s) => JsonView::String(s@),
        Node::Array(values) => JsonView::Array(documents(values@)),
        Node::Object(entries) => JsonView::Object(owned_members(entries@)),
    }
}

/// `serde_json::from_str` into a `Value`: it gives a value exactly where
/// `parsed_text` has a document for the text, and the value holds it.
#[verifier::external_body]
fn value_from_str(text: &str) -> (r: Option<serde_json::Value>)
    ensures
        match r {
            Some(value) => parsed_text(text@) == Some(document(value)),
            None => parsed_text(text@) is None,
        },
{
    serde_json::from_str(text).ok()
}

/// `serde_json::from_slice` into a `Value`: it gives a value exactly where
/// `parsed_bytes` has a document for the bytes, and the value holds it.
#[verifier::external_body]
fn value_from_slice(bytes: &[u8]) -> (r: Option<serde_json::Value>)
    ensures
        match r {
            Some(value) => parsed_bytes(bytes@) == Some(document(value)),
            None => parsed_bytes(bytes@) is None,
        },
{
    serde_json::from_slice(bytes).ok()
}

/// The `Display` of `serde_json::Value`: the text depends on what the value
/// holds alone, and is one line, for control characters inside strings are
/// escaped and nothing is put between the tokens.
#[verifier::external_body]
fn value_text(value: &serde_json::Value) -> (text: String)
    ensures
        text@ == printed(document(*value)),
        !text@.contains('\n'),
{
    value.to_string()
}

/// The variants of `serde_json::Value`, with `Number::as_u64`,
/// `Number::as_i64` and the text of a number, and `Map::iter`: the layer holds
/// what the value holds, and an object gives each of its names once.
#[verifier::external_body]
fn open_value<'a>(value: &'a serde_json::Value) -> (layer: Layer<'a>)
    ensures
        layer_document(layer) == document(*value),
        layer matches Layer::Object(entries) ==> distinct_names(entries@),
{
    match value {
        serde_json::Value::Null => Layer::Null,
        serde_json::Value::Bool(b) => Layer::Bool(*b),
        serde_json::Value::Number(n) => Layer::Number(match (n.as_u64(), n.as_i64()) {
            (Some(u), _) => JsonNumber::Unsigned(u),
            (None, Some(i)) => JsonNumber::Negative(i),
            (None, None) => JsonNumber::Float(n.to_string()),
        }),
        serde_json::Value::String(s) => Layer::String(s),
        serde_json::Value::Array(values) => Layer::Array(values),
        serde_json::Value::Object(map) => Layer::Object(map.iter().collect()),
    }
}

/// The variants of `serde_json::Value`, with its `From<u64>` and `From<i64>`,
/// and `Map::from_iter`: the value holds what the node stands for. The entries
/// of an object have different names, so that each of them counts.
#[verifier::external_body]
fn close_value(node: Node) -> (value: serde_json::Value)
    requires
        node matches Node::Negative(n) ==> n < 0,
        node matches Node::Object(entries) ==> owned_distinct(entries@),
    ensures
        document(value) == node_document(node),
{
    match node {
        Node::Null => serde_json::Value::Null,
        Node::Bool(b) => serde_json::Value::Bool(b),
        Node::Unsigned(n) => serde_json::Value::from(n),
        Node::Negative(n) => serde_json::Value::from(n),
        Node::String(s) => serde_json::Value::String(s),
        Node::Array(values) => serde_json::Value::Array(values),
        Node::Object(entries) => serde_json::Value::Object(entries.into_iter().collect()),
    }
}

/// A member of borrowed entries with distinct names is found under its name.
proof fn lemma_member_of_entries<'a>(entries: Seq<(&'a String, &'a serde_json::Value)>, i: int)
    requires
        distinct_names(entries),
        0 <= i < entries.len(),
    ensures
        borrowed_members(entries).dom().contains(entries[i].0@),
        borrowed_members(entries)[entries[i].0@] == document(*entries[i].1),
        borrowed_members(entries).dom().finite(),
    decreases entries.len(),
{
    let front = entries.drop_last();
    if i < front.len() {
        assert(distinct_names(front)) by {
            assert forall|a: int, b: int| 0 <= a < b < front.len() implies (#[trigger] front[a]).0@ != (
            #[trigger] front[b]).0@ by {
                assert(front[a] == entries[a] && front[b] == entries[b]);
            }
        }
        lemma_member_of_entries(front, i);
        assert(entries[i].0@ != entries[entries.len() - 1].0@);
    } else {
        lemma_members_finite(front);
    }
}

proof fn lemma_members_finite<'a>(entries: Seq<(&'a String, &'a serde_json::Value)>)
    ensures
        borrowed_members(entries).dom().finite(),
    decreases entries.len(),
{
    if entries.len() > 0 {
        lemma_members_finite(entries.drop_last());
    }
}

/// The library's own copy of a value.
fn json_of_value(value: &serde_json::Value) -> (json: Json)
    ensures
        json@ == document(*value),
    decreases document(*value),
{
    match open_value(value) {
        Layer::Null => Json::Null,
        Layer::Bool(b) => Json::Bool(b),
        Layer::Number(n) => Json::Number(n),
        Layer::String(s) => Json::String(s.clone()),
        Layer::Array(values) => {
            let mut items: Vec<Json> = Vec::new();
            let mut i: usize = 0;
            while i < values.len()
                invariant
                    i <= values@.len(),
                    items_view(items@) == documents(values@).take(i as int),
                    document(*value) == JsonView::Array(documents(values@)),
                decreases values@.len() - i,
            {
                proof {
                    assert(decreases_to!(document(*value) => document(*value)->Array_0));
                    assert(decreases_to!(document(*value)->Array_0 => document(*value)->Array_0[i as int]));
                }
                let ghost before = items@;
                items.push(json_of_value(&values[i]));
                i = i + 1;
                proof {
                    assert(items@.drop_last() == before);
                    assert(documents(values@).take(i as int) == documents(values@).take(i - 1).push(
                        documents(values@)[i - 1],
                    ));
                }
            }
            proof {
                assert(documents(values@).take(i as int) == documents(values@));
            }
            Json::Array(items)
        },
        Layer::Object(fields) => {
            let mut entries: Vec<(String, Json)> = Vec::new();
            let mut i: usize = 0;
            proof {
                assert(fields@.take(0).len() == 0);
            }
            while i < fields.len()
                invariant
                    i <= fields@.len(),
                    distinct_names(fields@),
                    entries_view(entries@) == borrowed_members(fields@.take(i as int)),
                    document(*value) == JsonView::Object(borrowed_members(fields@)),
                decreases fields@.len() - i,
            {
                proof {
                    lemma_member_of_entries(fields@, i as int);
                    let members = document(*value)->Object_0;
                    assert(decreases_to!(document(*value) => document(*value)->Object_0));
                    assert(decreases_to!(members => members[fields@[i as int].0@]));
                }
                let ghost before = entries@;
                entries.push((fields[i].0.clone(), json_of_value(fields[i].1)));
                i = i + 1;
                proof {
                    assert(entries@.drop_last() == before);
                    assert(fields@.take(i as int).drop_last() == fields@.take(i - 1));
                }
            }
            proof {
                assert(fields@.take(i as int) == fields@);
            }
            Json::Object(entries)
        },
    }
}

/// The names of the members are those of the entries.
proof fn lemma_members_have_names(entries: Seq<(String, serde_json::Value)>)
    ensures
        forall|key: Seq<char>| #[trigger]
            owned_members(entries).dom().contains(key) <==> exists|i: int|
                0 <= i < entries.len() && (#[trigger] entries[i]).0@ == key,
    decreases entries.len(),
{
    if entries.len() > 0 {
        let front = entries.drop_last();
        lemma_members_have_names(front);
        assert forall|key: Seq<char>| #[trigger] owned_members(entries).dom().contains(key) <==> exists|i: int|
            0 <= i < entries.len() && (#[trigger] entries[i]).0@ == key by {
            if owned_members(front).dom().contains(key) {
                let i = choose|i: int| 0 <= i < front.len() && (#[trigger] front[i]).0@ == key;
                assert(entries[i].0@ == key);
            }
            if key == entries.last().0@ {
                assert(entries[entries.len() - 1].0@ == key);
            }
            if exists|i: int| 0 <= i < entries.len() && (#[trigger] entries[i]).0@ == key {
                let i = choose|i: int| 0 <= i < entries.len() && (#[trigger] entries[i]).0@ == key;
                if i < front.len() {
                    assert(front[i].0@ == key);
                }
            }
        }
    }
}

/// An entry before others gives its member where none of them has its name, and
/// nothing where one has.
proof fn lemma_entry_before(entry: (String, Json), rest: Seq<(String, Json)>)
    ensures
        entries_view(seq![entry] + rest) == if entries_view(rest).dom().contains(entry.0@) {
            entries_view(rest)
        } else {
            entries_view(rest).insert(entry.0@, json_view(entry.1))
        },
    decreases rest.len(),
{
    let whole = seq![entry] + rest;
    if rest.len() == 0 {
        assert(whole.drop_last() == rest);
        assert(whole.last() == entry);
    } else {
        let front = rest.drop_last();
        lemma_entry_before(entry, front);
        assert(whole.drop_last() == seq![entry] + front);
        assert(whole.last() == rest.last());
        let expected = if entries_view(rest).dom().contains(entry.0@) {
            entries_view(rest)
        } else {
            entries_view(rest).insert(entry.0@, json_view(entry.1))
        };
        assert(entries_view(whole) =~= expected);
    }
}

/// Whether an entry has a name.
fn has_name(entries: &Vec<(String, serde_json::Value)>, name: &str) -> (r: bool)
    ensures
        r == exists|i: int| 0 <= i < entries@.len() && (#[trigger] entries@[i]).0@ == name@,
{
    let mut i: usize = 0;
    while i < entries.len()
        invariant
            i <= entries@.len(),
            forall|k: int| 0 <= k < i ==> (#[trigger] entries@[k]).0@ != name@,
        decreases entries@.len() - i,
    {
        if same_text(entries[i].0.as_str(), name) {
            return true;
        }
        i = i + 1;
    }
    false
}

/// The value that holds a document of the library's own. Of two entries of an
/// object with one name the later is taken.
fn value_of_json(json: &Json) -> (value: serde_json::Value)
    requires
        printable(*json),
    ensures
        document(value) == json@,
    decreases json,
{
    match json {
        Json::Null => close_value(Node::Null),
        Json::Bool(b) => close_value(Node::Bool(*b)),
        Json::Number(JsonNumber::Unsigned(n)) => close_value(Node::Unsigned(*n)),
        Json::Number(JsonNumber::Negative(n)) => close_value(Node::Negative(*n)),
        Json::Number(JsonNumber::Float(_)) => close_value(Node::Null),
        Json::String(s) => close_value(Node::String(s.clone())),
        Json::Array(items) => {
            let mut values: Vec<serde_json::Value> = Vec::new();
            let mut i: usize = 0;
            proof {
                assert(items@.take(0) == Seq::<Json>::empty());
            }
            while i < items.len()
                invariant
                    i <= items@.len(),
                    *json == Json::Array(*items),
                    printable(*json),
                    values@.len() == i,
                    documents(values@) == items_view(items@.take(i as int)),
                decreases items@.len() - i,
            {
                proof {
                    assert(decreases_to!(*json => json->Array_0));
                    assert(decreases_to!(items => items@));
                    assert(decreases_to!(items@ => items@[i as int]));
                }
                let ghost before = values@;
                values.push(value_of_json(&items[i]));
                i = i + 1;
                proof {
                    assert(documents(values@) == documents(before).push(document(values@[i - 1])));
                    assert(items@.take(i as int).drop_last() == items@.take(i - 1));
                }
            }
            proof {
                assert(items@.take(i as int) == items@);
            }
            close_value(Node::Array(values))
        },
        Json::Object(entries) => {
            let mut fields: Vec<(String, serde_json::Value)> = Vec::new();
            let mut i: usize = entries.len();
            proof {
                assert(entries@.skip(i as int) == Seq::<(String, Json)>::empty());
            }
            while i > 0
                invariant
                    i <= entries@.len(),
                    *json == Json::Object(*entries),
                    printable(*json),
                    owned_distinct(fields@),
                    owned_members(fields@) == entries_view(entries@.skip(i as int)),
                decreases i,
            {
                i = i - 1;
                let ghost rest = entries@.skip(i + 1);
                proof {
                    assert(decreases_to!(*json => json->Object_0));
                    assert(decreases_to!(entries => entries@));
                    assert(decreases_to!(entries@ => entries@[i as int]));
                    assert(decreases_to!(entries@[i as int] => entries@[i as int].1));
                    assert(entries@.skip(i as int) == seq![entries@[i as int]] + rest);
                    lemma_entry_before(entries@[i as int], rest);
                    lemma_members_have_names(fields@);
                }
                if !has_name(&fields, entries[i].0.as_str()) {
                    let ghost before = fields@;
                    fields.push((entries[i].0.clone(), value_of_json(&entries[i].1)));
                    proof {
                        assert(fields@.drop_last() == before);
                    }
                }
            }
            proof {
                assert(entries@.skip(0) == entries@);
            }
            close_value(Node::Object(fields))
        },
    }
}

/// Reads the document that bytes hold. Bytes that hold none read as null.
pub fn read_bytes(bytes: &[u8]) -> (json: Json)
    ensures
        json@ == parsed_bytes(bytes@).unwrap_or(JsonView::Null),
{
    match value_from_slice(bytes) {
        Some(value) => json_of_value(&value),
        None => Json::Null,
    }
}

/// Reads the document that a text holds, with the printed text of its member
/// `key`, where it has one.
pub fn read_text_with_member(text: &str, key: &str) -> (r: Option<(Json, Option<String>)>)
    ensures
        match r {
            Some((json, member)) => {
                &&& parsed_text(text@) == Some(json@)
                &&& member.deep_view() == match json@.get(key@) {
                    Some(found) => Some(printed(found)),
                    None => None,
                }
            },
            None => parsed_text(text@) is None,
        },
{
    match value_from_str(text) {
        Some(value) => {
            let member: Option<String> = member_text(&value, key);
            Some((json_of_value(&value), member))
        },
        None => None,
    }
}

/// The printed text of the member `key` of a value, where it has one.
fn member_text(value: &serde_json::Value, key: &str) -> (r: Option<String>)
    ensures
        r.deep_view() == match document(*value).get(key@) {
            Some(found) => Some(printed(found)),
            None => None,
        },
{
    match open_value(value) {
        Layer::Object(fields) => {
            let mut i: usize = fields.len();
            proof {
                assert(fields@.take(i as int) == fields@);
            }
            while i > 0
                invariant
                    i <= fields@.len(),
                    document(*value) == JsonView::Object(borrowed_members(fields@)),
                    document(*value).get(key@) == JsonView::Object(
                        borrowed_members(fields@.take(i as int)),
                    ).get(key@),
                decreases i,
            {
                i = i - 1;
                proof {
                    assert(fields@.take(i + 1).drop_last() == fields@.take(i as int));
                }
                if same_text(fields[i].0.as_str(), key) {
                    return Some(value_text(fields[i].1));
                }
            }
            None
        },
        _ => None,
    }
}

/// Prints a document as compact JSON text.
pub(crate) fn print(json: &Json) -> (text: String)
    requires
        printable(*json),
    ensures
        text@ == printed(json@),
        !text@.contains('\n'),
{
    let value: serde_json::Value = value_of_json(json);
    value_text(&value)
}

} // verus!
