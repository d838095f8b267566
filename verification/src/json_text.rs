//! JSON as text: `serde_json` reads and writes it, and its values are turned
//! into those of this crate and back.

use vstd::prelude::*;

use crate::json::{
    copy_number, entry_views, entry_views_push, item_views, item_views_push, key_index,
    number_signed, number_unsigned, number_view, put_all, Json, JsonView,
};
use crate::text::{decimal_int, decimal_int_text, decimal_text, take_all, take_step};

verus! {

/// `serde_json::Value`, the tree that `serde_json` reads into and writes from.
#[verifier::external_type_specification]
#[verifier::external_body]
pub struct ExValue(serde_json::Value);

/// `serde_json::Error`, with which `serde_json` says why a text is no JSON.
#[verifier::external_type_specification]
#[verifier::external_body]
pub struct ExError(serde_json::Error);

/// Why a text is no JSON.
#[derive(Debug, PartialEq, Eq)]
pub struct InvalidJson {
    pub message: String,
}

/// The JSON value that a `serde_json::Value` holds.
pub uninterp spec fn value_json(value: serde_json::Value) -> JsonView;

/// What `serde_json::from_str` reads from a text: a JSON value, or why the text is none.
pub uninterp spec fn parsed_json(text: Seq<char>) -> Result<JsonView, Seq<char>>;

/// What the `Display` of a `serde_json::Error` writes.
pub uninterp spec fn syntax_error_text(error: serde_json::Error) -> Seq<char>;

/// The text that `serde_json::to_string` writes for a JSON value.
pub uninterp spec fn json_text(value: JsonView) -> Seq<char>;

/// What some values hold.
pub open spec fn values_json(values: Seq<serde_json::Value>) -> Seq<JsonView> {
    Seq::new(values.len(), |i: int| value_json(values[i]))
}

/// What some keyed values hold.
pub open spec fn entries_json(entries: Seq<(String, serde_json::Value)>) -> Seq<
    (Seq<char>, JsonView),
> {
    Seq::new(entries.len(), |i: int| (entries[i].0@, value_json(entries[i].1)))
}

/// The top of a `serde_json::Value`, with what is below it.
pub enum Layer {
    Null,
    Bool(bool),
    Number(serde_json::Number),
    Text(String),
    Array(Vec<serde_json::Value>),
    Object(Vec<(String, serde_json::Value)>),
}

/// The JSON value that a layer and what is below it hold.
pub open spec fn layer_json(layer: Layer) -> JsonView {
    match layer {
        Layer::Null => JsonView::Null,
        Layer::Bool(b) => JsonView::Bool(b),
        Layer::Number(n) => number_view(n),
        Layer::Text(s) => JsonView::Text(s@),
        Layer::Array(items) => JsonView::Array(values_json(items@)),
        Layer::Object(entries) => JsonView::Object(entries_json(entries@)),
    }
}

/// Calls `serde_json::from_str` for a `serde_json::Value`. It reads a value or
/// says why the text is no JSON; which of the two, the value, and what the error
/// writes, depend on the text alone. An object is read into a `serde_json::Map`, which has each key once.
#[verifier::external_body]
fn parse_value(text: &str) -> (value: Result<serde_json::Value, serde_json::Error>)
    ensures
        match value {
            Ok(value) => parsed_json(text@) == Ok::<JsonView, Seq<char>>(value_json(value)) && tidy(
                value_json(value),
            ),
            Err(error) => parsed_json(text@) == Err::<JsonView, Seq<char>>(
                syntax_error_text(error),
            ),
        },
{
    serde_json::from_str(text)
}

/// Calls `to_string` of `serde_json::Error`: what its `Display` writes.
#[verifier::external_body]
fn error_text(error: &serde_json::Error) -> (text: String)
    ensures
        text@ == syntax_error_text(*error),
{
    error.to_string()
}

/// The key by which `serde_json` tells a raw value from an object.
pub const RAW_VALUE_KEY: &'static str = "$serde_json::private::RawValue";

/// That a value is made of integers, texts and the like, with arrays and objects nested
/// in at most some levels, and that no object in it begins with the key of a raw value.
pub open spec fn plain(value: JsonView, levels: int) -> bool
    decreases value,
{
    match value {
        JsonView::Float(_) => false,
        JsonView::Array(items) => levels > 0 && forall|i: int|
            0 <= i < items.len() ==> plain(#[trigger] items[i], levels - 1),
        JsonView::Object(entries) => {
            &&& levels > 0
            &&& entries.len() > 0 ==> entries[0].0 != RAW_VALUE_KEY@
            &&& forall|i: int|
                0 <= i < entries.len() ==> plain((#[trigger] entries[i]).1, levels - 1)
        },
        _ => true,
    }
}

/// Calls `serde_json::to_string` for a `serde_json::Value`, which fails only for
/// a map with a key that is no string or a `Serialize` that fails; a `Value` has
/// neither. The text depends on what the value holds alone. `serde_json::from_str`
/// reads the value back from it, where the value is within the 127 levels that it
/// reads; nothing is said of values with a float in them, which it may read back with
/// another last digit, nor of those with an object that begins with the key of a raw
/// value, which it may read as what stands under that key.
#[verifier::external_body]
fn value_text(value: &serde_json::Value) -> (text: Result<String, serde_json::Error>)
    ensures
        match text {
            Ok(text) => {
                &&& text@ == json_text(value_json(*value))
                &&& plain(value_json(*value), 127) ==> parsed_json(text@) == Ok::<
                    JsonView,
                    Seq<char>,
                >(value_json(*value))
            },
            Err(_) => false,
        },
{
    serde_json::to_string(value)
}

/// Takes a `serde_json::Value` apart: its variant, with the fields of that
/// variant; of the `serde_json::Map` of an object the entries in its order.
#[verifier::external_body]
fn unfold(value: serde_json::Value) -> (layer: Layer)
    ensures
        layer_json(layer) == value_json(value),
{
    match value {
        serde_json::Value::Null => Layer::Null,
        serde_json::Value::Bool(b) => Layer::Bool(b),
        serde_json::Value::Number(n) => Layer::Number(n),
        serde_json::Value::String(s) => Layer::Text(s),
        serde_json::Value::Array(items) => Layer::Array(items),
        serde_json::Value::Object(map) => Layer::Object(map.into_iter().collect()),
    }
}

/// Makes a `serde_json::Value` of a variant and its fields. The entries of an
/// object are collected into a `serde_json::Map`, which puts them in one after
/// the other and keeps the place of a key that comes again.
#[verifier::external_body]
fn fold(layer: Layer) -> (value: serde_json::Value)
    ensures
        value_json(value) == match layer {
            Layer::Object(entries) => JsonView::Object(put_all(entries_json(entries@))),
            _ => layer_json(layer),
        },
{
    match layer {
        Layer::Null => serde_json::Value::Null,
        Layer::Bool(b) => serde_json::Value::Bool(b),
        Layer::Number(n) => serde_json::Value::Number(n),
        Layer::Text(s) => serde_json::Value::String(s),
        Layer::Array(items) => serde_json::Value::Array(items),
        Layer::Object(entries) => serde_json::Value::Object(entries.into_iter().collect()),
    }
}

/// Calls `serde_json::Number::from` for a `u64`: the number is that integer.
#[verifier::external_body]
fn unsigned_number(n: u64) -> (number: serde_json::Number)
    ensures
        number_unsigned(number) == Some(n),
{
    serde_json::Number::from(n)
}

/// Calls `serde_json::Number::from` for an `i64`: the number is that integer.
#[verifier::external_body]
fn signed_number(n: i64) -> (number: serde_json::Number)
    ensures
        number_unsigned(number) == (if n >= 0 {
            Some(n as u64)
        } else {
            None
        }),
        number_signed(number) == Some(n),
{
    serde_json::Number::from(n)
}

/// The value as it is written: an object has each key once, at its first place,
/// with its last value.
pub open spec fn settled(value: JsonView) -> JsonView
    decreases value,
{
    match value {
        JsonView::Array(items) => JsonView::Array(
            Seq::new(
                items.len(),
                |i: int|
                    if 0 <= i < items.len() {
                        settled(items[i])
                    } else {
                        JsonView::Null
                    },
            ),
        ),
        JsonView::Object(entries) => JsonView::Object(put_all(settled_entries(entries))),
        _ => value,
    }
}

/// The entries, with each value as it is written.
pub open spec fn settled_entries(entries: Seq<(Seq<char>, JsonView)>) -> Seq<(Seq<char>, JsonView)>
    decreases entries,
{
    Seq::new(
        entries.len(),
        |i: int|
            if 0 <= i < entries.len() {
                (entries[i].0, settled(entries[i].1))
            } else {
                (Seq::<char>::empty(), JsonView::Null)
            },
    )
}

/// That no object in a value has a key twice.
pub open spec fn tidy(value: JsonView) -> bool
    decreases value,
{
    match value {
        JsonView::Array(items) => forall|i: int|
            0 <= i < items.len() ==> tidy(#[trigger] items[i]),
        JsonView::Object(entries) => {
            &&& forall|i: int, j: int|
                0 <= i < j < entries.len() ==> (#[trigger] entries[i]).0 != (
                #[trigger] entries[j]).0
            &&& forall|i: int| 0 <= i < entries.len() ==> tidy((#[trigger] entries[i]).1)
        },
        _ => true,
    }
}

/// A key that no entry has stands nowhere.
proof fn absent_key_has_no_index<A>(entries: Seq<(Seq<char>, A)>, key: Seq<char>)
    requires
        forall|i: int| 0 <= i < entries.len() ==> (#[trigger] entries[i]).0 != key,
    ensures
        key_index(entries, key) is None,
    decreases entries.len(),
{
    if entries.len() > 0 {
        assert(entries.last() == entries[entries.len() - 1]);
        absent_key_has_no_index(entries.drop_last(), key);
    }
}

/// Entries with distinct keys are put in as they stand.
proof fn distinct_entries_are_put_in_as_they_are<A>(entries: Seq<(Seq<char>, A)>)
    requires
        forall|i: int, j: int|
            0 <= i < j < entries.len() ==> (#[trigger] entries[i]).0 != (#[trigger] entries[j]).0,
    ensures
        put_all(entries) == entries,
    decreases entries.len(),
{
    if entries.len() > 0 {
        let init = entries.drop_last();
        distinct_entries_are_put_in_as_they_are(init);
        assert forall|i: int| 0 <= i < init.len() implies (#[trigger] init[i]).0
            != entries.last().0 by {
            assert(entries[i].0 != entries[entries.len() - 1].0);
        }
        absent_key_has_no_index(init, entries.last().0);
        assert(init.push(entries.last()) =~= entries);
    } else {
        assert(put_all(entries) =~= entries);
    }
}

/// A value in which no object has a key twice is written as it is.
pub proof fn tidy_values_are_written_as_they_are(value: JsonView)
    requires
        tidy(value),
    ensures
        settled(value) == value,
    decreases value,
{
    match value {
        JsonView::Array(items) => {
            assert forall|i: int| 0 <= i < items.len() implies settled(#[trigger] items[i])
                == items[i] by {
                tidy_values_are_written_as_they_are(items[i]);
            }
            assert(settled(value)->Array_0 =~= items);
        },
        JsonView::Object(entries) => {
            assert forall|i: int| 0 <= i < entries.len() implies settled(
                (#[trigger] entries[i]).1,
            ) == entries[i].1 by {
                tidy_values_are_written_as_they_are(entries[i].1);
            }
            assert(settled_entries(entries) =~= entries);
            distinct_entries_are_put_in_as_they_are(entries);
        },
        _ => {},
    }
}

/// Turns a value of `serde_json` into one of this crate.
fn from_value(value: serde_json::Value) -> (json: Json)
    ensures
        json@ == value_json(value),
    decreases value_json(value),
{
    broadcast use {item_views_push, entry_views_push};

    let ghost view = value_json(value);
    match unfold(value) {
        Layer::Null => Json::Null,
        Layer::Bool(b) => Json::Bool(b),
        Layer::Number(n) => Json::number(n),
        Layer::Text(s) => Json::Text(s),
        Layer::Array(values) => {
            let ghost all = values_json(values@);
            let ghost whole = values@;
            let mut items: Vec<Json> = Vec::new();
            proof {
                take_all(all);
                assert(item_views(items@) =~= all.take(0));
            }
            for next in it: values.into_iter()
                invariant
                    it.seq() == whole,
                    all == values_json(whole),
                    view == JsonView::Array(all),
                    view == value_json(value),
                    item_views(items@) == all.take(it.index()),
            {
                proof {
                    take_step(all, it.index());
                    assert(decreases_to!(view => view->Array_0));
                    assert(decreases_to!(all => all[it.index()]));
                }
                items.push(from_value(next));
            }
            proof {
                take_all(all);
            }
            Json::Array(items)
        },
        Layer::Object(values) => {
            let ghost all = entries_json(values@);
            let ghost whole = values@;
            let mut entries: Vec<(String, Json)> = Vec::new();
            proof {
                take_all(all);
                assert(entry_views(entries@) =~= all.take(0));
            }
            for next in it: values.into_iter()
                invariant
                    it.seq() == whole,
                    all == entries_json(whole),
                    view == JsonView::Object(all),
                    view == value_json(value),
                    entry_views(entries@) == all.take(it.index()),
            {
                proof {
                    take_step(all, it.index());
                    assert(decreases_to!(view => view->Object_0));
                    assert(decreases_to!(all => all[it.index()]));
                    assert(decreases_to!(all[it.index()] => all[it.index()].1));
                }
                let (key, inner) = next;
                entries.push((key, from_value(inner)));
            }
            proof {
                take_all(all);
            }
            Json::Object(entries)
        },
    }
}

/// Turns a value of this crate into one of `serde_json`.
fn to_value(json: &Json) -> (value: serde_json::Value)
    ensures
        value_json(value) == settled(json@),
    decreases json,
{
    match json {
        Json::Null => fold(Layer::Null),
        Json::Bool(b) => fold(Layer::Bool(*b)),
        Json::UInt(n) => fold(Layer::Number(unsigned_number(*n))),
        Json::Int(n) => fold(Layer::Number(signed_number(*n))),
        Json::Float(n) => fold(Layer::Number(copy_number(n))),
        Json::Text(s) => fold(Layer::Text(s.clone())),
        Json::Array(items) => {
            let mut values: Vec<serde_json::Value> = Vec::new();
            let mut i: usize = 0;
            while i < items.len()
                invariant
                    i <= items@.len(),
                    *json == Json::Array(*items),
                    values@.len() == i,
                    forall|j: int|
                        0 <= j < i ==> value_json(#[trigger] values@[j]) == settled(
                            item_views(items@)[j],
                        ),
                decreases items@.len() - i,
            {
                proof {
                    assert(decreases_to!(*json => json->Array_0));
                    assert(decreases_to!(*items => items@));
                    assert(decreases_to!(items@ => items@[i as int]));
                    assert(item_views(items@)[i as int] == items@[i as int]@);
                }
                values.push(to_value(&items[i]));
                i = i + 1;
            }
            assert(JsonView::Array(values_json(values@)) == settled(json@)) by {
                assert(values_json(values@) =~= settled(json@)->Array_0);
            }
            fold(Layer::Array(values))
        },
        Json::Object(entries) => {
            let mut values: Vec<(String, serde_json::Value)> = Vec::new();
            let mut i: usize = 0;
            let ghost all = entry_views(entries@);
            while i < entries.len()
                invariant
                    i <= entries@.len(),
                    *json == Json::Object(*entries),
                    values@.len() == i,
                    all == entry_views(entries@),
                    forall|j: int|
                        0 <= j < i ==> (#[trigger] values@[j]).0@ == all[j].0 && value_json(
                            values@[j].1,
                        ) == settled(all[j].1),
                decreases entries@.len() - i,
            {
                proof {
                    assert(decreases_to!(*json => json->Object_0));
                    assert(decreases_to!(*entries => entries@));
                    assert(decreases_to!(entries@ => entries@[i as int]));
                    assert(decreases_to!(entries@[i as int] => entries@[i as int].1));
                }
                values.push((entries[i].0.clone(), to_value(&entries[i].1)));
                i = i + 1;
            }
            assert(entries_json(values@) =~= settled_entries(all));
            fold(Layer::Object(values))
        },
    }
}

/// Reads a JSON value from a text. No object in it has a key twice.
pub fn parse_json(text: &str) -> (json: Result<Json, InvalidJson>)
    ensures
        match json {
            Ok(json) => parsed_json(text@) == Ok::<JsonView, Seq<char>>(json@) && tidy(json@),
            Err(error) => parsed_json(text@) == Err::<JsonView, Seq<char>>(error.message@),
        },
{
    match parse_value(text) {
        Ok(value) => Ok(from_value(value)),
        Err(error) => Err(InvalidJson { message: error_text(&error) }),
    }
}

/// Writes a JSON value as text. A plain value reads back from it.
pub fn to_text(json: &Json) -> (text: String)
    ensures
        text@ == json_text(settled(json@)),
        plain(settled(json@), 127) ==> parsed_json(text@) == Ok::<JsonView, Seq<char>>(
            settled(json@),
        ),
{
    match value_text(&to_value(json)) {
        Ok(text) => text,
        Err(_) => String::new(),
    }
}

/// A value as it stands in a line of text: a text without quotes, any other
/// value as JSON.
pub open spec fn inline_text(value: JsonView) -> Seq<char> {
    match value {
        JsonView::Text(s) => s,
        JsonView::Bool(b) => if b {
            "true"@
        } else {
            "false"@
        },
        JsonView::Int(n) => decimal_int(n),
        JsonView::Null => "null"@,
        _ => json_text(settled(value)),
    }
}

/// Writes a value as it stands in a line of text.
pub fn value_to_inline_string(value: &Json) -> (text: String)
    ensures
        text@ == inline_text(value@),
{
    match value {
        Json::Text(s) => s.clone(),
        Json::Bool(b) => if *b {
            "true".to_owned()
        } else {
            "false".to_owned()
        },
        Json::Null => "null".to_owned(),
        Json::UInt(n) => decimal_text(*n),
        Json::Int(n) => decimal_int_text(*n),
        Json::Float(_) => match value.as_u64() {
            Some(n) => decimal_text(n),
            None => match value.as_i64() {
                Some(n) => decimal_int_text(n),
                None => to_text(value),
            },
        },
        _ => to_text(value),
    }
}

} // verus!
