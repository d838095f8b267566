//! JSON values as the library holds them, and how they are read and built.

use vstd::prelude::*;

use crate::text::{either, opt_text, push_line, same_text, take_all, take_step, texts};

verus! {

/// `serde_json::Number`, held where a number is neither a `u64` nor an `i64`.
#[verifier::external_type_specification]
#[verifier::external_body]
pub struct ExNumber(serde_json::Number);

/// A JSON value. The entries of an object stand in the order of the document.
#[derive(Debug, PartialEq)]
pub enum Json {
    Null,
    Bool(bool),
    UInt(u64),
    Int(i64),
    Float(serde_json::Number),
    Text(String),
    Array(Vec<Json>),
    Object(Vec<(String, Json)>),
}

/// What a JSON value says: texts are sequences of characters, and an integer is
/// a number whatever its width.
pub enum JsonView {
    Null,
    Bool(bool),
    Int(int),
    Float(serde_json::Number),
    Text(Seq<char>),
    Array(Seq<JsonView>),
    Object(Seq<(Seq<char>, JsonView)>),
}

/// What `serde_json::Number::as_u64` returns.
pub uninterp spec fn number_unsigned(n: serde_json::Number) -> Option<u64>;

/// What `serde_json::Number::as_i64` returns.
pub uninterp spec fn number_signed(n: serde_json::Number) -> Option<i64>;

/// What a number says: the integer that it is, or else the number itself.
pub open spec fn number_view(n: serde_json::Number) -> JsonView {
    match number_unsigned(n) {
        Some(u) => JsonView::Int(u as int),
        None => match number_signed(n) {
            Some(i) => JsonView::Int(i as int),
            None => JsonView::Float(n),
        },
    }
}

/// What a JSON value says.
pub open spec fn json_view(value: Json) -> JsonView
    decreases value,
{
    match value {
        Json::Null => JsonView::Null,
        Json::Bool(b) => JsonView::Bool(b),
        Json::UInt(n) => JsonView::Int(n as int),
        Json::Int(n) => JsonView::Int(n as int),
        Json::Float(n) => number_view(n),
        Json::Text(s) => JsonView::Text(s@),
        Json::Array(items) => JsonView::Array(item_views(items@)),
        Json::Object(entries) => JsonView::Object(entry_views(entries@)),
    }
}

/// What the items of an array say.
pub open spec fn item_views(items: Seq<Json>) -> Seq<JsonView>
    decreases items,
{
    Seq::new(
        items.len(),
        |i: int|
            if 0 <= i < items.len() {
                json_view(items[i])
            } else {
                JsonView::Null
            },
    )
}

/// What the entries of an object say.
pub open spec fn entry_views(entries: Seq<(String, Json)>) -> Seq<(Seq<char>, JsonView)>
    decreases entries,
{
    Seq::new(
        entries.len(),
        |i: int|
            if 0 <= i < entries.len() {
                (entries[i].0@, json_view(entries[i].1))
            } else {
                (Seq::<char>::empty(), JsonView::Null)
            },
    )
}

impl View for Json {
    type V = JsonView;

    open spec fn view(&self) -> JsonView {
        json_view(*self)
    }
}

/// What an optional value says.
pub open spec fn opt_view(value: Option<&Json>) -> Option<JsonView> {
    match value {
        Some(v) => Some(v@),
        None => None,
    }
}

/// What an optional owned value says.
pub open spec fn opt_json(value: Option<Json>) -> Option<JsonView> {
    match value {
        Some(v) => Some(v@),
        None => None,
    }
}

/// What some borrowed values say.
pub open spec fn ref_views(items: Seq<&Json>) -> Seq<JsonView> {
    Seq::new(items.len(), |i: int| items[i]@)
}

/// The text that an optional value is.
pub open spec fn text_in(value: Option<JsonView>) -> Option<Seq<char>> {
    match value {
        Some(v) => v.as_text(),
        None => None,
    }
}

/// The items of the array that an optional value is; none where it is no array.
pub open spec fn items_in(value: Option<JsonView>) -> Seq<JsonView> {
    match value {
        Some(v) => match v.as_array() {
            Some(items) => items,
            None => Seq::empty(),
        },
        None => Seq::empty(),
    }
}

/// The value, or null where there is none.
pub open spec fn or_null(value: Option<JsonView>) -> JsonView {
    match value {
        Some(v) => v,
        None => JsonView::Null,
    }
}

/// The text, or null where there is none.
pub open spec fn text_or_null(text: Option<Seq<char>>) -> JsonView {
    match text {
        Some(text) => JsonView::Text(text),
        None => JsonView::Null,
    }
}

pub broadcast proof fn item_views_push(items: Seq<Json>, item: Json)
    ensures
        #[trigger] item_views(items.push(item)) == item_views(items).push(item@),
{
    assert(item_views(items.push(item)) =~= item_views(items).push(item@));
}

pub broadcast proof fn entry_views_push(entries: Seq<(String, Json)>, entry: (String, Json))
    ensures
        #[trigger] entry_views(entries.push(entry)) == entry_views(entries).push(
            (entry.0@, entry.1@),
        ),
{
    assert(entry_views(entries.push(entry)) =~= entry_views(entries).push((entry.0@, entry.1@)));
}

/// The entries of an empty object.
pub open spec fn fields() -> Seq<(Seq<char>, JsonView)> {
    Seq::empty()
}

/// The value of the last entry with a key.
pub open spec fn find_entry(entries: Seq<(Seq<char>, JsonView)>, key: Seq<char>) -> Option<JsonView>
    decreases entries.len(),
{
    if entries.len() == 0 {
        None
    } else if entries.last().0 == key {
        Some(entries.last().1)
    } else {
        find_entry(entries.drop_last(), key)
    }
}

/// What is found in entries that one more was added to.
pub broadcast proof fn found_in_more(
    entries: Seq<(Seq<char>, JsonView)>,
    entry: (Seq<char>, JsonView),
    key: Seq<char>,
)
    ensures
        #[trigger] find_entry(entries.push(entry), key) == (if entry.0 == key {
            Some(entry.1)
        } else {
            find_entry(entries, key)
        }),
{
    assert(entries.push(entry).drop_last() =~= entries);
}

/// The index of the last entry with a key.
pub open spec fn key_index<A>(entries: Seq<(Seq<char>, A)>, key: Seq<char>) -> Option<int>
    decreases entries.len(),
{
    if entries.len() == 0 {
        None
    } else if entries.last().0 == key {
        Some(entries.len() - 1)
    } else {
        key_index(entries.drop_last(), key)
    }
}

/// The entries with one put in: in the place of the one with its key, or else
/// at the end.
pub open spec fn put<A>(entries: Seq<(Seq<char>, A)>, key: Seq<char>, value: A) -> Seq<
    (Seq<char>, A),
> {
    match key_index(entries, key) {
        Some(i) => entries.update(i, (key, value)),
        None => entries.push((key, value)),
    }
}

/// The entries put in one after the other.
pub open spec fn put_all<A>(entries: Seq<(Seq<char>, A)>) -> Seq<(Seq<char>, A)>
    decreases entries.len(),
{
    if entries.len() == 0 {
        Seq::empty()
    } else {
        put(put_all(entries.drop_last()), entries.last().0, entries.last().1)
    }
}

impl JsonView {
    /// The value under a key; nothing where this is no object.
    pub open spec fn get(self, key: Seq<char>) -> Option<JsonView> {
        match self {
            JsonView::Object(entries) => find_entry(entries, key),
            _ => None,
        }
    }

    /// The text that this is.
    pub open spec fn as_text(self) -> Option<Seq<char>> {
        match self {
            JsonView::Text(s) => Some(s),
            _ => None,
        }
    }

    /// The truth value that this is.
    pub open spec fn as_bool(self) -> Option<bool> {
        match self {
            JsonView::Bool(b) => Some(b),
            _ => None,
        }
    }

    /// The number that this is, where it fits in a `u64`.
    pub open spec fn as_u64(self) -> Option<u64> {
        match self {
            JsonView::Int(n) => if 0 <= n <= u64::MAX {
                Some(n as u64)
            } else {
                None
            },
            _ => None,
        }
    }

    /// The number that this is, where it fits in an `i64`.
    pub open spec fn as_i64(self) -> Option<i64> {
        match self {
            JsonView::Int(n) => if i64::MIN <= n <= i64::MAX {
                Some(n as i64)
            } else {
                None
            },
            _ => None,
        }
    }

    /// The items of the array that this is.
    pub open spec fn as_array(self) -> Option<Seq<JsonView>> {
        match self {
            JsonView::Array(items) => Some(items),
            _ => None,
        }
    }

    /// The entries of the object that this is.
    pub open spec fn as_object(self) -> Option<Seq<(Seq<char>, JsonView)>> {
        match self {
            JsonView::Object(entries) => Some(entries),
            _ => None,
        }
    }

    /// The value under one key, and then under another.
    pub open spec fn get2(self, key: Seq<char>, inner: Seq<char>) -> Option<JsonView> {
        match self.get(key) {
            Some(v) => v.get(inner),
            None => None,
        }
    }

    /// The value under a key, or under another where there is none.
    pub open spec fn get_either(self, key: Seq<char>, other: Seq<char>) -> Option<JsonView> {
        either(self.get(key), self.get(other))
    }

    /// The text under a key.
    pub open spec fn text_at(self, key: Seq<char>) -> Option<Seq<char>> {
        match self.get(key) {
            Some(v) => v.as_text(),
            None => None,
        }
    }

    /// The truth value under a key.
    pub open spec fn bool_at(self, key: Seq<char>) -> Option<bool> {
        match self.get(key) {
            Some(v) => v.as_bool(),
            None => None,
        }
    }

    /// The `u64` under a key.
    pub open spec fn u64_at(self, key: Seq<char>) -> Option<u64> {
        match self.get(key) {
            Some(v) => v.as_u64(),
            None => None,
        }
    }

    /// The `i64` under a key.
    pub open spec fn i64_at(self, key: Seq<char>) -> Option<i64> {
        match self.get(key) {
            Some(v) => v.as_i64(),
            None => None,
        }
    }

    /// The array under a key.
    pub open spec fn array_at(self, key: Seq<char>) -> Option<Seq<JsonView>> {
        match self.get(key) {
            Some(v) => v.as_array(),
            None => None,
        }
    }

    /// The items of the array under a key; none where there is no array.
    pub open spec fn items_at(self, key: Seq<char>) -> Seq<JsonView> {
        match self.array_at(key) {
            Some(items) => items,
            None => Seq::empty(),
        }
    }
}

/// Calls `serde_json::Number::as_u64`: the number, where it is an integer that
/// fits in a `u64`. An integer that is not one, but fits in an `i64`, is negative.
#[verifier::external_body]
fn number_as_u64(n: &serde_json::Number) -> (value: Option<u64>)
    ensures
        value == number_unsigned(*n),
        value is None && number_signed(*n) is Some ==> number_signed(*n)->0 < 0,
{
    n.as_u64()
}

/// Calls `serde_json::Number::as_i64`: the number, where it is an integer that
/// fits in an `i64`. Of a number that is a `u64` it is that number as far as it
/// fits, and of one that is not it is negative.
#[verifier::external_body]
fn number_as_i64(n: &serde_json::Number) -> (value: Option<i64>)
    ensures
        value == number_signed(*n),
        match number_unsigned(*n) {
            Some(u) => value == (if u <= i64::MAX {
                Some(u as i64)
            } else {
                None
            }),
            None => value is Some ==> value->0 < 0,
        },
{
    n.as_i64()
}

/// Calls `serde_json::Number::clone`: the copy is the same number.
#[verifier::external_body]
pub(crate) fn copy_number(n: &serde_json::Number) -> (copy: serde_json::Number)
    ensures
        copy == *n,
{
    n.clone()
}

impl Json {
    /// A number.
    pub fn number(n: serde_json::Number) -> (value: Json)
        ensures
            value@ == number_view(n),
    {
        match number_as_u64(&n) {
            Some(u) => Json::UInt(u),
            None => match number_as_i64(&n) {
                Some(i) => Json::Int(i),
                None => Json::Float(n),
            },
        }
    }

    /// An array of some items.
    pub fn array(items: Vec<Json>) -> (value: Json)
        ensures
            value@ == JsonView::Array(item_views(items@)),
    {
        Json::Array(items)
    }

    /// An object with some entries.
    pub fn object(entries: Vec<(String, Json)>) -> (value: Json)
        ensures
            value@ == JsonView::Object(entry_views(entries@)),
    {
        Json::Object(entries)
    }

    /// An integer.
    pub fn integer(n: i64) -> (value: Json)
        ensures
            value@ == JsonView::Int(n as int),
    {
        if n >= 0 {
            Json::UInt(n as u64)
        } else {
            Json::Int(n)
        }
    }

    /// A text.
    pub fn text(text: &str) -> (value: Json)
        ensures
            value@ == JsonView::Text(text@),
    {
        Json::Text(text.to_owned())
    }

    /// The value of the last entry with a key.
    fn find<'a>(entries: &'a Vec<(String, Json)>, key: &str) -> (found: Option<&'a Json>)
        ensures
            opt_view(found) == find_entry(entry_views(entries@), key@),
    {
        let mut i: usize = entries.len();
        let ghost all = entry_views(entries@);
        proof {
            take_all(all);
        }
        while i > 0
            invariant
                i <= entries@.len(),
                all == entry_views(entries@),
                find_entry(all, key@) == find_entry(all.take(i as int), key@),
            decreases i,
        {
            proof {
                take_step(all, i - 1);
            }
            if same_text(entries[i - 1].0.as_str(), key) {
                return Some(&entries[i - 1].1);
            }
            i = i - 1;
        }
        None
    }

    /// The value under a key; nothing where this is no object.
    pub fn get(&self, key: &str) -> (value: Option<&Json>)
        ensures
            opt_view(value) == self@.get(key@),
    {
        match self {
            Json::Object(entries) => Json::find(entries, key),
            _ => None,
        }
    }

    /// The text that this is.
    pub fn as_text(&self) -> (text: Option<&str>)
        ensures
            opt_text(text) == self@.as_text(),
    {
        match self {
            Json::Text(s) => Some(s.as_str()),
            _ => None,
        }
    }

    /// The truth value that this is.
    pub fn as_bool(&self) -> (value: Option<bool>)
        ensures
            value == self@.as_bool(),
    {
        match self {
            Json::Bool(b) => Some(*b),
            _ => None,
        }
    }

    /// The number that this is, where it fits in a `u64`.
    pub fn as_u64(&self) -> (value: Option<u64>)
        ensures
            value == self@.as_u64(),
    {
        match self {
            Json::UInt(n) => Some(*n),
            Json::Int(n) => if *n >= 0 {
                Some(*n as u64)
            } else {
                None
            },
            Json::Float(n) => number_as_u64(n),
            _ => None,
        }
    }

    /// The number that this is, where it fits in an `i64`.
    pub fn as_i64(&self) -> (value: Option<i64>)
        ensures
            value == self@.as_i64(),
    {
        match self {
            Json::UInt(n) => if *n <= 0x7fff_ffff_ffff_ffff {
                Some(*n as i64)
            } else {
                None
            },
            Json::Int(n) => Some(*n),
            Json::Float(n) => number_as_i64(n),
            _ => None,
        }
    }

    /// The items of the array that this is.
    pub fn as_array(&self) -> (items: Option<&Vec<Json>>)
        ensures
            match items {
                Some(items) => self@.as_array() == Some(item_views(items@)),
                None => self@.as_array() is None,
            },
    {
        match self {
            Json::Array(items) => Some(items),
            _ => None,
        }
    }

    /// The entries of the object that this is.
    pub fn as_object(&self) -> (entries: Option<&Vec<(String, Json)>>)
        ensures
            match entries {
                Some(entries) => self@.as_object() == Some(entry_views(entries@)),
                None => self@.as_object() is None,
            },
    {
        match self {
            Json::Object(entries) => Some(entries),
            _ => None,
        }
    }

    /// The value under one key, and then under another.
    pub fn get2(&self, key: &str, inner: &str) -> (value: Option<&Json>)
        ensures
            opt_view(value) == self@.get2(key@, inner@),
    {
        match self.get(key) {
            Some(v) => v.get(inner),
            None => None,
        }
    }

    /// The value under a key, or under another where there is none.
    pub fn get_either(&self, key: &str, other: &str) -> (value: Option<&Json>)
        ensures
            opt_view(value) == self@.get_either(key@, other@),
    {
        match self.get(key) {
            Some(v) => Some(v),
            None => self.get(other),
        }
    }

    /// The text under a key.
    pub fn text_at(&self, key: &str) -> (text: Option<&str>)
        ensures
            opt_text(text) == self@.text_at(key@),
    {
        match self.get(key) {
            Some(v) => v.as_text(),
            None => None,
        }
    }

    /// The truth value under a key.
    pub fn bool_at(&self, key: &str) -> (value: Option<bool>)
        ensures
            value == self@.bool_at(key@),
    {
        match self.get(key) {
            Some(v) => v.as_bool(),
            None => None,
        }
    }

    /// The `u64` under a key.
    pub fn u64_at(&self, key: &str) -> (value: Option<u64>)
        ensures
            value == self@.u64_at(key@),
    {
        match self.get(key) {
            Some(v) => v.as_u64(),
            None => None,
        }
    }

    /// The `i64` under a key.
    pub fn i64_at(&self, key: &str) -> (value: Option<i64>)
        ensures
            value == self@.i64_at(key@),
    {
        match self.get(key) {
            Some(v) => v.as_i64(),
            None => None,
        }
    }

    /// The array under a key.
    pub fn array_at(&self, key: &str) -> (items: Option<&Vec<Json>>)
        ensures
            match items {
                Some(items) => self@.array_at(key@) == Some(item_views(items@)),
                None => self@.array_at(key@) is None,
            },
    {
        match self.get(key) {
            Some(v) => v.as_array(),
            None => None,
        }
    }

    /// The items of the array under a key; none where there is no array.
    pub fn items_at<'a>(&'a self, key: &str) -> (items: Vec<&'a Json>)
        ensures
            ref_views(items@) == self@.items_at(key@),
    {
        let mut refs: Vec<&'a Json> = Vec::new();
        match self.array_at(key) {
            Some(items) => {
                let mut i: usize = 0;
                while i < items.len()
                    invariant
                        i <= items@.len(),
                        refs@.len() == i,
                        forall|j: int| 0 <= j < i ==> *(#[trigger] refs@[j]) == items@[j],
                    decreases items@.len() - i,
                {
                    refs.push(&items[i]);
                    i = i + 1;
                }
                assert(ref_views(refs@) =~= item_views(items@));
            },
            None => {
                assert(ref_views(refs@) =~= Seq::empty());
            },
        }
        refs
    }

    /// The same value again.
    pub fn copy(&self) -> (same: Json)
        ensures
            same@ == self@,
        decreases self,
    {
        broadcast use {item_views_push, entry_views_push};

        match self {
            Json::Null => Json::Null,
            Json::Bool(b) => Json::Bool(*b),
            Json::UInt(n) => Json::UInt(*n),
            Json::Int(n) => Json::Int(*n),
            Json::Float(n) => Json::Float(copy_number(n)),
            Json::Text(s) => Json::Text(s.clone()),
            Json::Array(items) => {
                let mut copies: Vec<Json> = Vec::new();
                assert(item_views(copies@) =~= item_views(items@).take(0));
                let mut i: usize = 0;
                while i < items.len()
                    invariant
                        i <= items@.len(),
                        *self == Json::Array(*items),
                        item_views(copies@) == item_views(items@).take(i as int),
                    decreases items@.len() - i,
                {
                    proof {
                        take_step(item_views(items@), i as int);
                        assert(decreases_to!(*self => self->Array_0));
                        assert(decreases_to!(*items => items@));
                        assert(decreases_to!(items@ => items@[i as int]));
                    }
                    copies.push(items[i].copy());
                    i = i + 1;
                }
                proof {
                    take_all(item_views(items@));
                }
                Json::Array(copies)
            },
            Json::Object(entries) => {
                let mut copies: Vec<(String, Json)> = Vec::new();
                assert(entry_views(copies@) =~= entry_views(entries@).take(0));
                let mut i: usize = 0;
                while i < entries.len()
                    invariant
                        i <= entries@.len(),
                        *self == Json::Object(*entries),
                        entry_views(copies@) == entry_views(entries@).take(i as int),
                    decreases entries@.len() - i,
                {
                    proof {
                        take_step(entry_views(entries@), i as int);
                        assert(decreases_to!(*self => self->Object_0));
                        assert(decreases_to!(*entries => entries@));
                        assert(decreases_to!(entries@ => entries@[i as int]));
                        assert(decreases_to!(entries@[i as int] => entries@[i as int].1));
                    }
                    copies.push((entries[i].0.clone(), entries[i].1.copy()));
                    i = i + 1;
                }
                proof {
                    take_all(entry_views(entries@));
                }
                Json::Object(copies)
            },
        }
    }
}

/// The text that an optional value is.
pub fn read_text<'a>(value: Option<&'a Json>) -> (text: Option<&'a str>)
    ensures
        opt_text(text) == text_in(opt_view(value)),
{
    match value {
        Some(v) => v.as_text(),
        None => None,
    }
}

/// A copy of the value, or null where there is none.
pub fn copy_or_null(value: Option<&Json>) -> (copy: Json)
    ensures
        copy@ == or_null(opt_view(value)),
{
    match value {
        Some(v) => v.copy(),
        None => Json::Null,
    }
}

/// The text as a value, or null where there is none.
pub fn write_text(text: Option<&str>) -> (value: Json)
    ensures
        value@ == text_or_null(opt_text(text)),
{
    match text {
        Some(text) => Json::text(text),
        None => Json::Null,
    }
}

/// The texts among some values.
pub open spec fn texts_among(items: Seq<JsonView>) -> Seq<Seq<char>>
    decreases items.len(),
{
    if items.len() == 0 {
        Seq::empty()
    } else {
        match items.last() {
            JsonView::Text(s) => texts_among(items.drop_last()).push(s),
            _ => texts_among(items.drop_last()),
        }
    }
}

/// The texts among some values.
pub fn collect_texts(items: &Vec<&Json>) -> (found: Vec<String>)
    ensures
        texts(found@) == texts_among(ref_views(items@)),
{
    let ghost all = ref_views(items@);
    let mut found: Vec<String> = Vec::new();
    let mut i: usize = 0;
    proof {
        take_all(all);
        assert(texts(found@) =~= Seq::<Seq<char>>::empty());
    }
    while i < items.len()
        invariant
            i <= items@.len(),
            all == ref_views(items@),
            texts(found@) == texts_among(all.take(i as int)),
        decreases items@.len() - i,
    {
        proof {
            take_step(all, i as int);
        }
        if let Some(text) = items[i].as_text() {
            push_line(&mut found, text.to_owned());
        }
        i = i + 1;
    }
    proof {
        take_all(all);
    }
    found
}

/// Some texts as the items of an array.
pub open spec fn text_items(items: Seq<Seq<char>>) -> Seq<JsonView> {
    Seq::new(items.len(), |i: int| JsonView::Text(items[i]))
}

/// An array of some texts.
pub fn text_array(items: &Vec<String>) -> (value: Json)
    ensures
        value@ == JsonView::Array(text_items(texts(items@))),
{
    let mut values: Vec<Json> = Vec::new();
    let mut i: usize = 0;
    while i < items.len()
        invariant
            i <= items@.len(),
            values@.len() == i,
            forall|j: int| 0 <= j < i ==> (#[trigger] values@[j])@ == JsonView::Text(items@[j]@),
        decreases items@.len() - i,
    {
        values.push(Json::Text(items[i].clone()));
        i = i + 1;
    }
    assert(item_views(values@) =~= text_items(texts(items@)));
    Json::Array(values)
}

/// Puts an entry in: in the place of the one with its key, or else at the end.
pub fn put_entry(entries: &mut Vec<(String, Json)>, key: &str, value: Json)
    ensures
        entry_views(final(entries)@) == put(entry_views(old(entries)@), key@, value@),
{
    broadcast use entry_views_push;

    let ghost all = entry_views(entries@);
    let mut i: usize = entries.len();
    proof {
        take_all(all);
    }
    while i > 0
        invariant
            i <= entries@.len(),
            all == entry_views(entries@),
            all == entry_views(old(entries)@),
            key_index(all, key@) == key_index(all.take(i as int), key@),
        decreases i,
    {
        proof {
            take_step(all, i - 1);
        }
        if same_text(entries[i - 1].0.as_str(), key) {
            entries.set(i - 1, (key.to_owned(), value));
            assert(entry_views(entries@) =~= all.update(i - 1, (key@, value@)));
            return;
        }
        i = i - 1;
    }
    entries.push((key.to_owned(), value));
}

/// The entries, with one more at the end.
pub fn with(entries: Vec<(String, Json)>, key: &str, value: Json) -> (more: Vec<(String, Json)>)
    ensures
        entry_views(more@) == entry_views(entries@).push((key@, value@)),
{
    broadcast use entry_views_push;

    let mut more = entries;
    more.push((key.to_owned(), value));
    more
}

/// No entries.
pub fn no_entries() -> (entries: Vec<(String, Json)>)
    ensures
        entry_views(entries@) == fields(),
{
    let entries: Vec<(String, Json)> = Vec::new();
    assert(entry_views(entries@) =~= fields());
    entries
}

} // verus!
