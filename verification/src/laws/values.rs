//! What texts and values come to: the parts that everything else is made of.

use vstd::prelude::*;

use crate::json::{found_in_more, items_in, put, text_items, texts_among, JsonView};
use crate::text::{
    after_prefix, decimal, digits_value, is_digit, is_white, joined, lowercased, occurs_in,
    signed_value, split, split_is_not_empty, trimmed, trimmed_end, trimmed_start, unsigned_value,
    words,
};

verus! {

/// What is trimmed off a text is white space, and nothing but white space: the text is white
/// space, the trimmed text and white space, and the trimmed text neither starts nor ends with
/// any.
pub proof fn trimmed_keeps_the_middle(s: Seq<char>) -> (bounds: (int, int))
    ensures
        0 <= bounds.0 <= bounds.1 <= s.len(),
        trimmed(s) == s.subrange(bounds.0, bounds.1),
        forall|i: int| 0 <= i < bounds.0 ==> is_white(#[trigger] s[i]),
        forall|i: int| bounds.1 <= i < s.len() ==> is_white(#[trigger] s[i]),
        bounds.0 < bounds.1 ==> !is_white(s[bounds.0]) && !is_white(s[bounds.1 - 1]),
{
    let from = start_is_white(s);
    let rest = s.skip(from);
    let size = end_is_white(rest);
    assert(rest.take(size) =~= s.subrange(from, from + size));
    assert forall|i: int| from + size <= i < s.len() implies is_white(#[trigger] s[i]) by {
        assert(rest[i - from] == s[i]);
    }
    if size > 0 {
        assert(rest[0] == s[from]);
        assert(rest[size - 1] == s[from + size - 1]);
    }
    (from, from + size)
}

proof fn start_is_white(s: Seq<char>) -> (from: int)
    ensures
        0 <= from <= s.len(),
        trimmed_start(s) == s.skip(from),
        forall|i: int| 0 <= i < from ==> is_white(#[trigger] s[i]),
        from < s.len() ==> !is_white(s[from]),
    decreases s.len(),
{
    if s.len() > 0 && is_white(s[0]) {
        let tail = s.skip(1);
        let from = start_is_white(tail);
        assert(tail.skip(from) =~= s.skip(from + 1));
        assert forall|i: int| 0 <= i < from + 1 implies is_white(#[trigger] s[i]) by {
            if i > 0 {
                assert(tail[i - 1] == s[i]);
            }
        }
        from + 1
    } else {
        assert(s.skip(0) =~= s);
        0
    }
}

proof fn end_is_white(s: Seq<char>) -> (size: int)
    ensures
        0 <= size <= s.len(),
        trimmed_end(s) == s.take(size),
        forall|i: int| size <= i < s.len() ==> is_white(#[trigger] s[i]),
        size > 0 ==> !is_white(s[size - 1]),
    decreases s.len(),
{
    if s.len() > 0 && is_white(s.last()) {
        let init = s.drop_last();
        let size = end_is_white(init);
        assert(init.take(size) =~= s.take(size));
        assert forall|i: int| size <= i < s.len() implies is_white(#[trigger] s[i]) by {
            if i < init.len() {
                assert(init[i] == s[i]);
            }
        }
        size
    } else {
        assert(s.take(s.len() as int) =~= s);
        s.len() as int
    }
}

/// The characters that stand for nothing but space are white, and letters, digits and marks of
/// ASCII are not.
pub proof fn spaces_are_white(c: char)
    ensures
        c == ' ' || c == '\n' || c == '\r' || c == '\t' ==> is_white(c),
        '!' <= c <= '~' ==> !is_white(c),
{
}

/// A text with its capitals made small has the same length, no capital of ASCII, and every
/// other character where it was.
pub proof fn capitals_are_made_small(s: Seq<char>, i: int)
    requires
        0 <= i < s.len(),
    ensures
        lowercased(s).len() == s.len(),
        !('A' <= lowercased(s)[i] <= 'Z'),
        !('A' <= s[i] <= 'Z') ==> lowercased(s)[i] == s[i],
        'A' <= s[i] <= 'Z' ==> lowercased(s)[i] as u32 == s[i] as u32 + 32,
{
}

/// What follows a prefix is what is left of the text, and only a text that starts with the
/// prefix has it.
pub proof fn prefixes_are_taken_off(prefix: Seq<char>, rest: Seq<char>, text: Seq<char>)
    ensures
        after_prefix(prefix + rest, prefix) == Some(rest),
        after_prefix(text, prefix) matches Some(left) ==> text == prefix + left,
{
    assert((prefix + rest).take(prefix.len() as int) =~= prefix);
    assert((prefix + rest).skip(prefix.len() as int) =~= rest);
    if after_prefix(text, prefix) is Some {
        assert(text =~= prefix + text.skip(prefix.len() as int));
    }
}

/// Texts that are joined stand one after the other with the separator between them.
pub proof fn joined_texts_stand_in_order(
    first: Seq<Seq<char>>,
    text: Seq<char>,
    separator: Seq<char>,
)
    ensures
        joined(Seq::empty(), separator).len() == 0,
        joined(seq![text], separator) == text,
        first.len() > 0 ==> joined(first.push(text), separator) == joined(first, separator)
            + separator + text,
{
    assert(first.push(text).drop_last() =~= first);
}

/// A text that was split is whole again once its parts are joined with the separator.
pub proof fn split_texts_join_again(s: Seq<char>, separator: char)
    ensures
        joined(split(s, seq![separator]), seq![separator]) == s,
    decreases s.len(),
{
    let separators = seq![separator];
    assert(separators[0] == separator);
    if s.len() == 0 {
        assert(joined(split(s, separators), separators) =~= s);
    } else {
        let init = s.drop_last();
        split_texts_join_again(init, separator);
        split_is_not_empty(init, separators);
        let parts = split(init, separators);
        assert(init.push(s.last()) =~= s);
        if separators.contains(s.last()) {
            joined_texts_stand_in_order(parts, Seq::empty(), separators);
            assert(joined(split(s, separators), separators) =~= s);
        } else {
            let grown = parts.last().push(s.last());
            let before = parts.drop_last();
            assert(before.push(parts.last()) =~= parts);
            if before.len() > 0 {
                joined_texts_stand_in_order(before, parts.last(), separators);
                joined_texts_stand_in_order(before, grown, separators);
                assert(joined(split(s, separators), separators) =~= s);
            } else {
                assert(split(s, separators) =~= seq![grown]);
                assert(parts =~= seq![parts.last()]);
                assert(joined(parts, separators) == parts.last());
                assert(joined(split(s, separators), separators) =~= s);
            }
        }
    }
}

/// A text of words is split into its words: white space before, between and behind them makes
/// no difference.
pub proof fn words_are_split_at_white(s: Seq<char>, c: char)
    ensures
        is_white(c) ==> words(s.push(c)) == words(s),
        !is_white(c) && (s.len() == 0 || is_white(s.last())) ==> words(s.push(c)) == words(s).push(
            seq![c],
        ),
        !is_white(c) && s.len() > 0 && !is_white(s.last()) ==> words(s.push(c)).len() == words(
            s,
        ).len() && words(s.push(c)).last() == words(s).last().push(c),
{
    assert(s.push(c).drop_last() =~= s);
    if s.len() > 0 && !is_white(s.last()) {
        words_are_there(s);
    }
}

proof fn words_are_there(s: Seq<char>)
    requires
        s.len() > 0,
        !is_white(s.last()),
    ensures
        words(s).len() > 0,
{
}

/// The digits of a number stand for it, and a digit more makes it ten times as much and the
/// digit.
pub proof fn digits_stand_for_numbers(digits: Seq<char>, n: nat, c: char)
    requires
        digits_value(digits) == Some(n),
    ensures
        is_digit(c) ==> digits_value(digits.push(c)) == Some((n * 10 + (c as u32 - 48)) as nat),
        !is_digit(c) ==> digits_value(digits.push(c)) is None,
        n >= 10 ==> decimal(n) == decimal(n / 10).push(((n % 10 + 48) as u32) as char),
{
    assert(digits.push(c).drop_last() =~= digits);
}

/// A number is read where it fits: with or without a plus sign, and for a signed one with a
/// minus sign too.
pub proof fn numbers_are_read_where_they_fit(digits: Seq<char>, n: nat, max: nat)
    requires
        digits_value(digits) == Some(n),
        digits.len() > 0 && is_digit(digits[0]),
    ensures
        unsigned_value(digits, max) == (if n <= max {
            Some(n)
        } else {
            None
        }),
        unsigned_value(seq!['+'] + digits, max) == unsigned_value(digits, max),
        unsigned_value(seq!['-'] + digits, max) is None,
        signed_value(digits) == (if n <= i64::MAX {
            Some(n as int)
        } else {
            None
        }),
        signed_value(seq!['+'] + digits) == signed_value(digits),
        signed_value(seq!['-'] + digits) == (if n <= 0x8000_0000_0000_0000 {
            Some(-(n as int))
        } else {
            None
        }),
{
    assert((seq!['+'] + digits).skip(1) =~= digits);
    assert((seq!['-'] + digits).skip(1) =~= digits);
    minus_is_no_digit(digits);
}

proof fn minus_is_no_digit(digits: Seq<char>)
    ensures
        digits_value(seq!['-'] + digits) is None,
    decreases digits.len(),
{
    let whole = seq!['-'] + digits;
    if digits.len() > 0 {
        assert(whole.drop_last() =~= seq!['-'] + digits.drop_last());
        minus_is_no_digit(digits.drop_last());
    } else {
        assert(whole.last() == '-');
    }
}

/// A text occurs wherever it stands, and only there.
pub proof fn parts_occur_where_they_stand(before: Seq<char>, part: Seq<char>, behind: Seq<char>)
    ensures
        occurs_in(part, before + part + behind),
        before.len() + behind.len() + part.len() > 0 && part.len() > before.len() + behind.len()
            ==> !occurs_in(part, before + behind),
{
    let whole = before + part + behind;
    let i = before.len() as int;
    assert(whole.subrange(i, i + part.len()) =~= part);
}

/// What was put under a key is found under it, and what stands under other keys stays.
pub proof fn what_is_put_is_found(
    entries: Seq<(Seq<char>, JsonView)>,
    key: Seq<char>,
    value: JsonView,
    other: Seq<char>,
)
    requires
        other != key,
    ensures
        JsonView::Object(entries.push((key, value))).get(key) == Some(value),
        JsonView::Object(entries.push((key, value))).get(other) == JsonView::Object(entries).get(
            other,
        ),
        JsonView::Object(Seq::empty()).get(key) is None,
{
    broadcast use found_in_more;

}

/// A value is read as what it is, and as nothing else.
pub proof fn values_are_read_as_what_they_are(
    text: Seq<char>,
    truth: bool,
    n: int,
    items: Seq<JsonView>,
    key: Seq<char>,
    value: JsonView,
)
    ensures
        JsonView::Text(text).as_text() == Some(text),
        value !is Text ==> value.as_text() is None,
        JsonView::Bool(truth).as_bool() == Some(truth),
        value !is Bool ==> value.as_bool() is None,
        0 <= n <= u64::MAX ==> JsonView::Int(n).as_u64() == Some(n as u64),
        n < 0 || n > u64::MAX ==> JsonView::Int(n).as_u64() is None,
        i64::MIN <= n <= i64::MAX ==> JsonView::Int(n).as_i64() == Some(n as i64),
        n < i64::MIN || n > i64::MAX ==> JsonView::Int(n).as_i64() is None,
        value !is Int ==> value.as_u64() is None && value.as_i64() is None,
        JsonView::Array(items).as_array() == Some(items),
        value !is Array ==> value.as_array() is None,
        value !is Object ==> value.get(key) is None,
        items_in(Some(JsonView::Array(items))) == items,
        value !is Array ==> items_in(Some(value)).len() == 0,
        items_in(None).len() == 0,
{
}

/// What stands under a key is read from under that key.
pub proof fn values_are_read_under_their_key(
    value: JsonView,
    key: Seq<char>,
    other: Seq<char>,
    found: JsonView,
)
    requires
        value.get(key) == Some(found),
    ensures
        value.text_at(key) == found.as_text(),
        value.bool_at(key) == found.as_bool(),
        value.u64_at(key) == found.as_u64(),
        value.i64_at(key) == found.as_i64(),
        value.array_at(key) == found.as_array(),
        value.get2(key, other) == found.get(other),
        value.get_either(key, other) == Some(found),
        value.get(other) is None ==> value.get_either(other, key) == Some(found) && value.text_at(
            other,
        ) is None && value.get2(other, key) is None,
{
}

/// Of some values the texts are kept, in their order; and texts stand as values one by one.
pub proof fn texts_are_kept_in_order(items: Seq<JsonView>, item: JsonView, texts: Seq<Seq<char>>)
    ensures
        texts_among(Seq::<JsonView>::empty()).len() == 0,
        item matches JsonView::Text(text) ==> texts_among(items.push(item)) == texts_among(
            items,
        ).push(text),
        item !is Text ==> texts_among(items.push(item)) == texts_among(items),
        texts_among(text_items(texts)) == texts,
{
    assert(items.push(item).drop_last() =~= items);
    items_of_texts_are_texts(texts);
}

/// Values that are all texts are kept one by one.
pub proof fn all_texts_are_kept(items: Seq<JsonView>)
    requires
        forall|i: int| 0 <= i < items.len() ==> #[trigger] items[i] is Text,
    ensures
        texts_among(items) == Seq::new(items.len(), |i: int| items[i]->Text_0),
        text_items(texts_among(items)) == items,
    decreases items.len(),
{
    if items.len() > 0 {
        let init = items.drop_last();
        assert(forall|i: int| 0 <= i < init.len() ==> #[trigger] init[i] == items[i]);
        all_texts_are_kept(init);
        assert(items[items.len() - 1] is Text);
    }
    assert(texts_among(items) =~= Seq::new(items.len(), |i: int| items[i]->Text_0));
    assert(text_items(texts_among(items)) =~= items);
}

proof fn items_of_texts_are_texts(texts: Seq<Seq<char>>)
    ensures
        texts_among(text_items(texts)) == texts,
    decreases texts.len(),
{
    if texts.len() > 0 {
        items_of_texts_are_texts(texts.drop_last());
        assert(text_items(texts).drop_last() =~= text_items(texts.drop_last()));
        assert(texts.drop_last().push(texts.last()) =~= texts);
    }
    assert(texts_among(text_items(texts)) =~= texts);
}

} // verus!
