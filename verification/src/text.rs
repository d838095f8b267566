//! Text: the operations on strings that the rest of the crate is built from,
//! each stated over the sequence of characters that a string holds.

use vstd::prelude::*;

verus! {

// ---------------------------------------------------------------------------
// Views
// ---------------------------------------------------------------------------

/// The characters of an optional string slice.
pub open spec fn opt_text(text: Option<&str>) -> Option<Seq<char>> {
    match text {
        Some(text) => Some(text@),
        None => None,
    }
}

/// The characters of an optional string.
pub open spec fn opt_string(text: Option<String>) -> Option<Seq<char>> {
    match text {
        Some(text) => Some(text@),
        None => None,
    }
}

/// The characters of each string in a sequence.
pub open spec fn texts(items: Seq<String>) -> Seq<Seq<char>> {
    Seq::new(items.len(), |i: int| items[i]@)
}

/// The text itself, or the default where there is none.
pub open spec fn text_or(text: Option<Seq<char>>, default: Seq<char>) -> Seq<char> {
    match text {
        Some(text) => text,
        None => default,
    }
}

/// The first choice, or the second where there is no first.
pub open spec fn either<A>(first: Option<A>, second: Option<A>) -> Option<A> {
    match first {
        Some(value) => Some(value),
        None => second,
    }
}

/// A string more is a text more.
pub broadcast proof fn texts_push(items: Seq<String>, item: String)
    ensures
        #[trigger] texts(items.push(item)) == texts(items).push(item@),
{
    assert(texts(items.push(item)) =~= texts(items).push(item@));
}

/// One step of a walk over a sequence from its front.
pub proof fn take_step<A>(items: Seq<A>, i: int)
    requires
        0 <= i < items.len(),
    ensures
        items.take(i + 1).len() == i + 1,
        items.take(i + 1).drop_last() == items.take(i),
        items.take(i + 1).last() == items[i],
        items.take(i + 1) == items.take(i).push(items[i]),
{
    assert(items.take(i + 1).drop_last() =~= items.take(i));
    assert(items.take(i + 1) =~= items.take(i).push(items[i]));
}

/// The end of a walk over a sequence from its front.
pub proof fn take_all<A>(items: Seq<A>)
    ensures
        items.take(items.len() as int) == items,
        items.take(0) == Seq::<A>::empty(),
{
    assert(items.take(items.len() as int) =~= items);
    assert(items.take(0) =~= Seq::<A>::empty());
}

// ---------------------------------------------------------------------------
// What std does
// ---------------------------------------------------------------------------

/// Calls `==` of `str`, which std documents as equality of contents: the result
/// says whether the two texts hold the same characters.
#[verifier::external_body]
pub(crate) fn same_text(left: &str, right: &str) -> (same: bool)
    ensures
        same == (left@ == right@),
{
    left == right
}

/// Calls `String::push`, which std documents as appending the given character
/// to the end of the string.
#[verifier::external_body]
pub(crate) fn push_char(text: &mut String, c: char)
    ensures
        final(text)@ == old(text)@.push(c),
{
    text.push(c)
}

/// What `char::to_uppercase` yields for a character: the uppercase mapping of
/// the Unicode character database, of one or more characters.
pub uninterp spec fn uppercase_of(c: char) -> Seq<char>;

/// Calls `char::to_uppercase` and collects what it yields, which std documents as
/// one or more characters. Beyond the name of the result and that, the contract
/// says what the mapping is on ASCII: a lowercase letter becomes its capital, any
/// other character stays as it is.
#[verifier::external_body]
pub(crate) fn uppercase_char(c: char) -> (upper: String)
    ensures
        upper@ == uppercase_of(c),
        upper@.len() > 0,
        'a' <= c <= 'z' ==> upper@ == seq![((c as u32 - 32) as u32) as char],
        (c as u32) < 128 && !('a' <= c <= 'z') ==> upper@ == seq![c],
{
    c.to_uppercase().to_string()
}

// ---------------------------------------------------------------------------
// Characters
// ---------------------------------------------------------------------------

/// The characters with the Unicode property `White_Space`.
pub open spec fn is_white(c: char) -> bool {
    let n = c as u32;
    ||| 0x09 <= n <= 0x0d
    ||| n == 0x20
    ||| n == 0x85
    ||| n == 0xa0
    ||| n == 0x1680
    ||| 0x2000 <= n <= 0x200a
    ||| n == 0x2028
    ||| n == 0x2029
    ||| n == 0x202f
    ||| n == 0x205f
    ||| n == 0x3000
}

/// Whether a character is white space.
pub fn is_whitespace(c: char) -> (white: bool)
    ensures
        white == is_white(c),
{
    let n: u32 = c as u32;
    (0x09 <= n && n <= 0x0d) || n == 0x20 || n == 0x85 || n == 0xa0 || n == 0x1680 || (0x2000 <= n
        && n <= 0x200a) || n == 0x2028 || n == 0x2029 || n == 0x202f || n == 0x205f || n == 0x3000
}

/// The decimal digits of ASCII.
pub open spec fn is_digit(c: char) -> bool {
    '0' <= c <= '9'
}

/// Whether a character is an ASCII digit.
pub fn is_ascii_digit(c: char) -> (digit: bool)
    ensures
        digit == is_digit(c),
{
    '0' <= c && c <= '9'
}

/// The characters of a text, one by one.
pub fn chars_of(text: &str) -> (chars: Vec<char>)
    ensures
        chars@ == text@,
{
    let mut chars: Vec<char> = Vec::new();
    for c in it: text.chars()
        invariant
            it.seq() == text@,
            chars@ == text@.take(it.index()),
    {
        proof {
            take_step(text@, it.index());
        }
        chars.push(c);
    }
    proof {
        take_all(text@);
    }
    chars
}

/// The text made of the characters from one index up to another.
pub fn text_of(chars: &Vec<char>, from: usize, to: usize) -> (text: String)
    requires
        from <= to <= chars@.len(),
    ensures
        text@ == chars@.subrange(from as int, to as int),
{
    let mut text = String::new();
    let mut i: usize = from;
    while i < to
        invariant
            from <= i <= to <= chars@.len(),
            text@ == chars@.subrange(from as int, i as int),
        decreases to - i,
    {
        push_char(&mut text, chars[i]);
        i = i + 1;
        assert(text@ =~= chars@.subrange(from as int, i as int));
    }
    text
}

// ---------------------------------------------------------------------------
// Defaults and concatenation
// ---------------------------------------------------------------------------

/// The text, or the default where there is none.
pub fn or_text<'a>(text: Option<&'a str>, default: &'a str) -> (chosen: &'a str)
    ensures
        chosen@ == text_or(opt_text(text), default@),
{
    match text {
        Some(text) => text,
        None => default,
    }
}

/// The text as a string of its own.
pub fn owned(text: Option<&str>) -> (string: Option<String>)
    ensures
        opt_string(string) == opt_text(text),
{
    match text {
        Some(text) => Some(text.to_owned()),
        None => None,
    }
}

/// Two texts, one after the other.
pub fn concat2(a: &str, b: &str) -> (whole: String)
    ensures
        whole@ == a@ + b@,
{
    let mut whole = a.to_owned();
    whole.append(b);
    whole
}

/// Three texts, one after the other.
pub fn concat3(a: &str, b: &str, c: &str) -> (whole: String)
    ensures
        whole@ == a@ + b@ + c@,
{
    let mut whole = concat2(a, b);
    whole.append(c);
    whole
}

/// Four texts, one after the other.
pub fn concat4(a: &str, b: &str, c: &str, d: &str) -> (whole: String)
    ensures
        whole@ == a@ + b@ + c@ + d@,
{
    let mut whole = concat3(a, b, c);
    whole.append(d);
    whole
}

/// Five texts, one after the other.
pub fn concat5(a: &str, b: &str, c: &str, d: &str, e: &str) -> (whole: String)
    ensures
        whole@ == a@ + b@ + c@ + d@ + e@,
{
    let mut whole = concat4(a, b, c, d);
    whole.append(e);
    whole
}

/// Six texts, one after the other.
pub fn concat6(a: &str, b: &str, c: &str, d: &str, e: &str, f: &str) -> (whole: String)
    ensures
        whole@ == a@ + b@ + c@ + d@ + e@ + f@,
{
    let mut whole = concat5(a, b, c, d, e);
    whole.append(f);
    whole
}

/// Adds a line to some others.
pub fn push_line(lines: &mut Vec<String>, line: String)
    ensures
        texts(final(lines)@) == texts(old(lines)@).push(line@),
{
    broadcast use texts_push;

    lines.push(line);
}

/// Some lines with one line in them.
pub fn first_line(line: &str) -> (lines: Vec<String>)
    ensures
        texts(lines@) == seq![line@],
{
    let mut lines: Vec<String> = Vec::new();
    assert(texts(lines@) =~= Seq::<Seq<char>>::empty());
    push_line(&mut lines, line.to_owned());
    lines
}

// ---------------------------------------------------------------------------
// Trimming and prefixes
// ---------------------------------------------------------------------------

/// The text without the white space that it starts with.
pub open spec fn trimmed_start(s: Seq<char>) -> Seq<char>
    decreases s.len(),
{
    if s.len() > 0 && is_white(s[0]) {
        trimmed_start(s.skip(1))
    } else {
        s
    }
}

/// The text without the white space that it ends with.
pub open spec fn trimmed_end(s: Seq<char>) -> Seq<char>
    decreases s.len(),
{
    if s.len() > 0 && is_white(s.last()) {
        trimmed_end(s.drop_last())
    } else {
        s
    }
}

/// The text without the white space at either end.
pub open spec fn trimmed(s: Seq<char>) -> Seq<char> {
    trimmed_end(trimmed_start(s))
}

/// Whether a text holds nothing but white space.
pub open spec fn is_blank(s: Seq<char>) -> bool {
    trimmed(s).len() == 0
}

/// How many characters of white space the text starts with.
fn leading_white(chars: &Vec<char>) -> (count: usize)
    ensures
        count <= chars@.len(),
        trimmed_start(chars@) == chars@.skip(count as int),
{
    let mut i: usize = 0;
    assert(chars@.skip(0) =~= chars@);
    while i < chars.len() && is_whitespace(chars[i])
        invariant
            i <= chars@.len(),
            trimmed_start(chars@) == trimmed_start(chars@.skip(i as int)),
        decreases chars@.len() - i,
    {
        assert(chars@.skip(i as int).skip(1) =~= chars@.skip(i + 1));
        i = i + 1;
    }
    i
}

/// The text without the white space that it starts with.
pub fn trim_start<'a>(text: &'a str) -> (rest: &'a str)
    ensures
        rest@ == trimmed_start(text@),
{
    let chars = chars_of(text);
    let from = leading_white(&chars);
    let rest = text.substring_char(from, chars.len());
    assert(rest@ =~= chars@.skip(from as int));
    rest
}

/// The text without the white space at either end.
pub fn trim<'a>(text: &'a str) -> (rest: &'a str)
    ensures
        rest@ == trimmed(text@),
{
    let chars = chars_of(text);
    let from = leading_white(&chars);
    let mut to: usize = chars.len();
    assert(chars@.subrange(from as int, to as int) =~= chars@.skip(from as int));
    while from < to && is_whitespace(chars[to - 1])
        invariant
            from <= to <= chars@.len(),
            trimmed(text@) == trimmed_end(chars@.subrange(from as int, to as int)),
        decreases to,
    {
        assert(chars@.subrange(from as int, to as int).drop_last() =~= chars@.subrange(
            from as int,
            to - 1,
        ));
        to = to - 1;
    }
    text.substring_char(from, to)
}

/// The trimmed text is a part of the text.
pub proof fn trimmed_is_within(s: Seq<char>) -> (bounds: (int, int))
    ensures
        0 <= bounds.0 <= bounds.1 <= s.len(),
        trimmed(s) == s.subrange(bounds.0, bounds.1),
{
    let from = trimmed_start_is_within(s);
    let rest = s.skip(from);
    let size = trimmed_end_is_within(rest);
    assert(rest.take(size) =~= s.subrange(from, from + size));
    (from, from + size)
}

proof fn trimmed_start_is_within(s: Seq<char>) -> (from: int)
    ensures
        0 <= from <= s.len(),
        trimmed_start(s) == s.skip(from),
    decreases s.len(),
{
    if s.len() > 0 && is_white(s[0]) {
        let from = trimmed_start_is_within(s.skip(1));
        assert(s.skip(1).skip(from) =~= s.skip(from + 1));
        from + 1
    } else {
        assert(s.skip(0) =~= s);
        0
    }
}

proof fn trimmed_end_is_within(s: Seq<char>) -> (size: int)
    ensures
        0 <= size <= s.len(),
        trimmed_end(s) == s.take(size),
        trimmed_end(s).len() > 0 ==> trimmed_end(s)[0] == s[0] && !is_white(trimmed_end(s).last()),
    decreases s.len(),
{
    if s.len() > 0 && is_white(s.last()) {
        let size = trimmed_end_is_within(s.drop_last());
        assert(s.drop_last().take(size) =~= s.take(size));
        size
    } else {
        take_all(s);
        s.len() as int
    }
}

/// The trimmed text neither starts nor ends with white space.
pub proof fn trimmed_is_tight(s: Seq<char>)
    ensures
        trimmed(s).len() > 0 ==> !is_white(trimmed(s)[0]) && !is_white(trimmed(s).last()),
    decreases s.len(),
{
    if s.len() > 0 && is_white(s[0]) {
        trimmed_is_tight(s.skip(1));
    } else {
        trimmed_end_is_within(s);
    }
}

/// Whether a text holds nothing but white space.
pub fn blank(text: &str) -> (empty: bool)
    ensures
        empty == is_blank(text@),
{
    trim(text).is_empty()
}

/// What follows a prefix, where the text starts with it.
pub open spec fn after_prefix(s: Seq<char>, prefix: Seq<char>) -> Option<Seq<char>> {
    if prefix.len() <= s.len() && s.take(prefix.len() as int) == prefix {
        Some(s.skip(prefix.len() as int))
    } else {
        None
    }
}

/// What follows a prefix, where the text starts with it.
pub fn strip_prefix<'a>(text: &'a str, prefix: &str) -> (rest: Option<&'a str>)
    ensures
        opt_text(rest) == after_prefix(text@, prefix@),
{
    let all = text.unicode_len();
    let head = prefix.unicode_len();
    if head > all {
        return None;
    }
    let start = text.substring_char(0, head);
    assert(start@ =~= text@.take(prefix@.len() as int));
    if same_text(start, prefix) {
        let rest = text.substring_char(head, all);
        assert(rest@ =~= text@.skip(prefix@.len() as int));
        Some(rest)
    } else {
        None
    }
}

// ---------------------------------------------------------------------------
// Splitting and joining
// ---------------------------------------------------------------------------

/// The parts of a text between separators: one more than there are separators.
pub open spec fn split(s: Seq<char>, separators: Seq<char>) -> Seq<Seq<char>>
    decreases s.len(),
{
    if s.len() == 0 {
        seq![Seq::<char>::empty()]
    } else {
        let parts = split(s.drop_last(), separators);
        if separators.contains(s.last()) {
            parts.push(Seq::<char>::empty())
        } else {
            parts.drop_last().push(parts.last().push(s.last()))
        }
    }
}

/// A split text has at least one part.
pub proof fn split_is_not_empty(s: Seq<char>, separators: Seq<char>)
    ensures
        split(s, separators).len() > 0,
    decreases s.len(),
{
    if s.len() > 0 {
        split_is_not_empty(s.drop_last(), separators);
    }
}

/// No part of a split text holds a separator.
pub proof fn split_parts_hold_no_separator(s: Seq<char>, separators: Seq<char>, i: int, j: int)
    requires
        0 <= i < split(s, separators).len(),
        0 <= j < split(s, separators)[i].len(),
    ensures
        !separators.contains(split(s, separators)[i][j]),
    decreases s.len(),
{
    if s.len() > 0 {
        let init = s.drop_last();
        let parts = split(init, separators);
        split_is_not_empty(init, separators);
        if separators.contains(s.last()) {
            split_parts_hold_no_separator(init, separators, i, j);
        } else if i < parts.len() - 1 {
            split_parts_hold_no_separator(init, separators, i, j);
        } else if j < parts.last().len() {
            split_parts_hold_no_separator(init, separators, i, j);
        }
    }
}

/// A separator splits what stands before it from what stands behind it.
pub proof fn split_at_separator(a: Seq<char>, c: char, b: Seq<char>, separators: Seq<char>)
    requires
        separators.contains(c),
    ensures
        split(a.push(c) + b, separators) == split(a, separators) + split(b, separators),
    decreases b.len(),
{
    split_is_not_empty(a, separators);
    if b.len() == 0 {
        assert(a.push(c) + b =~= a.push(c));
        assert(a.push(c).drop_last() =~= a);
        assert(split(a, separators) + split(b, separators) =~= split(a, separators).push(
            Seq::<char>::empty(),
        ));
    } else {
        let whole = a.push(c) + b;
        let init = b.drop_last();
        split_at_separator(a, c, init, separators);
        split_is_not_empty(init, separators);
        assert(whole.drop_last() =~= a.push(c) + init);
        let left = split(a, separators);
        let right = split(init, separators);
        assert((left + right).drop_last() =~= left + right.drop_last());
        assert(split(whole, separators) =~= left + split(b, separators));
    }
}

/// A split text that has a single part is that part.
pub proof fn single_part_is_the_text(s: Seq<char>, separators: Seq<char>)
    requires
        split(s, separators).len() == 1,
    ensures
        split(s, separators)[0] == s,
    decreases s.len(),
{
    if s.len() > 0 {
        split_is_not_empty(s.drop_last(), separators);
        single_part_is_the_text(s.drop_last(), separators);
        assert(s.drop_last().push(s.last()) =~= s);
    } else {
        assert(split(s, separators)[0] =~= s);
    }
}

/// A text without separators is its only part.
pub proof fn split_without_separator(s: Seq<char>, separators: Seq<char>)
    requires
        forall|i: int| 0 <= i < s.len() ==> !separators.contains(#[trigger] s[i]),
    ensures
        split(s, separators) == seq![s],
    decreases s.len(),
{
    if s.len() > 0 {
        let init = s.drop_last();
        assert forall|i: int| 0 <= i < init.len() implies !separators.contains(
            #[trigger] init[i],
        ) by {
            assert(init[i] == s[i]);
        }
        split_without_separator(init, separators);
        assert(s.last() == s[s.len() - 1]);
        assert(init.push(s.last()) =~= s);
        assert(split(s, separators) =~= seq![s]);
    } else {
        assert(s =~= Seq::<char>::empty());
    }
}

/// A text without white space is its only word.
pub proof fn words_without_white(s: Seq<char>)
    requires
        s.len() > 0,
        forall|i: int| 0 <= i < s.len() ==> !is_white(#[trigger] s[i]),
    ensures
        words(s) == seq![s],
    decreases s.len(),
{
    let init = s.drop_last();
    assert(s.last() == s[s.len() - 1]);
    if init.len() == 0 {
        assert(words(init) =~= Seq::empty());
        assert(seq![s.last()] =~= s);
        assert(words(s) =~= seq![s]);
    } else {
        assert forall|i: int| 0 <= i < init.len() implies !is_white(#[trigger] init[i]) by {
            assert(init[i] == s[i]);
        }
        words_without_white(init);
        assert(init.last() == s[init.len() - 1]);
        assert(init.push(s.last()) =~= s);
        assert(words(s) =~= seq![s]);
    }
}

/// Whether a character is among some others.
fn is_one_of(c: char, choices: &[char]) -> (found: bool)
    ensures
        found == choices@.contains(c),
{
    let mut i: usize = 0;
    while i < choices.len()
        invariant
            i <= choices@.len(),
            forall|j: int| 0 <= j < i ==> choices@[j] != c,
        decreases choices@.len() - i,
    {
        if choices[i] == c {
            return true;
        }
        i = i + 1;
    }
    false
}

/// Splits a text at each of the given separators.
pub fn split_text(text: &str, separators: &[char]) -> (parts: Vec<String>)
    ensures
        texts(parts@) == split(text@, separators@),
{
    broadcast use texts_push;

    let chars = chars_of(text);
    let mut parts: Vec<String> = Vec::new();
    let mut part = String::new();
    let mut i: usize = 0;
    proof {
        take_all(text@);
        assert(texts(parts@).push(part@) =~= seq![Seq::<char>::empty()]);
    }
    while i < chars.len()
        invariant
            i <= chars@.len(),
            chars@ == text@,
            texts(parts@).push(part@) == split(text@.take(i as int), separators@),
        decreases chars@.len() - i,
    {
        let c = chars[i];
        proof {
            take_step(text@, i as int);
            assert(texts(parts@).push(part@).drop_last() =~= texts(parts@));
        }
        if is_one_of(c, separators) {
            parts.push(part);
            part = String::new();
        } else {
            push_char(&mut part, c);
        }
        i = i + 1;
    }
    parts.push(part);
    parts
}

/// The words of a text: its longest runs of characters that are not white space.
pub open spec fn words(s: Seq<char>) -> Seq<Seq<char>>
    decreases s.len(),
{
    if s.len() == 0 {
        Seq::empty()
    } else {
        let init = s.drop_last();
        if is_white(s.last()) {
            words(init)
        } else if init.len() == 0 || is_white(init.last()) {
            words(init).push(seq![s.last()])
        } else {
            words(init).drop_last().push(words(init).last().push(s.last()))
        }
    }
}

/// Splits a text into its words.
pub fn split_words(text: &str) -> (found: Vec<String>)
    ensures
        texts(found@) == words(text@),
{
    broadcast use texts_push;

    let chars = chars_of(text);
    let mut found: Vec<String> = Vec::new();
    let mut word = String::new();
    let mut open = false;
    let mut i: usize = 0;
    proof {
        take_all(text@);
        assert(texts(found@) =~= words(text@.take(0)));
    }
    while i < chars.len()
        invariant
            i <= chars@.len(),
            chars@ == text@,
            open == (i > 0 && !is_white(text@[i - 1])),
            open ==> texts(found@).push(word@) == words(text@.take(i as int)),
            !open ==> texts(found@) == words(text@.take(i as int)) && word@.len() == 0,
        decreases chars@.len() - i,
    {
        let c = chars[i];
        proof {
            take_step(text@, i as int);
            assert(texts(found@).push(word@).drop_last() =~= texts(found@));
            assert(seq![c] =~= Seq::<char>::empty().push(c));
            if !open {
                assert(word@ =~= Seq::<char>::empty());
            }
        }
        if is_whitespace(c) {
            if open {
                found.push(word);
                word = String::new();
                open = false;
            }
        } else {
            push_char(&mut word, c);
            open = true;
        }
        i = i + 1;
    }
    proof {
        take_all(text@);
    }
    if open {
        found.push(word);
    }
    found
}

/// The parts one after the other, with a separator between each two.
pub open spec fn joined(parts: Seq<Seq<char>>, separator: Seq<char>) -> Seq<char>
    decreases parts.len(),
{
    if parts.len() == 0 {
        Seq::empty()
    } else if parts.len() == 1 {
        parts[0]
    } else {
        joined(parts.drop_last(), separator) + separator + parts.last()
    }
}

/// Joins texts with a separator between each two.
pub fn join(parts: &Vec<String>, separator: &str) -> (whole: String)
    ensures
        whole@ == joined(texts(parts@), separator@),
{
    let mut whole = String::new();
    let mut i: usize = 0;
    let ghost all = texts(parts@);
    proof {
        take_all(all);
    }
    while i < parts.len()
        invariant
            i <= parts@.len(),
            all == texts(parts@),
            whole@ == joined(all.take(i as int), separator@),
        decreases parts@.len() - i,
    {
        proof {
            take_step(all, i as int);
        }
        if i > 0 {
            whole.append(separator);
        }
        whole.append(parts[i].as_str());
        proof {
            if i == 0 {
                assert(whole@ =~= all[0]);
            }
        }
        i = i + 1;
    }
    whole
}

// ---------------------------------------------------------------------------
// Numbers
// ---------------------------------------------------------------------------

/// The character of a decimal digit.
pub open spec fn digit_char(d: nat) -> char {
    ((48 + d) as u32) as char
}

/// A number written in decimal, without leading zeros.
pub open spec fn decimal(n: nat) -> Seq<char>
    decreases n,
{
    if n < 10 {
        seq![digit_char(n)]
    } else {
        decimal(n / 10).push(digit_char(n % 10))
    }
}

/// An integer written in decimal, with a minus sign where it is negative.
pub open spec fn decimal_int(n: int) -> Seq<char> {
    if n < 0 {
        seq!['-'] + decimal((-n) as nat)
    } else {
        decimal(n as nat)
    }
}

/// Writes a number in decimal.
pub fn decimal_text(n: u64) -> (text: String)
    ensures
        text@ == decimal(n as nat),
    decreases n,
{
    let mut text = if n < 10 {
        String::new()
    } else {
        decimal_text(n / 10)
    };
    let digit: u8 = 48 + (n % 10) as u8;
    push_char(&mut text, digit as char);
    proof {
        if n < 10 {
            assert(text@ =~= decimal(n as nat));
        }
    }
    text
}

/// Writes an integer in decimal.
pub fn decimal_int_text(n: i64) -> (text: String)
    ensures
        text@ == decimal_int(n as int),
{
    if n < 0 {
        let magnitude: u64 = if n == i64::MIN {
            0x8000_0000_0000_0000
        } else {
            (-n) as u64
        };
        let mut text = String::new();
        push_char(&mut text, '-');
        let digits = decimal_text(magnitude);
        text.append(digits.as_str());
        assert(text@ =~= seq!['-'] + decimal((-n) as nat));
        text
    } else {
        decimal_text(n as u64)
    }
}

/// The number that a run of decimal digits stands for; nothing where the text is
/// empty or holds another character.
pub open spec fn digits_value(s: Seq<char>) -> Option<nat>
    decreases s.len(),
{
    if s.len() == 0 || !is_digit(s.last()) {
        None
    } else {
        let digit = (s.last() as u32 - 48) as nat;
        if s.len() == 1 {
            Some(digit)
        } else {
            match digits_value(s.drop_last()) {
                Some(high) => Some(high * 10 + digit),
                None => None,
            }
        }
    }
}

/// The unsigned number that a text holds: digits, with an optional plus sign,
/// that stand for at most `max`.
pub open spec fn unsigned_value(s: Seq<char>, max: nat) -> Option<nat> {
    let digits = if s.len() > 0 && s[0] == '+' {
        s.skip(1)
    } else {
        s
    };
    match digits_value(digits) {
        Some(n) => if n <= max {
            Some(n)
        } else {
            None
        },
        None => None,
    }
}

/// The signed number that a text holds: digits, with an optional sign, that
/// stand for an `i64`.
pub open spec fn signed_value(s: Seq<char>) -> Option<int> {
    let negative = s.len() > 0 && s[0] == '-';
    let digits = if s.len() > 0 && (s[0] == '+' || s[0] == '-') {
        s.skip(1)
    } else {
        s
    };
    match digits_value(digits) {
        Some(n) => if negative {
            if n <= 0x8000_0000_0000_0000 {
                Some(-(n as int))
            } else {
                None
            }
        } else {
            if n <= i64::MAX {
                Some(n as int)
            } else {
                None
            }
        },
        None => None,
    }
}

/// A longer run of digits stands for no smaller number.
proof fn digits_value_grows(s: Seq<char>, i: int)
    requires
        1 <= i <= s.len(),
        digits_value(s) is Some,
    ensures
        digits_value(s.take(i)) is Some,
        digits_value(s.take(i))->0 <= digits_value(s)->0,
    decreases s.len(),
{
    if i == s.len() {
        take_all(s);
    } else {
        digits_value_grows(s.drop_last(), i);
        assert(s.drop_last().take(i) =~= s.take(i));
    }
}

/// A run that holds a character other than a digit stands for no number.
proof fn digits_value_is_all_digits(s: Seq<char>, i: int)
    requires
        0 <= i < s.len(),
        digits_value(s) is Some,
    ensures
        is_digit(s[i]),
    decreases s.len(),
{
    if i < s.len() - 1 {
        digits_value_is_all_digits(s.drop_last(), i);
    }
}

/// Reads a run of digits from an index to the end, as far as it fits in a `u64`.
fn read_digits(chars: &Vec<char>, from: usize) -> (value: Option<u64>)
    requires
        from <= chars@.len(),
    ensures
        match (value, digits_value(chars@.skip(from as int))) {
            (Some(v), Some(n)) => v == n,
            (Some(_), None) => false,
            (None, Some(n)) => n > u64::MAX,
            (None, None) => true,
        },
{
    if from == chars.len() {
        return None;
    }
    let ghost digits = chars@.skip(from as int);
    let mut value: u64 = 0;
    let mut i: usize = from;
    while i < chars.len()
        invariant
            from <= i <= chars@.len(),
            from < chars@.len(),
            digits == chars@.skip(from as int),
            i == from ==> value == 0,
            i > from ==> digits_value(digits.take(i - from)) == Some(value as nat),
        decreases chars@.len() - i,
    {
        let c = chars[i];
        proof {
            take_step(digits, i - from);
            assert(digits[i - from] == c);
        }
        if !is_ascii_digit(c) {
            proof {
                if digits_value(digits) is Some {
                    digits_value_is_all_digits(digits, i - from);
                }
            }
            return None;
        }
        let digit: u64 = (c as u32 - 48) as u64;
        let ghost next = value as int * 10 + digit as int;
        proof {
            assert(digits_value(digits.take(i - from + 1)) == Some(next as nat));
            if digits_value(digits) is Some {
                digits_value_grows(digits, i - from + 1);
            }
        }
        if value > (u64::MAX - digit) / 10 {
            return None;
        }
        value = value * 10 + digit;
        i = i + 1;
    }
    proof {
        take_all(digits);
    }
    Some(value)
}

/// Parses an unsigned number of at most `max`, as `str::parse` does for the
/// unsigned integer types.
pub fn parse_unsigned(text: &str, max: u64) -> (value: Option<u64>)
    ensures
        match (value, unsigned_value(text@, max as nat)) {
            (Some(v), Some(n)) => v == n,
            (None, None) => true,
            _ => false,
        },
{
    let chars = chars_of(text);
    let from: usize = if chars.len() > 0 && chars[0] == '+' {
        1
    } else {
        0
    };
    assert(chars@.skip(0) =~= chars@);
    match read_digits(&chars, from) {
        Some(value) => if value <= max {
            Some(value)
        } else {
            None
        },
        None => None,
    }
}

/// Why a text holds no unsigned number.
#[derive(Clone, Copy, Debug, PartialEq, Eq, Structural)]
pub enum NumberError {
    Empty,
    InvalidDigit,
    TooLarge,
}

impl NumberError {
    /// What `str::parse` says of it.
    pub open spec fn message(self) -> Seq<char> {
        match self {
            NumberError::Empty => "cannot parse integer from empty string"@,
            NumberError::InvalidDigit => "invalid digit found in string"@,
            NumberError::TooLarge => "number too large to fit in target type"@,
        }
    }

    /// What `str::parse` says of it.
    pub fn to_text(&self) -> (text: &'static str)
        ensures
            text@ == self.message(),
    {
        match self {
            NumberError::Empty => "cannot parse integer from empty string",
            NumberError::InvalidDigit => "invalid digit found in string",
            NumberError::TooLarge => "number too large to fit in target type",
        }
    }
}

/// Whether the digits that a text starts with stand for more than `max`, as far as some
/// of them go.
pub open spec fn exceeds(s: Seq<char>, max: nat) -> bool {
    exists|i: int|
        0 <= i <= s.len() && (#[trigger] digits_value(s.take(i))) is Some && digits_value(
            s.take(i),
        )->0 > max
}

/// Why a text holds no unsigned number of at most `max`, where it holds none: it is
/// empty; or, read from the front, its digits come to too much; or a character is no
/// digit.
pub open spec fn number_error(s: Seq<char>, max: nat) -> NumberError {
    let digits = if s.len() > 0 && s[0] == '+' {
        s.skip(1)
    } else {
        s
    };
    if s.len() == 0 {
        NumberError::Empty
    } else if exceeds(digits, max) {
        NumberError::TooLarge
    } else {
        NumberError::InvalidDigit
    }
}

/// Finds why a text holds no unsigned number of at most `max`.
fn find_number_error(text: &str, max: u64) -> (error: NumberError)
    ensures
        error == number_error(text@, max as nat),
{
    let chars = chars_of(text);
    if chars.len() == 0 {
        return NumberError::Empty;
    }
    let from: usize = if chars[0] == '+' {
        1
    } else {
        0
    };
    let ghost digits = chars@.skip(from as int);
    assert(from == 0 ==> digits =~= chars@);
    let mut value: u64 = 0;
    let mut i: usize = from;
    while i < chars.len()
        invariant
            from <= i <= chars@.len(),
            chars@.len() > 0,
            from == (if chars@[0] == '+' {
                1int
            } else {
                0
            }),
            chars@ == text@,
            digits == chars@.skip(from as int),
            from == 0 ==> digits == chars@,
            i == from ==> value == 0,
            i > from ==> digits_value(digits.take(i - from)) == Some(value as nat),
            forall|j: int|
                0 <= j <= i - from ==> !((#[trigger] digits_value(digits.take(j))) is Some
                    && digits_value(digits.take(j))->0 > max),
        decreases chars@.len() - i,
    {
        let c = chars[i];
        proof {
            take_step(digits, i - from);
            assert(digits[i - from] == c);
        }
        if !is_ascii_digit(c) {
            proof {
                assert forall|j: int| 0 <= j <= digits.len() implies !((
                #[trigger] digits_value(digits.take(j))) is Some && digits_value(digits.take(j))->0
                    > max) by {
                    if j > i - from && digits_value(digits.take(j)) is Some {
                        digits_value_is_all_digits(digits.take(j), i - from);
                    }
                }
            }
            return NumberError::InvalidDigit;
        }
        let digit: u64 = (c as u32 - 48) as u64;
        let ghost next = value as int * 10 + digit as int;
        assert(digits_value(digits.take(i - from + 1)) == Some(next as nat));
        if digit > max || value > (max - digit) / 10 {
            return NumberError::TooLarge;
        }
        value = value * 10 + digit;
        i = i + 1;
    }
    NumberError::InvalidDigit
}

/// Reads an unsigned number of at most `max`, as `str::parse` does for the unsigned
/// integer types.
pub fn read_unsigned(text: &str, max: u64) -> (value: Result<u64, NumberError>)
    ensures
        match value {
            Ok(v) => unsigned_value(text@, max as nat) == Some(v as nat),
            Err(error) => unsigned_value(text@, max as nat) is None && error == number_error(
                text@,
                max as nat,
            ),
        },
{
    match parse_unsigned(text, max) {
        Some(value) => Ok(value),
        None => Err(find_number_error(text, max)),
    }
}

/// Parses a signed number, as `str::parse` does for `i64`.
pub fn parse_signed(text: &str) -> (value: Option<i64>)
    ensures
        match (value, signed_value(text@)) {
            (Some(v), Some(n)) => v == n,
            (None, None) => true,
            _ => false,
        },
{
    let chars = chars_of(text);
    let negative = chars.len() > 0 && chars[0] == '-';
    let from: usize = if chars.len() > 0 && (chars[0] == '+' || chars[0] == '-') {
        1
    } else {
        0
    };
    assert(chars@.skip(0) =~= chars@);
    match read_digits(&chars, from) {
        Some(value) => if negative {
            if value < 0x8000_0000_0000_0000 {
                Some(-(value as i64))
            } else if value == 0x8000_0000_0000_0000 {
                Some(i64::MIN)
            } else {
                None
            }
        } else if value <= 0x7fff_ffff_ffff_ffff {
            Some(value as i64)
        } else {
            None
        },
        None => None,
    }
}

/// A number reads back from its decimal form.
pub proof fn decimal_reads_back(n: nat)
    ensures
        digits_value(decimal(n)) == Some(n),
        decimal(n).len() > 0,
        forall|i: int| 0 <= i < decimal(n).len() ==> is_digit(#[trigger] decimal(n)[i]),
    decreases n,
{
    if n < 10 {
        assert(decimal(n).last() == digit_char(n));
    } else {
        decimal_reads_back(n / 10);
        assert(decimal(n).drop_last() =~= decimal(n / 10));
    }
}

/// A number no larger than `max` parses back from its decimal form.
pub proof fn decimal_parses_back(n: nat, max: nat)
    requires
        n <= max,
    ensures
        unsigned_value(decimal(n), max) == Some(n),
{
    decimal_reads_back(n);
}

// ---------------------------------------------------------------------------
// Searching
// ---------------------------------------------------------------------------

/// Whether one text stands somewhere in another.
pub open spec fn occurs_in(part: Seq<char>, whole: Seq<char>) -> bool {
    exists|i: int|
        0 <= i <= whole.len() - part.len() && #[trigger] whole.subrange(i, i + part.len()) == part
}

/// Whether one text stands somewhere in another.
pub fn contains_text(whole: &str, part: &str) -> (found: bool)
    ensures
        found == occurs_in(part@, whole@),
{
    let all = whole.unicode_len();
    let size = part.unicode_len();
    let mut i: usize = 0;
    while size <= all && i <= all - size
        invariant
            all == whole@.len(),
            size == part@.len(),
            size <= all ==> i <= all - size + 1,
            forall|j: int| 0 <= j < i ==> #[trigger] whole@.subrange(j, j + part@.len()) != part@,
        decreases all - i,
    {
        if same_text(whole.substring_char(i, i + size), part) {
            assert(whole@.subrange(i as int, i + part@.len()) == part@);
            return true;
        }
        if i == all - size {
            return false;
        }
        i = i + 1;
    }
    false
}

// ---------------------------------------------------------------------------
// Letter case
// ---------------------------------------------------------------------------

/// A character with an ASCII capital made small.
pub open spec fn ascii_lower(c: char) -> char {
    if 'A' <= c <= 'Z' {
        ((c as u32 + 32) as u32) as char
    } else {
        c
    }
}

/// A text with its ASCII capitals made small.
pub open spec fn lowercased(s: Seq<char>) -> Seq<char> {
    Seq::new(s.len(), |i: int| ascii_lower(s[i]))
}

/// Makes the ASCII capitals of a text small.
pub fn to_ascii_lowercase(text: &str) -> (lower: String)
    ensures
        lower@ == lowercased(text@),
{
    let chars = chars_of(text);
    let mut lower = String::new();
    let mut i: usize = 0;
    while i < chars.len()
        invariant
            i <= chars@.len(),
            chars@ == text@,
            lower@ == lowercased(text@).take(i as int),
        decreases chars@.len() - i,
    {
        let c = chars[i];
        proof {
            take_step(lowercased(text@), i as int);
        }
        if 'A' <= c && c <= 'Z' {
            let n: u8 = (c as u32 + 32) as u8;
            push_char(&mut lower, n as char);
        } else {
            push_char(&mut lower, c);
        }
        i = i + 1;
    }
    proof {
        take_all(lowercased(text@));
    }
    lower
}

} // verus!
