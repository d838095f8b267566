//! What versions are read as, and which numbers of lines can be counted.

use vstd::prelude::*;

use crate::calls::ProblemView;
use crate::changes::{ends_fit, head_fits, is_head, line_numbers_fit};
use crate::text::{
    decimal, decimal_reads_back, digit_char, is_digit, is_white, split, split_at_separator,
    split_is_not_empty, split_without_separator, words, words_without_white, NumberError,
};
use crate::version::{digit_run, numeric_word, version_in, version_text, CodexVersion, VersionError};

verus! {

/// Whether a text holds no white space.
pub open spec fn has_no_white(s: Seq<char>) -> bool {
    forall|i: int| 0 <= i < s.len() ==> !is_white(#[trigger] s[i])
}

/// A version is read from behind the name of a program, and whatever is written behind its
/// digits makes no difference.
pub proof fn versions_are_read_behind_a_name(
    name: Seq<char>,
    version: CodexVersion,
    tail: Seq<char>,
)
    requires
        name.len() > 0 && !is_digit(name[0]) && has_no_white(name),
        has_no_white(tail),
        tail.len() > 0 ==> !is_digit(tail[0]),
    ensures
        version_in(name + seq![' '] + version_text(version) + tail) == Ok::<
            CodexVersion,
            VersionError,
        >(version),
        version_in(version_text(version) + tail) == Ok::<CodexVersion, VersionError>(version),
{
    let word = version_text(version) + tail;
    version_words_are_read(version, tail);
    let text = name + seq![' '] + version_text(version) + tail;
    let before = name.push(' ');
    assert(text =~= before + word);
    assert(before.drop_last() =~= name);
    assert(is_white(' '));
    words_without_white(name);
    assert(words(before) == seq![name]);
    words_go_on(before, word);
    words_without_white(word);
    assert(words(text) =~= seq![name, word]);
    assert(seq![name, word].skip(1) =~= seq![word]);
    assert(seq![name, word][0] == name);
    reveal_with_fuel(numeric_word, 3);
    assert(numeric_word(seq![name, word]) == Some(word));
    assert(numeric_word(seq![word]) == Some(word));
}

/// A text in which no word starts with a digit has no version; one number alone has no minor
/// version, and two have no patch version.
pub proof fn parts_of_versions_are_missed(word: Seq<char>, major: u64, minor: u64)
    requires
        word.len() > 0 && !is_digit(word[0]) && has_no_white(word),
    ensures
        version_in(word) == Err::<CodexVersion, VersionError>(VersionError::MissingVersionNumber),
        version_in(decimal(major as nat)) == Err::<CodexVersion, VersionError>(
            VersionError::MissingMinor,
        ),
        version_in(decimal(major as nat).push('.') + decimal(minor as nat)) == Err::<
            CodexVersion,
            VersionError,
        >(VersionError::MissingPatch),
{
    let dot = seq!['.'];
    assert(dot.contains('.')) by {
        assert(dot[0] == '.');
    }
    let a = decimal(major as nat);
    let b = decimal(minor as nat);
    decimal_reads_back(major as nat);
    decimal_reads_back(minor as nat);
    words_without_white(word);
    reveal_with_fuel(numeric_word, 3);
    assert(seq![word].skip(1) =~= Seq::<Seq<char>>::empty());
    assert(seq![word][0] == word);
    words_without_white(a);
    assert(seq![a][0] == a);
    split_without_separator(a, dot);
    split_without_separator(b, dot);
    split_at_separator(a, '.', b, dot);
    let both = a.push('.') + b;
    assert forall|i: int| 0 <= i < both.len() implies !is_white(#[trigger] both[i]) by {
        if i < a.len() {
            assert(both[i] == a[i]);
        } else if i > a.len() {
            assert(both[i] == b[i - a.len() - 1]);
        }
    }
    words_without_white(both);
    assert(seq![both][0] == both);
    assert(both[0] == a[0]);
    assert(split(both, dot) =~= seq![a, b]);
}

/// What is wrong with a version is said, and why a part of it is no number.
pub proof fn version_errors_say_what_is_wrong(error: NumberError)
    ensures
        VersionError::MissingVersionNumber.problem() == (ProblemView {
            message: "missing version number"@,
            cause: None,
        }),
        VersionError::MissingMinor.problem() == (ProblemView {
            message: "missing minor version"@,
            cause: None,
        }),
        VersionError::MissingPatch.problem() == (ProblemView {
            message: "missing patch version"@,
            cause: None,
        }),
        VersionError::InvalidMajor(error).problem() == (ProblemView {
            message: "invalid major version"@,
            cause: Some(error.message()),
        }),
        VersionError::InvalidMinor(error).problem() == (ProblemView {
            message: "invalid minor version"@,
            cause: Some(error.message()),
        }),
        VersionError::InvalidPatch(error).problem() == (ProblemView {
            message: "invalid patch version"@,
            cause: Some(error.message()),
        }),
{
}

proof fn words_go_on(before: Seq<char>, word: Seq<char>)
    requires
        before.len() > 0,
        is_white(before.last()),
        word.len() > 0,
        has_no_white(word),
    ensures
        words(before + word) == words(before).push(word),
    decreases word.len(),
{
    let whole = before + word;
    let init = word.drop_last();
    assert(whole.drop_last() =~= before + init);
    assert(!is_white(word[word.len() - 1]));
    if init.len() == 0 {
        assert(before + init =~= before);
        assert(seq![word.last()] =~= word);
    } else {
        assert forall|i: int| 0 <= i < init.len() implies !is_white(#[trigger] init[i]) by {
            assert(init[i] == word[i]);
        }
        words_go_on(before, init);
        assert((before + init).last() == init[init.len() - 1]);
        assert(words(before).push(init).drop_last() =~= words(before));
        assert(init.push(word.last()) =~= word);
    }
}

proof fn version_words_are_read(version: CodexVersion, tail: Seq<char>)
    requires
        has_no_white(tail),
        tail.len() > 0 ==> !is_digit(tail[0]),
    ensures
        ({
            let word = version_text(version) + tail;
            &&& word.len() > 0
            &&& is_digit(word[0])
            &&& has_no_white(word)
            &&& version_in(word) == Ok::<CodexVersion, VersionError>(version)
            &&& crate::version::version_of(split(word, seq!['.'])) == Ok::<
                CodexVersion,
                VersionError,
            >(version)
        }),
{
    reveal_strlit(".");
    let dot = seq!['.'];
    let a = decimal(version.major as nat);
    let b = decimal(version.minor as nat);
    let c = decimal(version.patch as nat);
    decimal_reads_back(version.major as nat);
    decimal_reads_back(version.minor as nat);
    decimal_reads_back(version.patch as nat);
    let word = version_text(version) + tail;
    let last = c + tail;
    let rest = b.push('.') + last;
    assert(word =~= a.push('.') + rest);
    assert(dot.contains('.')) by {
        assert(dot[0] == '.');
    }
    assert forall|i: int| 0 <= i < word.len() implies !is_white(#[trigger] word[i]) by {
        let size = a.len() + b.len() + c.len() + 2;
        if i < a.len() {
            assert(word[i] == a[i]);
        } else if a.len() < i < a.len() + 1 + b.len() {
            assert(word[i] == b[i - a.len() - 1]);
        } else if a.len() + 1 + b.len() < i < size {
            assert(word[i] == c[i - a.len() - b.len() - 2]);
        } else if i >= size {
            assert(word[i] == tail[i - size]);
        }
    }
    assert(word[0] == a[0]);
    words_without_white(word);
    assert(seq![word][0] == word);
    assert(numeric_word(seq![word]) == Some(word));
    split_at_separator(a, '.', rest, dot);
    split_at_separator(b, '.', last, dot);
    split_without_separator(a, dot);
    split_without_separator(b, dot);
    assert forall|i: int| 0 <= i < c.len() implies !dot.contains(#[trigger] c[i]) by {
        assert(is_digit(c[i]));
    }
    first_part_goes_on(c, tail, dot);
    split_is_not_empty(tail, dot);
    split_is_not_empty(last, dot);
    let parts = split(word, dot);
    assert(parts =~= seq![a] + (seq![b] + split(last, dot)));
    assert(parts[2] == split(last, dot)[0]);
    let end = split(tail, dot)[0];
    first_part_starts_the_text(tail, dot);
    assert(end.len() > 0 ==> end[0] == tail[0]);
    digits_run_to(c, end);
    assert((c + end).take(c.len() as int) =~= c);
}

proof fn first_part_starts_the_text(s: Seq<char>, separators: Seq<char>)
    ensures
        split(s, separators)[0].len() <= s.len(),
        split(s, separators)[0].len() > 0 ==> s.len() > 0 && split(s, separators)[0][0] == s[0],
    decreases s.len(),
{
    if s.len() > 0 {
        let init = s.drop_last();
        first_part_starts_the_text(init, separators);
        split_is_not_empty(init, separators);
        let parts = split(init, separators);
        if !separators.contains(s.last()) && parts.len() == 1 {
            crate::text::single_part_is_the_text(init, separators);
        }
    }
}

proof fn first_part_goes_on(first: Seq<char>, tail: Seq<char>, separators: Seq<char>)
    requires
        forall|i: int| 0 <= i < first.len() ==> !separators.contains(#[trigger] first[i]),
    ensures
        split(first + tail, separators)[0] == first + split(tail, separators)[0],
        split(first + tail, separators).len() == split(tail, separators).len(),
    decreases tail.len(),
{
    if tail.len() == 0 {
        assert(first + tail =~= first);
        split_without_separator(first, separators);
        assert(first + split(tail, separators)[0] =~= first);
    } else {
        let init = tail.drop_last();
        assert((first + tail).drop_last() =~= first + init);
        first_part_goes_on(first, init, separators);
        split_is_not_empty(init, separators);
        split_is_not_empty(first + init, separators);
        let parts = split(init, separators);
        let whole = split(first + init, separators);
        if !separators.contains(tail.last()) && parts.len() == 1 {
            assert(whole.drop_last() =~= Seq::<Seq<char>>::empty());
            assert(parts.drop_last() =~= Seq::<Seq<char>>::empty());
            assert(whole[0].push(tail.last()) =~= first + parts[0].push(tail.last()));
        }
    }
}

proof fn digits_run_to(digits: Seq<char>, end: Seq<char>)
    requires
        forall|i: int| 0 <= i < digits.len() ==> is_digit(#[trigger] digits[i]),
        end.len() > 0 ==> !is_digit(end[0]),
    ensures
        digit_run(digits + end) == digits.len(),
    decreases digits.len(),
{
    let s = digits + end;
    if digits.len() == 0 {
        assert(s =~= end);
    } else {
        assert(s[0] == digits[0]);
        assert(s.skip(1) =~= digits.skip(1) + end);
        assert forall|i: int| 0 <= i < digits.skip(1).len() implies is_digit(
            #[trigger] digits.skip(1)[i],
        ) by {
            assert(digits.skip(1)[i] == digits[i + 1]);
        }
        digits_run_to(digits.skip(1), end);
    }
}

/// The head of a hunk: the first line and the length of the range that it had, and of the range
/// that it has.
pub open spec fn head_of(old_first: nat, old_size: nat, first: nat, size: nat) -> Seq<char> {
    "@@ "@ + (seq!['-'] + decimal(old_first) + seq![','] + decimal(old_size) + seq![' ', '+']
        + decimal(first) + seq![','] + decimal(size) + seq![' ', '@', '@'])
}

/// A diff of two hunks is taken exactly where the ends of both ranges of the first hunk can be
/// counted.
pub proof fn ends_of_ranges_can_be_counted(
    old_first: nat,
    old_size: nat,
    first: nat,
    size: nat,
    line: Seq<char>,
)
    requires
        is_head(line),
        forall|i: int| 0 <= i < line.len() ==> #[trigger] line[i] != '\n',
    ensures
        line_numbers_fit(head_of(old_first, old_size, first, size).push('\n') + line) <==> old_first
            + old_size <= usize::MAX && first + size <= usize::MAX,
        line_numbers_fit(line),
{
    let limit = usize::MAX as nat;
    let head = head_of(old_first, old_size, first, size);
    let newline = seq!['\n'];
    assert(newline.contains('\n')) by {
        assert(newline[0] == '\n');
    }
    reveal_strlit("@@ ");
    let a = decimal(old_first);
    let b = decimal(old_size);
    let c = decimal(first);
    let d = decimal(size);
    decimal_reads_back(old_first);
    decimal_reads_back(old_size);
    decimal_reads_back(first);
    decimal_reads_back(size);
    let ranges = head.skip(3);
    assert(head.take(3) =~= "@@ "@);
    let tail = seq![' ', '@', '@'];
    let fourth = d + tail;
    let third = c + (seq![','] + fourth);
    let second = b + (seq![' ', '+'] + third);
    let start = a + (seq![','] + second);
    assert(ranges =~= seq!['-'] + start);
    assert(ranges[0] == '-');
    assert(ranges.skip(1) =~= start);
    assert(ends_fit(ranges, None, 0, limit) == ends_fit(start, None, 0, limit));
    numbers_are_counted(old_first, seq![','] + second, None, limit);
    assert((seq![','] + second).skip(1) =~= second);
    assert((seq![','] + second)[0] == ',');
    numbers_are_counted(old_size, seq![' ', '+'] + third, Some(old_first), limit);
    let spaced = seq![' ', '+'] + third;
    assert(spaced[0] == ' ' && spaced.skip(1)[0] == '+');
    assert(spaced.skip(1).skip(1) =~= third);
    assert(ends_fit(spaced.skip(1), None, 0, limit) == ends_fit(third, None, 0, limit));
    numbers_are_counted(first, seq![','] + fourth, None, limit);
    assert((seq![','] + fourth).skip(1) =~= fourth);
    assert((seq![','] + fourth)[0] == ',');
    numbers_are_counted(size, tail, Some(first), limit);
    assert(tail[0] == ' ' && tail.skip(1)[0] == '@');
    assert(ends_fit(seq![','] + second, None, old_first, limit) == ends_fit(
        second,
        Some(old_first),
        0,
        limit,
    ));
    assert(ends_fit(spaced, Some(old_first), old_size, limit) == ends_fit(
        spaced.skip(1),
        None,
        0,
        limit,
    ));
    assert(ends_fit(seq![','] + fourth, None, first, limit) == ends_fit(
        fourth,
        Some(first),
        0,
        limit,
    ));
    assert(ends_fit(tail.skip(1), None, 0, limit));
    assert(ends_fit(tail, Some(first), size, limit));
    assert(head_fits(head) == ends_fit(ranges, None, 0, limit));
    assert(head_fits(head) <==> old_first + old_size <= limit && first + size <= limit);
    assert forall|i: int| 0 <= i < head.len() implies !newline.contains(#[trigger] head[i]) by {
        if i < 3 {
            assert(head[i] == "@@ "@[i]);
        } else {
            let at = i - 3;
            assert(head[i] == ranges[at]);
            head_holds_no_newline(a, b, c, d, at);
        }
    }
    assert forall|i: int| 0 <= i < line.len() implies !newline.contains(#[trigger] line[i]) by {}
    split_without_separator(head, newline);
    split_without_separator(line, newline);
    split_at_separator(head, '\n', line, newline);
    let lines = split(head.push('\n') + line, newline);
    assert(lines =~= seq![head, line]);
    assert(lines[0] == head && lines[1] == line);
}

proof fn head_holds_no_newline(a: Seq<char>, b: Seq<char>, c: Seq<char>, d: Seq<char>, i: int)
    requires
        forall|k: int| 0 <= k < a.len() ==> is_digit(#[trigger] a[k]),
        forall|k: int| 0 <= k < b.len() ==> is_digit(#[trigger] b[k]),
        forall|k: int| 0 <= k < c.len() ==> is_digit(#[trigger] c[k]),
        forall|k: int| 0 <= k < d.len() ==> is_digit(#[trigger] d[k]),
        0 <= i < 8 + a.len() + b.len() + c.len() + d.len(),
    ensures
        (seq!['-'] + a + seq![','] + b + seq![' ', '+'] + c + seq![','] + d + seq![
            ' ',
            '@',
            '@',
        ])[i] != '\n',
{
    let p = 1 + a.len();
    let q = p + 1 + b.len();
    let r = q + 2 + c.len();
    let t = r + 1 + d.len();
    let s = seq!['-'] + a + seq![','] + b + seq![' ', '+'] + c + seq![','] + d + seq![' ', '@', '@'];
    if 1 <= i < p {
        assert(s[i] == a[i - 1]);
    } else if p < i < q {
        assert(s[i] == b[i - p - 1]);
    } else if q + 1 < i < r {
        assert(s[i] == c[i - q - 2]);
    } else if r < i < t {
        assert(s[i] == d[i - r - 1]);
    }
}

proof fn numbers_are_counted(n: nat, rest: Seq<char>, before: Option<nat>, limit: nat)
    requires
        rest.len() > 0 && !is_digit(rest[0]),
    ensures
        ends_fit(decimal(n) + rest, before, 0, limit) == (n + before.unwrap_or(0) <= limit
            && ends_fit(rest, before, n, limit)),
{
    decimal_reads_back(n);
    digits_are_counted(decimal(n), rest, before, 0, limit);
    decimal_counts_up(n);
}

/// What a number comes to once some digits were read behind what was read so far.
spec fn counted_on(so_far: nat, digits: Seq<char>) -> nat
    decreases digits.len(),
{
    if digits.len() == 0 {
        so_far
    } else {
        counted_on(so_far * 10 + (digits[0] as u32 - 48) as nat, digits.skip(1))
    }
}

proof fn digits_are_counted(
    digits: Seq<char>,
    rest: Seq<char>,
    before: Option<nat>,
    so_far: nat,
    limit: nat,
)
    requires
        forall|i: int| 0 <= i < digits.len() ==> is_digit(#[trigger] digits[i]),
        rest.len() > 0 && !is_digit(rest[0]),
        digits.len() == 0 ==> so_far + before.unwrap_or(0) <= limit,
    ensures
        ends_fit(digits + rest, before, so_far, limit) == (counted_on(so_far, digits)
            + before.unwrap_or(0) <= limit && ends_fit(
            rest,
            before,
            counted_on(so_far, digits),
            limit,
        )),
        counted_on(so_far, digits) >= so_far,
    decreases digits.len(),
{
    let s = digits + rest;
    if digits.len() == 0 {
        assert(s =~= rest);
    } else {
        let n = so_far * 10 + (digits[0] as u32 - 48) as nat;
        let others = digits.skip(1);
        assert(s[0] == digits[0]);
        assert(s.skip(1) =~= others + rest);
        assert forall|i: int| 0 <= i < others.len() implies is_digit(#[trigger] others[i]) by {
            assert(others[i] == digits[i + 1]);
        }
        if n + before.unwrap_or(0) <= limit || others.len() > 0 {
            digits_are_counted(others, rest, before, n, limit);
        }
    }
}

proof fn decimal_counts_up(n: nat)
    ensures
        counted_on(0, decimal(n)) == n,
    decreases n,
{
    if n < 10 {
        reveal_with_fuel(counted_on, 2);
    } else {
        decimal_counts_up(n / 10);
        counting_goes_on(0, decimal(n / 10), digit_char(n % 10));
    }
}

proof fn counting_goes_on(so_far: nat, digits: Seq<char>, c: char)
    requires
        is_digit(c),
    ensures
        counted_on(so_far, digits.push(c)) == counted_on(so_far, digits) * 10 + (c as u32
            - 48) as nat,
    decreases digits.len(),
{
    let all = digits.push(c);
    if digits.len() == 0 {
        assert(all.skip(1) =~= Seq::<char>::empty());
        reveal_with_fuel(counted_on, 2);
    } else {
        assert(all.skip(1) =~= digits.skip(1).push(c));
        counting_goes_on(so_far * 10 + (digits[0] as u32 - 48) as nat, digits.skip(1), c);
    }
}

} // verus!
