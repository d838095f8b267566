//! Which Codex executable is used: where it is looked for, and which versions of
//! it are supported.

use vstd::prelude::*;

use crate::calls::{
    in_one_line, plain_problem, problem, problem_after, problem_with_cause, Problem, ProblemView,
};
use crate::text::{
    chars_of, concat2, concat3, concat4, concat5, contains_text, decimal, decimal_reads_back,
    decimal_text, either, is_ascii_digit, is_digit, is_white, number_error, occurs_in, opt_text,
    read_unsigned, same_text, split, split_at_separator, split_is_not_empty, split_text, split_without_separator,
    split_words, text_of, texts, trim, trimmed, unsigned_value, words, words_without_white,
    NumberError,
};

verus! {

/// A version of Codex.
#[derive(Clone, Copy, Debug, PartialEq, Eq, PartialOrd, Ord)]
pub struct CodexVersion {
    pub major: u64,
    pub minor: u64,
    pub patch: u64,
}

/// Why a text names no version.
#[derive(Clone, Copy, Debug, PartialEq, Eq, Structural)]
pub enum VersionError {
    MissingVersionNumber,
    InvalidMajor(NumberError),
    MissingMinor,
    InvalidMinor(NumberError),
    MissingPatch,
    InvalidPatch(NumberError),
}

/// The first of some words that starts with a digit.
pub open spec fn numeric_word(words: Seq<Seq<char>>) -> Option<Seq<char>>
    decreases words.len(),
{
    if words.len() == 0 {
        None
    } else if words[0].len() > 0 && is_digit(words[0][0]) {
        Some(words[0])
    } else {
        numeric_word(words.skip(1))
    }
}

/// How many digits a text starts with.
pub open spec fn digit_run(s: Seq<char>) -> nat
    decreases s.len(),
{
    if s.len() > 0 && is_digit(s[0]) {
        1 + digit_run(s.skip(1))
    } else {
        0
    }
}

/// The version whose parts are given; of the third part only the digits count
/// that it starts with.
pub open spec fn version_of(parts: Seq<Seq<char>>) -> Result<CodexVersion, VersionError> {
    match unsigned_value(parts[0], u64::MAX as nat) {
        None => Err(VersionError::InvalidMajor(number_error(parts[0], u64::MAX as nat))),
        Some(major) => if parts.len() < 2 {
            Err(VersionError::MissingMinor)
        } else {
            match unsigned_value(parts[1], u64::MAX as nat) {
                None => Err(VersionError::InvalidMinor(number_error(parts[1], u64::MAX as nat))),
                Some(minor) => if parts.len() < 3 {
                    Err(VersionError::MissingPatch)
                } else {
                    let digits = parts[2].take(digit_run(parts[2]) as int);
                    match unsigned_value(digits, u64::MAX as nat) {
                        None => Err(
                            VersionError::InvalidPatch(number_error(digits, u64::MAX as nat)),
                        ),
                        Some(patch) => Ok(
                            CodexVersion {
                                major: major as u64,
                                minor: minor as u64,
                                patch: patch as u64,
                            },
                        ),
                    }
                },
            }
        },
    }
}

impl VersionError {
    /// What is said of it.
    pub open spec fn message(self) -> Seq<char> {
        match self {
            VersionError::MissingVersionNumber => "missing version number"@,
            VersionError::InvalidMajor(_) => "invalid major version"@,
            VersionError::MissingMinor => "missing minor version"@,
            VersionError::InvalidMinor(_) => "invalid minor version"@,
            VersionError::MissingPatch => "missing patch version"@,
            VersionError::InvalidPatch(_) => "invalid patch version"@,
        }
    }

    /// What is said of it.
    pub fn to_text(&self) -> (text: String)
        ensures
            text@ == self.message(),
    {
        let text = match self {
            VersionError::MissingVersionNumber => "missing version number",
            VersionError::InvalidMajor(_) => "invalid major version",
            VersionError::MissingMinor => "missing minor version",
            VersionError::InvalidMinor(_) => "invalid minor version",
            VersionError::MissingPatch => "missing patch version",
            VersionError::InvalidPatch(_) => "invalid patch version",
        };
        text.to_owned()
    }

    /// It as a problem: what is behind it is why a part is no number.
    pub open spec fn problem(self) -> ProblemView {
        match self {
            VersionError::InvalidMajor(error)
            | VersionError::InvalidMinor(error)
            | VersionError::InvalidPatch(error) => problem_after(self.message(), error.message()),
            _ => plain_problem(self.message()),
        }
    }

    /// It as a problem.
    pub fn to_problem(&self) -> (made: Problem)
        ensures
            made@ == self.problem(),
    {
        let message = self.to_text();
        match self {
            VersionError::InvalidMajor(error)
            | VersionError::InvalidMinor(error)
            | VersionError::InvalidPatch(error) => problem_with_cause(
                message.as_str(),
                error.to_text(),
            ),
            _ => problem(message.as_str()),
        }
    }
}

/// The version that a text names: its first word that starts with a digit, in
/// three parts with dots between them.
pub open spec fn version_in(output: Seq<char>) -> Result<CodexVersion, VersionError> {
    match numeric_word(words(output)) {
        None => Err(VersionError::MissingVersionNumber),
        Some(word) => version_of(split(word, seq!['.'])),
    }
}

/// Finds the first word that starts with a digit.
fn find_numeric_word(found: &Vec<String>) -> (word: Option<&String>)
    ensures
        match word {
            Some(word) => numeric_word(texts(found@)) == Some(word@),
            None => numeric_word(texts(found@)) is None,
        },
{
    let ghost all = texts(found@);
    let mut i: usize = 0;
    assert(all.skip(0) =~= all);
    while i < found.len()
        invariant
            i <= found@.len(),
            all == texts(found@),
            numeric_word(all) == numeric_word(all.skip(i as int)),
        decreases found@.len() - i,
    {
        assert(all.skip(i as int)[0] == found@[i as int]@);
        assert(all.skip(i as int).skip(1) =~= all.skip(i + 1));
        let word = found[i].as_str();
        if word.unicode_len() > 0 && is_ascii_digit(word.get_char(0)) {
            return Some(&found[i]);
        }
        i = i + 1;
    }
    None
}

/// The digits that a text starts with.
fn leading_digits(text: &str) -> (digits: String)
    ensures
        digits@ == text@.take(digit_run(text@) as int),
{
    let chars = chars_of(text);
    let mut i: usize = 0;
    assert(chars@.skip(0) =~= chars@);
    while i < chars.len() && is_ascii_digit(chars[i])
        invariant
            i <= chars@.len(),
            digit_run(chars@) == i + digit_run(chars@.skip(i as int)),
        decreases chars@.len() - i,
    {
        assert(chars@.skip(i as int).skip(1) =~= chars@.skip(i + 1));
        i = i + 1;
    }
    assert(chars@.subrange(0, i as int) =~= chars@.take(i as int));
    text_of(&chars, 0, i)
}

/// Reads the version that a text names.
pub fn parse_codex_version(output: &str) -> (version: Result<CodexVersion, VersionError>)
    ensures
        version == version_in(output@),
{
    let found = split_words(output);
    let word = match find_numeric_word(&found) {
        Some(word) => word,
        None => return Err(VersionError::MissingVersionNumber),
    };
    let parts = split_text(word.as_str(), &['.']);
    proof {
        assert(['.']@ =~= seq!['.']);
        split_is_not_empty(word@, seq!['.']);
        assert(texts(parts@).len() == parts@.len());
    }
    let major: u64 = match read_unsigned(parts[0].as_str(), u64::MAX) {
        Ok(major) => major,
        Err(error) => return Err(VersionError::InvalidMajor(error)),
    };
    if parts.len() < 2 {
        return Err(VersionError::MissingMinor);
    }
    let minor: u64 = match read_unsigned(parts[1].as_str(), u64::MAX) {
        Ok(minor) => minor,
        Err(error) => return Err(VersionError::InvalidMinor(error)),
    };
    if parts.len() < 3 {
        return Err(VersionError::MissingPatch);
    }
    let digits = leading_digits(parts[2].as_str());
    let patch: u64 = match read_unsigned(digits.as_str(), u64::MAX) {
        Ok(patch) => patch,
        Err(error) => return Err(VersionError::InvalidPatch(error)),
    };
    Ok(CodexVersion { major, minor, patch })
}

/// The version as text.
pub open spec fn version_text(version: CodexVersion) -> Seq<char> {
    decimal(version.major as nat) + "."@ + decimal(version.minor as nat) + "."@ + decimal(
        version.patch as nat,
    )
}

/// Whether one version comes before another.
pub open spec fn precedes(a: CodexVersion, b: CodexVersion) -> bool {
    ||| a.major < b.major
    ||| a.major == b.major && a.minor < b.minor
    ||| a.major == b.major && a.minor == b.minor && a.patch < b.patch
}

/// The oldest version that is supported.
pub open spec fn minimum_version() -> CodexVersion {
    CodexVersion { major: 0, minor: 142, patch: 0 }
}

impl CodexVersion {
    /// The version as text.
    pub fn to_text(&self) -> (text: String)
        ensures
            text@ == version_text(*self),
    {
        concat5(
            decimal_text(self.major).as_str(),
            ".",
            decimal_text(self.minor).as_str(),
            ".",
            decimal_text(self.patch).as_str(),
        )
    }

    /// Whether this version comes before another.
    pub fn older_than(&self, other: &CodexVersion) -> (older: bool)
        ensures
            older == precedes(*self, *other),
    {
        self.major < other.major || (self.major == other.major && (self.minor < other.minor || (
        self.minor == other.minor && self.patch < other.patch)))
    }
}

/// The oldest version that is supported.
pub fn minimum_codex_version() -> (version: CodexVersion)
    ensures
        version == minimum_version(),
{
    CodexVersion { major: 0, minor: 142, patch: 0 }
}

/// Versions are ordered in a line: none comes before itself, of two that differ
/// exactly one comes before the other, and what comes before an earlier one comes
/// before a later one.
pub proof fn versions_are_ordered(a: CodexVersion, b: CodexVersion, c: CodexVersion)
    ensures
        !precedes(a, a),
        a != b ==> precedes(a, b) != precedes(b, a),
        precedes(a, b) && precedes(b, c) ==> precedes(a, c),
{
}

/// A run of digits is all digits.
proof fn digits_run_on(s: Seq<char>)
    requires
        forall|i: int| 0 <= i < s.len() ==> is_digit(#[trigger] s[i]),
    ensures
        digit_run(s) == s.len(),
    decreases s.len(),
{
    if s.len() > 0 {
        assert forall|i: int| 0 <= i < s.skip(1).len() implies is_digit(
            #[trigger] s.skip(1)[i],
        ) by {
            assert(s.skip(1)[i] == s[i + 1]);
        }
        digits_run_on(s.skip(1));
    }
}

/// A version reads back from its text.
pub proof fn version_reads_back(version: CodexVersion)
    ensures
        version_in(version_text(version)) == Ok::<CodexVersion, VersionError>(version),
{
    reveal_strlit(".");
    let dot = seq!['.'];
    let a = decimal(version.major as nat);
    let b = decimal(version.minor as nat);
    let c = decimal(version.patch as nat);
    decimal_reads_back(version.major as nat);
    decimal_reads_back(version.minor as nat);
    decimal_reads_back(version.patch as nat);
    let text = version_text(version);
    let tail = b.push('.') + c;
    assert(text =~= a.push('.') + tail);
    assert(dot.contains('.')) by {
        assert(dot[0] == '.');
    }
    assert forall|i: int| 0 <= i < text.len() implies !is_white(#[trigger] text[i]) by {
        if i < a.len() {
            assert(text[i] == a[i]);
        } else if a.len() < i < a.len() + 1 + b.len() {
            assert(text[i] == b[i - a.len() - 1]);
        } else if i > a.len() + 1 + b.len() {
            assert(text[i] == c[i - a.len() - b.len() - 2]);
        }
    }
    words_without_white(text);
    assert(text[0] == a[0]);
    assert(numeric_word(seq![text]) == Some(text));
    split_at_separator(a, '.', tail, dot);
    split_at_separator(b, '.', c, dot);
    split_without_separator(a, dot);
    split_without_separator(b, dot);
    split_without_separator(c, dot);
    assert(split(text, dot) =~= seq![a, b, c]);
    digits_run_on(c);
    assert(c.take(c.len() as int) =~= c);
}

/// What the first probe of an executable shows: its version, or why it cannot be
/// used.
pub open spec fn version_probe_outcome(
    path: Seq<char>,
    success: bool,
    status: Seq<char>,
    stdout: Seq<char>,
) -> Result<CodexVersion, ProblemView> {
    if !success {
        Err(plain_problem("`"@ + path + "` --version exited with "@ + status))
    } else {
        match version_in(trimmed(stdout)) {
            Err(error) => Err(
                problem_after(
                    "failed to parse Codex version from `"@ + trimmed(stdout) + "`"@,
                    in_one_line(error.problem()),
                ),
            ),
            Ok(version) => if precedes(version, minimum_version()) {
                Err(
                    plain_problem(
                        "Codex "@ + version_text(version) + " is not supported; need at least "@
                            + version_text(minimum_version()),
                    ),
                )
            } else {
                Ok(version)
            },
        }
    }
}

/// Judges what an executable printed when it was asked for its version.
pub fn check_version_probe(path: &str, success: bool, status: &str, stdout: &str) -> (outcome:
    Result<CodexVersion, Problem>)
    ensures
        match outcome {
            Ok(version) => version_probe_outcome(path@, success, status@, stdout@) == Ok::<
                CodexVersion,
                ProblemView,
            >(version),
            Err(error) => version_probe_outcome(path@, success, status@, stdout@) == Err::<
                CodexVersion,
                ProblemView,
            >(error@),
        },
{
    if !success {
        return Err(problem(concat4("`", path, "` --version exited with ", status).as_str()));
    }
    let output = trim(stdout);
    match parse_codex_version(output) {
        Err(error) => Err(
            problem_with_cause(
                concat3("failed to parse Codex version from `", output, "`").as_str(),
                error.to_problem().to_line().as_str(),
            ),
        ),
        Ok(version) => {
            let minimum = minimum_codex_version();
            if version.older_than(&minimum) {
                Err(
                    problem(
                        concat4(
                            "Codex ",
                            version.to_text().as_str(),
                            " is not supported; need at least ",
                            minimum.to_text().as_str(),
                        ).as_str(),
                    ),
                )
            } else {
                Ok(version)
            }
        },
    }
}

/// What the second probe of an executable shows: that it can be talked to, or that it
/// cannot.
pub open spec fn help_probe_outcome(
    path: Seq<char>,
    success: bool,
    stdout: Seq<char>,
    stderr: Seq<char>,
) -> Result<(), ProblemView> {
    if success && occurs_in("--stdio"@, stdout + stderr) {
        Ok(())
    } else {
        Err(plain_problem("`"@ + path + "` does not expose `codex app-server --stdio`"@))
    }
}

/// Judges what an executable printed when it was asked for help on its server:
/// it has to succeed and to offer standard input and output.
pub fn check_help_probe(path: &str, success: bool, stdout: &str, stderr: &str) -> (outcome: Result<
    (),
    Problem,
>)
    ensures
        match outcome {
            Ok(_) => help_probe_outcome(path@, success, stdout@, stderr@) is Ok,
            Err(error) => help_probe_outcome(path@, success, stdout@, stderr@) == Err::<
                (),
                ProblemView,
            >(error@),
        },
{
    let help = concat2(stdout, stderr);
    if !success || !contains_text(help.as_str(), "--stdio") {
        Err(problem(concat3("`", path, "` does not expose `codex app-server --stdio`").as_str()))
    } else {
        Ok(())
    }
}

/// Whether a setting turns the native server off.
pub open spec fn disables(setting: Option<Seq<char>>) -> bool {
    match setting {
        Some(value) => value == "0"@ || value == "false"@ || value == "off"@ || value
            == "disabled"@,
        None => false,
    }
}

/// Whether a setting turns the native server off.
pub fn native_codex_disabled(setting: Option<&str>) -> (disabled: bool)
    ensures
        disabled == disables(opt_text(setting)),
{
    match setting {
        Some(value) => same_text(value, "0") || same_text(value, "false") || same_text(value, "off")
            || same_text(value, "disabled"),
        None => false,
    }
}

/// That there is no executable to use.
#[derive(Clone, Copy, Debug, PartialEq, Eq, Structural)]
pub struct CodexNotFound;

impl CodexNotFound {
    /// What is said of it.
    pub fn to_text(&self) -> (text: String)
        ensures
            text@ == "could not find `codex` on PATH"@,
    {
        "could not find `codex` on PATH".to_owned()
    }
}

/// The executable that is used: the one that is configured, or else the one that was found.
pub open spec fn resolved<P>(configured: Option<P>, found: Option<P>) -> Option<P> {
    either(configured, found)
}

/// The executable to use: the one that is set, or else the one that was found.
pub fn resolve_codex_path<P>(configured: Option<P>, found: Option<P>) -> (path: Result<
    P,
    CodexNotFound,
>)
    ensures
        match path {
            Ok(path) => resolved(configured, found) == Some(path),
            Err(_) => resolved(configured, found) is None,
        },
{
    match configured {
        Some(path) => Ok(path),
        None => match found {
            Some(path) => Ok(path),
            None => Err(CodexNotFound),
        },
    }
}

/// That a place is the first that holds an executable, or that there is none.
pub open spec fn is_first_on_path(executable: Seq<bool>, first: Option<usize>) -> bool {
    match first {
        Some(i) => {
            &&& i < executable.len()
            &&& executable[i as int]
            &&& forall|j: int| 0 <= j < i ==> !#[trigger] executable[j]
        },
        None => forall|j: int| 0 <= j < executable.len() ==> !#[trigger] executable[j],
    }
}

/// Of some candidates in the order of the search path, each with whether it is an
/// executable, the first that is one.
pub fn find_on_path(executable: &Vec<bool>) -> (first: Option<usize>)
    ensures
        is_first_on_path(executable@, first),
{
    let mut i: usize = 0;
    while i < executable.len()
        invariant
            i <= executable@.len(),
            forall|j: int| 0 <= j < i ==> !#[trigger] executable@[j],
        decreases executable@.len() - i,
    {
        if executable[i] {
            return Some(i);
        }
        i = i + 1;
    }
    None
}

} // verus!
