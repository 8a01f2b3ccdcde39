//! The version of `wasm-bindgen` that a build accepts.
//!
//! The bindings that the tool writes must fit what the `wasm-bindgen`
//! library put into the artifact, and the two fit only at the same
//! version. A tool of any other version is refused.
//!
//! Asked with `--version`, the tool prints its name and its version, as in
//! `wasm-bindgen 0.2.37`: the version is the second word of what it
//! prints.

use crate::error::{result_view, BindgenError, BindgenErrorView};
use crate::text::same_text;
use vstd::prelude::*;
use vstd::string::*;

verus! {

/// The version of the tool that builds expect.
pub const BINDGEN_VERSION: &'static str = "0.2.37";

/// The flag that makes the tool print its version.
pub const VERSION_FLAG: &'static str = "--version";

/// Why a build ends when the tool printed no second word.
pub const NO_VERSION_CAUSE: &'static str = "The tool printed no version.";

/// Whether `c` stands between words.
pub open spec fn is_blank(c: char) -> bool {
    c == ' ' || c == '\t' || c == '\n' || c == '\r'
}

/// The first index from `from` on at which `text` holds a character that is
/// not blank: the length of `text` if there is none.
pub open spec fn skip_blanks(text: Seq<char>, from: int) -> int
    decreases text.len() - from,
{
    if 0 <= from < text.len() && is_blank(text[from]) {
        skip_blanks(text, from + 1)
    } else {
        from
    }
}

/// The first index from `from` on at which `text` holds a blank: the
/// length of `text` if there is none.
pub open spec fn skip_word(text: Seq<char>, from: int) -> int
    decreases text.len() - from,
{
    if 0 <= from < text.len() && !is_blank(text[from]) {
        skip_word(text, from + 1)
    } else {
        from
    }
}

/// The version in what the tool printed: the second word, if there is
/// one.
pub open spec fn printed_version(printed: Seq<char>) -> Option<Seq<char>> {
    let name = skip_blanks(printed, 0);
    let start = skip_blanks(printed, skip_word(printed, name));
    if start < printed.len() {
        Some(printed.subrange(start, skip_word(printed, start)))
    } else {
        None
    }
}

/// Whether `word` is a word: not empty, and without a blank.
pub open spec fn is_word(word: Seq<char>) -> bool {
    word.len() > 0 && forall|i: int| 0 <= i < word.len() ==> !is_blank(word[i])
}

/// What becomes of a tool that reports the version `reported` where
/// `expected` is needed: it passes if and only if the two are the same
/// text.
pub open spec fn version_verdict(reported: Seq<char>, expected: Seq<char>) -> Result<(), BindgenErrorView> {
    if reported == expected {
        Ok(())
    } else {
        Err(BindgenErrorView::VersionMismatch { expected, reported })
    }
}

/// Blanks from `from` up to `to`, and none at `to`, are what is skipped.
pub proof fn lemma_blanks_skipped(text: Seq<char>, from: int, to: int)
    requires
        0 <= from <= to <= text.len(),
        forall|j: int| from <= j < to ==> is_blank(text[j]),
        to < text.len() ==> !is_blank(text[to]),
    ensures
        skip_blanks(text, from) == to,
    decreases to - from,
{
    if from < to {
        lemma_blanks_skipped(text, from + 1, to);
    }
}

/// A word from `from` up to `to`, and a blank or the end at `to`, is what
/// is skipped.
pub proof fn lemma_word_skipped(text: Seq<char>, from: int, to: int)
    requires
        0 <= from <= to <= text.len(),
        forall|j: int| from <= j < to ==> !is_blank(text[j]),
        to < text.len() ==> is_blank(text[to]),
    ensures
        skip_word(text, from) == to,
    decreases to - from,
{
    if from < to {
        lemma_word_skipped(text, from + 1, to);
    }
}

/// The line that the tool prints holds its version: where the tool's name
/// and its version are words, the version is read from the name, a space
/// and the version, with or without the end of the line.
pub proof fn lemma_version_of_printed_line(name: Seq<char>, version: Seq<char>)
    requires
        is_word(name),
        is_word(version),
    ensures
        printed_version(name + seq![' '] + version) == Some(version),
        printed_version(name + seq![' '] + version + seq!['\n']) == Some(version),
{
    let line = name + seq![' '] + version;
    let gap = name.len() as int;
    let start = gap + 1;
    let end = line.len() as int;
    lemma_blanks_skipped(line, 0, 0);
    lemma_word_skipped(line, 0, gap);
    lemma_blanks_skipped(line, gap, start);
    lemma_word_skipped(line, start, end);
    assert(line.subrange(start, end) =~= version);
    let ended = line + seq!['\n'];
    lemma_blanks_skipped(ended, 0, 0);
    lemma_word_skipped(ended, 0, gap);
    lemma_blanks_skipped(ended, gap, start);
    lemma_word_skipped(ended, start, end);
    assert(ended.subrange(start, end) =~= version);
}

/// Reads the version from what the tool printed.
pub fn reported_version(printed: &str) -> (version: Option<String>)
    ensures
        version.deep_view() == printed_version(printed@),
{
    let len = printed.unicode_len();
    // 0: before the name, 1: in the name, 2: behind the name,
    // 3: in the version, 4: behind the version
    let mut phase: u8 = 0;
    let mut index: usize = 0;
    let mut start: usize = 0;
    let mut end: usize = 0;
    let ghost mut name: int = 0;
    let ghost mut name_end: int = 0;
    for c in it: printed.chars()
        invariant
            it.seq() == printed@,
            index == it.index(),
            len == printed@.len(),
            phase <= 4,
            phase == 0 ==> forall|j: int| 0 <= j < index ==> is_blank(printed@[j]),
            phase >= 1 ==> 0 <= name < index && skip_blanks(printed@, 0) == name,
            phase == 1 ==> forall|j: int| name <= j < index ==> !is_blank(printed@[j]),
            phase >= 2 ==> name < name_end < index && skip_word(printed@, name) == name_end,
            phase == 2 ==> forall|j: int| name_end <= j < index ==> is_blank(printed@[j]),
            phase >= 3 ==> name_end < start < index && skip_blanks(printed@, name_end) == start,
            phase == 3 ==> forall|j: int| start <= j < index ==> !is_blank(printed@[j]),
            phase == 4 ==> start < end < index && skip_word(printed@, start as int) == end,
    {
        let blank = c == ' ' || c == '\t' || c == '\n' || c == '\r';
        if phase == 0 && !blank {
            proof {
                name = index as int;
                lemma_blanks_skipped(printed@, 0, name);
            }
            phase = 1;
        } else if phase == 1 && blank {
            proof {
                name_end = index as int;
                lemma_word_skipped(printed@, name, name_end);
            }
            phase = 2;
        } else if phase == 2 && !blank {
            start = index;
            proof {
                lemma_blanks_skipped(printed@, name_end, start as int);
            }
            phase = 3;
        } else if phase == 3 && blank {
            end = index;
            proof {
                lemma_word_skipped(printed@, start as int, end as int);
            }
            phase = 4;
        }
        index = index + 1;
    }
    proof {
        let text = printed@;
        if phase == 0 {
            lemma_blanks_skipped(text, 0, len as int);
            lemma_word_skipped(text, len as int, len as int);
            lemma_blanks_skipped(text, len as int, len as int);
        } else if phase == 1 {
            lemma_word_skipped(text, name, len as int);
            lemma_blanks_skipped(text, len as int, len as int);
        } else if phase == 2 {
            lemma_blanks_skipped(text, name_end, len as int);
        } else if phase == 3 {
            lemma_word_skipped(text, start as int, len as int);
        }
    }
    if phase == 3 {
        Some(String::from_str(printed.substring_char(start, len)))
    } else if phase == 4 {
        Some(String::from_str(printed.substring_char(start, end)))
    } else {
        None
    }
}

/// Whether the version that the tool reports is the expected one.
pub fn versions_match(reported: &str, expected: &str) -> (matching: bool)
    ensures
        matching == (reported@ == expected@),
{
    same_text(reported, expected)
}

/// Lets a tool of the expected version pass and refuses any other.
pub fn check_version(reported: &str, expected: &str) -> (verdict: Result<(), BindgenError>)
    ensures
        result_view(verdict) == version_verdict(reported@, expected@),
{
    if versions_match(reported, expected) {
        Ok(())
    } else {
        Err(
            BindgenError::VersionMismatch {
                expected: String::from_str(expected),
                reported: String::from_str(reported),
            },
        )
    }
}

/// Whether the tool at `cli_path` can generate bindings for the web target
/// of the library version `dep_version`. The library has no such probe:
/// the answer is always the error that says so.
pub fn supports_web_target(cli_path: &str, dep_version: &str) -> (answer: Result<
    bool,
    BindgenError,
>)
    ensures
        answer matches Err(error) && error@ == BindgenErrorView::UnimplementedCapability,
{
    Err(BindgenError::UnimplementedCapability)
}

} // verus!
