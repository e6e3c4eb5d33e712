//! Finding the code to run in a chat message: a fenced code block tagged with
//! its language, or inline code with the language in front of it.

use vstd::prelude::*;

verus! {

/// The language tag and the code found in a message, both as they stand in
/// the message.
#[derive(Debug)]
pub struct MatchedCode<'a> {
    pub language: &'a str,
    pub code: &'a str,
}

impl<'a> View for MatchedCode<'a> {
    type V = (Seq<char>, Seq<char>);

    open spec fn view(&self) -> (Seq<char>, Seq<char>) {
        (self.language@, self.code@)
    }
}

/// What a search of `haystack` with the regular expression `pattern` finds
/// for its capture groups named `first` and `second`: the text each group
/// matched in the leftmost match. It is `None` where the pattern does not
/// compile, where it matches nowhere, and where one of the two groups took no
/// part in the match.
pub uninterp spec fn regex_captures(
    pattern: Seq<char>,
    first: Seq<char>,
    second: Seq<char>,
    haystack: Seq<char>,
) -> Option<(Seq<char>, Seq<char>)>;

/// Searches `haystack` with `regex::Regex::new(pattern)` and
/// `Regex::captures`, and reads the groups `first` and `second` with
/// `Captures::name`. The result is `regex_captures` of the four arguments;
/// nothing more is claimed about what the search finds.
#[verifier::external_body]
fn capture_pair<'a>(pattern: &str, first: &str, second: &str, haystack: &'a str) -> (res: Option<
    (&'a str, &'a str),
>)
    ensures
        match res {
            Some(pair) => regex_captures(pattern@, first@, second@, haystack@) == Some(
                (pair.0@, pair.1@),
            ),
            None => regex_captures(pattern@, first@, second@, haystack@) is None,
        },
{
    let regex = regex::Regex::new(pattern).ok()?;
    let captures = regex.captures(haystack)?;
    Some((captures.name(first)?.as_str(), captures.name(second)?.as_str()))
}

/// The pattern of a fenced code block: three backticks, the language tag in
/// letters, one whitespace character, the code, one whitespace character and
/// three backticks. Unless `no_prefix` is set, the block must open a line
/// with `$>` in front of it and close the line it ends on.
pub open spec fn codeblock_pattern(no_prefix: bool) -> Seq<char> {
    if no_prefix {
        r"(?m)```(?<language>[a-zA-Z]*?)\s(?<code>[\S\s]*?)\s```"@
    } else {
        r"(?m)^\$>```(?<language>[a-zA-Z]*?)\s(?<code>[\S\s]*?)\s```$"@
    }
}

/// The pattern of inline code: the language tag in letters, a backtick, the
/// code on one line and a backtick. Unless `no_prefix` is set, the tag must
/// open a line with `$>` in front of it and the closing backtick must end the
/// line.
pub open spec fn inline_pattern(no_prefix: bool) -> Seq<char> {
    if no_prefix {
        r"(?m)(?<language>[a-zA-Z]*?)`(?<code>.*?)`"@
    } else {
        r"(?m)^\$>(?<language>[a-zA-Z]*?)`(?<code>.*?)`$"@
    }
}

/// The first fenced code block of `input`, as language tag and code.
pub open spec fn match_codeblock_spec(input: Seq<char>, no_prefix: bool) -> Option<
    (Seq<char>, Seq<char>),
> {
    regex_captures(codeblock_pattern(no_prefix), "language"@, "code"@, input)
}

/// The first inline code of `input`, as language tag and code.
pub open spec fn match_inline_code_spec(input: Seq<char>, no_prefix: bool) -> Option<
    (Seq<char>, Seq<char>),
> {
    regex_captures(inline_pattern(no_prefix), "language"@, "code"@, input)
}

/// The code of `input`: its first fenced code block, or, where it has none,
/// its first inline code.
pub open spec fn match_code_spec(input: Seq<char>, no_prefix: bool) -> Option<
    (Seq<char>, Seq<char>),
> {
    match match_codeblock_spec(input, no_prefix) {
        Some(found) => Some(found),
        None => match_inline_code_spec(input, no_prefix),
    }
}

/// The view of an optional match.
pub open spec fn optional_match(found: Option<MatchedCode<'_>>) -> Option<(Seq<char>, Seq<char>)> {
    match found {
        Some(code) => Some(code@),
        None => None,
    }
}

/// A pair of captured texts as a match.
fn matched<'a>(pair: Option<(&'a str, &'a str)>) -> (res: Option<MatchedCode<'a>>)
    ensures
        match pair {
            Some(texts) => optional_match(res) == Some((texts.0@, texts.1@)),
            None => res is None,
        },
{
    match pair {
        Some((language, code)) => Some(MatchedCode { language, code }),
        None => None,
    }
}

/// Finds the code to run in `input`: a fenced code block if there is one,
/// inline code otherwise.
pub fn match_code(input: &str, no_prefix: bool) -> (res: Option<MatchedCode<'_>>)
    ensures
        optional_match(res) == match_code_spec(input@, no_prefix),
{
    match match_codeblock(input, no_prefix) {
        Some(codeblock) => Some(codeblock),
        None => match_inline_code(input, no_prefix),
    }
}

/// Finds the first fenced code block of `input`.
pub fn match_codeblock(input: &str, no_prefix: bool) -> (res: Option<MatchedCode<'_>>)
    ensures
        optional_match(res) == match_codeblock_spec(input@, no_prefix),
{
    let pattern = if no_prefix {
        r"(?m)```(?<language>[a-zA-Z]*?)\s(?<code>[\S\s]*?)\s```"
    } else {
        r"(?m)^\$>```(?<language>[a-zA-Z]*?)\s(?<code>[\S\s]*?)\s```$"
    };
    matched(capture_pair(pattern, "language", "code", input))
}

/// Finds the first inline code of `input`.
pub fn match_inline_code(input: &str, no_prefix: bool) -> (res: Option<MatchedCode<'_>>)
    ensures
        optional_match(res) == match_inline_code_spec(input@, no_prefix),
{
    let pattern = if no_prefix {
        r"(?m)(?<language>[a-zA-Z]*?)`(?<code>.*?)`"
    } else {
        r"(?m)^\$>(?<language>[a-zA-Z]*?)`(?<code>.*?)`$"
    };
    matched(capture_pair(pattern, "language", "code", input))
}

} // verus!
