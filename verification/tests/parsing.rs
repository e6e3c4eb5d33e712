use run_sh::parsers::{match_code, match_codeblock, match_inline_code};

fn pair(found: Option<run_sh::parsers::MatchedCode<'_>>) -> Option<(String, String)> {
    found.map(|code| (code.language.to_string(), code.code.to_string()))
}

fn some(language: &str, code: &str) -> Option<(String, String)> {
    Some((language.to_string(), code.to_string()))
}

#[test]
fn a_marked_code_block_is_found() {
    let input = "$>```py\nprint(1)\n```";
    assert_eq!(pair(match_codeblock(input, false)), some("py", "print(1)"));
    assert_eq!(pair(match_code(input, false)), some("py", "print(1)"));
}

#[test]
fn a_code_block_keeps_its_inner_lines() {
    let input = "$>```rust\nfn main() {\n    println!(\"hi\");\n}\n```";
    assert_eq!(
        pair(match_code(input, false)),
        some("rust", "fn main() {\n    println!(\"hi\");\n}")
    );
}

#[test]
fn an_unmarked_code_block_needs_no_prefix() {
    let input = "look at this\n```js\nconsole.log(1)\n```\nthanks";
    assert_eq!(pair(match_codeblock(input, false)), None);
    assert_eq!(pair(match_codeblock(input, true)), some("js", "console.log(1)"));
    assert_eq!(pair(match_code(input, true)), some("js", "console.log(1)"));
}

#[test]
fn the_mark_must_open_a_line() {
    assert_eq!(pair(match_codeblock("hey $>```py\nprint(1)\n```", false)), None);
    assert_eq!(
        pair(match_codeblock("hey\n$>```py\nprint(1)\n```", false)),
        some("py", "print(1)")
    );
}

#[test]
fn a_code_block_without_a_tag_has_an_empty_language() {
    assert_eq!(pair(match_codeblock("$>```\nprint(1)\n```", false)), some("", "print(1)"));
}

#[test]
fn marked_inline_code_is_found() {
    assert_eq!(pair(match_inline_code("$>py`print(1)`", false)), some("py", "print(1)"));
    assert_eq!(pair(match_code("$>py`print(1)`", false)), some("py", "print(1)"));
}

#[test]
fn unmarked_inline_code_needs_no_prefix() {
    assert_eq!(pair(match_inline_code("try py`print(1)` now", false)), None);
    assert_eq!(pair(match_inline_code("try py`print(1)` now", true)), some("py", "print(1)"));
}

#[test]
fn inline_code_stays_on_one_line() {
    assert_eq!(pair(match_inline_code("$>py`print(1)\n`", false)), None);
}

#[test]
fn a_code_block_wins_over_inline_code() {
    let input = "$>sh`echo no`\n$>```py\nprint(1)\n```";
    assert_eq!(pair(match_inline_code(input, false)), some("sh", "echo no"));
    assert_eq!(pair(match_code(input, false)), some("py", "print(1)"));
}

#[test]
fn text_without_code_holds_no_code() {
    assert_eq!(pair(match_code("hello there", false)), None);
    assert_eq!(pair(match_code("hello there", true)), None);
    assert_eq!(pair(match_code("", false)), None);
    assert_eq!(pair(match_code("$>py print(1)", false)), None);
}

#[test]
fn the_match_is_a_part_of_the_input_not_the_input() {
    let input = "before\n$>```py\nprint(1)\n```";
    let found = match_code(input, false).unwrap();
    assert_ne!(found.code, input);
    assert_ne!(found.language, input);
    assert_eq!(found.code, "print(1)");
}
