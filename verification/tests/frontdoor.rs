use run_sh::commands::execute_code::execute_code;
use run_sh::commands::languages::{join_vec_with_and, languages};
use run_sh::config::{Config, Environment};
use run_sh::events::{
    execution_record, execution_reply, failure_reply, message_create, message_update,
    sort_message, success_reply, thread_create, triage, unsupported_reply, Answer,
    ExecutionRecord, Plan, Triage,
};
use run_sh::hypervisor::exec_error::ExecError;
use run_sh::hypervisor::languages::Languages;
use run_sh::hypervisor::runner::{Chunk, Source};
use run_sh::line_protocol::{greeting, line_reply, notice, on_line, output_text, request, Line};
use run_sh::parsers::MatchedCode;

fn config(languages: &[&str]) -> Config {
    Config {
        environment: Environment::Development,
        discord_token: String::from("token"),
        discord_application_id: 1,
        languages: languages.iter().map(|name| name.to_string()).collect(),
        docker_endpoint: String::from("unix:///var/run/docker.sock"),
        docker_runtime: None,
        database_url: String::from("postgres://localhost/run"),
    }
}

fn out(text: &str) -> Chunk {
    Chunk { source: Source::StdOut, bytes: text.as_bytes().to_vec() }
}

fn strings(items: &[&str]) -> Vec<String> {
    items.iter().map(|item| item.to_string()).collect()
}

const HINT: &str = "\n-# ℹ️ Edit your message and the output will update";

#[test]
fn join_vec_with_and_phrases_the_items() {
    assert_eq!(join_vec_with_and(strings(&[])), "");
    assert_eq!(join_vec_with_and(strings(&["a"])), "a");
    assert_eq!(join_vec_with_and(strings(&["a", "b"])), "a and b");
    assert_eq!(join_vec_with_and(strings(&["a", "b", "c"])), "a, b, and c");
    assert_eq!(join_vec_with_and(strings(&["a", "b", "c", "d"])), "a, b, c, and d");
}

#[test]
fn the_languages_command_lists_enabled_and_disabled() {
    let all_but_three: Vec<&str> = vec![
        "apl", "bash", "brainfuck", "c", "clojure", "cpp", "csharp", "elixir", "fsharp", "go",
        "haskell", "idris", "java", "javascript", "julia", "lua", "ocaml", "pascal", "perl",
        "php", "prolog", "racket", "typescript",
    ];
    let text = languages(&config(&all_but_three));
    let enabled = "`apl`, `bash`, `brainfuck`, `c`, `clojure`, `cpp`, `csharp`, `elixir`, \
                   `fsharp`, `go`, `haskell`, `idris`, `java`, `javascript`, `julia`, `lua`, \
                   `ocaml`, `pascal`, `perl`, `php`, `prolog`, `racket`, and `typescript`";
    let expected = format!(
        "Enabled languages: {enabled}\nDisabled languages: `python`, `ruby`, and `rust`\n-# Don't see your language here? Consider making a [Feature Request](<https://github.com/Fyko/run.sh/issues/new?assignees=&labels=language+request&projects=&template=language_request.yml&title=request%3A+>)\n"
    );
    assert_eq!(text, expected);
}

#[test]
fn the_languages_command_lists_a_disabled_go_by_its_tag() {
    let text = languages(&config(&["python"]));
    assert!(text.starts_with("Enabled languages: `python`\nDisabled languages: `apl`, `bash`, "));
    assert!(text.contains("`fsharp`, `golang`, `haskell`"));
    assert!(!text.contains("`go`"));
}

#[test]
fn triage_sorts_what_was_found() {
    let config = config(&["python", "go"]);
    assert_eq!(triage(None, &config), Triage::Unparsed);
    assert_eq!(
        triage(Some(MatchedCode { language: "py", code: "print(1)" }), &config),
        Triage::Execute(Languages::Python, String::from("print(1)"))
    );
    assert_eq!(
        triage(Some(MatchedCode { language: "golang", code: "package main" }), &config),
        Triage::Execute(Languages::Golang, String::from("package main"))
    );
    assert_eq!(
        triage(Some(MatchedCode { language: "rs", code: "fn main() {}" }), &config),
        Triage::Unsupported(String::from("rs"))
    );
    assert_eq!(
        triage(Some(MatchedCode { language: "cobol", code: "DISPLAY 1" }), &config),
        Triage::Unsupported(String::from("cobol"))
    );
    assert_eq!(
        triage(Some(MatchedCode { language: "", code: "x" }), &config),
        Triage::Unsupported(String::new())
    );
}

#[test]
fn a_posted_message_with_code_is_run() {
    let config = config(&["python"]);
    assert_eq!(
        message_create::handle(false, "$>```py\nprint(1)\n```", &config),
        Plan::Execute(Languages::Python, String::from("print(1)"))
    );
    assert_eq!(
        message_create::handle(false, "$>py`print(1)`", &config),
        Plan::Execute(Languages::Python, String::from("print(1)"))
    );
    assert_eq!(
        sort_message("$>py`print(1)`", false, &config),
        Triage::Execute(Languages::Python, String::from("print(1)"))
    );
}

#[test]
fn a_posted_message_is_passed_over_without_code_or_from_a_bot() {
    let config = config(&["python"]);
    assert_eq!(message_create::handle(true, "$>```py\nprint(1)\n```", &config), Plan::Ignore);
    assert_eq!(message_create::handle(false, "good morning", &config), Plan::Ignore);
    assert_eq!(message_create::handle(false, "```py\nprint(1)\n```", &config), Plan::Ignore);
    assert_eq!(
        message_create::plan(true, Triage::Execute(Languages::Python, String::from("x"))),
        Plan::Ignore
    );
    assert_eq!(
        message_create::plan(true, Triage::Unsupported(String::from("x"))),
        Plan::Ignore
    );
}

#[test]
fn a_posted_message_in_an_unsupported_language_is_refused() {
    let config = config(&["python"]);
    assert_eq!(
        message_create::handle(false, "$>```cobol\nDISPLAY 1\n```", &config),
        Plan::Reply(String::from("Unsupported language `cobol`"))
    );
    assert_eq!(
        message_create::handle(false, "$>```rust\nfn main() {}\n```", &config),
        Plan::Reply(String::from("Unsupported language `rust`"))
    );
    assert_eq!(unsupported_reply("rs"), "Unsupported language `rs`");
}

#[test]
fn an_edited_message_is_run_again_only_if_on_record() {
    let config = config(&["python"]);
    let content = "$>```py\nprint(2)\n```";
    assert_eq!(message_update::handle(false, content, &config), Plan::Ignore);
    assert_eq!(
        message_update::handle(true, content, &config),
        Plan::Execute(Languages::Python, String::from("print(2)"))
    );
    assert_eq!(message_update::handle(true, "never mind", &config), Plan::Ignore);
    assert_eq!(
        message_update::handle(true, "$>```rb\nputs 1\n```", &config),
        Plan::Reply(String::from("Unsupported language `rb`"))
    );
    assert_eq!(
        message_update::plan(false, Triage::Execute(Languages::Python, String::from("x"))),
        Plan::Ignore
    );
}

#[test]
fn the_command_runs_unmarked_code_and_answers_everything_else() {
    let config = config(&["python"]);
    assert_eq!(
        execute_code("```py\nprint(1)\n```", &config),
        Plan::Execute(Languages::Python, String::from("print(1)"))
    );
    assert_eq!(
        execute_code("nothing here", &config),
        Plan::Reply(String::from("Code input could not be parsed."))
    );
    assert_eq!(
        execute_code("```hs\nmain = pure ()\n```", &config),
        Plan::Reply(String::from("Unsupported language `hs`"))
    );
    assert_eq!(
        run_sh::commands::execute_code::plan(Triage::Unparsed),
        Plan::Reply(String::from("Code input could not be parsed."))
    );
}

#[test]
fn a_thread_is_joined_only_when_new_and_placed() {
    assert!(thread_create::handle(true, true, Some(true)));
    assert!(thread_create::handle(true, false, Some(true)));
    assert!(thread_create::handle(false, true, Some(true)));
    assert!(!thread_create::handle(false, false, Some(true)));
    assert!(!thread_create::handle(true, true, Some(false)));
    assert!(!thread_create::handle(true, true, None));
    assert!(!thread_create::handle(false, false, None));
}

#[test]
fn a_success_is_answered_with_the_fenced_output() {
    assert_eq!(success_reply(&Languages::Python, "1", false), "```python\n1\n```");
    assert_eq!(success_reply(&Languages::Golang, "1", true), format!("```go\n1\n```{HINT}"));
    assert_eq!(
        execution_reply(&Languages::Python, Ok(vec![out("1"), out("2")]), true),
        Answer { text: format!("```python\n1\n2\n```{HINT}"), succeeded: true }
    );
    assert_eq!(
        execution_reply(&Languages::Python, Ok(vec![]), false),
        Answer { text: String::from("```python\nNo output\n```"), succeeded: true }
    );
    assert_eq!(
        execution_reply(&Languages::Python, Ok(vec![out(""), out(""), out("")]), false),
        Answer { text: String::from("```python\nNo output\n```"), succeeded: true }
    );
    let long = "z".repeat(1600);
    assert_eq!(
        execution_reply(&Languages::Rust, Ok(vec![out(&long)]), false),
        Answer {
            text: format!("```rust\n{}...(100 more characters)\n```", "z".repeat(1500)),
            succeeded: true
        }
    );
}

#[test]
fn a_failure_is_answered_with_its_kind_only() {
    assert_eq!(failure_reply(&ExecError::Timeout), "Failed to execute code: code execution timed out");
    assert_eq!(failure_reply(&ExecError::Empty), "Failed to execute code: no output");
    assert_eq!(
        failure_reply(&ExecError::Docker(String::from("secret detail"))),
        "Failed to execute code: an error occurred with docker"
    );
    assert_eq!(
        failure_reply(&ExecError::DockerConnection(String::from("secret detail"))),
        "Failed to execute code: an error occurred with the docker connection"
    );
    assert_eq!(
        execution_reply(&Languages::Python, Err(ExecError::Timeout), true),
        Answer {
            text: String::from("Failed to execute code: code execution timed out"),
            succeeded: false
        }
    );
}

#[test]
fn error_messages() {
    assert_eq!(ExecError::Timeout.message(), "code execution timed out");
    assert_eq!(ExecError::Empty.message(), "no output");
    assert_eq!(ExecError::Docker(String::from("x")).message(), "an error occurred with docker");
    assert_eq!(
        ExecError::DockerConnection(String::from("x")).message(),
        "an error occurred with the docker connection"
    );
}

#[test]
fn an_execution_is_logged_by_its_identifiers() {
    assert_eq!(
        execution_record(1234, 5678, &Languages::Golang, Some(91011)),
        ExecutionRecord {
            channel_id: String::from("1234"),
            message_id: String::from("5678"),
            language: String::from("go"),
            reply_id: String::from("91011"),
        }
    );
    assert_eq!(
        execution_record(u64::MAX, 0, &Languages::Python, None),
        ExecutionRecord {
            channel_id: String::from("18446744073709551615"),
            message_id: String::from("0"),
            language: String::from("python"),
            reply_id: String::from("interaction"),
        }
    );
}

#[test]
fn the_greeting_lists_the_enabled_languages() {
    assert_eq!(
        greeting(&config(&["python", "rust"])),
        "Hello! This is the test server.\n\nEnabled languages: python, rust\nTo add more, edit your `LANGUAGES` environment variable.\n\nTo execute code, send the code in the following format:\n<language> <code>\n"
    );
    assert!(greeting(&config(&[])).contains("Enabled languages: \nTo add more"));
    assert_eq!(notice(), "Executing code...");
}

#[test]
fn a_line_names_language_and_program() {
    let config = config(&["python"]);
    assert_eq!(
        on_line("py print(1)", &config),
        Line::Run(Languages::Python, String::from("print(1)"))
    );
    assert_eq!(
        on_line("python print(1 + 2) ", &config),
        Line::Run(Languages::Python, String::from("print(1 + 2)"))
    );
    assert_eq!(
        on_line("py \t print(1)\r", &config),
        Line::Run(Languages::Python, String::from("print(1)"))
    );
    assert_eq!(on_line("py ", &config), Line::Run(Languages::Python, String::new()));
}

#[test]
fn a_line_is_trimmed_of_unicode_whitespace_only() {
    let config = config(&["python"]);
    let white = [
        '\u{9}', '\u{a}', '\u{b}', '\u{c}', '\u{d}', ' ', '\u{85}', '\u{a0}', '\u{1680}',
        '\u{2000}', '\u{2001}', '\u{2002}', '\u{2003}', '\u{2004}', '\u{2005}', '\u{2006}',
        '\u{2007}', '\u{2008}', '\u{2009}', '\u{200a}', '\u{2028}', '\u{2029}', '\u{202f}',
        '\u{205f}', '\u{3000}',
    ];
    for c in white {
        assert_eq!(
            on_line(&format!("py {c}a{c}b{c}"), &config),
            Line::Run(Languages::Python, format!("a{c}b")),
            "{c:?}"
        );
        if c != ' ' {
            assert_eq!(
                on_line(&format!("{c}py{c} x"), &config),
                Line::Run(Languages::Python, String::from("x")),
                "{c:?}"
            );
        }
    }
    let other = [
        '\u{0}', '\u{8}', '\u{e}', '\u{1c}', '\u{1f}', '\u{84}', '\u{86}', '\u{9f}', '\u{a1}',
        '\u{167f}', '\u{1681}', '\u{180e}', '\u{1fff}', '\u{200b}', '\u{200c}', '\u{2027}',
        '\u{202a}', '\u{202e}', '\u{2030}', '\u{205e}', '\u{2060}', '\u{2fff}', '\u{3001}',
        '\u{feff}', 'a', '_',
    ];
    for c in other {
        assert_eq!(
            on_line(&format!("py {c}a{c}"), &config),
            Line::Run(Languages::Python, format!("{c}a{c}")),
            "{c:?}"
        );
        assert_eq!(
            on_line(&format!("{c}py x"), &config),
            Line::Refused(String::from("Invalid language")),
            "{c:?}"
        );
    }
    assert_eq!(on_line("py \t \u{3000}", &config), Line::Run(Languages::Python, String::new()));
}

#[test]
fn a_line_without_a_space_is_malformed() {
    let config = config(&["python"]);
    assert_eq!(on_line("py", &config), Line::Malformed);
    assert_eq!(on_line("", &config), Line::Malformed);
    assert_eq!(on_line("py\tprint(1)", &config), Line::Malformed);
}

#[test]
fn a_line_in_an_unknown_or_disabled_language_is_refused() {
    let config = config(&["python"]);
    assert_eq!(on_line("cobol DISPLAY 1", &config), Line::Refused(String::from("Invalid language")));
    assert_eq!(on_line(" py print(1)", &config), Line::Refused(String::from("Invalid language")));
    assert_eq!(on_line("rs fn main() {}", &config), Line::Refused(String::from("Language not enabled")));
    assert_eq!(request("rs", "x", &config), Line::Refused(String::from("Language not enabled")));
    assert_eq!(request("nope", "x", &config), Line::Refused(String::from("Invalid language")));
    assert_eq!(request("py", "x", &config), Line::Run(Languages::Python, String::from("x")));
    assert_eq!(request(" py", "x", &config), Line::Refused(String::from("Invalid language")));
}

#[test]
fn a_line_gets_the_joined_output_or_the_kind_of_failure() {
    assert_eq!(line_reply(Ok(vec![out("a"), out("b")])), "a\nb");
    assert_eq!(line_reply(Ok(vec![])), "");
    assert_eq!(line_reply(Ok(vec![out(&"q".repeat(2000))])), "q".repeat(2000));
    assert_eq!(
        line_reply(Ok(vec![Chunk { source: Source::StdErr, bytes: vec![0xff, 0x21] }])),
        "\u{fffd}!"
    );
    assert_eq!(line_reply(Err(ExecError::Timeout)), "Error: code execution timed out");
    assert_eq!(
        line_reply(Err(ExecError::Docker(String::from("detail")))),
        "Error: an error occurred with docker"
    );
    assert_eq!(output_text(&strings(&["x", "y"])), "x\ny");
}
