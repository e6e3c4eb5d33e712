use run_sh::config::{Config, Environment};
use run_sh::hypervisor::languages::Languages;

fn config(languages: &[&str]) -> Config {
    Config {
        environment: Environment::Development,
        discord_token: String::from("token"),
        discord_application_id: 1,
        languages: languages.iter().map(|name| name.to_string()).collect(),
        docker_endpoint: String::from("unix:///var/run/docker.sock"),
        docker_runtime: None,
        database_url: String::from("postgres://localhost/run"),
    }
}

const TABLE: &[(&str, Languages)] = &[
    ("apl", Languages::Apl),
    ("bash", Languages::Bash),
    ("sh", Languages::Bash),
    ("zsh", Languages::Bash),
    ("brainfuck", Languages::BrainFuck),
    ("bf", Languages::BrainFuck),
    ("c", Languages::C),
    ("h", Languages::C),
    ("clojure", Languages::Clojure),
    ("clj", Languages::Clojure),
    ("cpp", Languages::Cpp),
    ("hpp", Languages::Cpp),
    ("cc", Languages::Cpp),
    ("hh", Languages::Cpp),
    ("c++", Languages::Cpp),
    ("h++", Languages::Cpp),
    ("cxx", Languages::Cpp),
    ("hxx", Languages::Cpp),
    ("csharp", Languages::CSharp),
    ("cs", Languages::CSharp),
    ("elixir", Languages::Elixir),
    ("ex", Languages::Elixir),
    ("fsharp", Languages::FSharp),
    ("fs", Languages::FSharp),
    ("fsx", Languages::FSharp),
    ("fsi", Languages::FSharp),
    ("fsscript", Languages::FSharp),
    ("golang", Languages::Golang),
    ("go", Languages::Golang),
    ("haskell", Languages::Haskell),
    ("hs", Languages::Haskell),
    ("idris", Languages::Idris),
    ("java", Languages::Java),
    ("javascript", Languages::JavaScript),
    ("js", Languages::JavaScript),
    ("julia", Languages::Julia),
    ("jl", Languages::Julia),
    ("lua", Languages::Lua),
    ("ocaml", Languages::OCaml),
    ("ml", Languages::OCaml),
    ("pascal", Languages::Pascal),
    ("perl", Languages::Perl),
    ("pl", Languages::Perl),
    ("pm", Languages::Perl),
    ("php", Languages::Php),
    ("prolog", Languages::Prolog),
    ("python", Languages::Python),
    ("py", Languages::Python),
    ("racket", Languages::Racket),
    ("ruby", Languages::Ruby),
    ("rb", Languages::Ruby),
    ("rust", Languages::Rust),
    ("rs", Languages::Rust),
    ("typescript", Languages::TypeScript),
    ("ts", Languages::TypeScript),
];

#[test]
fn every_alias_resolves_to_its_language() {
    for (alias, language) in TABLE {
        assert_eq!(Languages::from_codeblock_language(alias), Some(*language), "{alias}");
    }
}

#[test]
fn resolution_is_repeatable() {
    for (alias, _) in TABLE {
        let first = Languages::from_codeblock_language(alias);
        let second = Languages::from_codeblock_language(alias);
        assert_eq!(first, second);
    }
}

#[test]
fn unknown_aliases_resolve_to_nothing() {
    for alias in ["cobol", "", " ", "Python", "PY", "py ", " py", "pyt", "c#", "rust\n", "🦀"] {
        assert_eq!(Languages::from_codeblock_language(alias), None, "{alias:?}");
    }
}

#[test]
fn aliases_lists_the_table() {
    for language in Languages::all() {
        let aliases = language.aliases();
        assert_eq!(aliases[0], language.tag());
        let expected: Vec<&str> =
            TABLE.iter().filter(|(_, l)| *l == language).map(|(alias, _)| *alias).collect();
        assert_eq!(aliases, expected);
    }
}

#[test]
fn all_lists_every_language_once() {
    let all = Languages::all();
    assert_eq!(all.len(), 26);
    assert_eq!(all[0], Languages::Apl);
    assert_eq!(all[25], Languages::TypeScript);
    let tags: Vec<&str> = all.iter().map(|language| language.tag()).collect();
    assert_eq!(
        tags,
        vec![
            "apl", "bash", "brainfuck", "c", "clojure", "cpp", "csharp", "elixir", "fsharp",
            "golang", "haskell", "idris", "java", "javascript", "julia", "lua", "ocaml", "pascal",
            "perl", "php", "prolog", "python", "racket", "ruby", "rust", "typescript",
        ]
    );
}

#[test]
fn display_name_differs_from_tag_only_for_go() {
    for language in Languages::all() {
        if language == Languages::Golang {
            assert_eq!(language.name(), "go");
            assert_eq!(language.tag(), "golang");
        } else {
            assert_eq!(language.name(), language.tag());
        }
    }
}

#[test]
fn names_and_tags_resolve_to_their_language() {
    for language in Languages::all() {
        assert_eq!(Languages::from_codeblock_language(language.name()), Some(language));
        assert_eq!(Languages::from_codeblock_language(language.tag()), Some(language));
    }
}

#[test]
fn from_name_goes_by_the_display_name_alone() {
    for language in Languages::all() {
        assert_eq!(Languages::from_name(language.name()), Some(language));
    }
    assert_eq!(Languages::from_name("go"), Some(Languages::Golang));
    for name in ["golang", "py", "rs", "c++", "", "Python", "python ", "cobol"] {
        assert_eq!(Languages::from_name(name), None, "{name:?}");
    }
}

#[test]
fn enabled_goes_by_the_display_name() {
    let config = config(&["python", "go", "rs"]);
    assert!(Languages::Python.enabled(&config));
    assert!(Languages::Golang.enabled(&config));
    assert!(!Languages::Rust.enabled(&config));
    assert!(!Languages::Bash.enabled(&config));
    assert!(!Languages::Golang.enabled(&self::config(&["golang"])));
    assert!(!Languages::Python.enabled(&self::config(&[])));
}

#[test]
fn enabled_and_disabled_split_the_registry() {
    let config = config(&["rust", "python", "lua"]);
    let enabled = Languages::all_enabled(&config);
    let disabled = Languages::all_disabled(&config);
    assert_eq!(enabled, vec![Languages::Lua, Languages::Python, Languages::Rust]);
    assert_eq!(disabled.len(), 23);
    for language in Languages::all() {
        assert_eq!(enabled.contains(&language), language.enabled(&config));
        assert_eq!(disabled.contains(&language), !language.enabled(&config));
    }
}

#[test]
fn nothing_enabled_disables_everything() {
    let config = config(&[]);
    assert_eq!(Languages::all_enabled(&config), Vec::<Languages>::new());
    assert_eq!(Languages::all_disabled(&config), Languages::all());
}

#[test]
fn environment_names() {
    assert_eq!(Environment::Development.name(), "development");
    assert_eq!(Environment::Production.name(), "production");
}
