//! The language registry: every language the sandbox knows, the names it goes
//! by, and whether the configuration enables it.

use crate::config::Config;
use crate::text::same_text;
use vstd::prelude::*;

verus! {

/// A language the sandbox can run.
#[derive(Debug, Clone, Copy, PartialEq, Eq, Hash, Structural)]
pub enum Languages {
    Apl,
    Bash,
    BrainFuck,
    C,
    Clojure,
    Cpp,
    CSharp,
    Elixir,
    FSharp,
    Golang,
    Haskell,
    Idris,
    Java,
    JavaScript,
    Julia,
    Lua,
    OCaml,
    Pascal,
    Perl,
    Php,
    Prolog,
    Python,
    Racket,
    Ruby,
    Rust,
    TypeScript,
}

impl Languages {
    /// The canonical tag of the language: the name it is configured and
    /// listed under.
    pub open spec fn tag_spec(self) -> Seq<char> {
        match self {
            Languages::Apl => "apl"@,
            Languages::Bash => "bash"@,
            Languages::BrainFuck => "brainfuck"@,
            Languages::C => "c"@,
            Languages::Clojure => "clojure"@,
            Languages::Cpp => "cpp"@,
            Languages::CSharp => "csharp"@,
            Languages::Elixir => "elixir"@,
            Languages::FSharp => "fsharp"@,
            Languages::Golang => "golang"@,
            Languages::Haskell => "haskell"@,
            Languages::Idris => "idris"@,
            Languages::Java => "java"@,
            Languages::JavaScript => "javascript"@,
            Languages::Julia => "julia"@,
            Languages::Lua => "lua"@,
            Languages::OCaml => "ocaml"@,
            Languages::Pascal => "pascal"@,
            Languages::Perl => "perl"@,
            Languages::Php => "php"@,
            Languages::Prolog => "prolog"@,
            Languages::Python => "python"@,
            Languages::Racket => "racket"@,
            Languages::Ruby => "ruby"@,
            Languages::Rust => "rust"@,
            Languages::TypeScript => "typescript"@,
        }
    }

    /// The display name of the language: the name its image, its containers
    /// and its build context are derived from.
    pub open spec fn name_spec(self) -> Seq<char> {
        match self {
            Languages::Apl => "apl"@,
            Languages::Bash => "bash"@,
            Languages::BrainFuck => "brainfuck"@,
            Languages::C => "c"@,
            Languages::Clojure => "clojure"@,
            Languages::Cpp => "cpp"@,
            Languages::CSharp => "csharp"@,
            Languages::Elixir => "elixir"@,
            Languages::FSharp => "fsharp"@,
            Languages::Golang => "go"@,
            Languages::Haskell => "haskell"@,
            Languages::Idris => "idris"@,
            Languages::Java => "java"@,
            Languages::JavaScript => "javascript"@,
            Languages::Julia => "julia"@,
            Languages::Lua => "lua"@,
            Languages::OCaml => "ocaml"@,
            Languages::Pascal => "pascal"@,
            Languages::Perl => "perl"@,
            Languages::Php => "php"@,
            Languages::Prolog => "prolog"@,
            Languages::Python => "python"@,
            Languages::Racket => "racket"@,
            Languages::Ruby => "ruby"@,
            Languages::Rust => "rust"@,
            Languages::TypeScript => "typescript"@,
        }
    }

    /// Whether `alias` is one of the names a snippet may use for the language.
    /// The match is exact and case-sensitive.
    pub open spec fn accepts(self, alias: Seq<char>) -> bool {
        match self {
            Languages::Apl => alias == "apl"@,
            Languages::Bash => alias == "bash"@ || alias == "sh"@ || alias == "zsh"@,
            Languages::BrainFuck => alias == "brainfuck"@ || alias == "bf"@,
            Languages::C => alias == "c"@ || alias == "h"@,
            Languages::Clojure => alias == "clojure"@ || alias == "clj"@,
            Languages::Cpp => alias == "cpp"@ || alias == "hpp"@ || alias == "cc"@ || alias == "hh"@ || alias == "c++"@ || alias == "h++"@ || alias == "cxx"@ || alias == "hxx"@,
            Languages::CSharp => alias == "csharp"@ || alias == "cs"@,
            Languages::Elixir => alias == "elixir"@ || alias == "ex"@,
            Languages::FSharp => alias == "fsharp"@ || alias == "fs"@ || alias == "fsx"@ || alias == "fsi"@ || alias == "fsscript"@,
            Languages::Golang => alias == "golang"@ || alias == "go"@,
            Languages::Haskell => alias == "haskell"@ || alias == "hs"@,
            Languages::Idris => alias == "idris"@,
            Languages::Java => alias == "java"@,
            Languages::JavaScript => alias == "javascript"@ || alias == "js"@,
            Languages::Julia => alias == "julia"@ || alias == "jl"@,
            Languages::Lua => alias == "lua"@,
            Languages::OCaml => alias == "ocaml"@ || alias == "ml"@,
            Languages::Pascal => alias == "pascal"@,
            Languages::Perl => alias == "perl"@ || alias == "pl"@ || alias == "pm"@,
            Languages::Php => alias == "php"@,
            Languages::Prolog => alias == "prolog"@,
            Languages::Python => alias == "python"@ || alias == "py"@,
            Languages::Racket => alias == "racket"@,
            Languages::Ruby => alias == "ruby"@ || alias == "rb"@,
            Languages::Rust => alias == "rust"@ || alias == "rs"@,
            Languages::TypeScript => alias == "typescript"@ || alias == "ts"@,
        }
    }

    /// The position of the language in the registry.
    pub open spec fn index_spec(self) -> int {
        match self {
            Languages::Apl => 0,
            Languages::Bash => 1,
            Languages::BrainFuck => 2,
            Languages::C => 3,
            Languages::Clojure => 4,
            Languages::Cpp => 5,
            Languages::CSharp => 6,
            Languages::Elixir => 7,
            Languages::FSharp => 8,
            Languages::Golang => 9,
            Languages::Haskell => 10,
            Languages::Idris => 11,
            Languages::Java => 12,
            Languages::JavaScript => 13,
            Languages::Julia => 14,
            Languages::Lua => 15,
            Languages::OCaml => 16,
            Languages::Pascal => 17,
            Languages::Perl => 18,
            Languages::Php => 19,
            Languages::Prolog => 20,
            Languages::Python => 21,
            Languages::Racket => 22,
            Languages::Ruby => 23,
            Languages::Rust => 24,
            Languages::TypeScript => 25,
        }
    }

    /// Every language, in registry order.
    pub open spec fn all_spec() -> Seq<Languages> {
        seq![
            Languages::Apl,
            Languages::Bash,
            Languages::BrainFuck,
            Languages::C,
            Languages::Clojure,
            Languages::Cpp,
            Languages::CSharp,
            Languages::Elixir,
            Languages::FSharp,
            Languages::Golang,
            Languages::Haskell,
            Languages::Idris,
            Languages::Java,
            Languages::JavaScript,
            Languages::Julia,
            Languages::Lua,
            Languages::OCaml,
            Languages::Pascal,
            Languages::Perl,
            Languages::Php,
            Languages::Prolog,
            Languages::Python,
            Languages::Racket,
            Languages::Ruby,
            Languages::Rust,
            Languages::TypeScript,
        ]
    }

    /// Whether some language accepts `alias`.
    pub open spec fn known(alias: Seq<char>) -> bool {
        exists|language: Languages| language.accepts(alias)
    }

    /// The language that accepts `alias`, if there is one.
    pub open spec fn resolve(alias: Seq<char>) -> Option<Languages> {
        if Languages::known(alias) {
            Some(choose|language: Languages| language.accepts(alias))
        } else {
            None
        }
    }

    /// The language whose display name is `name`, if there is one.
    pub open spec fn named(name: Seq<char>) -> Option<Languages> {
        if exists|language: Languages| #[trigger] language.name_spec() == name {
            Some(choose|language: Languages| #[trigger] language.name_spec() == name)
        } else {
            None
        }
    }

    /// Reveals the characters of every name and alias in the registry.
    pub proof fn reveal_names()
        ensures
            "apl"@ == seq!['a', 'p', 'l'],
            "bash"@ == seq!['b', 'a', 's', 'h'],
            "sh"@ == seq!['s', 'h'],
            "zsh"@ == seq!['z', 's', 'h'],
            "brainfuck"@ == seq!['b', 'r', 'a', 'i', 'n', 'f', 'u', 'c', 'k'],
            "bf"@ == seq!['b', 'f'],
            "c"@ == seq!['c'],
            "h"@ == seq!['h'],
            "clojure"@ == seq!['c', 'l', 'o', 'j', 'u', 'r', 'e'],
            "clj"@ == seq!['c', 'l', 'j'],
            "cpp"@ == seq!['c', 'p', 'p'],
            "hpp"@ == seq!['h', 'p', 'p'],
            "cc"@ == seq!['c', 'c'],
            "hh"@ == seq!['h', 'h'],
            "c++"@ == seq!['c', '+', '+'],
            "h++"@ == seq!['h', '+', '+'],
            "cxx"@ == seq!['c', 'x', 'x'],
            "hxx"@ == seq!['h', 'x', 'x'],
            "csharp"@ == seq!['c', 's', 'h', 'a', 'r', 'p'],
            "cs"@ == seq!['c', 's'],
            "elixir"@ == seq!['e', 'l', 'i', 'x', 'i', 'r'],
            "ex"@ == seq!['e', 'x'],
            "fsharp"@ == seq!['f', 's', 'h', 'a', 'r', 'p'],
            "fs"@ == seq!['f', 's'],
            "fsx"@ == seq!['f', 's', 'x'],
            "fsi"@ == seq!['f', 's', 'i'],
            "fsscript"@ == seq!['f', 's', 's', 'c', 'r', 'i', 'p', 't'],
            "golang"@ == seq!['g', 'o', 'l', 'a', 'n', 'g'],
            "go"@ == seq!['g', 'o'],
            "haskell"@ == seq!['h', 'a', 's', 'k', 'e', 'l', 'l'],
            "hs"@ == seq!['h', 's'],
            "idris"@ == seq!['i', 'd', 'r', 'i', 's'],
            "java"@ == seq!['j', 'a', 'v', 'a'],
            "javascript"@ == seq!['j', 'a', 'v', 'a', 's', 'c', 'r', 'i', 'p', 't'],
            "js"@ == seq!['j', 's'],
            "julia"@ == seq!['j', 'u', 'l', 'i', 'a'],
            "jl"@ == seq!['j', 'l'],
            "lua"@ == seq!['l', 'u', 'a'],
            "ocaml"@ == seq!['o', 'c', 'a', 'm', 'l'],
            "ml"@ == seq!['m', 'l'],
            "pascal"@ == seq!['p', 'a', 's', 'c', 'a', 'l'],
            "perl"@ == seq!['p', 'e', 'r', 'l'],
            "pl"@ == seq!['p', 'l'],
            "pm"@ == seq!['p', 'm'],
            "php"@ == seq!['p', 'h', 'p'],
            "prolog"@ == seq!['p', 'r', 'o', 'l', 'o', 'g'],
            "python"@ == seq!['p', 'y', 't', 'h', 'o', 'n'],
            "py"@ == seq!['p', 'y'],
            "racket"@ == seq!['r', 'a', 'c', 'k', 'e', 't'],
            "ruby"@ == seq!['r', 'u', 'b', 'y'],
            "rb"@ == seq!['r', 'b'],
            "rust"@ == seq!['r', 'u', 's', 't'],
            "rs"@ == seq!['r', 's'],
            "typescript"@ == seq!['t', 'y', 'p', 'e', 's', 'c', 'r', 'i', 'p', 't'],
            "ts"@ == seq!['t', 's'],
    {
        reveal_strlit("apl");
        reveal_strlit("bash");
        reveal_strlit("sh");
        reveal_strlit("zsh");
        reveal_strlit("brainfuck");
        reveal_strlit("bf");
        reveal_strlit("c");
        reveal_strlit("h");
        reveal_strlit("clojure");
        reveal_strlit("clj");
        reveal_strlit("cpp");
        reveal_strlit("hpp");
        reveal_strlit("cc");
        reveal_strlit("hh");
        reveal_strlit("c++");
        reveal_strlit("h++");
        reveal_strlit("cxx");
        reveal_strlit("hxx");
        reveal_strlit("csharp");
        reveal_strlit("cs");
        reveal_strlit("elixir");
        reveal_strlit("ex");
        reveal_strlit("fsharp");
        reveal_strlit("fs");
        reveal_strlit("fsx");
        reveal_strlit("fsi");
        reveal_strlit("fsscript");
        reveal_strlit("golang");
        reveal_strlit("go");
        reveal_strlit("haskell");
        reveal_strlit("hs");
        reveal_strlit("idris");
        reveal_strlit("java");
        reveal_strlit("javascript");
        reveal_strlit("js");
        reveal_strlit("julia");
        reveal_strlit("jl");
        reveal_strlit("lua");
        reveal_strlit("ocaml");
        reveal_strlit("ml");
        reveal_strlit("pascal");
        reveal_strlit("perl");
        reveal_strlit("pl");
        reveal_strlit("pm");
        reveal_strlit("php");
        reveal_strlit("prolog");
        reveal_strlit("python");
        reveal_strlit("py");
        reveal_strlit("racket");
        reveal_strlit("ruby");
        reveal_strlit("rb");
        reveal_strlit("rust");
        reveal_strlit("rs");
        reveal_strlit("typescript");
        reveal_strlit("ts");
        assert("apl"@ =~= seq!['a', 'p', 'l']);
        assert("bash"@ =~= seq!['b', 'a', 's', 'h']);
        assert("sh"@ =~= seq!['s', 'h']);
        assert("zsh"@ =~= seq!['z', 's', 'h']);
        assert("brainfuck"@ =~= seq!['b', 'r', 'a', 'i', 'n', 'f', 'u', 'c', 'k']);
        assert("bf"@ =~= seq!['b', 'f']);
        assert("c"@ =~= seq!['c']);
        assert("h"@ =~= seq!['h']);
        assert("clojure"@ =~= seq!['c', 'l', 'o', 'j', 'u', 'r', 'e']);
        assert("clj"@ =~= seq!['c', 'l', 'j']);
        assert("cpp"@ =~= seq!['c', 'p', 'p']);
        assert("hpp"@ =~= seq!['h', 'p', 'p']);
        assert("cc"@ =~= seq!['c', 'c']);
        assert("hh"@ =~= seq!['h', 'h']);
        assert("c++"@ =~= seq!['c', '+', '+']);
        assert("h++"@ =~= seq!['h', '+', '+']);
        assert("cxx"@ =~= seq!['c', 'x', 'x']);
        assert("hxx"@ =~= seq!['h', 'x', 'x']);
        assert("csharp"@ =~= seq!['c', 's', 'h', 'a', 'r', 'p']);
        assert("cs"@ =~= seq!['c', 's']);
        assert("elixir"@ =~= seq!['e', 'l', 'i', 'x', 'i', 'r']);
        assert("ex"@ =~= seq!['e', 'x']);
        assert("fsharp"@ =~= seq!['f', 's', 'h', 'a', 'r', 'p']);
        assert("fs"@ =~= seq!['f', 's']);
        assert("fsx"@ =~= seq!['f', 's', 'x']);
        assert("fsi"@ =~= seq!['f', 's', 'i']);
        assert("fsscript"@ =~= seq!['f', 's', 's', 'c', 'r', 'i', 'p', 't']);
        assert("golang"@ =~= seq!['g', 'o', 'l', 'a', 'n', 'g']);
        assert("go"@ =~= seq!['g', 'o']);
        assert("haskell"@ =~= seq!['h', 'a', 's', 'k', 'e', 'l', 'l']);
        assert("hs"@ =~= seq!['h', 's']);
        assert("idris"@ =~= seq!['i', 'd', 'r', 'i', 's']);
        assert("java"@ =~= seq!['j', 'a', 'v', 'a']);
        assert("javascript"@ =~= seq!['j', 'a', 'v', 'a', 's', 'c', 'r', 'i', 'p', 't']);
        assert("js"@ =~= seq!['j', 's']);
        assert("julia"@ =~= seq!['j', 'u', 'l', 'i', 'a']);
        assert("jl"@ =~= seq!['j', 'l']);
        assert("lua"@ =~= seq!['l', 'u', 'a']);
        assert("ocaml"@ =~= seq!['o', 'c', 'a', 'm', 'l']);
        assert("ml"@ =~= seq!['m', 'l']);
        assert("pascal"@ =~= seq!['p', 'a', 's', 'c', 'a', 'l']);
        assert("perl"@ =~= seq!['p', 'e', 'r', 'l']);
        assert("pl"@ =~= seq!['p', 'l']);
        assert("pm"@ =~= seq!['p', 'm']);
        assert("php"@ =~= seq!['p', 'h', 'p']);
        assert("prolog"@ =~= seq!['p', 'r', 'o', 'l', 'o', 'g']);
        assert("python"@ =~= seq!['p', 'y', 't', 'h', 'o', 'n']);
        assert("py"@ =~= seq!['p', 'y']);
        assert("racket"@ =~= seq!['r', 'a', 'c', 'k', 'e', 't']);
        assert("ruby"@ =~= seq!['r', 'u', 'b', 'y']);
        assert("rb"@ =~= seq!['r', 'b']);
        assert("rust"@ =~= seq!['r', 'u', 's', 't']);
        assert("rs"@ =~= seq!['r', 's']);
        assert("typescript"@ =~= seq!['t', 'y', 'p', 'e', 's', 'c', 'r', 'i', 'p', 't']);
        assert("ts"@ =~= seq!['t', 's']);
    }

    /// The canonical tag of the language.
    pub fn tag(&self) -> (res: &'static str)
        ensures
            res@ == self.tag_spec(),
    {
        match self {
            Languages::Apl => "apl",
            Languages::Bash => "bash",
            Languages::BrainFuck => "brainfuck",
            Languages::C => "c",
            Languages::Clojure => "clojure",
            Languages::Cpp => "cpp",
            Languages::CSharp => "csharp",
            Languages::Elixir => "elixir",
            Languages::FSharp => "fsharp",
            Languages::Golang => "golang",
            Languages::Haskell => "haskell",
            Languages::Idris => "idris",
            Languages::Java => "java",
            Languages::JavaScript => "javascript",
            Languages::Julia => "julia",
            Languages::Lua => "lua",
            Languages::OCaml => "ocaml",
            Languages::Pascal => "pascal",
            Languages::Perl => "perl",
            Languages::Php => "php",
            Languages::Prolog => "prolog",
            Languages::Python => "python",
            Languages::Racket => "racket",
            Languages::Ruby => "ruby",
            Languages::Rust => "rust",
            Languages::TypeScript => "typescript",
        }
    }

    /// The display name of the language.
    pub fn name(&self) -> (res: &'static str)
        ensures
            res@ == self.name_spec(),
    {
        match self {
            Languages::Apl => "apl",
            Languages::Bash => "bash",
            Languages::BrainFuck => "brainfuck",
            Languages::C => "c",
            Languages::Clojure => "clojure",
            Languages::Cpp => "cpp",
            Languages::CSharp => "csharp",
            Languages::Elixir => "elixir",
            Languages::FSharp => "fsharp",
            Languages::Golang => "go",
            Languages::Haskell => "haskell",
            Languages::Idris => "idris",
            Languages::Java => "java",
            Languages::JavaScript => "javascript",
            Languages::Julia => "julia",
            Languages::Lua => "lua",
            Languages::OCaml => "ocaml",
            Languages::Pascal => "pascal",
            Languages::Perl => "perl",
            Languages::Php => "php",
            Languages::Prolog => "prolog",
            Languages::Python => "python",
            Languages::Racket => "racket",
            Languages::Ruby => "ruby",
            Languages::Rust => "rust",
            Languages::TypeScript => "typescript",
        }
    }

    /// The names a snippet may use for the language, the canonical tag first.
    pub fn aliases(&self) -> (res: Vec<&'static str>)
        ensures
            res@.len() > 0,
            res@[0]@ == self.tag_spec(),
            forall|alias: Seq<char>|
                self.accepts(alias) <==> exists|i: int| 0 <= i < res@.len() && #[trigger] res@[i]@ == alias,
    {
        let mut res: Vec<&'static str> = Vec::new();
        match self {
            Languages::Apl => {
                res.push("apl");
                assert(res@[0]@ == "apl"@);
            },
            Languages::Bash => {
                res.push("bash");
                res.push("sh");
                res.push("zsh");
                assert(res@[0]@ == "bash"@);
                assert(res@[1]@ == "sh"@);
                assert(res@[2]@ == "zsh"@);
            },
            Languages::BrainFuck => {
                res.push("brainfuck");
                res.push("bf");
                assert(res@[0]@ == "brainfuck"@);
                assert(res@[1]@ == "bf"@);
            },
            Languages::C => {
                res.push("c");
                res.push("h");
                assert(res@[0]@ == "c"@);
                assert(res@[1]@ == "h"@);
            },
            Languages::Clojure => {
                res.push("clojure");
                res.push("clj");
                assert(res@[0]@ == "clojure"@);
                assert(res@[1]@ == "clj"@);
            },
            Languages::Cpp => {
                res.push("cpp");
                res.push("hpp");
                res.push("cc");
                res.push("hh");
                res.push("c++");
                res.push("h++");
                res.push("cxx");
                res.push("hxx");
                assert(res@[0]@ == "cpp"@);
                assert(res@[1]@ == "hpp"@);
                assert(res@[2]@ == "cc"@);
                assert(res@[3]@ == "hh"@);
                assert(res@[4]@ == "c++"@);
                assert(res@[5]@ == "h++"@);
                assert(res@[6]@ == "cxx"@);
                assert(res@[7]@ == "hxx"@);
            },
            Languages::CSharp => {
                res.push("csharp");
                res.push("cs");
                assert(res@[0]@ == "csharp"@);
                assert(res@[1]@ == "cs"@);
            },
            Languages::Elixir => {
                res.push("elixir");
                res.push("ex");
                assert(res@[0]@ == "elixir"@);
                assert(res@[1]@ == "ex"@);
            },
            Languages::FSharp => {
                res.push("fsharp");
                res.push("fs");
                res.push("fsx");
                res.push("fsi");
                res.push("fsscript");
                assert(res@[0]@ == "fsharp"@);
                assert(res@[1]@ == "fs"@);
                assert(res@[2]@ == "fsx"@);
                assert(res@[3]@ == "fsi"@);
                assert(res@[4]@ == "fsscript"@);
            },
            Languages::Golang => {
                res.push("golang");
                res.push("go");
                assert(res@[0]@ == "golang"@);
                assert(res@[1]@ == "go"@);
            },
            Languages::Haskell => {
                res.push("haskell");
                res.push("hs");
                assert(res@[0]@ == "haskell"@);
                assert(res@[1]@ == "hs"@);
            },
            Languages::Idris => {
                res.push("idris");
                assert(res@[0]@ == "idris"@);
            },
            Languages::Java => {
                res.push("java");
                assert(res@[0]@ == "java"@);
            },
            Languages::JavaScript => {
                res.push("javascript");
                res.push("js");
                assert(res@[0]@ == "javascript"@);
                assert(res@[1]@ == "js"@);
            },
            Languages::Julia => {
                res.push("julia");
                res.push("jl");
                assert(res@[0]@ == "julia"@);
                assert(res@[1]@ == "jl"@);
            },
            Languages::Lua => {
                res.push("lua");
                assert(res@[0]@ == "lua"@);
            },
            Languages::OCaml => {
                res.push("ocaml");
                res.push("ml");
                assert(res@[0]@ == "ocaml"@);
                assert(res@[1]@ == "ml"@);
            },
            Languages::Pascal => {
                res.push("pascal");
                assert(res@[0]@ == "pascal"@);
            },
            Languages::Perl => {
                res.push("perl");
                res.push("pl");
                res.push("pm");
                assert(res@[0]@ == "perl"@);
                assert(res@[1]@ == "pl"@);
                assert(res@[2]@ == "pm"@);
            },
            Languages::Php => {
                res.push("php");
                assert(res@[0]@ == "php"@);
            },
            Languages::Prolog => {
                res.push("prolog");
                assert(res@[0]@ == "prolog"@);
            },
            Languages::Python => {
                res.push("python");
                res.push("py");
                assert(res@[0]@ == "python"@);
                assert(res@[1]@ == "py"@);
            },
            Languages::Racket => {
                res.push("racket");
                assert(res@[0]@ == "racket"@);
            },
            Languages::Ruby => {
                res.push("ruby");
                res.push("rb");
                assert(res@[0]@ == "ruby"@);
                assert(res@[1]@ == "rb"@);
            },
            Languages::Rust => {
                res.push("rust");
                res.push("rs");
                assert(res@[0]@ == "rust"@);
                assert(res@[1]@ == "rs"@);
            },
            Languages::TypeScript => {
                res.push("typescript");
                res.push("ts");
                assert(res@[0]@ == "typescript"@);
                assert(res@[1]@ == "ts"@);
            },
        }
        res
    }

    /// Resolves the language tag of a code block. The match against the alias
    /// table is exact and case-sensitive; a name that no language accepts
    /// resolves to `None`.
    pub fn from_codeblock_language(codeblock: &str) -> (res: Option<Self>)
        ensures
            res == Languages::resolve(codeblock@),
            res matches Some(language) ==> language.accepts(codeblock@),
            res is None ==> !Languages::known(codeblock@),
    {
        if same_text(codeblock, "apl") {
            proof {
                Languages::law_known_alias_resolves(Languages::Apl, codeblock@);
            }
            Some(Languages::Apl)
        } else if same_text(codeblock, "bash") || same_text(codeblock, "sh") || same_text(codeblock, "zsh") {
            proof {
                Languages::law_known_alias_resolves(Languages::Bash, codeblock@);
            }
            Some(Languages::Bash)
        } else if same_text(codeblock, "brainfuck") || same_text(codeblock, "bf") {
            proof {
                Languages::law_known_alias_resolves(Languages::BrainFuck, codeblock@);
            }
            Some(Languages::BrainFuck)
        } else if same_text(codeblock, "c") || same_text(codeblock, "h") {
            proof {
                Languages::law_known_alias_resolves(Languages::C, codeblock@);
            }
            Some(Languages::C)
        } else if same_text(codeblock, "clojure") || same_text(codeblock, "clj") {
            proof {
                Languages::law_known_alias_resolves(Languages::Clojure, codeblock@);
            }
            Some(Languages::Clojure)
        } else if same_text(codeblock, "cpp") || same_text(codeblock, "hpp") || same_text(codeblock, "cc") || same_text(codeblock, "hh") || same_text(codeblock, "c++") || same_text(codeblock, "h++") || same_text(codeblock, "cxx") || same_text(codeblock, "hxx") {
            proof {
                Languages::law_known_alias_resolves(Languages::Cpp, codeblock@);
            }
            Some(Languages::Cpp)
        } else if same_text(codeblock, "csharp") || same_text(codeblock, "cs") {
            proof {
                Languages::law_known_alias_resolves(Languages::CSharp, codeblock@);
            }
            Some(Languages::CSharp)
        } else if same_text(codeblock, "elixir") || same_text(codeblock, "ex") {
            proof {
                Languages::law_known_alias_resolves(Languages::Elixir, codeblock@);
            }
            Some(Languages::Elixir)
        } else if same_text(codeblock, "fsharp") || same_text(codeblock, "fs") || same_text(codeblock, "fsx") || same_text(codeblock, "fsi") || same_text(codeblock, "fsscript") {
            proof {
                Languages::law_known_alias_resolves(Languages::FSharp, codeblock@);
            }
            Some(Languages::FSharp)
        } else if same_text(codeblock, "golang") || same_text(codeblock, "go") {
            proof {
                Languages::law_known_alias_resolves(Languages::Golang, codeblock@);
            }
            Some(Languages::Golang)
        } else if same_text(codeblock, "haskell") || same_text(codeblock, "hs") {
            proof {
                Languages::law_known_alias_resolves(Languages::Haskell, codeblock@);
            }
            Some(Languages::Haskell)
        } else if same_text(codeblock, "idris") {
            proof {
                Languages::law_known_alias_resolves(Languages::Idris, codeblock@);
            }
            Some(Languages::Idris)
        } else if same_text(codeblock, "java") {
            proof {
                Languages::law_known_alias_resolves(Languages::Java, codeblock@);
            }
            Some(Languages::Java)
        } else if same_text(codeblock, "javascript") || same_text(codeblock, "js") {
            proof {
                Languages::law_known_alias_resolves(Languages::JavaScript, codeblock@);
            }
            Some(Languages::JavaScript)
        } else if same_text(codeblock, "julia") || same_text(codeblock, "jl") {
            proof {
                Languages::law_known_alias_resolves(Languages::Julia, codeblock@);
            }
            Some(Languages::Julia)
        } else if same_text(codeblock, "lua") {
            proof {
                Languages::law_known_alias_resolves(Languages::Lua, codeblock@);
            }
            Some(Languages::Lua)
        } else if same_text(codeblock, "ocaml") || same_text(codeblock, "ml") {
            proof {
                Languages::law_known_alias_resolves(Languages::OCaml, codeblock@);
            }
            Some(Languages::OCaml)
        } else if same_text(codeblock, "pascal") {
            proof {
                Languages::law_known_alias_resolves(Languages::Pascal, codeblock@);
            }
            Some(Languages::Pascal)
        } else if same_text(codeblock, "perl") || same_text(codeblock, "pl") || same_text(codeblock, "pm") {
            proof {
                Languages::law_known_alias_resolves(Languages::Perl, codeblock@);
            }
            Some(Languages::Perl)
        } else if same_text(codeblock, "php") {
            proof {
                Languages::law_known_alias_resolves(Languages::Php, codeblock@);
            }
            Some(Languages::Php)
        } else if same_text(codeblock, "prolog") {
            proof {
                Languages::law_known_alias_resolves(Languages::Prolog, codeblock@);
            }
            Some(Languages::Prolog)
        } else if same_text(codeblock, "python") || same_text(codeblock, "py") {
            proof {
                Languages::law_known_alias_resolves(Languages::Python, codeblock@);
            }
            Some(Languages::Python)
        } else if same_text(codeblock, "racket") {
            proof {
                Languages::law_known_alias_resolves(Languages::Racket, codeblock@);
            }
            Some(Languages::Racket)
        } else if same_text(codeblock, "ruby") || same_text(codeblock, "rb") {
            proof {
                Languages::law_known_alias_resolves(Languages::Ruby, codeblock@);
            }
            Some(Languages::Ruby)
        } else if same_text(codeblock, "rust") || same_text(codeblock, "rs") {
            proof {
                Languages::law_known_alias_resolves(Languages::Rust, codeblock@);
            }
            Some(Languages::Rust)
        } else if same_text(codeblock, "typescript") || same_text(codeblock, "ts") {
            proof {
                Languages::law_known_alias_resolves(Languages::TypeScript, codeblock@);
            }
            Some(Languages::TypeScript)
        } else {
            assert(forall|language: Languages| !language.accepts(codeblock@));
            None
        }
    }

    /// The language whose display name is `name`: the language that a
    /// configured name enables. An alias that is no display name names no
    /// language.
    pub fn from_name(name: &str) -> (res: Option<Self>)
        ensures
            res == Languages::named(name@),
    {
        proof {
            Languages::law_display_name_unique(name@);
        }
        match Languages::from_codeblock_language(name) {
            Some(language) => if same_text(language.name(), name) {
                Some(language)
            } else {
                None
            },
            None => None,
        }
    }

    /// Every language, in registry order.
    pub fn all() -> (res: Vec<Languages>)
        ensures
            res@ == Languages::all_spec(),
    {
        let mut res: Vec<Languages> = Vec::new();
        res.push(Languages::Apl);
        res.push(Languages::Bash);
        res.push(Languages::BrainFuck);
        res.push(Languages::C);
        res.push(Languages::Clojure);
        res.push(Languages::Cpp);
        res.push(Languages::CSharp);
        res.push(Languages::Elixir);
        res.push(Languages::FSharp);
        res.push(Languages::Golang);
        res.push(Languages::Haskell);
        res.push(Languages::Idris);
        res.push(Languages::Java);
        res.push(Languages::JavaScript);
        res.push(Languages::Julia);
        res.push(Languages::Lua);
        res.push(Languages::OCaml);
        res.push(Languages::Pascal);
        res.push(Languages::Perl);
        res.push(Languages::Php);
        res.push(Languages::Prolog);
        res.push(Languages::Python);
        res.push(Languages::Racket);
        res.push(Languages::Ruby);
        res.push(Languages::Rust);
        res.push(Languages::TypeScript);
        assert(res@ =~= Languages::all_spec());
        res
    }

    /// Whether the configuration enables the language: whether its display
    /// name is among the configured names.
    pub fn enabled(&self, config: &Config) -> (res: bool)
        ensures
            res == config.enables(*self),
    {
        let name = self.name();
        let mut i: usize = 0;
        while i < config.languages.len()
            invariant
                i <= config.languages.len(),
                name@ == self.name_spec(),
                forall|j: int| 0 <= j < i ==> config.languages@[j]@ != name@,
            decreases config.languages.len() - i,
        {
            if same_text(config.languages[i].as_str(), name) {
                return true;
            }
            i += 1;
        }
        false
    }

    /// The languages whose enablement under the configuration is `wanted`,
    /// in registry order.
    fn select(config: &Config, wanted: bool) -> (res: Vec<Languages>)
        ensures
            res@ == Languages::all_spec().filter(
                |language: Languages| config.enables(language) == wanted,
            ),
    {
        let all = Languages::all();
        let ghost pick = |language: Languages| config.enables(language) == wanted;
        let mut res: Vec<Languages> = Vec::new();
        let mut i: usize = 0;
        assert(all@.subrange(0, 0) =~= Seq::<Languages>::empty());
        while i < all.len()
            invariant
                i <= all.len(),
                all@ == Languages::all_spec(),
                pick == |language: Languages| config.enables(language) == wanted,
                res@ == all@.subrange(0, i as int).filter(pick),
            decreases all.len() - i,
        {
            let language = all[i];
            proof {
                reveal(Seq::filter);
                assert(all@.subrange(0, i + 1).drop_last() =~= all@.subrange(0, i as int));
            }
            if language.enabled(config) == wanted {
                res.push(language);
            }
            i += 1;
        }
        assert(all@.subrange(0, all@.len() as int) =~= all@);
        res
    }

    /// The languages that the configuration enables, in registry order.
    pub fn all_enabled(config: &Config) -> (res: Vec<Languages>)
        ensures
            res@ == Languages::all_spec().filter(|language: Languages| config.enables(language)),
    {
        let res = Languages::select(config, true);
        assert((|language: Languages| config.enables(language) == true) =~= (
        |language: Languages| config.enables(language)));
        res
    }

    /// The languages that the configuration does not enable, in registry
    /// order: every language but the enabled ones.
    pub fn all_disabled(config: &Config) -> (res: Vec<Languages>)
        ensures
            res@ == Languages::all_spec().filter(|language: Languages| !config.enables(language)),
    {
        let res = Languages::select(config, false);
        assert((|language: Languages| config.enables(language) == false) =~= (
        |language: Languages| !config.enables(language)));
        res
    }

    /// No alias belongs to two languages.
    pub proof fn law_alias_unique(first: Languages, second: Languages, alias: Seq<char>)
        requires
            first.accepts(alias),
            second.accepts(alias),
        ensures
            first == second,
    {
        Languages::reveal_names();
        let len = alias.len();
        let head = (alias[0], alias[1], alias[2]);
        assert(first.index_spec() == second.index_spec());
    }

    /// Resolution is total on the alias table and has one answer: an alias
    /// that a language accepts always resolves to that language.
    pub proof fn law_known_alias_resolves(language: Languages, alias: Seq<char>)
        requires
            language.accepts(alias),
        ensures
            Languages::known(alias),
            Languages::resolve(alias) == Some(language),
    {
        let chosen = choose|other: Languages| other.accepts(alias);
        Languages::law_alias_unique(chosen, language, alias);
    }

    /// A name outside the alias table resolves to nothing.
    pub proof fn law_unknown_alias_unresolved(alias: Seq<char>)
        requires
            forall|language: Languages| !language.accepts(alias),
        ensures
            Languages::resolve(alias) is None,
    {
    }

    /// Both the canonical tag and the display name of a language resolve to
    /// it.
    pub proof fn law_names_resolve(language: Languages)
        ensures
            Languages::resolve(language.tag_spec()) == Some(language),
            Languages::resolve(language.name_spec()) == Some(language),
    {
        Languages::law_known_alias_resolves(language, language.tag_spec());
        Languages::law_known_alias_resolves(language, language.name_spec());
    }

    /// A display name belongs to one language, the one it resolves to: a text
    /// that is the display name of a language names that language and no
    /// other, and a text that resolves to nothing, or to a language of
    /// another display name, names none.
    pub proof fn law_display_name_unique(name: Seq<char>)
        ensures
            forall|language: Languages| #[trigger]
                language.name_spec() == name ==> Languages::named(name) == Some(language)
                    && Languages::resolve(name) == Some(language),
            Languages::named(name) matches Some(language) ==> language.name_spec() == name,
    {
        assert forall|language: Languages| #[trigger] language.name_spec() == name implies
            Languages::named(name) == Some(language) && Languages::resolve(name) == Some(
            language,
        ) by {
            let chosen = choose|other: Languages| #[trigger] other.name_spec() == name;
            Languages::law_names_resolve(language);
            Languages::law_names_resolve(chosen);
        }
    }

    /// Distinct languages have distinct display names and distinct tags.
    pub proof fn law_names_distinct(first: Languages, second: Languages)
        requires
            first != second,
        ensures
            first.name_spec() != second.name_spec(),
            first.tag_spec() != second.tag_spec(),
    {
        if first.name_spec() == second.name_spec() {
            Languages::law_alias_unique(first, second, first.name_spec());
        }
        if first.tag_spec() == second.tag_spec() {
            Languages::law_alias_unique(first, second, first.tag_spec());
        }
    }

    /// The registry lists every language exactly once.
    pub proof fn law_all_complete(language: Languages)
        ensures
            0 <= language.index_spec() < Languages::all_spec().len(),
            Languages::all_spec()[language.index_spec()] == language,
            forall|i: int|
                0 <= i < Languages::all_spec().len() && Languages::all_spec()[i] == language
                    ==> i == language.index_spec(),
    {
    }
}

} // verus!
