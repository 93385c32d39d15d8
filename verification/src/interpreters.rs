//! The interpreters that can run a script, chosen by the script's file extension.

use vstd::prelude::*;

use crate::text::str_eq;

verus! {

/// What `std::path::Path::extension` gives for a path, as text: the part of the file
/// name after its last `.`, or `None` if there is no file name, no `.` in it, or only a
/// leading one. The file name is the last component of the path, split at the
/// separators of the platform that the library is built for.
pub uninterp spec fn path_extension(path: Seq<char>) -> Option<Seq<char>>;

/// The extension of the file that `path` names.
///
/// Calls `std::path::Path::extension` and converts the result with
/// `OsStr::to_string_lossy`; its result is named [`path_extension`].
#[verifier::external_body]
fn path_extension_exec(path: &str) -> (r: Option<String>)
    ensures
        r is None <==> path_extension(path@) is None,
        r matches Some(e) ==> e@ == path_extension(path@)->0,
{
    std::path::Path::new(path).extension().map(|e| e.to_string_lossy().into_owned())
}

/// A scripting language.
#[derive(Clone, Copy, PartialEq, Eq, Structural, Debug, Hash)]
pub enum Language {
    Dart,
    JavaScript,
    Lua,
    Luau,
    Perl,
    Python,
    Ruby,
    Shell,
}

/// An interpreter that was found for a script.
pub struct Found {
    pub language: Language,
    pub interpreter: String,
}

/// The language of the files with extension `ext`.
pub open spec fn language_of(ext: Seq<char>) -> Option<Language> {
    if ext == "dart"@ {
        Some(Language::Dart)
    } else if ext == "js"@ || ext == "mjs"@ || ext == "cjs"@ {
        Some(Language::JavaScript)
    } else if ext == "lua"@ {
        Some(Language::Lua)
    } else if ext == "luau"@ {
        Some(Language::Luau)
    } else if ext == "pl"@ || ext == "pm"@ || ext == "t"@ || ext == "pod"@ {
        Some(Language::Perl)
    } else if ext == "py"@ || ext == "pyi"@ || ext == "pyc"@ || ext == "pyw"@ || ext == "pyx"@ {
        Some(Language::Python)
    } else if ext == "rb"@ || ext == "rake"@ || ext == "gemspec"@ {
        Some(Language::Ruby)
    } else if ext == "sh"@ || ext == "bash"@ {
        Some(Language::Shell)
    } else {
        None
    }
}

/// The interpreters of `language`, in the order they are tried.
pub open spec fn interpreters_of(language: Language) -> Seq<Seq<char>> {
    match language {
        Language::Dart => seq!["dart"@],
        Language::JavaScript => seq!["node"@],
        Language::Lua => seq!["lua"@],
        Language::Luau => seq!["luau"@],
        Language::Perl => seq!["perl"@],
        Language::Python => seq!["python"@, "python3"@],
        Language::Ruby => seq!["ruby"@],
        Language::Shell => seq!["bash"@, "sh"@],
    }
}

/// The languages by extension: `dart` is Dart; `js`, `mjs` and `cjs` are JavaScript;
/// `lua` is Lua; `luau` is Luau; `pl`, `pm`, `t` and `pod` are Perl; `py`, `pyi`, `pyc`,
/// `pyw` and `pyx` are Python; `rb`, `rake` and `gemspec` are Ruby; `sh` and `bash` are
/// shell scripts; other extensions, such as `exe`, `txt` or `wasm`, have no language.
pub proof fn lemma_extension_table()
    ensures
        language_of("dart"@) == Some(Language::Dart),
        language_of("js"@) == Some(Language::JavaScript),
        language_of("mjs"@) == Some(Language::JavaScript),
        language_of("cjs"@) == Some(Language::JavaScript),
        language_of("lua"@) == Some(Language::Lua),
        language_of("luau"@) == Some(Language::Luau),
        language_of("pl"@) == Some(Language::Perl),
        language_of("pm"@) == Some(Language::Perl),
        language_of("t"@) == Some(Language::Perl),
        language_of("pod"@) == Some(Language::Perl),
        language_of("py"@) == Some(Language::Python),
        language_of("pyi"@) == Some(Language::Python),
        language_of("pyc"@) == Some(Language::Python),
        language_of("pyw"@) == Some(Language::Python),
        language_of("pyx"@) == Some(Language::Python),
        language_of("rb"@) == Some(Language::Ruby),
        language_of("rake"@) == Some(Language::Ruby),
        language_of("gemspec"@) == Some(Language::Ruby),
        language_of("sh"@) == Some(Language::Shell),
        language_of("bash"@) == Some(Language::Shell),
        language_of("exe"@) is None,
        language_of("txt"@) is None,
        language_of("wasm"@) is None,
{
    reveal_strlit("dart");
    reveal_strlit("js");
    reveal_strlit("mjs");
    reveal_strlit("cjs");
    reveal_strlit("lua");
    reveal_strlit("luau");
    reveal_strlit("pl");
    reveal_strlit("pm");
    reveal_strlit("t");
    reveal_strlit("pod");
    reveal_strlit("py");
    reveal_strlit("pyi");
    reveal_strlit("pyc");
    reveal_strlit("pyw");
    reveal_strlit("pyx");
    reveal_strlit("rb");
    reveal_strlit("rake");
    reveal_strlit("gemspec");
    reveal_strlit("sh");
    reveal_strlit("bash");
    reveal_strlit("exe");
    reveal_strlit("txt");
    reveal_strlit("wasm");
    assert("js"@ != "dart"@) by { assert("js"@.len() != "dart"@.len()); }
    assert("mjs"@ != "dart"@) by { assert("mjs"@.len() != "dart"@.len()); }
    assert("mjs"@ != "js"@) by { assert("mjs"@.len() != "js"@.len()); }
    assert("cjs"@ != "dart"@) by { assert("cjs"@.len() != "dart"@.len()); }
    assert("cjs"@ != "js"@) by { assert("cjs"@.len() != "js"@.len()); }
    assert("cjs"@ != "mjs"@) by { assert("cjs"@[0] != "mjs"@[0]); }
    assert("lua"@ != "dart"@) by { assert("lua"@.len() != "dart"@.len()); }
    assert("lua"@ != "js"@) by { assert("lua"@.len() != "js"@.len()); }
    assert("lua"@ != "mjs"@) by { assert("lua"@[0] != "mjs"@[0]); }
    assert("lua"@ != "cjs"@) by { assert("lua"@[0] != "cjs"@[0]); }
    assert("luau"@ != "dart"@) by { assert("luau"@[0] != "dart"@[0]); }
    assert("luau"@ != "js"@) by { assert("luau"@.len() != "js"@.len()); }
    assert("luau"@ != "mjs"@) by { assert("luau"@.len() != "mjs"@.len()); }
    assert("luau"@ != "cjs"@) by { assert("luau"@.len() != "cjs"@.len()); }
    assert("luau"@ != "lua"@) by { assert("luau"@.len() != "lua"@.len()); }
    assert("pl"@ != "dart"@) by { assert("pl"@.len() != "dart"@.len()); }
    assert("pl"@ != "js"@) by { assert("pl"@[0] != "js"@[0]); }
    assert("pl"@ != "mjs"@) by { assert("pl"@.len() != "mjs"@.len()); }
    assert("pl"@ != "cjs"@) by { assert("pl"@.len() != "cjs"@.len()); }
    assert("pl"@ != "lua"@) by { assert("pl"@.len() != "lua"@.len()); }
    assert("pl"@ != "luau"@) by { assert("pl"@.len() != "luau"@.len()); }
    assert("pm"@ != "dart"@) by { assert("pm"@.len() != "dart"@.len()); }
    assert("pm"@ != "js"@) by { assert("pm"@[0] != "js"@[0]); }
    assert("pm"@ != "mjs"@) by { assert("pm"@.len() != "mjs"@.len()); }
    assert("pm"@ != "cjs"@) by { assert("pm"@.len() != "cjs"@.len()); }
    assert("pm"@ != "lua"@) by { assert("pm"@.len() != "lua"@.len()); }
    assert("pm"@ != "luau"@) by { assert("pm"@.len() != "luau"@.len()); }
    assert("pm"@ != "pl"@) by { assert("pm"@[1] != "pl"@[1]); }
    assert("t"@ != "dart"@) by { assert("t"@.len() != "dart"@.len()); }
    assert("t"@ != "js"@) by { assert("t"@.len() != "js"@.len()); }
    assert("t"@ != "mjs"@) by { assert("t"@.len() != "mjs"@.len()); }
    assert("t"@ != "cjs"@) by { assert("t"@.len() != "cjs"@.len()); }
    assert("t"@ != "lua"@) by { assert("t"@.len() != "lua"@.len()); }
    assert("t"@ != "luau"@) by { assert("t"@.len() != "luau"@.len()); }
    assert("t"@ != "pl"@) by { assert("t"@.len() != "pl"@.len()); }
    assert("t"@ != "pm"@) by { assert("t"@.len() != "pm"@.len()); }
    assert("pod"@ != "dart"@) by { assert("pod"@.len() != "dart"@.len()); }
    assert("pod"@ != "js"@) by { assert("pod"@.len() != "js"@.len()); }
    assert("pod"@ != "mjs"@) by { assert("pod"@[0] != "mjs"@[0]); }
    assert("pod"@ != "cjs"@) by { assert("pod"@[0] != "cjs"@[0]); }
    assert("pod"@ != "lua"@) by { assert("pod"@[0] != "lua"@[0]); }
    assert("pod"@ != "luau"@) by { assert("pod"@.len() != "luau"@.len()); }
    assert("pod"@ != "pl"@) by { assert("pod"@.len() != "pl"@.len()); }
    assert("pod"@ != "pm"@) by { assert("pod"@.len() != "pm"@.len()); }
    assert("pod"@ != "t"@) by { assert("pod"@.len() != "t"@.len()); }
    assert("py"@ != "dart"@) by { assert("py"@.len() != "dart"@.len()); }
    assert("py"@ != "js"@) by { assert("py"@[0] != "js"@[0]); }
    assert("py"@ != "mjs"@) by { assert("py"@.len() != "mjs"@.len()); }
    assert("py"@ != "cjs"@) by { assert("py"@.len() != "cjs"@.len()); }
    assert("py"@ != "lua"@) by { assert("py"@.len() != "lua"@.len()); }
    assert("py"@ != "luau"@) by { assert("py"@.len() != "luau"@.len()); }
    assert("py"@ != "pl"@) by { assert("py"@[1] != "pl"@[1]); }
    assert("py"@ != "pm"@) by { assert("py"@[1] != "pm"@[1]); }
    assert("py"@ != "t"@) by { assert("py"@.len() != "t"@.len()); }
    assert("py"@ != "pod"@) by { assert("py"@.len() != "pod"@.len()); }
    assert("pyi"@ != "dart"@) by { assert("pyi"@.len() != "dart"@.len()); }
    assert("pyi"@ != "js"@) by { assert("pyi"@.len() != "js"@.len()); }
    assert("pyi"@ != "mjs"@) by { assert("pyi"@[0] != "mjs"@[0]); }
    assert("pyi"@ != "cjs"@) by { assert("pyi"@[0] != "cjs"@[0]); }
    assert("pyi"@ != "lua"@) by { assert("pyi"@[0] != "lua"@[0]); }
    assert("pyi"@ != "luau"@) by { assert("pyi"@.len() != "luau"@.len()); }
    assert("pyi"@ != "pl"@) by { assert("pyi"@.len() != "pl"@.len()); }
    assert("pyi"@ != "pm"@) by { assert("pyi"@.len() != "pm"@.len()); }
    assert("pyi"@ != "t"@) by { assert("pyi"@.len() != "t"@.len()); }
    assert("pyi"@ != "pod"@) by { assert("pyi"@[1] != "pod"@[1]); }
    assert("pyi"@ != "py"@) by { assert("pyi"@.len() != "py"@.len()); }
    assert("pyc"@ != "dart"@) by { assert("pyc"@.len() != "dart"@.len()); }
    assert("pyc"@ != "js"@) by { assert("pyc"@.len() != "js"@.len()); }
    assert("pyc"@ != "mjs"@) by { assert("pyc"@[0] != "mjs"@[0]); }
    assert("pyc"@ != "cjs"@) by { assert("pyc"@[0] != "cjs"@[0]); }
    assert("pyc"@ != "lua"@) by { assert("pyc"@[0] != "lua"@[0]); }
    assert("pyc"@ != "luau"@) by { assert("pyc"@.len() != "luau"@.len()); }
    assert("pyc"@ != "pl"@) by { assert("pyc"@.len() != "pl"@.len()); }
    assert("pyc"@ != "pm"@) by { assert("pyc"@.len() != "pm"@.len()); }
    assert("pyc"@ != "t"@) by { assert("pyc"@.len() != "t"@.len()); }
    assert("pyc"@ != "pod"@) by { assert("pyc"@[1] != "pod"@[1]); }
    assert("pyc"@ != "py"@) by { assert("pyc"@.len() != "py"@.len()); }
    assert("pyc"@ != "pyi"@) by { assert("pyc"@[2] != "pyi"@[2]); }
    assert("pyw"@ != "dart"@) by { assert("pyw"@.len() != "dart"@.len()); }
    assert("pyw"@ != "js"@) by { assert("pyw"@.len() != "js"@.len()); }
    assert("pyw"@ != "mjs"@) by { assert("pyw"@[0] != "mjs"@[0]); }
    assert("pyw"@ != "cjs"@) by { assert("pyw"@[0] != "cjs"@[0]); }
    assert("pyw"@ != "lua"@) by { assert("pyw"@[0] != "lua"@[0]); }
    assert("pyw"@ != "luau"@) by { assert("pyw"@.len() != "luau"@.len()); }
    assert("pyw"@ != "pl"@) by { assert("pyw"@.len() != "pl"@.len()); }
    assert("pyw"@ != "pm"@) by { assert("pyw"@.len() != "pm"@.len()); }
    assert("pyw"@ != "t"@) by { assert("pyw"@.len() != "t"@.len()); }
    assert("pyw"@ != "pod"@) by { assert("pyw"@[1] != "pod"@[1]); }
    assert("pyw"@ != "py"@) by { assert("pyw"@.len() != "py"@.len()); }
    assert("pyw"@ != "pyi"@) by { assert("pyw"@[2] != "pyi"@[2]); }
    assert("pyw"@ != "pyc"@) by { assert("pyw"@[2] != "pyc"@[2]); }
    assert("pyx"@ != "dart"@) by { assert("pyx"@.len() != "dart"@.len()); }
    assert("pyx"@ != "js"@) by { assert("pyx"@.len() != "js"@.len()); }
    assert("pyx"@ != "mjs"@) by { assert("pyx"@[0] != "mjs"@[0]); }
    assert("pyx"@ != "cjs"@) by { assert("pyx"@[0] != "cjs"@[0]); }
    assert("pyx"@ != "lua"@) by { assert("pyx"@[0] != "lua"@[0]); }
    assert("pyx"@ != "luau"@) by { assert("pyx"@.len() != "luau"@.len()); }
    assert("pyx"@ != "pl"@) by { assert("pyx"@.len() != "pl"@.len()); }
    assert("pyx"@ != "pm"@) by { assert("pyx"@.len() != "pm"@.len()); }
    assert("pyx"@ != "t"@) by { assert("pyx"@.len() != "t"@.len()); }
    assert("pyx"@ != "pod"@) by { assert("pyx"@[1] != "pod"@[1]); }
    assert("pyx"@ != "py"@) by { assert("pyx"@.len() != "py"@.len()); }
    assert("pyx"@ != "pyi"@) by { assert("pyx"@[2] != "pyi"@[2]); }
    assert("pyx"@ != "pyc"@) by { assert("pyx"@[2] != "pyc"@[2]); }
    assert("pyx"@ != "pyw"@) by { assert("pyx"@[2] != "pyw"@[2]); }
    assert("rb"@ != "dart"@) by { assert("rb"@.len() != "dart"@.len()); }
    assert("rb"@ != "js"@) by { assert("rb"@[0] != "js"@[0]); }
    assert("rb"@ != "mjs"@) by { assert("rb"@.len() != "mjs"@.len()); }
    assert("rb"@ != "cjs"@) by { assert("rb"@.len() != "cjs"@.len()); }
    assert("rb"@ != "lua"@) by { assert("rb"@.len() != "lua"@.len()); }
    assert("rb"@ != "luau"@) by { assert("rb"@.len() != "luau"@.len()); }
    assert("rb"@ != "pl"@) by { assert("rb"@[0] != "pl"@[0]); }
    assert("rb"@ != "pm"@) by { assert("rb"@[0] != "pm"@[0]); }
    assert("rb"@ != "t"@) by { assert("rb"@.len() != "t"@.len()); }
    assert("rb"@ != "pod"@) by { assert("rb"@.len() != "pod"@.len()); }
    assert("rb"@ != "py"@) by { assert("rb"@[0] != "py"@[0]); }
    assert("rb"@ != "pyi"@) by { assert("rb"@.len() != "pyi"@.len()); }
    assert("rb"@ != "pyc"@) by { assert("rb"@.len() != "pyc"@.len()); }
    assert("rb"@ != "pyw"@) by { assert("rb"@.len() != "pyw"@.len()); }
    assert("rb"@ != "pyx"@) by { assert("rb"@.len() != "pyx"@.len()); }
    assert("rake"@ != "dart"@) by { assert("rake"@[0] != "dart"@[0]); }
    assert("rake"@ != "js"@) by { assert("rake"@.len() != "js"@.len()); }
    assert("rake"@ != "mjs"@) by { assert("rake"@.len() != "mjs"@.len()); }
    assert("rake"@ != "cjs"@) by { assert("rake"@.len() != "cjs"@.len()); }
    assert("rake"@ != "lua"@) by { assert("rake"@.len() != "lua"@.len()); }
    assert("rake"@ != "luau"@) by { assert("rake"@[0] != "luau"@[0]); }
    assert("rake"@ != "pl"@) by { assert("rake"@.len() != "pl"@.len()); }
    assert("rake"@ != "pm"@) by { assert("rake"@.len() != "pm"@.len()); }
    assert("rake"@ != "t"@) by { assert("rake"@.len() != "t"@.len()); }
    assert("rake"@ != "pod"@) by { assert("rake"@.len() != "pod"@.len()); }
    assert("rake"@ != "py"@) by { assert("rake"@.len() != "py"@.len()); }
    assert("rake"@ != "pyi"@) by { assert("rake"@.len() != "pyi"@.len()); }
    assert("rake"@ != "pyc"@) by { assert("rake"@.len() != "pyc"@.len()); }
    assert("rake"@ != "pyw"@) by { assert("rake"@.len() != "pyw"@.len()); }
    assert("rake"@ != "pyx"@) by { assert("rake"@.len() != "pyx"@.len()); }
    assert("rake"@ != "rb"@) by { assert("rake"@.len() != "rb"@.len()); }
    assert("gemspec"@ != "dart"@) by { assert("gemspec"@.len() != "dart"@.len()); }
    assert("gemspec"@ != "js"@) by { assert("gemspec"@.len() != "js"@.len()); }
    assert("gemspec"@ != "mjs"@) by { assert("gemspec"@.len() != "mjs"@.len()); }
    assert("gemspec"@ != "cjs"@) by { assert("gemspec"@.len() != "cjs"@.len()); }
    assert("gemspec"@ != "lua"@) by { assert("gemspec"@.len() != "lua"@.len()); }
    assert("gemspec"@ != "luau"@) by { assert("gemspec"@.len() != "luau"@.len()); }
    assert("gemspec"@ != "pl"@) by { assert("gemspec"@.len() != "pl"@.len()); }
    assert("gemspec"@ != "pm"@) by { assert("gemspec"@.len() != "pm"@.len()); }
    assert("gemspec"@ != "t"@) by { assert("gemspec"@.len() != "t"@.len()); }
    assert("gemspec"@ != "pod"@) by { assert("gemspec"@.len() != "pod"@.len()); }
    assert("gemspec"@ != "py"@) by { assert("gemspec"@.len() != "py"@.len()); }
    assert("gemspec"@ != "pyi"@) by { assert("gemspec"@.len() != "pyi"@.len()); }
    assert("gemspec"@ != "pyc"@) by { assert("gemspec"@.len() != "pyc"@.len()); }
    assert("gemspec"@ != "pyw"@) by { assert("gemspec"@.len() != "pyw"@.len()); }
    assert("gemspec"@ != "pyx"@) by { assert("gemspec"@.len() != "pyx"@.len()); }
    assert("gemspec"@ != "rb"@) by { assert("gemspec"@.len() != "rb"@.len()); }
    assert("gemspec"@ != "rake"@) by { assert("gemspec"@.len() != "rake"@.len()); }
    assert("sh"@ != "dart"@) by { assert("sh"@.len() != "dart"@.len()); }
    assert("sh"@ != "js"@) by { assert("sh"@[0] != "js"@[0]); }
    assert("sh"@ != "mjs"@) by { assert("sh"@.len() != "mjs"@.len()); }
    assert("sh"@ != "cjs"@) by { assert("sh"@.len() != "cjs"@.len()); }
    assert("sh"@ != "lua"@) by { assert("sh"@.len() != "lua"@.len()); }
    assert("sh"@ != "luau"@) by { assert("sh"@.len() != "luau"@.len()); }
    assert("sh"@ != "pl"@) by { assert("sh"@[0] != "pl"@[0]); }
    assert("sh"@ != "pm"@) by { assert("sh"@[0] != "pm"@[0]); }
    assert("sh"@ != "t"@) by { assert("sh"@.len() != "t"@.len()); }
    assert("sh"@ != "pod"@) by { assert("sh"@.len() != "pod"@.len()); }
    assert("sh"@ != "py"@) by { assert("sh"@[0] != "py"@[0]); }
    assert("sh"@ != "pyi"@) by { assert("sh"@.len() != "pyi"@.len()); }
    assert("sh"@ != "pyc"@) by { assert("sh"@.len() != "pyc"@.len()); }
    assert("sh"@ != "pyw"@) by { assert("sh"@.len() != "pyw"@.len()); }
    assert("sh"@ != "pyx"@) by { assert("sh"@.len() != "pyx"@.len()); }
    assert("sh"@ != "rb"@) by { assert("sh"@[0] != "rb"@[0]); }
    assert("sh"@ != "rake"@) by { assert("sh"@.len() != "rake"@.len()); }
    assert("sh"@ != "gemspec"@) by { assert("sh"@.len() != "gemspec"@.len()); }
    assert("bash"@ != "dart"@) by { assert("bash"@[0] != "dart"@[0]); }
    assert("bash"@ != "js"@) by { assert("bash"@.len() != "js"@.len()); }
    assert("bash"@ != "mjs"@) by { assert("bash"@.len() != "mjs"@.len()); }
    assert("bash"@ != "cjs"@) by { assert("bash"@.len() != "cjs"@.len()); }
    assert("bash"@ != "lua"@) by { assert("bash"@.len() != "lua"@.len()); }
    assert("bash"@ != "luau"@) by { assert("bash"@[0] != "luau"@[0]); }
    assert("bash"@ != "pl"@) by { assert("bash"@.len() != "pl"@.len()); }
    assert("bash"@ != "pm"@) by { assert("bash"@.len() != "pm"@.len()); }
    assert("bash"@ != "t"@) by { assert("bash"@.len() != "t"@.len()); }
    assert("bash"@ != "pod"@) by { assert("bash"@.len() != "pod"@.len()); }
    assert("bash"@ != "py"@) by { assert("bash"@.len() != "py"@.len()); }
    assert("bash"@ != "pyi"@) by { assert("bash"@.len() != "pyi"@.len()); }
    assert("bash"@ != "pyc"@) by { assert("bash"@.len() != "pyc"@.len()); }
    assert("bash"@ != "pyw"@) by { assert("bash"@.len() != "pyw"@.len()); }
    assert("bash"@ != "pyx"@) by { assert("bash"@.len() != "pyx"@.len()); }
    assert("bash"@ != "rb"@) by { assert("bash"@.len() != "rb"@.len()); }
    assert("bash"@ != "rake"@) by { assert("bash"@[0] != "rake"@[0]); }
    assert("bash"@ != "gemspec"@) by { assert("bash"@.len() != "gemspec"@.len()); }
    assert("bash"@ != "sh"@) by { assert("bash"@.len() != "sh"@.len()); }
    assert("exe"@ != "dart"@) by { assert("exe"@.len() != "dart"@.len()); }
    assert("exe"@ != "js"@) by { assert("exe"@.len() != "js"@.len()); }
    assert("exe"@ != "mjs"@) by { assert("exe"@[0] != "mjs"@[0]); }
    assert("exe"@ != "cjs"@) by { assert("exe"@[0] != "cjs"@[0]); }
    assert("exe"@ != "lua"@) by { assert("exe"@[0] != "lua"@[0]); }
    assert("exe"@ != "luau"@) by { assert("exe"@.len() != "luau"@.len()); }
    assert("exe"@ != "pl"@) by { assert("exe"@.len() != "pl"@.len()); }
    assert("exe"@ != "pm"@) by { assert("exe"@.len() != "pm"@.len()); }
    assert("exe"@ != "t"@) by { assert("exe"@.len() != "t"@.len()); }
    assert("exe"@ != "pod"@) by { assert("exe"@[0] != "pod"@[0]); }
    assert("exe"@ != "py"@) by { assert("exe"@.len() != "py"@.len()); }
    assert("exe"@ != "pyi"@) by { assert("exe"@[0] != "pyi"@[0]); }
    assert("exe"@ != "pyc"@) by { assert("exe"@[0] != "pyc"@[0]); }
    assert("exe"@ != "pyw"@) by { assert("exe"@[0] != "pyw"@[0]); }
    assert("exe"@ != "pyx"@) by { assert("exe"@[0] != "pyx"@[0]); }
    assert("exe"@ != "rb"@) by { assert("exe"@.len() != "rb"@.len()); }
    assert("exe"@ != "rake"@) by { assert("exe"@.len() != "rake"@.len()); }
    assert("exe"@ != "gemspec"@) by { assert("exe"@.len() != "gemspec"@.len()); }
    assert("exe"@ != "sh"@) by { assert("exe"@.len() != "sh"@.len()); }
    assert("exe"@ != "bash"@) by { assert("exe"@.len() != "bash"@.len()); }
    assert("txt"@ != "dart"@) by { assert("txt"@.len() != "dart"@.len()); }
    assert("txt"@ != "js"@) by { assert("txt"@.len() != "js"@.len()); }
    assert("txt"@ != "mjs"@) by { assert("txt"@[0] != "mjs"@[0]); }
    assert("txt"@ != "cjs"@) by { assert("txt"@[0] != "cjs"@[0]); }
    assert("txt"@ != "lua"@) by { assert("txt"@[0] != "lua"@[0]); }
    assert("txt"@ != "luau"@) by { assert("txt"@.len() != "luau"@.len()); }
    assert("txt"@ != "pl"@) by { assert("txt"@.len() != "pl"@.len()); }
    assert("txt"@ != "pm"@) by { assert("txt"@.len() != "pm"@.len()); }
    assert("txt"@ != "t"@) by { assert("txt"@.len() != "t"@.len()); }
    assert("txt"@ != "pod"@) by { assert("txt"@[0] != "pod"@[0]); }
    assert("txt"@ != "py"@) by { assert("txt"@.len() != "py"@.len()); }
    assert("txt"@ != "pyi"@) by { assert("txt"@[0] != "pyi"@[0]); }
    assert("txt"@ != "pyc"@) by { assert("txt"@[0] != "pyc"@[0]); }
    assert("txt"@ != "pyw"@) by { assert("txt"@[0] != "pyw"@[0]); }
    assert("txt"@ != "pyx"@) by { assert("txt"@[0] != "pyx"@[0]); }
    assert("txt"@ != "rb"@) by { assert("txt"@.len() != "rb"@.len()); }
    assert("txt"@ != "rake"@) by { assert("txt"@.len() != "rake"@.len()); }
    assert("txt"@ != "gemspec"@) by { assert("txt"@.len() != "gemspec"@.len()); }
    assert("txt"@ != "sh"@) by { assert("txt"@.len() != "sh"@.len()); }
    assert("txt"@ != "bash"@) by { assert("txt"@.len() != "bash"@.len()); }
    assert("wasm"@ != "dart"@) by { assert("wasm"@[0] != "dart"@[0]); }
    assert("wasm"@ != "js"@) by { assert("wasm"@.len() != "js"@.len()); }
    assert("wasm"@ != "mjs"@) by { assert("wasm"@.len() != "mjs"@.len()); }
    assert("wasm"@ != "cjs"@) by { assert("wasm"@.len() != "cjs"@.len()); }
    assert("wasm"@ != "lua"@) by { assert("wasm"@.len() != "lua"@.len()); }
    assert("wasm"@ != "luau"@) by { assert("wasm"@[0] != "luau"@[0]); }
    assert("wasm"@ != "pl"@) by { assert("wasm"@.len() != "pl"@.len()); }
    assert("wasm"@ != "pm"@) by { assert("wasm"@.len() != "pm"@.len()); }
    assert("wasm"@ != "t"@) by { assert("wasm"@.len() != "t"@.len()); }
    assert("wasm"@ != "pod"@) by { assert("wasm"@.len() != "pod"@.len()); }
    assert("wasm"@ != "py"@) by { assert("wasm"@.len() != "py"@.len()); }
    assert("wasm"@ != "pyi"@) by { assert("wasm"@.len() != "pyi"@.len()); }
    assert("wasm"@ != "pyc"@) by { assert("wasm"@.len() != "pyc"@.len()); }
    assert("wasm"@ != "pyw"@) by { assert("wasm"@.len() != "pyw"@.len()); }
    assert("wasm"@ != "pyx"@) by { assert("wasm"@.len() != "pyx"@.len()); }
    assert("wasm"@ != "rb"@) by { assert("wasm"@.len() != "rb"@.len()); }
    assert("wasm"@ != "rake"@) by { assert("wasm"@[0] != "rake"@[0]); }
    assert("wasm"@ != "gemspec"@) by { assert("wasm"@.len() != "gemspec"@.len()); }
    assert("wasm"@ != "sh"@) by { assert("wasm"@.len() != "sh"@.len()); }
    assert("wasm"@ != "bash"@) by { assert("wasm"@[0] != "bash"@[0]); }
}

/// The language of the files with extension `ext`, if it is known.
pub fn language_for_extension(ext: &str) -> (l: Option<Language>)
    ensures
        l == language_of(ext@),
        ext@ == "dart"@ ==> l == Some(Language::Dart),
        ext@ == "js"@ ==> l == Some(Language::JavaScript),
        ext@ == "mjs"@ ==> l == Some(Language::JavaScript),
        ext@ == "cjs"@ ==> l == Some(Language::JavaScript),
        ext@ == "lua"@ ==> l == Some(Language::Lua),
        ext@ == "luau"@ ==> l == Some(Language::Luau),
        ext@ == "pl"@ ==> l == Some(Language::Perl),
        ext@ == "pm"@ ==> l == Some(Language::Perl),
        ext@ == "t"@ ==> l == Some(Language::Perl),
        ext@ == "pod"@ ==> l == Some(Language::Perl),
        ext@ == "py"@ ==> l == Some(Language::Python),
        ext@ == "pyi"@ ==> l == Some(Language::Python),
        ext@ == "pyc"@ ==> l == Some(Language::Python),
        ext@ == "pyw"@ ==> l == Some(Language::Python),
        ext@ == "pyx"@ ==> l == Some(Language::Python),
        ext@ == "rb"@ ==> l == Some(Language::Ruby),
        ext@ == "rake"@ ==> l == Some(Language::Ruby),
        ext@ == "gemspec"@ ==> l == Some(Language::Ruby),
        ext@ == "sh"@ ==> l == Some(Language::Shell),
        ext@ == "bash"@ ==> l == Some(Language::Shell),
{
    proof {
        lemma_extension_table();
    }
    if str_eq(ext, "dart") {
        Some(Language::Dart)
    } else if str_eq(ext, "js") || str_eq(ext, "mjs") || str_eq(ext, "cjs") {
        Some(Language::JavaScript)
    } else if str_eq(ext, "lua") {
        Some(Language::Lua)
    } else if str_eq(ext, "luau") {
        Some(Language::Luau)
    } else if str_eq(ext, "pl") || str_eq(ext, "pm") || str_eq(ext, "t") || str_eq(ext, "pod") {
        Some(Language::Perl)
    } else if str_eq(ext, "py") || str_eq(ext, "pyi") || str_eq(ext, "pyc") || str_eq(ext, "pyw") || str_eq(ext, "pyx") {
        Some(Language::Python)
    } else if str_eq(ext, "rb") || str_eq(ext, "rake") || str_eq(ext, "gemspec") {
        Some(Language::Ruby)
    } else if str_eq(ext, "sh") || str_eq(ext, "bash") {
        Some(Language::Shell)
    } else {
        None
    }
}

fn one(a: &str) -> (v: Vec<String>)
    ensures
        v.deep_view() == seq![a@],
{
    let mut v = Vec::new();
    v.push(String::from_str(a));
    assert(v.deep_view() =~= seq![a@]);
    v
}

fn two(a: &str, b: &str) -> (v: Vec<String>)
    ensures
        v.deep_view() == seq![a@, b@],
{
    let mut v = Vec::new();
    v.push(String::from_str(a));
    v.push(String::from_str(b));
    assert(v.deep_view() =~= seq![a@, b@]);
    v
}

/// The interpreters tried for each language, in order: `dart` for Dart, `node` for
/// JavaScript, `lua` for Lua, `luau` for Luau, `perl` for Perl, `python` then `python3`
/// for Python, `ruby` for Ruby, and `bash` then `sh` for shell scripts.
pub proof fn lemma_interpreter_table()
    ensures
        interpreters_of(Language::Dart) == seq!["dart"@],
        interpreters_of(Language::JavaScript) == seq!["node"@],
        interpreters_of(Language::Lua) == seq!["lua"@],
        interpreters_of(Language::Luau) == seq!["luau"@],
        interpreters_of(Language::Perl) == seq!["perl"@],
        interpreters_of(Language::Python) == seq!["python"@, "python3"@],
        interpreters_of(Language::Ruby) == seq!["ruby"@],
        interpreters_of(Language::Shell) == seq!["bash"@, "sh"@],
{
}

/// The interpreters of `language`, in the order they are tried.
pub fn interpreters_for(language: Language) -> (v: Vec<String>)
    ensures
        v.deep_view() == interpreters_of(language),
{
    match language {
        Language::Dart => one("dart"),
        Language::JavaScript => one("node"),
        Language::Lua => one("lua"),
        Language::Luau => one("luau"),
        Language::Perl => one("perl"),
        Language::Python => two("python", "python3"),
        Language::Ruby => one("ruby"),
        Language::Shell => two("bash", "sh"),
    }
}

/// The language of the script at `path` and the interpreters to try for it, or `None`
/// if the path has no extension or an extension of no known language.
pub fn interpreter_candidates(path: &str) -> (r: Option<(Language, Vec<String>)>)
    ensures
        r is None <==> (path_extension(path@) is None || language_of(path_extension(path@)->0) is None),
        r matches Some((l, v)) ==> language_of(path_extension(path@)->0) == Some(l)
            && v.deep_view() == interpreters_of(l),
{
    let ext = path_extension_exec(path)?;
    let language = language_for_extension(ext.as_str())?;
    Some((language, interpreters_for(language)))
}

/// The first candidate that is available (`available[i]` tells whether `candidates[i]`
/// is), as the interpreter for `language`; `None` if none is.
pub fn pick_interpreter(language: Language, candidates: &Vec<String>, available: &Vec<bool>) -> (r: Option<Found>)
    requires
        candidates.len() == available.len(),
    ensures
        r is None <==> forall|i: int| 0 <= i < available.len() ==> !(#[trigger] available@[i]),
        r matches Some(f) ==> f.language == language && exists|i: int| 0 <= i < available.len() && available@[i]
            && f.interpreter@ == candidates@[i]@ && forall|j: int| 0 <= j < i ==> !(#[trigger] available@[j]),
{
    let n = candidates.len();
    let mut i: usize = 0;
    while i < n
        invariant
            n == candidates.len(),
            n == available.len(),
            0 <= i <= n,
            forall|j: int| 0 <= j < i ==> !(#[trigger] available@[j]),
        decreases n - i,
    {
        if available[i] {
            return Some(Found { language, interpreter: candidates[i].clone() });
        }
        i = i + 1;
    }
    None
}

} // verus!
