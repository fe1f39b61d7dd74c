//! The language registry: a fixed, read-only table mapping a language id
//! (aliases included) to its launch specification. Built once per query from
//! literals; there is no runtime mutation. An unknown id fails here, before
//! any sandbox is touched.

use vstd::prelude::*;

verus! {

/// A language's launch specification: the ordered argv the sandbox runs, and
/// the absolute path inside the sandbox where the source file must be placed
/// before start. The last token of `launch_command` is `code_file_path`.
#[derive(Debug)]
pub struct LanguageSpec {
    /// Canonical id of the language; aliases share it.
    pub id: String,
    /// The argv the sandbox executes, one token per element.
    pub launch_command: Vec<String>,
    /// Absolute path of the code file the command expects.
    pub code_file_path: String,
}

/// The mathematical value of a `LanguageSpec`.
#[verifier::ext_equal]
pub ghost struct LangModel {
    pub id: Seq<char>,
    pub launch_command: Seq<Seq<char>>,
    pub code_file_path: Seq<char>,
}

impl View for LanguageSpec {
    type V = LangModel;

    open spec fn view(&self) -> LangModel {
        LangModel {
            id: self.id@,
            launch_command: self.launch_command.deep_view(),
            code_file_path: self.code_file_path@,
        }
    }
}

pub open spec fn python_model() -> LangModel {
    LangModel {
        id: "python"@,
        launch_command: seq!["timeout"@, "2s"@, "/usr/bin/python3"@, "/user_code.py"@],
        code_file_path: "/user_code.py"@,
    }
}

pub open spec fn rust_model() -> LangModel {
    LangModel {
        id: "rust"@,
        launch_command: seq!["/scripts/run_rust.sh"@, "/user_code.rs"@],
        code_file_path: "/user_code.rs"@,
    }
}

pub open spec fn javascript_model() -> LangModel {
    LangModel {
        id: "javascript"@,
        launch_command: seq!["timeout"@, "2s"@, "/usr/bin/node"@, "/user_code.js"@],
        code_file_path: "/user_code.js"@,
    }
}

pub open spec fn c_model() -> LangModel {
    LangModel {
        id: "c"@,
        launch_command: seq!["/scripts/run_c.sh"@, "/user_code.c"@],
        code_file_path: "/user_code.c"@,
    }
}

pub open spec fn cpp_model() -> LangModel {
    LangModel {
        id: "cpp"@,
        launch_command: seq!["/scripts/run_cpp.sh"@, "/user_code.cpp"@],
        code_file_path: "/user_code.cpp"@,
    }
}

pub open spec fn lua_model() -> LangModel {
    LangModel {
        id: "lua"@,
        launch_command: seq!["timeout"@, "2s"@, "lua"@, "/user_code.lua"@],
        code_file_path: "/user_code.lua"@,
    }
}

/// The registry as a mathematical function: exact, case-sensitive match of
/// the id against the fixed table. Aliases map to identical specs.
pub open spec fn spec_lookup(id: Seq<char>) -> Option<LangModel> {
    if id == "python"@ || id == "py"@ {
        Some(python_model())
    } else if id == "rust"@ || id == "rs"@ {
        Some(rust_model())
    } else if id == "javascript"@ || id == "js"@ {
        Some(javascript_model())
    } else if id == "c"@ {
        Some(c_model())
    } else if id == "cpp"@ {
        Some(cpp_model())
    } else if id == "lua"@ {
        Some(lua_model())
    } else {
        None
    }
}

/// `suffix` is the tail of `s`.
pub open spec fn has_suffix(s: Seq<char>, suffix: Seq<char>) -> bool {
    suffix.len() <= s.len() && s.skip(s.len() - suffix.len()) == suffix
}

/// The file extension a language id's code file must carry; empty for ids
/// the registry does not hold.
pub open spec fn extension_of(id: Seq<char>) -> Seq<char> {
    if id == "python"@ || id == "py"@ {
        ".py"@
    } else if id == "rust"@ || id == "rs"@ {
        ".rs"@
    } else if id == "javascript"@ || id == "js"@ {
        ".js"@
    } else if id == "c"@ {
        ".c"@
    } else if id == "cpp"@ {
        ".cpp"@
    } else if id == "lua"@ {
        ".lua"@
    } else {
        Seq::<char>::empty()
    }
}

/// What every registry entry guarantees: a non-empty launch command whose
/// last token is the code file path, and an absolute code file path carrying
/// the language's extension.
pub open spec fn lang_wf(m: LangModel) -> bool {
    &&& m.launch_command.len() >= 1
    &&& m.code_file_path.len() >= 1
    &&& m.code_file_path[0] == '/'
    &&& m.launch_command.last() == m.code_file_path
    &&& extension_of(m.id).len() >= 1
    &&& has_suffix(m.code_file_path, extension_of(m.id))
}

/// Ids whose launch command runs the source directly under an interpreter,
/// as opposed to handing it to a build-and-run helper script.
pub open spec fn is_interpreted_id(id: Seq<char>) -> bool {
    ||| id == "python"@
    ||| id == "py"@
    ||| id == "javascript"@
    ||| id == "js"@
    ||| id == "lua"@
}

/// The launch command begins with the external time-bounding wrapper, so the
/// run is bounded even if the source never halts.
pub open spec fn has_embedded_timeout(m: LangModel) -> bool {
    &&& m.launch_command.len() >= 2
    &&& m.launch_command[0] == "timeout"@
    &&& m.launch_command[1] == "2s"@
}

#[verifier::spinoff_prover]
proof fn lemma_id_facts()
    ensures
        "python"@.len() == 6,
        "py"@.len() == 2,
        "rust"@.len() == 4,
        "rs"@.len() == 2,
        "javascript"@.len() == 10,
        "js"@.len() == 2,
        "c"@.len() == 1,
        "cpp"@.len() == 3,
        "lua"@.len() == 3,
        "py"@[0] == 'p',
        "rs"@[0] == 'r',
        "js"@[0] == 'j',
        "cpp"@[0] == 'c',
        "lua"@[0] == 'l',
{
    reveal_strlit("python");
    reveal_strlit("py");
    reveal_strlit("rust");
    reveal_strlit("rs");
    reveal_strlit("javascript");
    reveal_strlit("js");
    reveal_strlit("c");
    reveal_strlit("cpp");
    reveal_strlit("lua");
}

#[verifier::spinoff_prover]
proof fn lemma_path_facts()
    ensures
        "/user_code.py"@.len() == 13 && "/user_code.py"@[0] == '/',
        ".py"@.len() == 3 && has_suffix("/user_code.py"@, ".py"@),
        "/user_code.rs"@.len() == 13 && "/user_code.rs"@[0] == '/',
        ".rs"@.len() == 3 && has_suffix("/user_code.rs"@, ".rs"@),
        "/user_code.js"@.len() == 13 && "/user_code.js"@[0] == '/',
        ".js"@.len() == 3 && has_suffix("/user_code.js"@, ".js"@),
        "/user_code.c"@.len() == 12 && "/user_code.c"@[0] == '/',
        ".c"@.len() == 2 && has_suffix("/user_code.c"@, ".c"@),
        "/user_code.cpp"@.len() == 14 && "/user_code.cpp"@[0] == '/',
        ".cpp"@.len() == 4 && has_suffix("/user_code.cpp"@, ".cpp"@),
        "/user_code.lua"@.len() == 14 && "/user_code.lua"@[0] == '/',
        ".lua"@.len() == 4 && has_suffix("/user_code.lua"@, ".lua"@),
{
    reveal_strlit("/user_code.py");
    reveal_strlit("/user_code.rs");
    reveal_strlit("/user_code.js");
    reveal_strlit("/user_code.c");
    reveal_strlit("/user_code.cpp");
    reveal_strlit("/user_code.lua");
    reveal_strlit(".py");
    reveal_strlit(".rs");
    reveal_strlit(".js");
    reveal_strlit(".c");
    reveal_strlit(".cpp");
    reveal_strlit(".lua");
    assert("/user_code.py"@.skip(10) =~= ".py"@);
    assert("/user_code.rs"@.skip(10) =~= ".rs"@);
    assert("/user_code.js"@.skip(10) =~= ".js"@);
    assert("/user_code.c"@.skip(10) =~= ".c"@);
    assert("/user_code.cpp"@.skip(10) =~= ".cpp"@);
    assert("/user_code.lua"@.skip(10) =~= ".lua"@);
}

/// Every supported language id, aliases included, resolves to a well-formed
/// spec: non-empty launch command, absolute code file path carrying the
/// extension of the queried id, and the code file path as the command's last
/// token.
#[verifier::spinoff_prover]
pub proof fn lemma_lookup_well_formed(id: Seq<char>)
    ensures
        spec_lookup(id) matches Some(m) ==> lang_wf(m) && has_suffix(
            m.code_file_path,
            extension_of(id),
        ) && extension_of(id).len() >= 1,
{
    if spec_lookup(id) is Some {
        lemma_id_facts();
        lemma_path_facts();
    }
}

/// Every interpreted-language id is supported, and its launch command embeds
/// the external time-bounding wrapper: such a run terminates within that
/// bound even when the source loops forever.
#[verifier::spinoff_prover]
pub proof fn lemma_interpreted_has_timeout(id: Seq<char>)
    ensures
        is_interpreted_id(id) ==> (spec_lookup(id) matches Some(m) && has_embedded_timeout(m)),
{
    lemma_id_facts();
}

/// Aliases map to identical specs: the short and long forms of a language
/// resolve to the very same launch specification.
#[verifier::spinoff_prover]
pub proof fn lemma_aliases_identical()
    ensures
        spec_lookup("py"@) == spec_lookup("python"@),
        spec_lookup("rs"@) == spec_lookup("rust"@),
        spec_lookup("js"@) == spec_lookup("javascript"@),
{
    lemma_id_facts();
}


/// Exact, case-sensitive comparison of a candidate id with a registry key.
fn str_eq(a: &str, b: &str) -> (r: bool)
    ensures
        r == (a@ == b@),
{
    let sa = String::from_str(a);
    let sb = String::from_str(b);
    sa == sb
}

/// Builds the spec of an interpreted language: the source file is run
/// directly, under the external time-bounding wrapper.
fn interpreted(id: &str, interpreter: &str, path: &str) -> (s: LanguageSpec)
    ensures
        s@ == (LangModel {
            id: id@,
            launch_command: seq!["timeout"@, "2s"@, interpreter@, path@],
            code_file_path: path@,
        }),
{
    let mut cmd: Vec<String> = Vec::new();
    cmd.push(String::from_str("timeout"));
    cmd.push(String::from_str("2s"));
    cmd.push(String::from_str(interpreter));
    cmd.push(String::from_str(path));
    let s = LanguageSpec {
        id: String::from_str(id),
        launch_command: cmd,
        code_file_path: String::from_str(path),
    };
    proof {
        assert(s@.launch_command =~= seq!["timeout"@, "2s"@, interpreter@, path@]);
        assert(s@ =~= (LangModel {
            id: id@,
            launch_command: seq!["timeout"@, "2s"@, interpreter@, path@],
            code_file_path: path@,
        }));
    }
    s
}

/// Builds the spec of a compiled language: a helper script inside the image
/// builds and runs the source file handed to it.
fn scripted(id: &str, script: &str, path: &str) -> (s: LanguageSpec)
    ensures
        s@ == (LangModel {
            id: id@,
            launch_command: seq![script@, path@],
            code_file_path: path@,
        }),
{
    let mut cmd: Vec<String> = Vec::new();
    cmd.push(String::from_str(script));
    cmd.push(String::from_str(path));
    let s = LanguageSpec {
        id: String::from_str(id),
        launch_command: cmd,
        code_file_path: String::from_str(path),
    };
    proof {
        assert(s@.launch_command =~= seq![script@, path@]);
        assert(s@ =~= (LangModel { id: id@, launch_command: seq![script@, path@], code_file_path: path@ }));
    }
    s
}

/// Resolves a language id against the fixed table. Returns `None` exactly on
/// the ids the table does not hold; nothing downstream runs in that case.
pub fn lookup(id: &str) -> (r: Option<LanguageSpec>)
    ensures
        match r {
            Some(s) => spec_lookup(id@) == Some(s@),
            None => spec_lookup(id@) is None,
        },
{
    if str_eq(id, "python") || str_eq(id, "py") {
        Some(interpreted("python", "/usr/bin/python3", "/user_code.py"))
    } else if str_eq(id, "rust") || str_eq(id, "rs") {
        Some(scripted("rust", "/scripts/run_rust.sh", "/user_code.rs"))
    } else if str_eq(id, "javascript") || str_eq(id, "js") {
        Some(interpreted("javascript", "/usr/bin/node", "/user_code.js"))
    } else if str_eq(id, "c") {
        Some(scripted("c", "/scripts/run_c.sh", "/user_code.c"))
    } else if str_eq(id, "cpp") {
        Some(scripted("cpp", "/scripts/run_cpp.sh", "/user_code.cpp"))
    } else if str_eq(id, "lua") {
        Some(interpreted("lua", "lua", "/user_code.lua"))
    } else {
        None
    }
}

} // verus!
