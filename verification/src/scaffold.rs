//! The decision logic of project scaffolding: mapping the answers of
//! the interactive prompts to language, build-tool and compiler
//! choices, naming the generated files, and assembling the initial
//! configuration document and build scripts.

use vstd::prelude::*;

use crate::config::BuildConfig;
use crate::config::BuildConfigView;
use crate::config::CpamConfig;
use crate::config::CpamConfigView;
use crate::config::ProjectConfig;
use crate::config::ProjectConfigView;
use crate::config::config_wf;
use crate::generator::generator_for_tool_ci;
use crate::generator::get_generator_for_build_tool;
use crate::platform::Platform;
use crate::strings::all_digits;
use crate::strings::digits_val;
use crate::strings::hyphenated;
use crate::strings::parse_usize;
use crate::strings::replace_spaces;
use crate::strings::seq_eq_ci;
use crate::strings::str_eq;
use crate::strings::str_eq_ci;
use vstd::string::StringExecFns;

verus! {

/// The language tag an answer to the language prompt selects: the
/// menu index or the tag itself, with every unrecognized answer
/// degrading to C++.
pub open spec fn language_for_choice(input: Seq<char>) -> Seq<char> {
    if input == "2"@ || input == "c"@ {
        "c"@
    } else if input == "3"@ || input == "cuda"@ {
        "cuda"@
    } else {
        "cpp"@
    }
}

/// Maps the answer to the language prompt to a language tag.
pub fn parse_language_choice(input: &str) -> (r: String)
    ensures
        r@ == language_for_choice(input@),
{
    if str_eq(input, "2") || str_eq(input, "c") {
        String::from_str("c")
    } else if str_eq(input, "3") || str_eq(input, "cuda") {
        String::from_str("cuda")
    } else {
        String::from_str("cpp")
    }
}

/// The build-tool tag an answer to the build-system prompt selects:
/// Ninja by index or name, the IDE toolchain only where it is native,
/// and Make for everything else.
pub open spec fn build_tool_for_choice(input: Seq<char>, plat: Platform) -> Seq<char> {
    if input == "2"@ || input == "ninja"@ {
        "ninja"@
    } else if (input == "3"@ || input == "vs"@) && plat is Windows {
        "vs"@
    } else {
        "make"@
    }
}

/// Maps the answer to the build-system prompt to a build-tool tag.
pub fn parse_build_tool_choice(input: &str, plat: Platform) -> (r: String)
    ensures
        r@ == build_tool_for_choice(input@, plat),
{
    if str_eq(input, "2") || str_eq(input, "ninja") {
        String::from_str("ninja")
    } else if (str_eq(input, "3") || str_eq(input, "vs")) && plat.is_windows() {
        String::from_str("vs")
    } else {
        String::from_str("make")
    }
}

/// The project name after validation: the stock name when the answer
/// was empty, spaces turned to hyphens when the user agreed to it.
pub open spec fn normalized_project_name(name: Seq<char>, replace: bool) -> Seq<char> {
    if name.len() == 0 {
        "my-project"@
    } else if replace {
        hyphenated(name)
    } else {
        name
    }
}

/// Validates a project name: an empty answer becomes `my-project`,
/// and spaces become hyphens when the caller passes the user's
/// consent to the replacement.
pub fn normalize_project_name(name: &str, replace_spaces_choice: bool) -> (r: String)
    ensures
        r@ == normalized_project_name(name@, replace_spaces_choice),
{
    if name.is_empty() {
        String::from_str("my-project")
    } else if replace_spaces_choice {
        replace_spaces(name)
    } else {
        String::from_str(name)
    }
}

/// The ordered compiler command candidates for a language on a
/// platform. The IDE toolchain's compiler heads the list where it is
/// native; unrecognized languages get the C++ commands.
pub open spec fn compiler_command_candidates(language: Seq<char>, plat: Platform) -> Seq<
    Seq<char>,
> {
    let base = if language == "c"@ {
        seq!["gcc"@, "clang"@, "cc"@]
    } else if language == "cpp"@ {
        seq!["g++"@, "clang++"@, "c++"@]
    } else if language == "cuda"@ {
        seq!["nvcc"@]
    } else {
        seq!["g++"@, "clang++"@]
    };
    if plat is Windows && (language == "c"@ || language == "cpp"@) {
        seq!["cl.exe"@] + base
    } else {
        base
    }
}

/// The ordered compiler commands to probe for a language; each is to
/// be validated by invoking it with a version-query flag.
pub fn compiler_candidates(language: &str, plat: Platform) -> (r: Vec<String>)
    ensures
        r.deep_view() == compiler_command_candidates(language@, plat),
{
    let mut out: Vec<String> = Vec::new();
    if plat.is_windows() && (str_eq(language, "c") || str_eq(language, "cpp")) {
        out.push(String::from_str("cl.exe"));
    }
    if str_eq(language, "c") {
        out.push(String::from_str("gcc"));
        out.push(String::from_str("clang"));
        out.push(String::from_str("cc"));
    } else if str_eq(language, "cpp") {
        out.push(String::from_str("g++"));
        out.push(String::from_str("clang++"));
        out.push(String::from_str("c++"));
    } else if str_eq(language, "cuda") {
        out.push(String::from_str("nvcc"));
    } else {
        out.push(String::from_str("g++"));
        out.push(String::from_str("clang++"));
    }
    proof {
        assert(out.deep_view() =~~= compiler_command_candidates(language@, plat));
    }
    out
}

/// The choice the compiler selection makes without asking: the single
/// available compiler, the stock tag `default` when none is
/// available, and nothing when the user must pick.
pub open spec fn automatic_compiler(comps: Seq<Seq<char>>) -> Option<Seq<char>> {
    if comps.len() == 1 {
        Some(comps[0])
    } else if comps.len() == 0 {
        Some("default"@)
    } else {
        None
    }
}

/// Picks the compiler without prompting when the available list
/// leaves no real choice.
pub fn auto_compiler_choice(compilers: &Vec<String>) -> (r: Option<String>)
    ensures
        match r {
            Some(s) => automatic_compiler(compilers.deep_view()) == Some(s@),
            None => automatic_compiler(compilers.deep_view()) is None,
        },
{
    if compilers.len() == 1 {
        proof {
            assert(compilers.deep_view()[0] == compilers@[0]@);
        }
        Some(compilers[0].clone())
    } else if compilers.len() == 0 {
        Some(String::from_str("default"))
    } else {
        None
    }
}

/// Index of the first compiler whose name equals `input` with ASCII
/// case folded, or the length of the list when none does.
pub open spec fn ci_match_index(comps: Seq<Seq<char>>, input: Seq<char>) -> int
    decreases comps.len(),
{
    if comps.len() == 0 {
        0
    } else if seq_eq_ci(input, comps[0]) {
        0
    } else {
        1 + ci_match_index(comps.subrange(1, comps.len() as int), input)
    }
}

/// `ci_match_index` points at the first case-folded match, and at the
/// length when there is none.
pub proof fn lemma_ci_match_index(comps: Seq<Seq<char>>, input: Seq<char>)
    ensures
        0 <= ci_match_index(comps, input) <= comps.len(),
        forall|j: int| 0 <= j < ci_match_index(comps, input) ==> !seq_eq_ci(input, comps[j]),
        ci_match_index(comps, input) < comps.len() ==> seq_eq_ci(
            input,
            comps[ci_match_index(comps, input)],
        ),
    decreases comps.len(),
{
    if comps.len() > 0 && !seq_eq_ci(input, comps[0]) {
        let sub = comps.subrange(1, comps.len() as int);
        lemma_ci_match_index(sub, input);
        let k = ci_match_index(comps, input);
        assert(k == 1 + ci_match_index(sub, input));
        assert forall|j: int| 0 <= j < k implies !seq_eq_ci(input, comps[j]) by {
            if j > 0 {
                assert(comps[j] == sub[j - 1]);
            }
        }
        if k < comps.len() {
            assert(comps[k] == sub[k - 1]);
        }
    }
}

/// The answer denotes a one-based index into a list of length `n`.
pub open spec fn is_index_choice(input: Seq<char>, n: int) -> bool {
    input.len() > 0 && all_digits(input) && 1 <= digits_val(input) <= n
}

/// The compiler an answer to the compiler prompt selects: a one-based
/// index into the list, a case-folded name match, or, when nothing
/// fits, the first compiler of the list.
pub open spec fn picked_compiler(comps: Seq<Seq<char>>, input: Seq<char>) -> Seq<char>
    recommends
        comps.len() > 0,
{
    if is_index_choice(input, comps.len() as int) {
        comps[digits_val(input) - 1]
    } else if ci_match_index(comps, input) < comps.len() {
        comps[ci_match_index(comps, input)]
    } else {
        comps[0]
    }
}

/// Resolves the answer to the compiler prompt against the list of
/// available compilers.
pub fn pick_compiler(compilers: &Vec<String>, input: &str) -> (r: String)
    requires
        compilers@.len() > 0,
    ensures
        r@ == picked_compiler(compilers.deep_view(), input@),
{
    let ghost comps = compilers.deep_view();
    proof {
        lemma_ci_match_index(comps, input@);
    }
    let vlen = compilers.len();
    let parsed = parse_usize(input);
    let use_index = match parsed {
        Some(n) => n >= 1 && n <= vlen,
        None => false,
    };
    if use_index {
        let n = parsed.unwrap();
        proof {
            assert(comps[n - 1] == compilers@[n - 1]@);
        }
        return compilers[n - 1].clone();
    }
    proof {
        assert(!is_index_choice(input@, comps.len() as int));
    }
    let mut i: usize = 0;
    while i < compilers.len()
        invariant
            compilers@.len() > 0,
            comps == compilers.deep_view(),
            comps.len() == compilers@.len(),
            !is_index_choice(input@, comps.len() as int),
            i <= comps.len(),
            forall|j: int| 0 <= j < i ==> !seq_eq_ci(input@, comps[j]),
            0 <= ci_match_index(comps, input@) <= comps.len(),
            forall|j: int|
                0 <= j < ci_match_index(comps, input@) ==> !seq_eq_ci(input@, comps[j]),
            ci_match_index(comps, input@) < comps.len() ==> seq_eq_ci(
                input@,
                comps[ci_match_index(comps, input@)],
            ),
        decreases compilers@.len() - i,
    {
        proof {
            assert(comps[i as int] == compilers@[i as int]@);
        }
        if str_eq_ci(input, compilers[i].as_str()) {
            proof {
                assert(ci_match_index(comps, input@) == i);
            }
            return compilers[i].clone();
        }
        i = i + 1;
    }
    proof {
        assert(comps[0] == compilers@[0]@);
    }
    compilers[0].clone()
}

/// The main source file name the language convention asks for.
pub open spec fn main_file_name(language: Seq<char>) -> Seq<char> {
    if language == "c"@ {
        "main.c"@
    } else if language == "cuda"@ {
        "main.cu"@
    } else {
        "main.cpp"@
    }
}

/// The hello-world body of the generated main source file.
pub open spec fn main_file_content(language: Seq<char>) -> Seq<char> {
    if language == "c"@ {
        "#include <stdio.h>\n\nint main() {\n    printf(\"Hello, World!\\n\");\n    return 0;\n}\n"@
    } else if language == "cuda"@ {
        "#include <stdio.h>\n\n__global__ void hello() {\n    printf(\"Hello, World!\\n\");\n}\n\nint main() {\n    hello<<<1,1>>>();\n    cudaDeviceSynchronize();\n    return 0;\n}\n"@
    } else {
        "#include <iostream>\n\nint main() {\n    std::cout << \"Hello, World!\" << std::endl;\n    return 0;\n}\n"@
    }
}

/// The name and content of the main source file for a language.
pub fn main_source_for_language(language: &str) -> (r: (String, String))
    ensures
        r.0@ == main_file_name(language@),
        r.1@ == main_file_content(language@),
{
    if str_eq(language, "c") {
        (
            String::from_str("main.c"),
            String::from_str(
                "#include <stdio.h>\n\nint main() {\n    printf(\"Hello, World!\\n\");\n    return 0;\n}\n",
            ),
        )
    } else if str_eq(language, "cuda") {
        (
            String::from_str("main.cu"),
            String::from_str(
                "#include <stdio.h>\n\n__global__ void hello() {\n    printf(\"Hello, World!\\n\");\n}\n\nint main() {\n    hello<<<1,1>>>();\n    cudaDeviceSynchronize();\n    return 0;\n}\n",
            ),
        )
    } else {
        (
            String::from_str("main.cpp"),
            String::from_str(
                "#include <iostream>\n\nint main() {\n    std::cout << \"Hello, World!\" << std::endl;\n    return 0;\n}\n",
            ),
        )
    }
}

/// The language token the external build scripts use.
pub open spec fn cmake_language_token(language: Seq<char>) -> Seq<char> {
    if language == "c"@ {
        "C"@
    } else if language == "cuda"@ {
        "CUDA"@
    } else {
        "CXX"@
    }
}

/// Maps a language tag to the token the external build scripts use.
pub fn cmake_language_for(language: &str) -> (r: String)
    ensures
        r@ == cmake_language_token(language@),
{
    if str_eq(language, "c") {
        String::from_str("C")
    } else if str_eq(language, "cuda") {
        String::from_str("CUDA")
    } else {
        String::from_str("CXX")
    }
}

/// The compiler-selection define handed to the generator invocation.
pub open spec fn compiler_define(lang_token: Seq<char>, compiler: Seq<char>) -> Seq<char> {
    "-DCMAKE_"@ + lang_token + "_COMPILER="@ + compiler
}

/// Builds the compiler-selection define for the generator invocation.
pub fn compiler_define_option(lang_token: &str, compiler: &str) -> (r: String)
    ensures
        r@ == compiler_define(lang_token@, compiler@),
{
    let mut s = String::from_str("-DCMAKE_");
    s.append(lang_token);
    s.append("_COMPILER=");
    s.append(compiler);
    s
}

/// The compiler-selection line of the generated build script, empty
/// when the stock compiler is kept.
pub open spec fn compiler_set_line(lang_token: Seq<char>, compiler: Seq<char>) -> Seq<char> {
    if compiler == "default"@ {
        ""@
    } else {
        "\nset(CMAKE_"@ + lang_token + "_COMPILER "@ + compiler + ")\n"@
    }
}

/// Builds the compiler-selection line of the generated build script.
pub fn compiler_config_line(lang_token: &str, compiler: &str) -> (r: String)
    ensures
        r@ == compiler_set_line(lang_token@, compiler@),
{
    if str_eq(compiler, "default") {
        let r = String::new();
        proof {
            reveal_strlit("");
            assert(r@ =~= ""@);
        }
        r
    } else {
        let mut s = String::from_str("\nset(CMAKE_");
        s.append(lang_token);
        s.append("_COMPILER ");
        s.append(compiler);
        s.append(")\n");
        s
    }
}

/// The generated top-level build script: project declaration,
/// language standard, the optional compiler line, and one executable
/// target over the main source file.
pub open spec fn cmake_lists_doc(
    name: Seq<char>,
    lang_token: Seq<char>,
    compiler_cfg: Seq<char>,
    main_file: Seq<char>,
) -> Seq<char> {
    "cmake_minimum_required(VERSION 3.10)\nproject("@ + name + " LANGUAGES "@ + lang_token
        + ")\nset(CMAKE_CXX_STANDARD 17)"@ + compiler_cfg + "\n\nadd_executable("@ + name + " src/"@
        + main_file + ")\n"@
}

/// Builds the generated top-level build script.
pub fn cmake_lists_content(
    name: &str,
    lang_token: &str,
    compiler_cfg: &str,
    main_file: &str,
) -> (r: String)
    ensures
        r@ == cmake_lists_doc(name@, lang_token@, compiler_cfg@, main_file@),
{
    let mut s = String::from_str("cmake_minimum_required(VERSION 3.10)\nproject(");
    s.append(name);
    s.append(" LANGUAGES ");
    s.append(lang_token);
    s.append(")\nset(CMAKE_CXX_STANDARD 17)");
    s.append(compiler_cfg);
    s.append("\n\nadd_executable(");
    s.append(name);
    s.append(" src/");
    s.append(main_file);
    s.append(")\n");
    s
}

/// The configuration document scaffolding writes for a new project:
/// the identity section, a build section naming the generator the
/// chosen tool maps to and the stock directories, the
/// compiler-selection define when a compiler was chosen, and no
/// dependencies yet.
pub open spec fn scaffolded_config(
    name: Seq<char>,
    language: Seq<char>,
    build_tool: Seq<char>,
    project_type: Seq<char>,
    compiler: Seq<char>,
    plat: Platform,
) -> CpamConfigView {
    CpamConfigView {
        project: Some(
            ProjectConfigView { name, language, build_tool, project_type },
        ),
        build: Some(
            BuildConfigView {
                generator: Some(generator_for_tool_ci(build_tool, plat)),
                source_dir: Some("."@),
                build_dir: Some("build"@),
                options: if compiler == "default"@ {
                    None
                } else {
                    Some(seq![compiler_define(cmake_language_token(language), compiler)])
                },
            },
        ),
        dependencies: None,
    }
}

/// Assembles the configuration document for a freshly scaffolded
/// project.
pub fn scaffold_config(
    name: &str,
    language: &str,
    build_tool: &str,
    project_type: &str,
    compiler: &str,
    plat: Platform,
) -> (r: CpamConfig)
    ensures
        r@ == scaffolded_config(name@, language@, build_tool@, project_type@, compiler@, plat),
        config_wf(r@),
{
    let generator = get_generator_for_build_tool(build_tool, plat);
    let options: Option<Vec<String>> = if str_eq(compiler, "default") {
        None
    } else {
        let lang_token = cmake_language_for(language);
        let define = compiler_define_option(lang_token.as_str(), compiler);
        let mut v: Vec<String> = Vec::new();
        v.push(define);
        Some(v)
    };
    let r = CpamConfig {
        project: Some(
            ProjectConfig {
                name: String::from_str(name),
                language: String::from_str(language),
                build_tool: String::from_str(build_tool),
                project_type: String::from_str(project_type),
            },
        ),
        build: Some(
            BuildConfig {
                generator: Some(generator),
                source_dir: Some(String::from_str(".")),
                build_dir: Some(String::from_str("build")),
                options,
            },
        ),
        dependencies: None,
    };
    proof {
        assert(r@ =~~= scaffolded_config(
            name@,
            language@,
            build_tool@,
            project_type@,
            compiler@,
            plat,
        ));
    }
    r
}

} // verus!
