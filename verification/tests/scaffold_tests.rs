use cpam::generator::{get_generator_for_build_tool, parse_generator_choice};
use cpam::platform::Platform;
use cpam::scaffold::{
    auto_compiler_choice, cmake_language_for, cmake_lists_content, compiler_candidates,
    compiler_config_line, compiler_define_option, main_source_for_language,
    normalize_project_name, parse_build_tool_choice, parse_language_choice, pick_compiler,
    scaffold_config,
};

fn strings(items: &[&str]) -> Vec<String> {
    items.iter().map(|s| s.to_string()).collect()
}

#[test]
fn language_choices_map_by_index_and_name() {
    assert_eq!(parse_language_choice("1"), "cpp");
    assert_eq!(parse_language_choice("2"), "c");
    assert_eq!(parse_language_choice("3"), "cuda");
    assert_eq!(parse_language_choice("c"), "c");
    assert_eq!(parse_language_choice("cuda"), "cuda");
    assert_eq!(parse_language_choice("cpp"), "cpp");
    assert_eq!(parse_language_choice("c++"), "cpp");
    assert_eq!(parse_language_choice(""), "cpp");
    assert_eq!(parse_language_choice("fortran"), "cpp");
}

#[test]
fn build_tool_choices_map_by_index_and_name() {
    assert_eq!(parse_build_tool_choice("2", Platform::Unix), "ninja");
    assert_eq!(parse_build_tool_choice("ninja", Platform::Unix), "ninja");
    assert_eq!(parse_build_tool_choice("3", Platform::Windows), "vs");
    assert_eq!(parse_build_tool_choice("vs", Platform::Windows), "vs");
    // The IDE toolchain is offered only where it is native.
    assert_eq!(parse_build_tool_choice("3", Platform::Unix), "make");
    assert_eq!(parse_build_tool_choice("vs", Platform::Unix), "make");
    assert_eq!(parse_build_tool_choice("make", Platform::Unix), "make");
    assert_eq!(parse_build_tool_choice("", Platform::Unix), "make");
    assert_eq!(parse_build_tool_choice("bazel", Platform::Unix), "make");
}

#[test]
fn generator_mapping_folds_case() {
    assert_eq!(get_generator_for_build_tool("ninja", Platform::Unix), "Ninja");
    assert_eq!(get_generator_for_build_tool("NINJA", Platform::Unix), "Ninja");
    assert_eq!(get_generator_for_build_tool("Vs", Platform::Windows), "Visual Studio 17 2022");
    assert_eq!(get_generator_for_build_tool("vs", Platform::Unix), "Unix Makefiles");
    assert_eq!(get_generator_for_build_tool("make", Platform::Unix), "Unix Makefiles");
    assert_eq!(get_generator_for_build_tool("other", Platform::Windows), "Unix Makefiles");
}

#[test]
fn generator_prompt_choices() {
    assert_eq!(parse_generator_choice("1"), "Unix Makefiles");
    assert_eq!(parse_generator_choice("2"), "Ninja");
    assert_eq!(parse_generator_choice("3"), "Visual Studio 17 2022");
    assert_eq!(parse_generator_choice("4"), "Xcode");
    assert_eq!(parse_generator_choice("nonsense"), "Unix Makefiles");
}

#[test]
fn empty_name_gets_the_stock_name() {
    assert_eq!(normalize_project_name("", false), "my-project");
    assert_eq!(normalize_project_name("", true), "my-project");
}

#[test]
fn spaces_become_hyphens_only_with_consent() {
    assert_eq!(normalize_project_name("hello world app", true), "hello-world-app");
    assert_eq!(normalize_project_name("hello world app", false), "hello world app");
    assert_eq!(normalize_project_name("plain", true), "plain");
}

#[test]
fn compiler_candidates_per_language() {
    assert_eq!(compiler_candidates("c", Platform::Unix), vec!["gcc", "clang", "cc"]);
    assert_eq!(compiler_candidates("cpp", Platform::Unix), vec!["g++", "clang++", "c++"]);
    assert_eq!(compiler_candidates("cuda", Platform::Unix), vec!["nvcc"]);
    assert_eq!(compiler_candidates("other", Platform::Unix), vec!["g++", "clang++"]);
}

#[test]
fn windows_adds_the_native_compiler_first() {
    assert_eq!(
        compiler_candidates("cpp", Platform::Windows),
        vec!["cl.exe", "g++", "clang++", "c++"]
    );
    assert_eq!(compiler_candidates("c", Platform::Windows), vec!["cl.exe", "gcc", "clang", "cc"]);
    assert_eq!(compiler_candidates("cuda", Platform::Windows), vec!["nvcc"]);
}

#[test]
fn compiler_selection_skips_the_prompt_when_it_can() {
    assert_eq!(auto_compiler_choice(&strings(&["gcc"])), Some("gcc".to_string()));
    assert_eq!(auto_compiler_choice(&strings(&[])), Some("default".to_string()));
    assert_eq!(auto_compiler_choice(&strings(&["gcc", "clang"])), None);
}

#[test]
fn compiler_prompt_accepts_a_one_based_index() {
    let comps = strings(&["gcc", "clang", "cc"]);
    assert_eq!(pick_compiler(&comps, "1"), "gcc");
    assert_eq!(pick_compiler(&comps, "3"), "cc");
    // Out-of-range indexes fall through to the default.
    assert_eq!(pick_compiler(&comps, "0"), "gcc");
    assert_eq!(pick_compiler(&comps, "4"), "gcc");
}

#[test]
fn compiler_prompt_accepts_a_name_with_case_folded() {
    let comps = strings(&["gcc", "Clang", "cc"]);
    assert_eq!(pick_compiler(&comps, "clang"), "Clang");
    assert_eq!(pick_compiler(&comps, "CC"), "cc");
    assert_eq!(pick_compiler(&comps, "icc"), "gcc");
}

#[test]
fn main_sources_per_language() {
    let (name, content) = main_source_for_language("c");
    assert_eq!(name, "main.c");
    assert_eq!(
        content,
        "#include <stdio.h>\n\nint main() {\n    printf(\"Hello, World!\\n\");\n    return 0;\n}\n"
    );
    let (name, content) = main_source_for_language("cuda");
    assert_eq!(name, "main.cu");
    assert!(content.contains("cudaDeviceSynchronize"));
    let (name, content) = main_source_for_language("cpp");
    assert_eq!(name, "main.cpp");
    assert_eq!(
        content,
        "#include <iostream>\n\nint main() {\n    std::cout << \"Hello, World!\" << std::endl;\n    return 0;\n}\n"
    );
}

#[test]
fn build_script_language_tokens() {
    assert_eq!(cmake_language_for("c"), "C");
    assert_eq!(cmake_language_for("cuda"), "CUDA");
    assert_eq!(cmake_language_for("cpp"), "CXX");
    assert_eq!(cmake_language_for("other"), "CXX");
}

#[test]
fn compiler_define_and_set_line() {
    assert_eq!(compiler_define_option("CXX", "clang++"), "-DCMAKE_CXX_COMPILER=clang++");
    assert_eq!(compiler_config_line("C", "gcc"), "\nset(CMAKE_C_COMPILER gcc)\n");
    assert_eq!(compiler_config_line("CXX", "default"), "");
}

#[test]
fn build_script_document_is_exact() {
    let content = cmake_lists_content("demo", "CXX", "", "main.cpp");
    assert_eq!(
        content,
        "cmake_minimum_required(VERSION 3.10)\nproject(demo LANGUAGES CXX)\nset(CMAKE_CXX_STANDARD 17)\n\nadd_executable(demo src/main.cpp)\n"
    );
    let with_compiler =
        cmake_lists_content("app", "C", "\nset(CMAKE_C_COMPILER gcc)\n", "main.c");
    assert_eq!(
        with_compiler,
        "cmake_minimum_required(VERSION 3.10)\nproject(app LANGUAGES C)\nset(CMAKE_CXX_STANDARD 17)\nset(CMAKE_C_COMPILER gcc)\n\n\nadd_executable(app src/main.c)\n"
    );
}

#[test]
fn scaffolded_document_holds_the_choices() {
    let config = scaffold_config("demo", "cpp", "ninja", "bin", "clang++", Platform::Unix);
    let p = config.project.as_ref().unwrap();
    assert_eq!(p.name, "demo");
    assert_eq!(p.language, "cpp");
    assert_eq!(p.build_tool, "ninja");
    assert_eq!(p.project_type, "bin");
    let b = config.build.as_ref().unwrap();
    assert_eq!(b.generator.as_deref(), Some("Ninja"));
    assert_eq!(b.source_dir.as_deref(), Some("."));
    assert_eq!(b.build_dir.as_deref(), Some("build"));
    assert_eq!(
        b.options.as_ref().unwrap(),
        &vec!["-DCMAKE_CXX_COMPILER=clang++".to_string()]
    );
    assert!(config.dependencies.is_none());
}

#[test]
fn scaffolded_document_omits_options_for_the_stock_compiler() {
    let config = scaffold_config("demo", "c", "make", "bin", "default", Platform::Unix);
    let b = config.build.as_ref().unwrap();
    assert_eq!(b.generator.as_deref(), Some("Unix Makefiles"));
    assert!(b.options.is_none());
}
