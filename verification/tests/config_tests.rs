use cpam::config::{BuildConfig, CpamConfig, Dependency, ProjectConfig};
use cpam::platform::Platform;

fn project(build_tool: &str) -> ProjectConfig {
    ProjectConfig {
        name: "demo".to_string(),
        language: "cpp".to_string(),
        build_tool: build_tool.to_string(),
        project_type: "bin".to_string(),
    }
}

fn config_with_tool(build_tool: &str) -> CpamConfig {
    CpamConfig { project: Some(project(build_tool)), build: None, dependencies: None }
}

fn dep(name: &str, version: &str) -> Dependency {
    Dependency { name: name.to_string(), version: version.to_string() }
}

fn dep_pairs(config: &CpamConfig) -> Vec<(String, String)> {
    config
        .dependencies
        .as_ref()
        .map(|deps| deps.iter().map(|d| (d.name.clone(), d.version.clone())).collect())
        .unwrap_or_default()
}

#[test]
fn explicit_generator_wins_over_build_tool() {
    let config = CpamConfig {
        project: Some(project("ninja")),
        build: Some(BuildConfig {
            generator: Some("Xcode".to_string()),
            source_dir: None,
            build_dir: None,
            options: None,
        }),
        dependencies: None,
    };
    assert_eq!(config.get_cmake_generator(Platform::Unix), "Xcode");
    assert_eq!(config.get_cmake_generator(Platform::Windows), "Xcode");
}

#[test]
fn ninja_build_tool_maps_to_ninja() {
    let config = config_with_tool("ninja");
    assert_eq!(config.get_cmake_generator(Platform::Unix), "Ninja");
}

#[test]
fn empty_config_defaults_to_unix_makefiles() {
    let config = CpamConfig { project: None, build: None, dependencies: None };
    assert_eq!(config.get_cmake_generator(Platform::Unix), "Unix Makefiles");
}

#[test]
fn make_and_unknown_tools_fall_back_to_make_family() {
    assert_eq!(config_with_tool("make").get_cmake_generator(Platform::Unix), "Unix Makefiles");
    assert_eq!(config_with_tool("scons").get_cmake_generator(Platform::Unix), "Unix Makefiles");
    // The document resolver matches the stored tool exactly.
    assert_eq!(config_with_tool("NINJA").get_cmake_generator(Platform::Unix), "Unix Makefiles");
}

#[test]
fn vs_tool_is_used_only_where_native() {
    let config = config_with_tool("vs");
    assert_eq!(config.get_cmake_generator(Platform::Windows), "Visual Studio 17 2022");
    assert_eq!(config.get_cmake_generator(Platform::Unix), "Unix Makefiles");
}

#[test]
fn default_document_is_empty() {
    let config = CpamConfig::default();
    assert!(config.project.is_none());
    assert!(config.build.is_none());
    assert!(config.dependencies.is_none());
}

#[test]
fn directories_default_when_absent() {
    let config = CpamConfig::default();
    assert_eq!(config.effective_build_dir(), "build");
    assert_eq!(config.effective_source_dir(), ".");
}

#[test]
fn directories_come_from_the_document_when_stored() {
    let config = CpamConfig {
        project: None,
        build: Some(BuildConfig {
            generator: None,
            source_dir: Some("srcdir".to_string()),
            build_dir: Some("out".to_string()),
            options: None,
        }),
        dependencies: None,
    };
    assert_eq!(config.effective_build_dir(), "out");
    assert_eq!(config.effective_source_dir(), "srcdir");
}

#[test]
fn add_dependency_without_version_stores_wildcard() {
    let mut config = CpamConfig::default();
    config.add_dependency("zlib".to_string(), None);
    assert_eq!(dep_pairs(&config), vec![("zlib".to_string(), "*".to_string())]);
}

#[test]
fn add_dependency_overwrites_in_place() {
    let mut config = CpamConfig {
        project: None,
        build: None,
        dependencies: Some(vec![dep("fmt", "9.1.0"), dep("zlib", "1.2.13")]),
    };
    config.add_dependency("fmt".to_string(), Some("10.0.0".to_string()));
    assert_eq!(
        dep_pairs(&config),
        vec![
            ("fmt".to_string(), "10.0.0".to_string()),
            ("zlib".to_string(), "1.2.13".to_string())
        ]
    );
}

#[test]
fn remove_missing_dependency_reports_false() {
    let mut config = CpamConfig::default();
    assert!(!config.remove_dependency("zlib"));
    assert!(config.dependencies.is_none());

    let mut config = CpamConfig {
        project: None,
        build: None,
        dependencies: Some(vec![dep("fmt", "9.1.0")]),
    };
    assert!(!config.remove_dependency("zlib"));
    assert_eq!(dep_pairs(&config), vec![("fmt".to_string(), "9.1.0".to_string())]);
}

#[test]
fn add_then_remove_restores_document() {
    let mut config = CpamConfig {
        project: Some(project("ninja")),
        build: Some(BuildConfig {
            generator: Some("Ninja".to_string()),
            source_dir: Some(".".to_string()),
            build_dir: Some("build".to_string()),
            options: Some(vec!["-DX=1".to_string()]),
        }),
        dependencies: Some(vec![dep("fmt", "9.1.0")]),
    };
    let before = dep_pairs(&config);
    config.add_dependency("zlib".to_string(), None);
    assert!(config.remove_dependency("zlib"));
    assert_eq!(dep_pairs(&config), before);
    let p = config.project.as_ref().unwrap();
    assert_eq!(p.name, "demo");
    let b = config.build.as_ref().unwrap();
    assert_eq!(b.generator.as_deref(), Some("Ninja"));
    assert_eq!(b.options.as_ref().unwrap(), &vec!["-DX=1".to_string()]);
}

#[test]
fn subdirectories_are_used_only_for_ide_generators() {
    let vs = CpamConfig {
        project: None,
        build: Some(BuildConfig {
            generator: Some("Visual Studio 17 2022".to_string()),
            source_dir: None,
            build_dir: None,
            options: None,
        }),
        dependencies: None,
    };
    assert!(vs._uses_subdirectories_for_executables(Platform::Windows));
    let ninja = config_with_tool("ninja");
    assert!(!ninja._uses_subdirectories_for_executables(Platform::Unix));
    let xcode = CpamConfig {
        project: None,
        build: Some(BuildConfig {
            generator: Some("Xcode".to_string()),
            source_dir: None,
            build_dir: None,
            options: None,
        }),
        dependencies: None,
    };
    assert!(xcode._uses_subdirectories_for_executables(Platform::Unix));
}
