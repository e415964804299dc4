use cpam::exepath::{
    executable_candidates, get_alternative_executable_paths, get_executable_path,
    pick_first_existing, resolve_executable,
};
use cpam::platform::Platform;

#[test]
fn posix_primary_is_flat_for_ninja() {
    assert_eq!(get_executable_path("build", "demo", "Ninja", false, Platform::Unix), "build/demo");
    assert_eq!(get_executable_path("build", "demo", "Ninja", true, Platform::Unix), "build/demo");
}

#[test]
fn windows_primary_carries_the_suffix() {
    assert_eq!(
        get_executable_path("build", "demo", "Ninja", false, Platform::Windows),
        "build/demo.exe"
    );
    assert_eq!(
        get_executable_path("build", "demo", "Unix Makefiles", true, Platform::Windows),
        "build/demo.exe"
    );
}

#[test]
fn ide_primary_uses_the_configuration_subdirectory() {
    assert_eq!(
        get_executable_path("build", "demo", "Visual Studio 17 2022", false, Platform::Windows),
        "build/Debug/demo.exe"
    );
    assert_eq!(
        get_executable_path("build", "demo", "Visual Studio 17 2022", true, Platform::Windows),
        "build/Release/demo.exe"
    );
    assert_eq!(
        get_executable_path("build", "demo", "Xcode", true, Platform::Unix),
        "build/Release/demo"
    );
}

#[test]
fn unrecognized_generators_fall_back_to_flat() {
    assert_eq!(
        get_executable_path("build", "demo", "FancyBuild", true, Platform::Unix),
        "build/demo"
    );
    assert_eq!(
        get_executable_path("build", "demo", "FancyBuild", false, Platform::Windows),
        "build/demo.exe"
    );
}

#[test]
fn flat_rule_wins_when_a_generator_names_both() {
    // The Make/Ninja rule is checked before the IDE rule.
    assert_eq!(
        get_executable_path("b", "d", "Visual Studio Makefiles", true, Platform::Unix),
        "b/d"
    );
}

#[test]
fn posix_fallbacks_in_fixed_order() {
    let alts = get_alternative_executable_paths("build", "demo", false, Platform::Unix);
    assert_eq!(alts, vec!["build/demo", "build/Debug/demo", "build/Release/demo"]);
    // The build mode plays no part in the fallback list.
    let alts_release = get_alternative_executable_paths("build", "demo", true, Platform::Unix);
    assert_eq!(alts, alts_release);
}

#[test]
fn windows_fallbacks_include_nested_layouts() {
    let alts = get_alternative_executable_paths("build", "demo", false, Platform::Windows);
    assert_eq!(
        alts,
        vec![
            "build/demo.exe",
            "build/Debug/demo.exe",
            "build/Release/demo.exe",
            "build/demo/Debug/demo.exe",
            "build/demo/Release/demo.exe",
        ]
    );
}

#[test]
fn posix_ninja_candidates_have_no_duplicate_probe() {
    // The primary path equals the first fallback and is probed once.
    let cands = executable_candidates("build", "demo", "Ninja", false, Platform::Unix);
    assert_eq!(cands, vec!["build/demo", "build/Debug/demo", "build/Release/demo"]);
}

#[test]
fn ide_candidates_keep_the_primary_first() {
    let cands =
        executable_candidates("build", "demo", "Visual Studio 17 2022", false, Platform::Windows);
    assert_eq!(
        cands,
        vec![
            "build/Debug/demo.exe",
            "build/demo.exe",
            "build/Release/demo.exe",
            "build/demo/Debug/demo.exe",
            "build/demo/Release/demo.exe",
        ]
    );
}

#[test]
fn resolution_failure_reports_every_probe_in_order() {
    // No such files exist where the tests run, so resolution fails
    // and reports the full probe list.
    let result = resolve_executable("build", "demo", "Ninja", false, Platform::Unix);
    match result {
        Ok(path) => panic!("unexpectedly found {}", path),
        Err(probed) => {
            assert_eq!(probed, vec!["build/demo", "build/Debug/demo", "build/Release/demo"]);
        }
    }
}

#[test]
fn first_present_candidate_is_picked() {
    let cands = executable_candidates("build", "demo", "Ninja", false, Platform::Unix);
    // The configuration-directory fallback is the one that exists.
    let picked = pick_first_existing(&cands, &vec![false, true, false]);
    assert_eq!(picked, Some(1));
    assert_eq!(cands[1], "build/Debug/demo");
}

#[test]
fn present_primary_short_circuits_the_probe() {
    let cands = executable_candidates("build", "demo", "Ninja", false, Platform::Unix);
    let picked = pick_first_existing(&cands, &vec![true, true, true]);
    assert_eq!(picked, Some(0));
    assert_eq!(cands[0], "build/demo");
}

#[test]
fn no_present_candidate_yields_none() {
    let cands = executable_candidates("build", "demo", "Ninja", false, Platform::Unix);
    assert_eq!(pick_first_existing(&cands, &vec![false, false, false]), None);
}

#[test]
fn resolution_is_deterministic() {
    let a = executable_candidates("build", "demo", "Ninja", false, Platform::Unix);
    let b = executable_candidates("build", "demo", "Ninja", false, Platform::Unix);
    assert_eq!(a, b);
    let ra = resolve_executable("build", "demo", "Ninja", false, Platform::Unix);
    let rb = resolve_executable("build", "demo", "Ninja", false, Platform::Unix);
    assert_eq!(ra, rb);
}
