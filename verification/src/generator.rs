//! The build-tool-to-generator mapping: turns a stored build-tool name
//! into the concrete generator identifier handed to the external
//! build-configuration tool.

use vstd::prelude::*;

use crate::platform::Platform;
use crate::strings::contains_seq;
use crate::strings::seq_eq_ci;
use crate::strings::str_contains;
use crate::strings::str_eq;
use crate::strings::str_eq_ci;
use vstd::string::StringExecFns;

verus! {

/// The generator a build tool maps to, matching the tool name exactly:
/// `ninja` names the Ninja generator, `vs` names the native IDE
/// generator where that toolchain is native, and everything else
/// (including `make` and unrecognized values) degrades to the
/// Make-family default.
pub open spec fn generator_for_tool(tool: Seq<char>, plat: Platform) -> Seq<char> {
    if tool == "ninja"@ {
        "Ninja"@
    } else if tool == "vs"@ && plat is Windows {
        "Visual Studio 17 2022"@
    } else {
        "Unix Makefiles"@
    }
}

/// The generator a build tool maps to, matching the tool name with
/// ASCII case folded.
pub open spec fn generator_for_tool_ci(tool: Seq<char>, plat: Platform) -> Seq<char> {
    if seq_eq_ci(tool, "ninja"@) {
        "Ninja"@
    } else if seq_eq_ci(tool, "vs"@) && plat is Windows {
        "Visual Studio 17 2022"@
    } else {
        "Unix Makefiles"@
    }
}

/// An IDE-project-style generator: a multi-configuration generator
/// that places output under a configuration-name subdirectory.
pub open spec fn is_ide_generator(g: Seq<char>) -> bool {
    contains_seq(g, "Visual Studio"@) || contains_seq(g, "Xcode"@)
}

/// A generator that places the executable directly in the build
/// directory: one of the Make family, or Ninja. Checked before the
/// IDE rule, so a generator string naming both counts as flat.
pub open spec fn is_flat_generator(g: Seq<char>) -> bool {
    contains_seq(g, "Ninja"@) || contains_seq(g, "Makefiles"@)
}

/// Maps a build-tool name, compared with ASCII case folded, to the
/// generator identifier for the host platform.
pub fn get_generator_for_build_tool(build_tool: &str, plat: Platform) -> (r: String)
    ensures
        r@ == generator_for_tool_ci(build_tool@, plat),
{
    if str_eq_ci(build_tool, "ninja") {
        String::from_str("Ninja")
    } else if str_eq_ci(build_tool, "vs") && plat.is_windows() {
        String::from_str("Visual Studio 17 2022")
    } else {
        String::from_str("Unix Makefiles")
    }
}

/// Decides whether the given generator string is IDE-project-style.
pub fn ide_generator(g: &str) -> (r: bool)
    ensures
        r == is_ide_generator(g@),
{
    str_contains(g, "Visual Studio") || str_contains(g, "Xcode")
}

/// Decides whether the given generator string places executables
/// directly in the build directory.
pub fn flat_generator(g: &str) -> (r: bool)
    ensures
        r == is_flat_generator(g@),
{
    str_contains(g, "Ninja") || str_contains(g, "Makefiles")
}

/// Maps the answer given to the interactive generator prompt to a
/// generator identifier: `2` picks Ninja, `3` Visual Studio, `4`
/// Xcode, and anything else the Make-family default.
pub open spec fn generator_for_choice(input: Seq<char>) -> Seq<char> {
    if input == "2"@ {
        "Ninja"@
    } else if input == "3"@ {
        "Visual Studio 17 2022"@
    } else if input == "4"@ {
        "Xcode"@
    } else {
        "Unix Makefiles"@
    }
}

/// Turns the answer to the interactive generator prompt into a
/// generator identifier.
pub fn parse_generator_choice(input: &str) -> (r: String)
    ensures
        r@ == generator_for_choice(input@),
{
    if str_eq(input, "2") {
        String::from_str("Ninja")
    } else if str_eq(input, "3") {
        String::from_str("Visual Studio 17 2022")
    } else if str_eq(input, "4") {
        String::from_str("Xcode")
    } else {
        String::from_str("Unix Makefiles")
    }
}

} // verus!
