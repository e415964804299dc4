//! The command-line surface of the tool as plain data: one value per
//! subcommand, carrying exactly what each flow consumes.

use vstd::prelude::*;

verus! {

/// The parsed command line: one subcommand per invocation.
pub struct Cli {
    /// The subcommand to run.
    pub command: Commands,
}

/// The subcommands of the tool.
pub enum Commands {
    /// Create a new project skeleton.
    New(NewArgs),
    /// Add a dependency entry to the configuration document.
    Add(AddArgs),
    /// Remove a dependency entry from the configuration document.
    Remove(RemoveArgs),
    /// Configure and build the project.
    Build(BuildArgs),
    /// Build the project, then launch the produced executable.
    Run(RunArgs),
}

/// Arguments of the `new` subcommand; every absent value is asked
/// for interactively.
pub struct NewArgs {
    /// `bin` for an executable project, `lib` for a library.
    pub project_type: String,
    /// The project name.
    pub name: Option<String>,
    /// The language tag: `c`, `cpp` or `cuda`.
    pub language: Option<String>,
    /// The build tool tag: `make`, `ninja` or `vs`.
    pub build_tool: Option<String>,
    /// The compiler command to record.
    pub compiler: Option<String>,
}

/// Arguments of the `add` subcommand.
pub struct AddArgs {
    /// The dependency name to store.
    pub name: String,
    /// The version specifier; `*` is stored when absent.
    pub version: Option<String>,
    /// A source location, such as a repository address.
    pub source: Option<String>,
}

/// Arguments of the `remove` subcommand.
pub struct RemoveArgs {
    /// The dependency name to drop.
    pub name: String,
}

/// Arguments of the `build` subcommand.
pub struct BuildArgs {
    /// Build in release mode.
    pub release: bool,
    /// The build directory; `build` by default.
    pub build_dir: String,
    /// A per-invocation generator override.
    pub generator: Option<String>,
}

/// Arguments of the `run` subcommand.
pub struct RunArgs {
    /// Build and run in release mode.
    pub release: bool,
}

} // verus!
