//! The persistent project-configuration document: its schema, its
//! defaulting rules, the dependency-map edits, and the derivation of
//! the concrete generator identifier from stored data.

use vstd::prelude::*;

use crate::generator::generator_for_tool;
use crate::generator::ide_generator;
use crate::generator::is_ide_generator;
use crate::platform::Platform;
use crate::strings::str_eq;
use vstd::pervasive::VecAdditionalExecFns;
use vstd::string::StringExecFns;

verus! {

/// Identity of the scaffolded project.
pub struct ProjectConfig {
    /// Project name; doubles as the build target and executable name.
    pub name: String,
    /// Implementation language tag: `c`, `cpp` or `cuda`.
    pub language: String,
    /// Build tool tag: `make`, `ninja` or `vs`.
    pub build_tool: String,
    /// `bin` for an executable project, `lib` for a library.
    pub project_type: String,
}

/// Build-time parameters; every field optional, absence triggers
/// defaulting.
pub struct BuildConfig {
    /// Explicit override for the build-system generator.
    pub generator: Option<String>,
    /// Source directory; defaults to `.`.
    pub source_dir: Option<String>,
    /// Build directory; defaults to `build`.
    pub build_dir: Option<String>,
    /// Extra flags handed verbatim, and in order, to the generator
    /// invocation.
    pub options: Option<Vec<String>>,
}

/// One entry of the dependency map: a name and the version or source
/// specifier stored for it.
pub struct Dependency {
    /// The dependency name, unique within the map.
    pub name: String,
    /// The version specifier; `*` when none was given.
    pub version: String,
}

/// The top-level configuration document. All three sections are
/// independently optional; the all-absent document is the valid empty
/// default.
pub struct CpamConfig {
    /// The `project` section.
    pub project: Option<ProjectConfig>,
    /// The `build` section.
    pub build: Option<BuildConfig>,
    /// The `dependencies` section, kept in insertion order with unique
    /// names.
    pub dependencies: Option<Vec<Dependency>>,
}

/// Mathematical image of `ProjectConfig`.
#[verifier::ext_equal]
pub struct ProjectConfigView {
    pub name: Seq<char>,
    pub language: Seq<char>,
    pub build_tool: Seq<char>,
    pub project_type: Seq<char>,
}

/// Mathematical image of `BuildConfig`.
#[verifier::ext_equal]
pub struct BuildConfigView {
    pub generator: Option<Seq<char>>,
    pub source_dir: Option<Seq<char>>,
    pub build_dir: Option<Seq<char>>,
    pub options: Option<Seq<Seq<char>>>,
}

/// Mathematical image of one dependency entry.
#[verifier::ext_equal]
pub struct DependencyView {
    pub name: Seq<char>,
    pub version: Seq<char>,
}

/// Mathematical image of the whole document.
#[verifier::ext_equal]
pub struct CpamConfigView {
    pub project: Option<ProjectConfigView>,
    pub build: Option<BuildConfigView>,
    pub dependencies: Option<Seq<DependencyView>>,
}

impl View for ProjectConfig {
    type V = ProjectConfigView;

    open spec fn view(&self) -> ProjectConfigView {
        ProjectConfigView {
            name: self.name@,
            language: self.language@,
            build_tool: self.build_tool@,
            project_type: self.project_type@,
        }
    }
}

impl View for BuildConfig {
    type V = BuildConfigView;

    open spec fn view(&self) -> BuildConfigView {
        BuildConfigView {
            generator: match self.generator {
                Some(g) => Some(g@),
                None => None,
            },
            source_dir: match self.source_dir {
                Some(s) => Some(s@),
                None => None,
            },
            build_dir: match self.build_dir {
                Some(b) => Some(b@),
                None => None,
            },
            options: match self.options {
                Some(o) => Some(o.deep_view()),
                None => None,
            },
        }
    }
}

impl View for Dependency {
    type V = DependencyView;

    open spec fn view(&self) -> DependencyView {
        DependencyView { name: self.name@, version: self.version@ }
    }
}

impl DeepView for Dependency {
    type V = DependencyView;

    open spec fn deep_view(&self) -> DependencyView {
        self@
    }
}

impl View for CpamConfig {
    type V = CpamConfigView;

    open spec fn view(&self) -> CpamConfigView {
        CpamConfigView {
            project: match self.project {
                Some(p) => Some(p@),
                None => None,
            },
            build: match self.build {
                Some(b) => Some(b@),
                None => None,
            },
            dependencies: match self.dependencies {
                Some(d) => Some(d.deep_view()),
                None => None,
            },
        }
    }
}

/// The dependency entries of the document, the empty sequence when the
/// section is absent.
pub open spec fn deps_or_empty(c: CpamConfigView) -> Seq<DependencyView> {
    match c.dependencies {
        Some(d) => d,
        None => Seq::empty(),
    }
}

/// Dependency names are pairwise distinct.
pub open spec fn deps_wf(deps: Seq<DependencyView>) -> bool {
    forall|i: int, j: int| 0 <= i < j < deps.len() ==> deps[i].name != deps[j].name
}

/// The document invariant: the dependency map has unique keys.
pub open spec fn config_wf(c: CpamConfigView) -> bool {
    deps_wf(deps_or_empty(c))
}

/// Index of the first entry named `name`, or the length of the map
/// when no entry carries that name.
pub open spec fn dep_key_index(deps: Seq<DependencyView>, name: Seq<char>) -> int
    decreases deps.len(),
{
    if deps.len() == 0 {
        0
    } else if deps[0].name == name {
        0
    } else {
        1 + dep_key_index(deps.subrange(1, deps.len() as int), name)
    }
}

/// Some entry of the map carries the name.
pub open spec fn has_dep(deps: Seq<DependencyView>, name: Seq<char>) -> bool {
    dep_key_index(deps, name) < deps.len()
}

/// `dep_key_index` points at the first entry with the given name, and
/// at the length when there is none.
pub proof fn lemma_dep_key_index(deps: Seq<DependencyView>, name: Seq<char>)
    ensures
        0 <= dep_key_index(deps, name) <= deps.len(),
        forall|j: int| 0 <= j < dep_key_index(deps, name) ==> deps[j].name != name,
        dep_key_index(deps, name) < deps.len() ==> deps[dep_key_index(deps, name)].name == name,
    decreases deps.len(),
{
    if deps.len() > 0 && deps[0].name != name {
        let sub = deps.subrange(1, deps.len() as int);
        lemma_dep_key_index(sub, name);
        let k = dep_key_index(deps, name);
        assert(k == 1 + dep_key_index(sub, name));
        assert forall|j: int| 0 <= j < k implies deps[j].name != name by {
            if j > 0 {
                assert(deps[j] == sub[j - 1]);
            }
        }
        if k < deps.len() {
            assert(deps[k] == sub[k - 1]);
        }
    }
}

/// The map after storing `version` under `name`: the first entry with
/// that name is overwritten in place, or a new entry is appended.
pub open spec fn dep_insert(
    deps: Seq<DependencyView>,
    name: Seq<char>,
    version: Seq<char>,
) -> Seq<DependencyView> {
    if has_dep(deps, name) {
        deps.update(dep_key_index(deps, name), DependencyView { name, version })
    } else {
        deps.push(DependencyView { name, version })
    }
}

/// The map after removing the entry named `name`, unchanged when there
/// is none.
pub open spec fn dep_remove(deps: Seq<DependencyView>, name: Seq<char>) -> Seq<DependencyView> {
    if has_dep(deps, name) {
        deps.remove(dep_key_index(deps, name))
    } else {
        deps
    }
}

/// The version view stored for an optional version argument: the given
/// string, or `*` when none was given.
pub open spec fn version_or_wildcard(version: Option<Seq<char>>) -> Seq<char> {
    match version {
        Some(v) => v,
        None => "*"@,
    }
}

/// The document after an `add` of `name` with the given optional
/// version: only the dependency section changes.
pub open spec fn config_with_dep_added(
    c: CpamConfigView,
    name: Seq<char>,
    version: Option<Seq<char>>,
) -> CpamConfigView {
    CpamConfigView {
        dependencies: Some(dep_insert(deps_or_empty(c), name, version_or_wildcard(version))),
        ..c
    }
}

/// The document after a `remove` of `name`: the dependency section
/// loses the entry, and stays absent when it was absent.
pub open spec fn config_with_dep_removed(c: CpamConfigView, name: Seq<char>) -> CpamConfigView {
    match c.dependencies {
        Some(d) => CpamConfigView { dependencies: Some(dep_remove(d, name)), ..c },
        None => c,
    }
}

/// The generator identifier derived from the document: an explicit
/// `build.generator` wins verbatim; otherwise the stored build tool is
/// mapped; a document with no `project` section falls back to the
/// Make-family default.
pub open spec fn resolved_generator(c: CpamConfigView, plat: Platform) -> Seq<char> {
    if c.build is Some && c.build->0.generator is Some {
        c.build->0.generator->0
    } else if c.project is Some {
        generator_for_tool(c.project->0.build_tool, plat)
    } else {
        "Unix Makefiles"@
    }
}

/// The generator after a per-invocation override: the override wins
/// verbatim, else the document decides.
pub open spec fn resolved_generator_with_override(
    c: CpamConfigView,
    override_gen: Option<Seq<char>>,
    plat: Platform,
) -> Seq<char> {
    match override_gen {
        Some(g) => g,
        None => resolved_generator(c, plat),
    }
}

/// An explicit `build.generator` wins: whatever the rest of the
/// document holds, and in particular whatever build tool the project
/// section names, the resolved generator is exactly that string.
pub proof fn lemma_explicit_generator_wins(c: CpamConfigView, plat: Platform)
    requires
        c.build is Some,
        c.build->0.generator is Some,
    ensures
        resolved_generator(c, plat) == c.build->0.generator->0,
{
}

/// A document with no build section and the Ninja build tool stored
/// in its project section resolves to the Ninja generator.
pub proof fn lemma_ninja_tool_resolves_to_ninja(c: CpamConfigView, plat: Platform)
    requires
        c.build is None,
        c.project is Some,
        c.project->0.build_tool == "ninja"@,
    ensures
        resolved_generator(c, plat) == "Ninja"@,
{
}

/// A document with neither a project nor a build section resolves to
/// the platform's Make-family default.
pub proof fn lemma_empty_config_resolves_to_default(c: CpamConfigView, plat: Platform)
    requires
        c.build is None,
        c.project is None,
    ensures
        resolved_generator(c, plat) == "Unix Makefiles"@,
{
}

/// The build directory the document asks for, `build` by default.
pub open spec fn spec_build_dir(c: CpamConfigView) -> Seq<char> {
    if c.build is Some && c.build->0.build_dir is Some {
        c.build->0.build_dir->0
    } else {
        "build"@
    }
}

/// The source directory the document asks for, `.` by default.
pub open spec fn spec_source_dir(c: CpamConfigView) -> Seq<char> {
    if c.build is Some && c.build->0.source_dir is Some {
        c.build->0.source_dir->0
    } else {
        "."@
    }
}

impl Default for CpamConfig {
    /// The zero-valued document: all three sections absent.
    fn default() -> (r: CpamConfig)
        ensures
            r@.project is None,
            r@.build is None,
            r@.dependencies is None,
    {
        CpamConfig { project: None, build: None, dependencies: None }
    }
}

impl CpamConfig {
    /// Derives the generator identifier to hand to the external
    /// build-configuration invocation from the stored data.
    pub fn get_cmake_generator(&self, plat: Platform) -> (r: String)
        ensures
            r@ == resolved_generator(self@, plat),
    {
        if let Some(build) = &self.build {
            if let Some(generator) = &build.generator {
                return generator.clone();
            }
        }
        if let Some(project) = &self.project {
            let tool = project.build_tool.as_str();
            if str_eq(tool, "ninja") {
                String::from_str("Ninja")
            } else if plat.is_windows() && str_eq(tool, "vs") {
                String::from_str("Visual Studio 17 2022")
            } else {
                String::from_str("Unix Makefiles")
            }
        } else {
            String::from_str("Unix Makefiles")
        }
    }

    /// Whether the resolved generator places executables under a
    /// configuration-name subdirectory.
    pub fn _uses_subdirectories_for_executables(&self, plat: Platform) -> (r: bool)
        ensures
            r == is_ide_generator(resolved_generator(self@, plat)),
    {
        let generator = self.get_cmake_generator(plat);
        ide_generator(generator.as_str())
    }

    /// The build directory to use, `build` when the document names
    /// none.
    pub fn effective_build_dir(&self) -> (r: String)
        ensures
            r@ == spec_build_dir(self@),
    {
        if let Some(build) = &self.build {
            if let Some(dir) = &build.build_dir {
                return dir.clone();
            }
        }
        String::from_str("build")
    }

    /// The source directory to use, `.` when the document names none.
    pub fn effective_source_dir(&self) -> (r: String)
        ensures
            r@ == spec_source_dir(self@),
    {
        if let Some(build) = &self.build {
            if let Some(dir) = &build.source_dir {
                return dir.clone();
            }
        }
        String::from_str(".")
    }

    /// Stores `version` (or the wildcard) under `name`, overwriting in
    /// place or appending, and creating the dependency section when it
    /// was absent.
    pub fn add_dependency(&mut self, name: String, version: Option<String>)
        requires
            config_wf(old(self)@),
        ensures
            final(self)@ == config_with_dep_added(
                old(self)@,
                name@,
                match version {
                    Some(v) => Some(v@),
                    None => None,
                },
            ),
            config_wf(final(self)@),
    {
        let ghost target = config_with_dep_added(
            old(self)@,
            name@,
            match &version {
                Some(v) => Some(v@),
                None => None,
            },
        );
        let ver = match version {
            Some(v) => v,
            None => String::from_str("*"),
        };
        let entry = Dependency { name, version: ver };
        let ghost ev = entry@;
        let deps_opt = self.dependencies.take();
        let mut deps = match deps_opt {
            Some(d) => d,
            None => Vec::new(),
        };
        let ghost d0 = deps.deep_view();
        proof {
            assert(d0 =~= deps_or_empty(old(self)@));
            lemma_dep_key_index(d0, ev.name);
            lemma_dep_insert_wf(d0, ev.name, ev.version);
        }
        let pos = find_dep(&deps, entry.name.as_str());
        if pos < deps.len() {
            deps.set(pos, entry);
            proof {
                assert(deps.deep_view() =~~= dep_insert(d0, ev.name, ev.version));
            }
        } else {
            deps.push(entry);
            proof {
                assert(deps.deep_view() =~~= dep_insert(d0, ev.name, ev.version));
            }
        }
        self.dependencies = Some(deps);
        proof {
            assert(self@ =~~= target);
        }
    }

    /// Removes the entry named `name`, reporting whether one existed;
    /// the document is unchanged when it did not.
    pub fn remove_dependency(&mut self, name: &str) -> (found: bool)
        requires
            config_wf(old(self)@),
        ensures
            found == has_dep(deps_or_empty(old(self)@), name@),
            final(self)@ == if found {
                config_with_dep_removed(old(self)@, name@)
            } else {
                old(self)@
            },
            config_wf(final(self)@),
    {
        let deps_opt = self.dependencies.take();
        let mut deps = match deps_opt {
            Some(d) => d,
            None => {
                self.dependencies = None;
                proof {
                    assert(self@ =~~= old(self)@);
                }
                return false;
            },
        };
        let ghost d0 = deps.deep_view();
        proof {
            assert(d0 =~= deps_or_empty(old(self)@));
            lemma_dep_key_index(d0, name@);
            lemma_dep_remove_wf(d0, name@);
        }
        let pos = find_dep(&deps, name);
        if pos < deps.len() {
            deps.remove(pos);
            proof {
                assert(deps.deep_view() =~~= dep_remove(d0, name@));
            }
            self.dependencies = Some(deps);
            proof {
                assert(self@ =~~= config_with_dep_removed(old(self)@, name@));
            }
            true
        } else {
            self.dependencies = Some(deps);
            proof {
                assert(self@ =~~= old(self)@);
            }
            false
        }
    }
}

/// Resolves the generator for one invocation: a per-invocation
/// override wins verbatim, else the document decides.
pub fn resolve_generator(
    config: &CpamConfig,
    override_gen: &Option<String>,
    plat: Platform,
) -> (r: String)
    ensures
        r@ == resolved_generator_with_override(
            config@,
            match override_gen {
                Some(g) => Some(g@),
                None => None,
            },
            plat,
        ),
{
    match override_gen {
        Some(g) => g.clone(),
        None => config.get_cmake_generator(plat),
    }
}

/// Index of the first entry of `deps` named `name`, or `deps.len()`
/// when there is none.
fn find_dep(deps: &Vec<Dependency>, name: &str) -> (r: usize)
    ensures
        r == dep_key_index(deps.deep_view(), name@),
{
    proof {
        lemma_dep_key_index(deps.deep_view(), name@);
    }
    let mut i: usize = 0;
    while i < deps.len()
        invariant
            i <= deps.deep_view().len(),
            deps.deep_view().len() == deps.len(),
            forall|j: int| 0 <= j < i ==> deps.deep_view()[j].name != name@,
            0 <= dep_key_index(deps.deep_view(), name@) <= deps.deep_view().len(),
            forall|j: int|
                0 <= j < dep_key_index(deps.deep_view(), name@) ==> deps.deep_view()[j].name
                    != name@,
            dep_key_index(deps.deep_view(), name@) < deps.deep_view().len() ==> deps.deep_view()[
                dep_key_index(deps.deep_view(), name@)
            ].name == name@,
        decreases deps.len() - i,
    {
        if str_eq(deps[i].name.as_str(), name) {
            proof {
                assert(deps.deep_view()[i as int] == deps@[i as int]@);
                assert(deps.deep_view()[i as int].name == name@);
            }
            return i;
        }
        proof {
            assert(deps.deep_view()[i as int] == deps@[i as int]@);
        }
        i = i + 1;
    }
    i
}

/// Storing a value under a name keeps the keys of the map distinct.
proof fn lemma_dep_insert_wf(deps: Seq<DependencyView>, name: Seq<char>, version: Seq<char>)
    requires
        deps_wf(deps),
    ensures
        deps_wf(dep_insert(deps, name, version)),
{
    lemma_dep_key_index(deps, name);
}

/// Removing an entry keeps the keys of the map distinct.
proof fn lemma_dep_remove_wf(deps: Seq<DependencyView>, name: Seq<char>)
    requires
        deps_wf(deps),
    ensures
        deps_wf(dep_remove(deps, name)),
{
    lemma_dep_key_index(deps, name);
}

/// Adding a dependency that the map does not hold and then removing it
/// restores the document field for field.
pub proof fn lemma_dependency_round_trip(
    c: CpamConfigView,
    name: Seq<char>,
    version: Option<Seq<char>>,
)
    requires
        c.dependencies is Some,
        !has_dep(c.dependencies->0, name),
    ensures
        config_with_dep_removed(config_with_dep_added(c, name, version), name) == c,
{
    let deps = c.dependencies->0;
    let v = version_or_wildcard(version);
    lemma_dep_key_index(deps, name);
    let inserted = dep_insert(deps, name, v);
    assert(inserted == deps.push(DependencyView { name, version: v }));
    lemma_dep_key_index(inserted, name);
    lemma_key_index_past_prefix(deps, name, v);
    assert(dep_key_index(inserted, name) == deps.len());
    assert(has_dep(inserted, name));
    assert(dep_remove(inserted, name) =~= deps);
    assert(config_with_dep_removed(config_with_dep_added(c, name, version), name) =~= c);
}

/// When no entry of `deps` carries `name`, the first entry of
/// `deps.push(entry(name, v))` carrying it is the pushed one.
proof fn lemma_key_index_past_prefix(deps: Seq<DependencyView>, name: Seq<char>, v: Seq<char>)
    requires
        !has_dep(deps, name),
    ensures
        dep_key_index(deps.push(DependencyView { name, version: v }), name) == deps.len(),
    decreases deps.len(),
{
    let pushed = deps.push(DependencyView { name, version: v });
    lemma_dep_key_index(deps, name);
    if deps.len() == 0 {
        assert(pushed[0].name == name);
    } else {
        assert(pushed[0] == deps[0]);
        lemma_key_index_past_prefix(deps.subrange(1, deps.len() as int), name, v);
        assert(pushed.subrange(1, pushed.len() as int) =~= deps.subrange(
            1,
            deps.len() as int,
        ).push(DependencyView { name, version: v }));
    }
}

} // verus!
