//! The executable-location resolver: predicts the primary and
//! fallback locations of the binary a finished build produced, across
//! the layout conventions of the different build-system generators,
//! and probes the filesystem for them in a fixed order.

use vstd::prelude::*;

use crate::generator::flat_generator;
use crate::generator::ide_generator;
use crate::generator::is_flat_generator;
use crate::generator::is_ide_generator;
use crate::platform::exe_suffix;
use crate::platform::Platform;
use crate::strings::str_eq;
use vstd::string::StringExecFns;

verus! {

/// `{buildDir}/{name}{suffix}`: the layout of generators that place
/// the executable directly in the build directory.
pub open spec fn flat_path(bd: Seq<char>, name: Seq<char>, suf: Seq<char>) -> Seq<char> {
    bd + "/"@ + name + suf
}

/// `{buildDir}/{cfg}/{name}{suffix}`: the layout of multi-configuration
/// generators, under a configuration-name subdirectory.
pub open spec fn cfg_path(bd: Seq<char>, cfg: Seq<char>, name: Seq<char>, suf: Seq<char>) -> Seq<
    char,
> {
    bd + "/"@ + cfg + "/"@ + name + suf
}

/// `{buildDir}/{name}/{cfg}/{name}{suffix}`: a deeper layout some IDE
/// toolchains use, with a per-target directory above the
/// configuration directory.
pub open spec fn nested_cfg_path(
    bd: Seq<char>,
    name: Seq<char>,
    cfg: Seq<char>,
    suf: Seq<char>,
) -> Seq<char> {
    bd + "/"@ + name + "/"@ + cfg + "/"@ + name + suf
}

/// The configuration-name directory the release flag selects.
pub open spec fn config_name(release: bool) -> Seq<char> {
    if release {
        "Release"@
    } else {
        "Debug"@
    }
}

/// The primary predicted path. Generators of the Make family and
/// Ninja, checked first, and every unrecognized generator place the
/// executable directly in the build directory; IDE-project-style
/// generators place it under the configuration-name subdirectory.
pub open spec fn primary_path(
    bd: Seq<char>,
    name: Seq<char>,
    gen: Seq<char>,
    release: bool,
    plat: Platform,
) -> Seq<char> {
    if is_flat_generator(gen) {
        flat_path(bd, name, exe_suffix(plat))
    } else if is_ide_generator(gen) {
        cfg_path(bd, config_name(release), name, exe_suffix(plat))
    } else {
        flat_path(bd, name, exe_suffix(plat))
    }
}

/// The fixed, ordered fallback candidate list for the platform.
pub open spec fn fallback_paths(bd: Seq<char>, name: Seq<char>, plat: Platform) -> Seq<Seq<char>> {
    let suf = exe_suffix(plat);
    if plat is Windows {
        seq![
            flat_path(bd, name, suf),
            cfg_path(bd, "Debug"@, name, suf),
            cfg_path(bd, "Release"@, name, suf),
            nested_cfg_path(bd, name, "Debug"@, suf),
            nested_cfg_path(bd, name, "Release"@, suf),
        ]
    } else {
        seq![
            flat_path(bd, name, suf),
            cfg_path(bd, "Debug"@, name, suf),
            cfg_path(bd, "Release"@, name, suf),
        ]
    }
}

/// `s` with every later repetition of an earlier element dropped:
/// each value keeps its first occurrence only.
pub open spec fn dedup_first(s: Seq<Seq<char>>) -> Seq<Seq<char>>
    decreases s.len(),
{
    if s.len() == 0 {
        Seq::empty()
    } else {
        let front = dedup_first(s.drop_last());
        if front.contains(s.last()) {
            front
        } else {
            front.push(s.last())
        }
    }
}

/// The full ordered probe list: the primary path first, then the
/// fallbacks, with repetitions dropped.
pub open spec fn candidate_paths(
    bd: Seq<char>,
    name: Seq<char>,
    gen: Seq<char>,
    release: bool,
    plat: Platform,
) -> Seq<Seq<char>> {
    dedup_first(seq![primary_path(bd, name, gen, release, plat)] + fallback_paths(bd, name, plat))
}

/// Deduplication keeps exactly the values of its input, keeps the
/// head in place, and leaves no duplicates.
pub proof fn lemma_dedup_first_props(s: Seq<Seq<char>>)
    ensures
        forall|x: Seq<char>| dedup_first(s).contains(x) <==> s.contains(x),
        forall|i: int, j: int|
            0 <= i < j < dedup_first(s).len() ==> dedup_first(s)[i] != dedup_first(s)[j],
        s.len() > 0 ==> dedup_first(s).len() > 0 && dedup_first(s)[0] == s[0],
    decreases s.len(),
{
    if s.len() > 0 {
        let pre = s.drop_last();
        lemma_dedup_first_props(pre);
        let front = dedup_first(pre);
        let d = dedup_first(s);
        assert forall|x: Seq<char>| d.contains(x) implies s.contains(x) by {
            let i = choose|i: int| 0 <= i < d.len() && d[i] == x;
            if front.contains(s.last()) {
                assert(d == front);
                assert(front.contains(x));
            } else if i < front.len() {
                assert(front[i] == x);
                assert(front.contains(x));
            } else {
                assert(x == s.last());
            }
            if front.contains(x) {
                assert(pre.contains(x));
                let k = choose|k: int| 0 <= k < pre.len() && pre[k] == x;
                assert(s[k] == x);
            } else {
                assert(x == s.last());
                assert(s[s.len() - 1] == x);
            }
        }
        assert forall|x: Seq<char>| s.contains(x) implies d.contains(x) by {
            let i = choose|i: int| 0 <= i < s.len() && s[i] == x;
            if i < s.len() - 1 {
                assert(pre[i] == x);
                assert(pre.contains(x));
                assert(front.contains(x));
                if !front.contains(s.last()) {
                    let j = choose|j: int| 0 <= j < front.len() && front[j] == x;
                    assert(d[j] == x);
                }
            } else {
                assert(x == s.last());
                if front.contains(x) {
                } else {
                    assert(d[d.len() - 1] == x);
                }
            }
        }
        if !front.contains(s.last()) {
            assert forall|i: int, j: int| 0 <= i < j < d.len() implies d[i] != d[j] by {
                if j < d.len() - 1 {
                    assert(d[i] == front[i] && d[j] == front[j]);
                } else {
                    assert(d[j] == s.last());
                    assert(d[i] == front[i]);
                    assert(front.contains(front[i]));
                    assert(!pre.contains(s.last()) ==> front[i] != s.last()) by {
                        if front[i] == s.last() {
                            assert(pre.contains(s.last()));
                        }
                    }
                    if pre.contains(s.last()) {
                        assert(front.contains(s.last()));
                    }
                }
            }
        }
        if s.len() > 0 {
            if pre.len() > 0 {
                assert(d[0] == front[0]);
            } else {
                assert(front.len() == 0);
                assert(d[0] == s.last());
                assert(s[0] == s.last());
            }
        }
    }
}

/// The index of the first candidate that the filesystem, modelled as
/// the set `fs` of existing paths, holds.
pub open spec fn first_present(cands: Seq<Seq<char>>, fs: Set<Seq<char>>) -> Option<int>
    decreases cands.len(),
{
    if cands.len() == 0 {
        None
    } else if fs.contains(cands[0]) {
        Some(0int)
    } else {
        match first_present(cands.subrange(1, cands.len() as int), fs) {
            Some(i) => Some(i + 1),
            None => None,
        }
    }
}

/// `first_present` points at the first present candidate, and answers
/// `None` exactly when none is present.
pub proof fn lemma_first_present(cands: Seq<Seq<char>>, fs: Set<Seq<char>>)
    ensures
        match first_present(cands, fs) {
            Some(i) => 0 <= i < cands.len() && fs.contains(cands[i]) && forall|j: int|
                0 <= j < i ==> !fs.contains(cands[j]),
            None => forall|j: int| 0 <= j < cands.len() ==> !fs.contains(cands[j]),
        },
    decreases cands.len(),
{
    if cands.len() > 0 && !fs.contains(cands[0]) {
        let sub = cands.subrange(1, cands.len() as int);
        lemma_first_present(sub, fs);
        assert(forall|j: int| 0 <= j < sub.len() ==> sub[j] == cands[j + 1]);
        if first_present(sub, fs) is Some {
            let i = first_present(sub, fs)->0;
            assert(first_present(cands, fs) == Some(i + 1));
            assert(fs.contains(sub[i]));
            assert(sub[i] == cands[i + 1]);
            assert forall|j: int| 0 <= j < i + 1 implies !fs.contains(cands[j]) by {
                if j > 0 {
                    assert(sub[j - 1] == cands[j]);
                    assert(!fs.contains(sub[j - 1]));
                }
            }
        } else {
            assert forall|j: int| 0 <= j < cands.len() implies !fs.contains(cands[j]) by {
                if j > 0 {
                    assert(sub[j - 1] == cands[j]);
                }
            }
        }
    }
}

/// Resolution is deterministic: equal inputs and an equal filesystem
/// state give the same probe list and the same outcome.
pub proof fn lemma_resolution_deterministic(
    bd1: Seq<char>,
    name1: Seq<char>,
    gen1: Seq<char>,
    release1: bool,
    plat1: Platform,
    fs1: Set<Seq<char>>,
    bd2: Seq<char>,
    name2: Seq<char>,
    gen2: Seq<char>,
    release2: bool,
    plat2: Platform,
    fs2: Set<Seq<char>>,
)
    requires
        bd1 == bd2,
        name1 == name2,
        gen1 == gen2,
        release1 == release2,
        plat1 == plat2,
        fs1 == fs2,
    ensures
        candidate_paths(bd1, name1, gen1, release1, plat1) == candidate_paths(
            bd2,
            name2,
            gen2,
            release2,
            plat2,
        ),
        first_present(candidate_paths(bd1, name1, gen1, release1, plat1), fs1) == first_present(
            candidate_paths(bd2, name2, gen2, release2, plat2),
            fs2,
        ),
{
}

/// When the filesystem holds the primary path, resolution stops at
/// probe zero: the primary path heads the probe list and is the one
/// returned, so no fallback is consulted.
pub proof fn lemma_primary_hit_resolves_first(
    bd: Seq<char>,
    name: Seq<char>,
    gen: Seq<char>,
    release: bool,
    plat: Platform,
    fs: Set<Seq<char>>,
)
    requires
        fs.contains(primary_path(bd, name, gen, release, plat)),
    ensures
        candidate_paths(bd, name, gen, release, plat).len() > 0,
        candidate_paths(bd, name, gen, release, plat)[0] == primary_path(
            bd,
            name,
            gen,
            release,
            plat,
        ),
        first_present(candidate_paths(bd, name, gen, release, plat), fs) == Some(0int),
{
    let all = seq![primary_path(bd, name, gen, release, plat)] + fallback_paths(bd, name, plat);
    lemma_dedup_first_props(all);
    assert(all[0] == primary_path(bd, name, gen, release, plat));
}

/// When no candidate is present, resolution fails, and the probe list
/// it reports holds the primary path and every fallback, in probe
/// order, with no omissions and no duplicates.
pub proof fn lemma_failure_reports_all_probes(
    bd: Seq<char>,
    name: Seq<char>,
    gen: Seq<char>,
    release: bool,
    plat: Platform,
    fs: Set<Seq<char>>,
)
    requires
        forall|j: int|
            0 <= j < candidate_paths(bd, name, gen, release, plat).len() ==> !fs.contains(
                candidate_paths(bd, name, gen, release, plat)[j],
            ),
    ensures
        first_present(candidate_paths(bd, name, gen, release, plat), fs) is None,
        forall|x: Seq<char>|
            candidate_paths(bd, name, gen, release, plat).contains(x) <==> (x == primary_path(
                bd,
                name,
                gen,
                release,
                plat,
            ) || fallback_paths(bd, name, plat).contains(x)),
        forall|i: int, j: int|
            0 <= i < j < candidate_paths(bd, name, gen, release, plat).len() ==> candidate_paths(
                bd,
                name,
                gen,
                release,
                plat,
            )[i] != candidate_paths(bd, name, gen, release, plat)[j],
{
    let primary = primary_path(bd, name, gen, release, plat);
    let falls = fallback_paths(bd, name, plat);
    let all = seq![primary] + falls;
    let cands = candidate_paths(bd, name, gen, release, plat);
    lemma_dedup_first_props(all);
    lemma_first_present(cands, fs);
    if first_present(cands, fs) is Some {
        let i = first_present(cands, fs)->0;
        assert(!fs.contains(cands[i]));
    }
    assert forall|x: Seq<char>| cands.contains(x) implies (x == primary || falls.contains(x)) by {
        assert(all.contains(x));
        let i = choose|i: int| 0 <= i < all.len() && all[i] == x;
        if i > 0 {
            assert(falls[i - 1] == x);
        }
    }
    assert forall|x: Seq<char>| (x == primary || falls.contains(x)) implies cands.contains(x) by {
        if x == primary {
            assert(all[0] == x);
        } else {
            let i = choose|i: int| 0 <= i < falls.len() && falls[i] == x;
            assert(all[i + 1] == x);
        }
        assert(all.contains(x));
    }
}

/// Builds `{bd}/{name}{suf}`.
fn build_flat(bd: &str, name: &str, suf: &str) -> (r: String)
    ensures
        r@ == flat_path(bd@, name@, suf@),
{
    let mut s = String::from_str(bd);
    s.append("/");
    s.append(name);
    s.append(suf);
    s
}

/// Builds `{bd}/{cfg}/{name}{suf}`.
fn build_cfg(bd: &str, cfg: &str, name: &str, suf: &str) -> (r: String)
    ensures
        r@ == cfg_path(bd@, cfg@, name@, suf@),
{
    let mut s = String::from_str(bd);
    s.append("/");
    s.append(cfg);
    s.append("/");
    s.append(name);
    s.append(suf);
    s
}

/// Builds `{bd}/{name}/{cfg}/{name}{suf}`.
fn build_nested(bd: &str, name: &str, cfg: &str, suf: &str) -> (r: String)
    ensures
        r@ == nested_cfg_path(bd@, name@, cfg@, suf@),
{
    let mut s = String::from_str(bd);
    s.append("/");
    s.append(name);
    s.append("/");
    s.append(cfg);
    s.append("/");
    s.append(name);
    s.append(suf);
    s
}

/// The configuration-name directory as a runtime string.
fn config_dir_name(release: bool) -> (r: &'static str)
    ensures
        r@ == config_name(release),
{
    if release {
        "Release"
    } else {
        "Debug"
    }
}

/// Predicts the primary path of the executable a build produced,
/// given the build directory, the project name, the generator that
/// configured the build, and the build mode.
pub fn get_executable_path(
    build_dir: &str,
    project_name: &str,
    generator: &str,
    is_release: bool,
    plat: Platform,
) -> (r: String)
    ensures
        r@ == primary_path(build_dir@, project_name@, generator@, is_release, plat),
{
    let suf = plat.executable_suffix();
    if flat_generator(generator) {
        build_flat(build_dir, project_name, suf)
    } else if ide_generator(generator) {
        build_cfg(build_dir, config_dir_name(is_release), project_name, suf)
    } else {
        build_flat(build_dir, project_name, suf)
    }
}

/// The fixed, ordered list of fallback locations probed after the
/// primary path misses. The build mode plays no part: both
/// configuration directories are probed either way.
pub fn get_alternative_executable_paths(
    build_dir: &str,
    project_name: &str,
    _is_release: bool,
    plat: Platform,
) -> (r: Vec<String>)
    ensures
        r.deep_view() == fallback_paths(build_dir@, project_name@, plat),
{
    let suf = plat.executable_suffix();
    let mut paths: Vec<String> = Vec::new();
    paths.push(build_flat(build_dir, project_name, suf));
    paths.push(build_cfg(build_dir, "Debug", project_name, suf));
    paths.push(build_cfg(build_dir, "Release", project_name, suf));
    if plat.is_windows() {
        paths.push(build_nested(build_dir, project_name, "Debug", suf));
        paths.push(build_nested(build_dir, project_name, "Release", suf));
    }
    proof {
        assert(paths.deep_view() =~~= fallback_paths(build_dir@, project_name@, plat));
    }
    paths
}

/// Whether some entry of `v` is the string `s`.
fn contains_string(v: &Vec<String>, s: &str) -> (r: bool)
    ensures
        r == v.deep_view().contains(s@),
{
    let mut i: usize = 0;
    while i < v.len()
        invariant
            i <= v@.len(),
            forall|j: int| 0 <= j < i ==> v.deep_view()[j] != s@,
        decreases v@.len() - i,
    {
        if str_eq(v[i].as_str(), s) {
            proof {
                assert(v.deep_view()[i as int] == v@[i as int]@);
                assert(v.deep_view().contains(s@));
            }
            return true;
        }
        proof {
            assert(v.deep_view()[i as int] == v@[i as int]@);
        }
        i = i + 1;
    }
    false
}

/// The full ordered probe list for the given inputs: the primary
/// path, then the fallbacks, with repetitions dropped so that no
/// location is probed twice.
pub fn executable_candidates(
    build_dir: &str,
    project_name: &str,
    generator: &str,
    is_release: bool,
    plat: Platform,
) -> (r: Vec<String>)
    ensures
        r.deep_view() == candidate_paths(build_dir@, project_name@, generator@, is_release, plat),
{
    let primary = get_executable_path(build_dir, project_name, generator, is_release, plat);
    let falls = get_alternative_executable_paths(build_dir, project_name, is_release, plat);
    let ghost all = seq![primary@] + falls.deep_view();
    let mut out: Vec<String> = Vec::new();
    out.push(primary);
    proof {
        let s1 = all.subrange(0, 1);
        assert(all[0] == primary@);
        assert(s1.len() == 1);
        assert(s1.drop_last() =~= Seq::<Seq<char>>::empty());
        assert(dedup_first(s1.drop_last()) =~= Seq::<Seq<char>>::empty());
        assert(!dedup_first(s1.drop_last()).contains(s1.last()));
        assert(dedup_first(s1) =~= Seq::<Seq<char>>::empty().push(s1.last()));
        assert(out.deep_view() =~~= dedup_first(s1));
    }
    let mut i: usize = 0;
    while i < falls.len()
        invariant
            i <= falls.deep_view().len(),
            falls@.len() == falls.deep_view().len(),
            all == seq![all[0]] + falls.deep_view(),
            all.len() == 1 + falls.deep_view().len(),
            out.deep_view() == dedup_first(all.subrange(0, 1 + i)),
        decreases falls@.len() - i,
    {
        let ghost prefix = all.subrange(0, 1 + i);
        let ghost longer = all.subrange(0, 2 + i);
        proof {
            assert(longer.drop_last() =~= prefix);
            assert(longer.last() == falls.deep_view()[i as int]);
            assert(falls.deep_view()[i as int] == falls@[i as int]@);
        }
        if !contains_string(&out, falls[i].as_str()) {
            out.push(falls[i].clone());
            proof {
                assert(out.deep_view() =~~= dedup_first(longer));
            }
        } else {
            proof {
                assert(out.deep_view() =~~= dedup_first(longer));
            }
        }
        i = i + 1;
    }
    proof {
        assert(all.subrange(0, all.len() as int) =~= all);
    }
    out
}

/// Relies on `std::path::Path::exists` to probe the filesystem for
/// the given path. The outcome depends on the state of the disk, so
/// nothing is promised of it.
#[verifier::external_body]
fn path_exists(p: &str) -> (r: bool) {
    std::path::Path::new(p).exists()
}

/// Probes the candidate locations in order and returns the first one
/// the filesystem holds; when none exists, reports the full ordered
/// probe list.
pub fn resolve_executable(
    build_dir: &str,
    project_name: &str,
    generator: &str,
    is_release: bool,
    plat: Platform,
) -> (r: Result<String, Vec<String>>)
    ensures
        match r {
            Ok(p) => candidate_paths(
                build_dir@,
                project_name@,
                generator@,
                is_release,
                plat,
            ).contains(p@),
            Err(probed) => probed.deep_view() == candidate_paths(
                build_dir@,
                project_name@,
                generator@,
                is_release,
                plat,
            ),
        },
{
    let cands = executable_candidates(build_dir, project_name, generator, is_release, plat);
    let mut i: usize = 0;
    while i < cands.len()
        invariant
            i <= cands@.len(),
            cands@.len() == cands.deep_view().len(),
            cands.deep_view() == candidate_paths(
                build_dir@,
                project_name@,
                generator@,
                is_release,
                plat,
            ),
        decreases cands@.len() - i,
    {
        if path_exists(cands[i].as_str()) {
            let found = cands[i].clone();
            proof {
                assert(cands.deep_view()[i as int] == cands@[i as int]@);
                assert(cands.deep_view().contains(found@));
            }
            return Ok(found);
        }
        i = i + 1;
    }
    Err(cands)
}

/// The first index whose presence flag is set: the pure decision at
/// the heart of the probe loop, taking the outcome of each existence
/// check as an argument.
pub fn pick_first_existing(paths: &Vec<String>, present: &Vec<bool>) -> (r: Option<usize>)
    requires
        paths@.len() == present@.len(),
    ensures
        match r {
            Some(i) => i < paths@.len() && present@[i as int] && forall|j: int|
                0 <= j < i ==> !present@[j],
            None => forall|j: int| 0 <= j < paths@.len() ==> !present@[j],
        },
{
    let mut i: usize = 0;
    while i < present.len()
        invariant
            paths@.len() == present@.len(),
            i <= present@.len(),
            forall|j: int| 0 <= j < i ==> !present@[j],
        decreases present@.len() - i,
    {
        if present[i] {
            return Some(i);
        }
        i = i + 1;
    }
    None
}

} // verus!
