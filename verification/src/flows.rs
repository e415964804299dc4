//! Assembly of the external build-toolchain invocations: the exact,
//! ordered argument lists of the configure and build steps that the
//! build and run flows hand to the external generator driver.

use vstd::prelude::*;

use crate::config::spec_source_dir;
use crate::config::CpamConfig;
use crate::config::CpamConfigView;
use vstd::string::StringExecFns;

verus! {

/// The build-type define selected by the release flag.
pub open spec fn build_type_flag(release: bool) -> Seq<char> {
    if release {
        "-DCMAKE_BUILD_TYPE=Release"@
    } else {
        "-DCMAKE_BUILD_TYPE=Debug"@
    }
}

/// The extra flags the document asks to pass to the generator
/// invocation, in stored order; empty when absent.
pub open spec fn config_options(c: CpamConfigView) -> Seq<Seq<char>> {
    if c.build is Some && c.build->0.options is Some {
        c.build->0.options->0
    } else {
        Seq::empty()
    }
}

/// The ordered argument list of the configure invocation: source and
/// build directories, the generator, the build type, then every
/// stored extra option verbatim and in order.
pub open spec fn configure_args(
    source_dir: Seq<char>,
    build_dir: Seq<char>,
    generator: Seq<char>,
    release: bool,
    options: Seq<Seq<char>>,
) -> Seq<Seq<char>> {
    seq!["-S"@, source_dir, "-B"@, build_dir, "-G"@, generator, build_type_flag(release)] + options
}

/// The ordered argument list of the build invocation.
pub open spec fn build_step_args(build_dir: Seq<char>, release: bool) -> Seq<Seq<char>> {
    seq![
        "--build"@,
        build_dir,
        "--config"@,
        if release {
            "Release"@
        } else {
            "Debug"@
        },
    ]
}

/// Assembles the argument list of the configure invocation from the
/// document, the chosen build directory, the resolved generator and
/// the build mode.
pub fn cmake_configure_args(
    config: &CpamConfig,
    build_dir: &str,
    generator: &str,
    release: bool,
) -> (r: Vec<String>)
    ensures
        r.deep_view() == configure_args(
            spec_source_dir(config@),
            build_dir@,
            generator@,
            release,
            config_options(config@),
        ),
{
    let ghost head = seq![
        "-S"@,
        spec_source_dir(config@),
        "-B"@,
        build_dir@,
        "-G"@,
        generator@,
        build_type_flag(release),
    ];
    let source_dir = config.effective_source_dir();
    let mut args: Vec<String> = Vec::new();
    args.push(String::from_str("-S"));
    args.push(source_dir);
    args.push(String::from_str("-B"));
    args.push(String::from_str(build_dir));
    args.push(String::from_str("-G"));
    args.push(String::from_str(generator));
    if release {
        args.push(String::from_str("-DCMAKE_BUILD_TYPE=Release"));
    } else {
        args.push(String::from_str("-DCMAKE_BUILD_TYPE=Debug"));
    }
    proof {
        assert(args.deep_view() =~~= head);
    }
    if let Some(build) = &config.build {
        if let Some(options) = &build.options {
            let mut i: usize = 0;
            while i < options.len()
                invariant
                    i <= options@.len(),
                    options@.len() == options.deep_view().len(),
                    options.deep_view() == config_options(config@),
                    args.deep_view() == head + options.deep_view().subrange(0, i as int),
                decreases options@.len() - i,
            {
                let ghost before = args.deep_view();
                let item = options[i].clone();
                proof {
                    assert(options.deep_view()[i as int] == options@[i as int]@);
                    assert(item@ == options.deep_view()[i as int]);
                }
                args.push(item);
                proof {
                    assert(args.deep_view() =~~= before.push(options.deep_view()[i as int]));
                    assert(options.deep_view().subrange(0, i + 1) =~= options.deep_view().subrange(
                        0,
                        i as int,
                    ).push(options.deep_view()[i as int]));
                    assert(args.deep_view() =~~= head + options.deep_view().subrange(0, i + 1));
                }
                i = i + 1;
            }
            proof {
                assert(options.deep_view().subrange(0, options.deep_view().len() as int)
                    =~= options.deep_view());
            }
            return args;
        }
    }
    proof {
        assert(config_options(config@) =~= Seq::<Seq<char>>::empty());
        assert(args.deep_view() =~~= head + config_options(config@));
    }
    args
}

/// Assembles the argument list of the build invocation.
pub fn cmake_build_args(build_dir: &str, release: bool) -> (r: Vec<String>)
    ensures
        r.deep_view() == build_step_args(build_dir@, release),
{
    let mut args: Vec<String> = Vec::new();
    args.push(String::from_str("--build"));
    args.push(String::from_str(build_dir));
    args.push(String::from_str("--config"));
    if release {
        args.push(String::from_str("Release"));
    } else {
        args.push(String::from_str("Debug"));
    }
    proof {
        assert(args.deep_view() =~~= build_step_args(build_dir@, release));
    }
    args
}

} // verus!
