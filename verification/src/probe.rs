//! Probes for an installed library: what is asked of pkg-config and of vcpkg,
//! and what becomes of their answers.
//!
//! A probe runs a tool and reads the machine, so it is not run here. The
//! library prepares the prober, the build script prints the probe's line,
//! runs the prober, and hands the outcome back.

use vstd::prelude::*;
use vstd::string::*;
use std::ops::Bound;
use crate::error::{Error, ErrorKind, ErrorKindView, Prober};
use crate::metadata::{
    PkgConfigRequirement,
    PkgConfigRequirementView,
    PkgConfigVersionReq,
    PkgConfigVersionReqView,
    VcpkgLibNameView,
    VcpkgRequirement,
    VcpkgRequirementView,
};
use crate::signal::{include_line, include_signal, rerun_line, rerun_signal};

verus! {

/// One end of a range of versions.
#[derive(Clone, Copy, Debug)]
pub enum VersionBound<'a> {
    /// The range reaches this version, and holds it.
    Included(&'a str),
    /// The range reaches this version, and does not hold it.
    Excluded(&'a str),
    /// The range has no end on this side.
    Unbounded,
}

/// The mathematical value of a [`VersionBound`].
pub enum VersionBoundView {
    Included(Seq<char>),
    Excluded(Seq<char>),
    Unbounded,
}

impl<'a> View for VersionBound<'a> {
    type V = VersionBoundView;

    open spec fn view(&self) -> VersionBoundView {
        match *self {
            VersionBound::Included(version) => VersionBoundView::Included(version@),
            VersionBound::Excluded(version) => VersionBoundView::Excluded(version@),
            VersionBound::Unbounded => VersionBoundView::Unbounded,
        }
    }
}

/// `pkg_config::Config`, the options of one pkg-config probe. No field of it
/// is read here.
#[verifier::external_type_specification]
#[verifier::external_body]
pub struct ExPkgConfig(pkg_config::Config);

/// The oldest version that a probe with these options accepts: the field
/// `min_version` of `pkg_config::Config`.
pub uninterp spec fn min_version(config: pkg_config::Config) -> VersionBoundView;

/// The newest version that a probe with these options accepts: the field
/// `max_version` of `pkg_config::Config`.
pub uninterp spec fn max_version(config: pkg_config::Config) -> VersionBoundView;

/// `pkg_config::Config::new`: options that accept every version.
#[verifier::external_body]
pub(crate) fn new_pkg_config() -> (config: pkg_config::Config)
    ensures
        min_version(config) == VersionBoundView::Unbounded,
        max_version(config) == VersionBoundView::Unbounded,
{
    pkg_config::Config::new()
}

/// `pkg_config::Config::range_version`: sets both ends of the accepted range,
/// whatever they were.
#[verifier::external_body]
pub(crate) fn range_version(
    config: &mut pkg_config::Config,
    lower: VersionBound,
    upper: VersionBound,
)
    ensures
        min_version(*final(config)) == lower@,
        max_version(*final(config)) == upper@,
{
    let lower = match lower {
        VersionBound::Included(version) => Bound::Included(version),
        VersionBound::Excluded(version) => Bound::Excluded(version),
        VersionBound::Unbounded => Bound::Unbounded,
    };
    let upper = match upper {
        VersionBound::Included(version) => Bound::Included(version),
        VersionBound::Excluded(version) => Bound::Excluded(version),
        VersionBound::Unbounded => Bound::Unbounded,
    };
    config.range_version((lower, upper));
}

/// `pkg_config::Config::exactly_version`: accepts `version` and no other.
#[verifier::external_body]
pub(crate) fn exactly_version(config: &mut pkg_config::Config, version: &str)
    ensures
        min_version(*final(config)) == VersionBoundView::Included(version@),
        max_version(*final(config)) == VersionBoundView::Included(version@),
{
    config.exactly_version(version);
}

/// `vcpkg::Config`, the options of one vcpkg probe. No field of it is read
/// here.
#[verifier::external_type_specification]
#[verifier::external_body]
pub struct ExVcpkgConfig(vcpkg::Config);

/// The libraries that a probe with these options must find, each as the stem
/// of its `.lib` file and the stem of its `.dll` file, in the order in which
/// they were asked for: the fields `required_libs` and `required_dlls` of
/// `vcpkg::Config`, taken together.
pub uninterp spec fn required_names(config: vcpkg::Config) -> Seq<(Seq<char>, Seq<char>)>;

/// Whether a probe with these options declares the include paths that it
/// finds to the build system: the field `emit_includes` of `vcpkg::Config`.
pub uninterp spec fn emits_includes(config: vcpkg::Config) -> bool;

/// `vcpkg::Config::new`: options that ask for no library by name and declare
/// no include path.
#[verifier::external_body]
pub(crate) fn new_vcpkg() -> (config: vcpkg::Config)
    ensures
        required_names(config) == Seq::<(Seq<char>, Seq<char>)>::empty(),
        !emits_includes(config),
{
    vcpkg::Config::new()
}

/// `vcpkg::Config::emit_includes`: sets whether include paths are declared,
/// and leaves the libraries asked for as they are.
#[verifier::external_body]
pub(crate) fn emit_includes(config: &mut vcpkg::Config, emit: bool)
    ensures
        emits_includes(*final(config)) == emit,
        required_names(*final(config)) == required_names(*old(config)),
{
    config.emit_includes(emit);
}

/// `vcpkg::Config::lib_names`: asks for one more library, after those asked
/// for before, and leaves the rest as it is.
#[verifier::external_body]
pub(crate) fn lib_names(config: &mut vcpkg::Config, lib_stem: &str, dll_stem: &str)
    ensures
        required_names(*final(config)) == required_names(*old(config)).push(
            (lib_stem@, dll_stem@),
        ),
        emits_includes(*final(config)) == emits_includes(*old(config)),
{
    config.lib_names(lib_stem, dll_stem);
}

/// The oldest version that meets a requirement.
pub open spec fn lower_bound(version_req: Option<PkgConfigVersionReqView>) -> VersionBoundView {
    match version_req {
        Some(PkgConfigVersionReqView::Range { min, max }) => VersionBoundView::Included(min),
        Some(PkgConfigVersionReqView::Min { min }) => VersionBoundView::Included(min),
        Some(PkgConfigVersionReqView::Max { max }) => VersionBoundView::Unbounded,
        Some(PkgConfigVersionReqView::Exact { exact }) => VersionBoundView::Included(exact),
        None => VersionBoundView::Unbounded,
    }
}

/// The newest version that meets a requirement.
pub open spec fn upper_bound(version_req: Option<PkgConfigVersionReqView>) -> VersionBoundView {
    match version_req {
        Some(PkgConfigVersionReqView::Range { min, max }) => VersionBoundView::Excluded(max),
        Some(PkgConfigVersionReqView::Min { min }) => VersionBoundView::Unbounded,
        Some(PkgConfigVersionReqView::Max { max }) => VersionBoundView::Included(max),
        Some(PkgConfigVersionReqView::Exact { exact }) => VersionBoundView::Included(exact),
        None => VersionBoundView::Unbounded,
    }
}

/// A pkg-config probe that is ready to run.
pub struct PkgConfigProbe {
    /// The line to print before the probe runs, whatever comes of it.
    pub rerun_signal: String,
    /// The library to probe for.
    pub name: String,
    /// The prober, with the accepted versions set.
    pub config: pkg_config::Config,
}

impl PkgConfigProbe {
    /// Whether this is the probe that a requirement asks for.
    pub open spec fn is_for(&self, requirement: PkgConfigRequirementView) -> bool {
        &&& self.rerun_signal@ == rerun_line(requirement.name)
        &&& self.name@ == requirement.name
        &&& min_version(self.config) == lower_bound(requirement.version_req)
        &&& max_version(self.config) == upper_bound(requirement.version_req)
    }
}

/// Prepares the pkg-config probe for a requirement: the library by its name
/// as declared, a range that is half open for `Range`, open on one side for
/// `Min` and `Max`, one version for `Exact`, and every version where none is
/// required.
pub fn try_pkg_config(requirement: &PkgConfigRequirement) -> (probe: PkgConfigProbe)
    ensures
        probe.is_for(requirement@),
{
    let rerun = rerun_signal(requirement.name.as_str());
    let mut config = new_pkg_config();
    match &requirement.version_req {
        Some(PkgConfigVersionReq::Range { min, max }) => {
            range_version(
                &mut config,
                VersionBound::Included(min.as_str()),
                VersionBound::Excluded(max.as_str()),
            );
        },
        Some(PkgConfigVersionReq::Min { min }) => {
            range_version(
                &mut config,
                VersionBound::Included(min.as_str()),
                VersionBound::Unbounded,
            );
        },
        Some(PkgConfigVersionReq::Max { max }) => {
            range_version(
                &mut config,
                VersionBound::Unbounded,
                VersionBound::Included(max.as_str()),
            );
        },
        Some(PkgConfigVersionReq::Exact { exact }) => {
            exactly_version(&mut config, exact.as_str());
        },
        None => {},
    }
    PkgConfigProbe { rerun_signal: rerun, name: requirement.name.clone(), config }
}

/// The libraries that a requirement names, as a vcpkg probe is asked for
/// them.
pub open spec fn names_of(libs: Seq<VcpkgLibNameView>) -> Seq<(Seq<char>, Seq<char>)> {
    Seq::new(libs.len(), |i: int| (libs[i].lib_name, libs[i].dll_name))
}

/// A vcpkg probe that is ready to run.
pub struct VcpkgProbe {
    /// The line to print before the probe runs, whatever comes of it.
    pub rerun_signal: String,
    /// The package to probe for.
    pub name: String,
    /// The prober, with the libraries to look for set.
    pub config: vcpkg::Config,
}

impl VcpkgProbe {
    /// Whether this is the probe that a requirement asks for.
    pub open spec fn is_for(&self, requirement: VcpkgRequirementView) -> bool {
        &&& self.rerun_signal@ == rerun_line(requirement.name)
        &&& self.name@ == requirement.name
        &&& emits_includes(self.config)
        &&& required_names(self.config) == names_of(requirement.libs)
    }
}

/// Prepares the vcpkg probe for a requirement: the package by its name, include
/// paths declared, and each library of the requirement asked for under its
/// own file names, in the order of the declaration.
pub fn try_vcpkg(requirement: &VcpkgRequirement) -> (probe: VcpkgProbe)
    ensures
        probe.is_for(requirement@),
{
    let rerun = rerun_signal(requirement.name.as_str());
    let mut config = new_vcpkg();
    emit_includes(&mut config, true);
    let mut i: usize = 0;
    while i < requirement.libs.len()
        invariant
            i <= requirement.libs@.len(),
            emits_includes(config),
            required_names(config) == names_of(requirement@.libs).take(i as int),
        decreases requirement.libs@.len() - i,
    {
        let lib = &requirement.libs[i];
        lib_names(&mut config, lib.lib_name.as_str(), lib.dll_name.as_str());
        proof {
            let all = names_of(requirement@.libs);
            assert(all.take(i + 1) == all.take(i as int).push(all[i as int]));
        }
        i += 1;
    }
    proof {
        let all = names_of(requirement@.libs);
        assert(all.take(all.len() as int) == all);
    }
    VcpkgProbe { rerun_signal: rerun, name: requirement.name.clone(), config }
}

/// The lines that declare the include paths of a library that was found.
pub open spec fn include_lines(paths: Seq<String>) -> Seq<Seq<char>> {
    Seq::new(paths.len(), |i: int| include_line(paths[i]@))
}

/// What a pkg-config probe comes to. `outcome` is what the prober answered:
/// the include paths of the library that it found, or its words on why it
/// found none. A library that was found gives one line for the build system
/// for each include path, in the order of the paths; a failure is handed on
/// as the failure of this prober, in its words.
pub fn conclude_pkg_config(outcome: Result<Vec<String>, String>) -> (result: Result<
    Vec<String>,
    Error,
>)
    ensures
        match outcome {
            Ok(paths) => result matches Ok(lines) && lines@.len() == paths@.len() && (forall|
                i: int,
            |
                0 <= i < paths@.len() ==> (#[trigger] lines@[i])@ == include_line(paths@[i]@)),
            Err(details) => result matches Err(error) && error@ == ErrorKindView::ProbeFailed(
                Prober::PkgConfig,
                details@,
            ),
        },
{
    match outcome {
        Ok(paths) => {
            let mut lines: Vec<String> = Vec::new();
            let mut i: usize = 0;
            while i < paths.len()
                invariant
                    i <= paths@.len(),
                    lines@.len() == i,
                    forall|j: int|
                        0 <= j < i ==> (#[trigger] lines@[j])@ == include_line(paths@[j]@),
                decreases paths@.len() - i,
            {
                lines.push(include_signal(paths[i].as_str()));
                i += 1;
            }
            Ok(lines)
        },
        Err(details) => Err(Error(ErrorKind::ProbeFailed(Prober::PkgConfig, details))),
    }
}

/// What a vcpkg probe comes to. `outcome` is what the prober answered: that
/// it found the library, or its words on why it did not. A failure is handed
/// on as the failure of this prober, in its words.
pub fn conclude_vcpkg(outcome: Result<(), String>) -> (result: Result<(), Error>)
    ensures
        match outcome {
            Ok(_) => result is Ok,
            Err(details) => result matches Err(error) && error@ == ErrorKindView::ProbeFailed(
                Prober::Vcpkg,
                details@,
            ),
        },
{
    match outcome {
        Ok(found) => Ok(found),
        Err(details) => Err(Error(ErrorKind::ProbeFailed(Prober::Vcpkg, details))),
    }
}

} // verus!
